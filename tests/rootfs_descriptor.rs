use microsandbox_monitor::rootfs::Rootfs;

#[test]
fn native_descriptor() {
    let r = Rootfs::Native("/a".to_string());
    assert_eq!(r.to_descriptor(), "native:/a");
}

#[test]
fn overlayfs_descriptor_keeps_layer_order() {
    let r = Rootfs::Overlayfs(vec!["/a".to_string(), "/b".to_string()]);
    assert_eq!(r.to_descriptor(), "overlayfs:/a:/b");
    let r = Rootfs::Overlayfs(vec!["/b".to_string(), "/a".to_string()]);
    assert_eq!(r.to_descriptor(), "overlayfs:/b:/a");
}

#[test]
fn overlayfs_single_layer() {
    let r = Rootfs::Overlayfs(vec!["/layers/base".to_string()]);
    assert_eq!(r.to_descriptor(), "overlayfs:/layers/base");
}

#[test]
fn overlayfs_three_layers() {
    let r = Rootfs::Overlayfs(vec!["/x".to_string(), "/y".to_string(), "/z".to_string()]);
    assert_eq!(r.to_descriptor(), "overlayfs:/x:/y:/z");
}
