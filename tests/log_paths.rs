use microsandbox_monitor::log_path::{generate_log_dir, generate_log_path, LOG_SUFFIX};

#[test]
fn log_path_is_namespaced_by_config_file() {
    let p = generate_log_path("/var/log/msb", "Sandboxfile", "app", LOG_SUFFIX);
    assert_eq!(p, "/var/log/msb/Sandboxfile/app.log");
}

#[test]
fn log_dir_with_trailing_separator() {
    let p = generate_log_path("/var/log/msb/", "Sandboxfile", "app", "log");
    assert_eq!(p, "/var/log/msb/Sandboxfile/app.log");
    assert_eq!(generate_log_dir("/var/log/msb/", "Sandboxfile"), "/var/log/msb/Sandboxfile");
}

#[test]
fn log_dir_is_parent_of_log_path() {
    let d = generate_log_dir("/logs", "cfg.yaml");
    let p = generate_log_path("/logs", "cfg.yaml", "web", "log");
    assert_eq!(d, "/logs/cfg.yaml");
    assert_eq!(p, format!("{}/web.log", d));
}

#[test]
fn distinct_pairs_give_distinct_paths() {
    let pairs = [("a", "x"), ("a", "y"), ("b", "x"), ("ab", "x"), ("a", "bx")];
    let paths: Vec<String> = pairs
        .iter()
        .map(|(c, n)| generate_log_path("/logs", c, n, "log"))
        .collect();
    for i in 0..paths.len() {
        for j in 0..paths.len() {
            if i != j {
                assert_ne!(paths[i], paths[j]);
            }
        }
    }
}

#[test]
fn log_path_is_deterministic() {
    let a = generate_log_path("/logs", "Sandboxfile", "app", "log");
    let b = generate_log_path("/logs", "Sandboxfile", "app", "log");
    assert_eq!(a, b);
}

#[test]
fn empty_log_dir() {
    assert_eq!(generate_log_path("", "cfg", "n", "log"), "cfg/n.log");
}
