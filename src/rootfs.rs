use vstd::prelude::*;

verus! {

/// The root filesystem strategy of a sandbox.
pub enum Rootfs {
    /// A single native directory.
    Native(String),
    /// A layered overlay of directories, lowest layer first.
    Overlayfs(Vec<String>),
}

/// The views of a list of strings.
pub open spec fn views(v: Seq<String>) -> Seq<Seq<char>> {
    v.map_values(|s: String| s@)
}

/// The parts joined with `:` between each two neighbours.
pub open spec fn join_colon(parts: Seq<Seq<char>>) -> Seq<char>
    decreases parts.len(),
{
    if parts.len() == 0 {
        Seq::empty()
    } else if parts.len() == 1 {
        parts[0]
    } else {
        join_colon(parts.drop_last()) + ":"@ + parts.last()
    }
}

impl Rootfs {
    /// The descriptor string stored with a sandbox record:
    /// `native:<path>` or `overlayfs:<path1>:<path2>:...`, layers in order.
    pub open spec fn descriptor(&self) -> Seq<char> {
        match self {
            Rootfs::Native(path) => "native:"@ + path@,
            Rootfs::Overlayfs(paths) => "overlayfs:"@ + join_colon(views(paths@)),
        }
    }

    /// Serializes the rootfs into its descriptor string.
    pub fn to_descriptor(&self) -> (r: String)
        ensures
            r@ == self.descriptor(),
    {
        match self {
            Rootfs::Native(path) => {
                let mut out = String::from_str("native:");
                out.append(path.as_str());
                out
            },
            Rootfs::Overlayfs(paths) => {
                let mut out = String::from_str("overlayfs:");
                let ghost prefix = "overlayfs:"@;
                let mut i: usize = 0;
                while i < paths.len()
                    invariant
                        i <= paths@.len(),
                        prefix == "overlayfs:"@,
                        out@ == prefix + join_colon(views(paths@.subrange(0, i as int))),
                    decreases paths@.len() - i,
                {
                    let ghost before = out@;
                    if i > 0 {
                        out.append(":");
                    }
                    out.append(paths[i].as_str());
                    proof {
                        let done = views(paths@.subrange(0, i as int));
                        let next = views(paths@.subrange(0, i + 1));
                        assert(next.drop_last() =~= done);
                        assert(next.last() == paths@[i as int]@);
                        if i == 0 {
                            assert(done.len() == 0);
                            assert(next.len() == 1);
                        }
                        assert(out@ =~= prefix + join_colon(next));
                    }
                    i += 1;
                }
                assert(paths@.subrange(0, paths@.len() as int) =~= paths@);
                out
            },
        }
    }
}

} // verus!
