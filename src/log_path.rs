use vstd::prelude::*;

verus! {

/// The suffix of a sandbox's log file name.
pub const LOG_SUFFIX: &'static str = "log";

/// The directory text that a child name is appended to: the directory itself
/// when it is empty or already ends in `/`, else the directory and a `/`.
pub open spec fn dir_prefix(dir: Seq<char>) -> Seq<char> {
    if dir.len() == 0 || dir.last() == '/' {
        dir
    } else {
        dir.push('/')
    }
}

/// The directory that holds the logs of every sandbox of one config file:
/// `<log_dir>/<config_file>`.
pub open spec fn log_dir_of(log_dir: Seq<char>, config_file: Seq<char>) -> Seq<char> {
    dir_prefix(log_dir) + config_file
}

/// The log file of one sandbox: `<log_dir>/<config_file>/<sandbox_name>.<suffix>`.
pub open spec fn log_path_of(
    log_dir: Seq<char>,
    config_file: Seq<char>,
    sandbox_name: Seq<char>,
    suffix: Seq<char>,
) -> Seq<char> {
    log_dir_of(log_dir, config_file).push('/') + sandbox_name.push('.') + suffix
}

/// No character of `s` is a path separator.
pub open spec fn no_separator(s: Seq<char>) -> bool {
    forall|i: int| 0 <= i < s.len() ==> s[i] != '/'
}

/// Computes the directory `<log_dir>/<config_file>` that holds a sandbox's log.
pub fn generate_log_dir(log_dir: &str, config_file: &str) -> (r: String)
    ensures
        r@ == log_dir_of(log_dir@, config_file@),
{
    let mut out = String::from_str(log_dir);
    let n = log_dir.unicode_len();
    proof {
        reveal_strlit("/");
    }
    if n > 0 && log_dir.get_char(n - 1) != '/' {
        out.append("/");
    }
    out.append(config_file);
    out
}

/// Computes the log path `<log_dir>/<config_file>/<sandbox_name>.<suffix>`.
pub fn generate_log_path(log_dir: &str, config_file: &str, sandbox_name: &str, suffix: &str) -> (r:
    String)
    ensures
        r@ == log_path_of(log_dir@, config_file@, sandbox_name@, suffix@),
{
    let mut out = generate_log_dir(log_dir, config_file);
    proof {
        reveal_strlit("/");
        reveal_strlit(".");
    }
    out.append("/");
    out.append(sandbox_name);
    out.append(".");
    out.append(suffix);
    assert(out@ =~= log_path_of(log_dir@, config_file@, sandbox_name@, suffix@));
    out
}

/// Sandboxes with distinct (config file, sandbox name) pairs get distinct log
/// paths under one log directory, as long as config file names hold no `/`.
pub proof fn lemma_log_paths_distinct(
    log_dir: Seq<char>,
    suffix: Seq<char>,
    config_a: Seq<char>,
    name_a: Seq<char>,
    config_b: Seq<char>,
    name_b: Seq<char>,
)
    requires
        no_separator(config_a),
        no_separator(config_b),
        config_a != config_b || name_a != name_b,
    ensures
        log_path_of(log_dir, config_a, name_a, suffix) != log_path_of(
            log_dir,
            config_b,
            name_b,
            suffix,
        ),
{
    let pa = log_path_of(log_dir, config_a, name_a, suffix);
    let pb = log_path_of(log_dir, config_b, name_b, suffix);
    let p = dir_prefix(log_dir);
    let k: int = p.len() as int;
    if pa == pb {
        assert(pa[k + config_a.len()] == '/');
        assert(pb[k + config_b.len()] == '/');
        if config_a.len() < config_b.len() {
            assert(pb[k + config_a.len()] == config_b[config_a.len() as int]);
            assert(false);
        }
        if config_b.len() < config_a.len() {
            assert(pa[k + config_b.len()] == config_a[config_b.len() as int]);
            assert(false);
        }
        assert(config_a.len() == config_b.len());
        assert forall|i: int| 0 <= i < config_a.len() implies config_a[i] == config_b[i] by {
            assert(pa[k + i] == config_a[i]);
            assert(pb[k + i] == config_b[i]);
        }
        assert(config_a =~= config_b);
        assert(pa.len() == k + config_a.len() + name_a.len() + suffix.len() + 2);
        assert(pb.len() == k + config_b.len() + name_b.len() + suffix.len() + 2);
        assert(name_a.len() == name_b.len());
        let base: int = k + config_a.len() + 1;
        assert forall|i: int| 0 <= i < name_a.len() implies name_a[i] == name_b[i] by {
            assert(pa[base + i] == name_a[i]);
            assert(pb[base + i] == name_b[i]);
        }
        assert(name_a =~= name_b);
    }
}

/// The log path depends on the log directory, config file, sandbox name and
/// suffix alone: equal inputs give equal paths.
pub proof fn lemma_log_path_deterministic(
    log_dir: Seq<char>,
    config_file: Seq<char>,
    sandbox_name: Seq<char>,
    suffix: Seq<char>,
    log_dir2: Seq<char>,
    config_file2: Seq<char>,
    sandbox_name2: Seq<char>,
    suffix2: Seq<char>,
)
    requires
        log_dir == log_dir2,
        config_file == config_file2,
        sandbox_name == sandbox_name2,
        suffix == suffix2,
    ensures
        log_path_of(log_dir, config_file, sandbox_name, suffix) == log_path_of(
            log_dir2,
            config_file2,
            sandbox_name2,
            suffix2,
        ),
{
}

} // verus!
