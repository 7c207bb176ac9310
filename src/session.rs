use vstd::prelude::*;

verus! {

/// The server URL used when neither the options nor the environment give one.
pub const DEFAULT_SERVER_URL: &'static str = "http://127.0.0.1:5555";

/// The namespace used when the options give none.
pub const DEFAULT_NAMESPACE: &'static str = "default";

/// The path of the JSON-RPC endpoint on the server.
pub const RPC_PATH: &'static str = "/api/v1/rpc";

/// The text in a start result that marks a start that timed out server-side.
pub const START_TIMEOUT_MARK: &'static str = "timed out waiting";

/// The message of a server error that carries none.
pub const UNKNOWN_ERROR: &'static str = "Unknown error";

/// Errors of the sandbox client.
pub enum SandboxError {
    /// An operation that needs a started sandbox was called before `start`.
    NotStarted,
    /// The server answered with a non-success HTTP status; the body text.
    RequestFailed(String),
    /// The server answered with a JSON-RPC error; its message.
    ServerError(String),
    /// The request timed out.
    Timeout(String),
    /// The request could not be sent.
    HttpError(String),
}

/// What the caller chose for a sandbox client; absent values fall back to
/// the environment or to defaults.
pub struct SandboxOptions {
    pub server_url: Option<String>,
    pub namespace: Option<String>,
    pub name: Option<String>,
    pub api_key: Option<String>,
}

/// The client side of one sandbox on a sandbox server.
pub struct SandboxBase {
    pub server_url: String,
    pub namespace: String,
    pub name: String,
    pub api_key: Option<String>,
    pub is_started: bool,
}

/// The first of the two, or else the second.
pub open spec fn first_of(a: Option<String>, b: Option<String>) -> Option<String> {
    if a is Some {
        a
    } else {
        b
    }
}

/// The text before the first `-` of `s`, or all of `s` when it has none.
pub open spec fn first_segment(s: Seq<char>) -> Seq<char> {
    if exists|i: int| 0 <= i < s.len() && s[i] == '-' {
        let i = choose|i: int|
            0 <= i < s.len() && s[i] == '-' && forall|j: int| 0 <= j < i ==> s[j] != '-';
        s.subrange(0, i)
    } else {
        s
    }
}

/// `needle` occurs in `hay` starting at `i`.
pub open spec fn occurs_at(hay: Seq<char>, needle: Seq<char>, i: int) -> bool {
    0 <= i && i + needle.len() <= hay.len() && hay.subrange(i, i + needle.len()) == needle
}

pub open spec fn has_substring(hay: Seq<char>, needle: Seq<char>) -> bool {
    exists|i: int| occurs_at(hay, needle, i)
}

/// Relies on uuid::Uuid::new_v4 and the `Display` of `Uuid`: a random
/// version-4 UUID in hyphenated form, 36 characters, whose first group is
/// 8 hex digits followed by `-`.
#[verifier::external_body]
fn random_uuid_text() -> (r: String)
    ensures
        r@.len() == 36,
        r@[8] == '-',
        forall|i: int| 0 <= i < 8 ==> r@[i] != '-',
{
    uuid::Uuid::new_v4().to_string()
}

/// The part of `s` before its first `-`.
fn first_segment_of(s: &str) -> (r: String)
    ensures
        r@ == first_segment(s@),
{
    let n = s.unicode_len();
    let mut i: usize = 0;
    while i < n
        invariant
            n == s@.len(),
            i <= n,
            forall|j: int| 0 <= j < i ==> s@[j] != '-',
        decreases n - i,
    {
        if s.get_char(i) == '-' {
            proof {
                let k = choose|k: int|
                    0 <= k < s@.len() && s@[k] == '-' && forall|j: int| 0 <= j < k ==> s@[j] != '-';
                assert(0 <= k < s@.len() && s@[k] == '-');
                if k < i {
                } else if k > i {
                    assert(s@[i as int] == '-');
                }
                assert(k == i);
            }
            return String::from_str(s.substring_char(0, i));
        }
        i += 1;
    }
    assert(s@.subrange(0, n as int) =~= s@);
    String::from_str(s.substring_char(0, n))
}

/// Whether `needle` occurs anywhere in `hay`.
pub fn contains_text(hay: &str, needle: &str) -> (r: bool)
    ensures
        r == has_substring(hay@, needle@),
{
    let n = hay.unicode_len();
    let m = needle.unicode_len();
    if m > n {
        assert forall|i: int| !occurs_at(hay@, needle@, i) by {}
        return false;
    }
    let mut i: usize = 0;
    while i <= n - m
        invariant
            n == hay@.len(),
            m == needle@.len(),
            m <= n,
            i <= n - m + 1,
            forall|k: int| 0 <= k < i ==> !occurs_at(hay@, needle@, k),
        decreases n - m + 1 - i,
    {
        let mut j: usize = 0;
        let mut same = true;
        while j < m
            invariant
                n == hay@.len(),
                m == needle@.len(),
                i + m <= n,
                j <= m,
                same == forall|t: int| 0 <= t < j ==> hay@[i + t] == needle@[t],
            decreases m - j,
        {
            if hay.get_char(i + j) != needle.get_char(j) {
                same = false;
            }
            j += 1;
        }
        if same {
            assert(hay@.subrange(i as int, i + m) =~= needle@);
            assert(occurs_at(hay@, needle@, i as int));
            return true;
        }
        assert(!occurs_at(hay@, needle@, i as int)) by {
            let t = choose|t: int| 0 <= t < m && hay@[i + t] != needle@[t];
            if occurs_at(hay@, needle@, i as int) {
                assert(hay@.subrange(i as int, i + m)[t] == hay@[i + t]);
            }
        }
        i += 1;
    }
    assert forall|k: int| !occurs_at(hay@, needle@, k) by {
        if 0 <= k && k < i {
        }
    }
    false
}

/// The value of `a`, or else of `b`.
fn or_else(a: &Option<String>, b: Option<String>) -> (r: Option<String>)
    ensures
        r == first_of(*a, b),
{
    match a {
        Some(s) => Some(s.clone()),
        None => b,
    }
}

impl SandboxBase {
    /// The client for the options, with the environment's server URL and API
    /// key (read by the caller) and the text of a UUID for a generated name:
    /// options win over the environment, which wins over the defaults; a
    /// missing name becomes `sandbox-` and the UUID's first group.
    pub fn with_settings(
        options: &SandboxOptions,
        env_server_url: Option<String>,
        env_api_key: Option<String>,
        uuid_text: &str,
    ) -> (r: SandboxBase)
        ensures
            r.server_url@ == match first_of(options.server_url, env_server_url) {
                Some(u) => u@,
                None => DEFAULT_SERVER_URL@,
            },
            r.namespace@ == match options.namespace {
                Some(ns) => ns@,
                None => DEFAULT_NAMESPACE@,
            },
            r.name@ == match options.name {
                Some(n) => n@,
                None => "sandbox-"@ + first_segment(uuid_text@),
            },
            r.api_key == first_of(options.api_key, env_api_key),
            !r.is_started,
    {
        let server_url = match or_else(&options.server_url, env_server_url) {
            Some(u) => u,
            None => String::from_str(DEFAULT_SERVER_URL),
        };
        let namespace = match &options.namespace {
            Some(ns) => ns.clone(),
            None => String::from_str(DEFAULT_NAMESPACE),
        };
        let name = match &options.name {
            Some(n) => n.clone(),
            None => {
                let mut n = String::from_str("sandbox-");
                let seg = first_segment_of(uuid_text);
                n.append(seg.as_str());
                n
            },
        };
        let api_key = or_else(&options.api_key, env_api_key);
        SandboxBase { server_url, namespace, name, api_key, is_started: false }
    }

    /// The client for the options and the environment's values, with a
    /// random name when the options give none.
    pub fn new(options: &SandboxOptions, env_server_url: Option<String>, env_api_key: Option<
        String,
    >) -> (r: SandboxBase)
        ensures
            r.server_url@ == match first_of(options.server_url, env_server_url) {
                Some(u) => u@,
                None => DEFAULT_SERVER_URL@,
            },
            r.namespace@ == match options.namespace {
                Some(ns) => ns@,
                None => DEFAULT_NAMESPACE@,
            },
            options.name matches Some(n) ==> r.name@ == n@,
            options.name is None ==> exists|u: Seq<char>|
                u.len() == 8 && (forall|i: int| 0 <= i < 8 ==> u[i] != '-') && r.name@
                    == "sandbox-"@ + u,
            r.api_key == first_of(options.api_key, env_api_key),
            !r.is_started,
    {
        let uuid_text = random_uuid_text();
        let r = SandboxBase::with_settings(options, env_server_url, env_api_key, uuid_text.as_str());
        proof {
            let s = uuid_text@;
            assert(exists|i: int| 0 <= i < s.len() && s[i] == '-') by {
                assert(s[8] == '-');
            }
            let k = choose|k: int|
                0 <= k < s.len() && s[k] == '-' && forall|j: int| 0 <= j < k ==> s[j] != '-';
            assert(s[8] == '-');
            if k < 8 {
            } else if k > 8 {
                assert(s[8] != '-');
            }
            assert(k == 8);
            let u = first_segment(s);
            assert(u.len() == 8);
        }
        r
    }

    /// The URL of the server's JSON-RPC endpoint.
    pub fn rpc_url(&self) -> (r: String)
        ensures
            r@ == self.server_url@ + RPC_PATH@,
    {
        let mut u = self.server_url.clone();
        u.append(RPC_PATH);
        u
    }

    /// The `Authorization` header value, when there is an API key.
    pub fn authorization(&self) -> (r: Option<String>)
        ensures
            r is Some <==> self.api_key is Some,
            self.api_key matches Some(k) ==> r.unwrap()@ == "Bearer "@ + k@,
    {
        match &self.api_key {
            Some(k) => {
                let mut h = String::from_str("Bearer ");
                h.append(k.as_str());
                Some(h)
            },
            None => None,
        }
    }

    /// Whether `start_sandbox` has a request to send: not when the sandbox
    /// was started already.
    pub fn needs_start(&self) -> (r: bool)
        ensures
            r == !self.is_started,
    {
        !self.is_started
    }

    /// Whether `stop_sandbox` has a request to send: only for a started sandbox.
    pub fn needs_stop(&self) -> (r: bool)
        ensures
            r == self.is_started,
    {
        self.is_started
    }

    /// Records the outcome of a start request: a success marks the sandbox
    /// started, an error leaves it as it was and is handed back.
    pub fn finish_start(&mut self, outcome: Result<(), SandboxError>) -> (r: Result<(), SandboxError>)
        ensures
            final(self).is_started == (old(self).is_started || outcome is Ok),
            r == outcome,
            final(self).server_url == old(self).server_url,
            final(self).namespace == old(self).namespace,
            final(self).name == old(self).name,
            final(self).api_key == old(self).api_key,
    {
        if outcome.is_ok() {
            self.is_started = true;
        }
        outcome
    }

    /// Records the outcome of a stop request: a success marks the sandbox
    /// stopped, an error leaves it as it was and is handed back.
    pub fn finish_stop(&mut self, outcome: Result<(), SandboxError>) -> (r: Result<(), SandboxError>)
        ensures
            final(self).is_started == (old(self).is_started && outcome is Err),
            r == outcome,
            final(self).server_url == old(self).server_url,
            final(self).namespace == old(self).namespace,
            final(self).name == old(self).name,
            final(self).api_key == old(self).api_key,
    {
        if outcome.is_ok() {
            self.is_started = false;
        }
        outcome
    }

    /// `run_code` needs a started sandbox.
    pub fn check_started(&self) -> (r: Result<(), SandboxError>)
        ensures
            r is Ok <==> self.is_started,
            r matches Err(e) ==> e is NotStarted,
    {
        if self.is_started {
            Ok(())
        } else {
            Err(SandboxError::NotStarted)
        }
    }
}

/// Whether the text of a start result warns that the server timed out
/// waiting for the sandbox.
pub fn start_result_warns(result_text: &str) -> (r: bool)
    ensures
        r == has_substring(result_text@, START_TIMEOUT_MARK@),
{
    contains_text(result_text, START_TIMEOUT_MARK)
}

/// The message of a JSON-RPC error: its own, or a stand-in when it has none.
pub fn server_error_message(message: Option<String>) -> (r: String)
    ensures
        r@ == match message {
            Some(m) => m@,
            None => UNKNOWN_ERROR@,
        },
{
    match message {
        Some(m) => m,
        None => String::from_str(UNKNOWN_ERROR),
    }
}

} // verus!
