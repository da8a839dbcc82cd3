//! Where the routes and the API documentation are mounted, and how a
//! completed request is logged.

use vstd::prelude::*;

use crate::log_record::LogLevel;
use crate::text::{decimal, decimal_string, has_prefix, str_eq};

verus! {

/// The base path under which the API is mounted: the configured one unless
/// it is absent, empty or `/`.
pub open spec fn active_base(base_path: Option<Seq<char>>) -> Option<Seq<char>> {
    match base_path {
        Some(p) => if p.len() > 0 && p != "/"@ {
            Some(p)
        } else {
            None
        },
        None => None,
    }
}

/// `s` without its trailing `/` characters.
pub open spec fn trim_end_slashes(s: Seq<char>) -> Seq<char>
    decreases s.len(),
{
    if s.len() > 0 && s.last() == '/' {
        trim_end_slashes(s.drop_last())
    } else {
        s
    }
}

/// The prefix of the documentation routes: the active base path without
/// trailing slashes, or nothing.
pub open spec fn docs_prefix(base_path: Option<Seq<char>>) -> Seq<char> {
    match active_base(base_path) {
        Some(p) => trim_end_slashes(p),
        None => Seq::empty(),
    }
}

/// The view of an optional string.
pub open spec fn opt_view(o: Option<String>) -> Option<Seq<char>> {
    match o {
        Some(s) => Some(s@),
        None => None,
    }
}

/// The base path under which the API routes are nested, if any: the
/// configured base path unless it is absent, empty or `/`.
pub fn active_base_path(base_path: &Option<String>) -> (r: Option<&str>)
    ensures
        match r {
            Some(p) => active_base(opt_view(*base_path)) == Some(p@),
            None => active_base(opt_view(*base_path)) is None,
        },
{
    match base_path {
        Some(p) => {
            let s = p.as_str();
            if s.unicode_len() > 0 && !str_eq(s, "/") {
                Some(s)
            } else {
                None
            }
        },
        None => None,
    }
}

/// Removes every trailing `/`, as `str::trim_end_matches('/')` does.
pub fn trim_end_slashes_str(s: &str) -> (r: &str)
    ensures
        r@ == trim_end_slashes(s@),
{
    let n = s.unicode_len();
    let mut j: usize = n;
    proof {
        assert(s@.subrange(0, n as int) =~= s@);
    }
    while j > 0 && s.get_char(j - 1) == '/'
        invariant
            n == s@.len(),
            0 <= j <= n,
            trim_end_slashes(s@) == trim_end_slashes(s@.subrange(0, j as int)),
        decreases j,
    {
        proof {
            let t = s@.subrange(0, j as int);
            assert(t.drop_last() =~= s@.subrange(0, j - 1));
        }
        j = j - 1;
    }
    proof {
        assert(s@.subrange(0, n as int) =~= s@);
    }
    s.substring_char(0, j)
}

/// The path of the Swagger UI: `<prefix>/swagger-ui/`.
pub fn swagger_ui_path(base_path: &Option<String>) -> (r: String)
    ensures
        r@ == docs_prefix(opt_view(*base_path)) + "/swagger-ui/"@,
{
    match active_base_path(base_path) {
        Some(p) => String::from_str(trim_end_slashes_str(p)).concat("/swagger-ui/"),
        None => String::from_str("/swagger-ui/"),
    }
}

/// The URL of the OpenAPI document: `<prefix>/api-docs/openapi.json`.
pub fn openapi_url(base_path: &Option<String>) -> (r: String)
    ensures
        r@ == docs_prefix(opt_view(*base_path)) + "/api-docs/openapi.json"@,
{
    match active_base_path(base_path) {
        Some(p) => String::from_str(trim_end_slashes_str(p)).concat("/api-docs/openapi.json"),
        None => String::from_str("/api-docs/openapi.json"),
    }
}

/// The base path of the alternative webserver: `/` when none is
/// configured, and otherwise the configured one, with a leading `/` added
/// when it lacks one.
pub open spec fn rooted_base(base_path: Option<Seq<char>>) -> Seq<char> {
    match base_path {
        Some(p) => if has_prefix(p, "/"@) {
            p
        } else {
            "/"@ + p
        },
        None => "/"@,
    }
}

/// The base path with a leading `/`, or `/` when none is configured.
pub fn rooted_base_path(base_path: &Option<String>) -> (r: String)
    ensures
        r@ == rooted_base(opt_view(*base_path)),
{
    match base_path {
        Some(p) => {
            let s = p.as_str();
            if s.unicode_len() >= 1 && s.get_char(0) == '/' {
                proof {
                    reveal_strlit("/");
                    assert(s@.subrange(0, 1) =~= "/"@);
                }
                String::from_str(s)
            } else {
                proof {
                    reveal_strlit("/");
                    if s@.len() >= 1 {
                        assert(s@.subrange(0, 1)[0] != "/"@[0]);
                    }
                }
                String::from_str("/").concat(s)
            }
        },
        None => String::from_str("/"),
    }
}

/// The address the server listens on: `<hostname>:<port>`.
pub fn socket_address(hostname: &str, port: u16) -> (r: String)
    ensures
        r@ == hostname@ + ":"@ + decimal(port as nat),
{
    let p = decimal_string(port as u64);
    String::from_str(hostname).concat(":").concat(p.as_str())
}

/// The server URL announced in the OpenAPI document of the poem adaptor:
/// `http://<hostname>:<port>` followed by the rooted base path.
pub fn poem_server_url(hostname: &str, port: u16, base_path: &Option<String>) -> (r: String)
    ensures
        r@ == "http://"@ + hostname@ + ":"@ + decimal(port as nat) + rooted_base(
            opt_view(*base_path),
        ),
{
    let addr = socket_address(hostname, port);
    let base = rooted_base_path(base_path);
    let r = String::from_str("http://").concat(addr.as_str()).concat(base.as_str());
    assert(r@ =~= "http://"@ + hostname@ + ":"@ + decimal(port as nat) + rooted_base(
        opt_view(*base_path),
    ));
    r
}

/// Where the poem adaptor mounts its Swagger UI: the rooted base path
/// followed by `/docs`.
pub fn poem_docs_path(base_path: &Option<String>) -> (r: String)
    ensures
        r@ == rooted_base(opt_view(*base_path)) + "/docs"@,
{
    let base = rooted_base_path(base_path);
    base.concat("/docs")
}

/// The level at which a completed request is logged: `Warn` for a client
/// or server error status (400 to 599), `Debug` otherwise.
pub fn response_log_level(status: u16) -> (r: LogLevel)
    ensures
        r == if 400 <= status && status <= 599 {
            LogLevel::Warn
        } else {
            LogLevel::Debug
        },
{
    if 400 <= status && status <= 599 {
        LogLevel::Warn
    } else {
        LogLevel::Debug
    }
}

/// The documentation is mounted under the same prefix as the API, and a
/// trailing `/` on the base path does not double up in its paths.
pub proof fn lemma_docs_prefix_has_no_trailing_slash(base_path: Option<Seq<char>>)
    ensures
        docs_prefix(base_path).len() == 0 || docs_prefix(base_path).last() != '/',
        active_base(base_path) is None ==> docs_prefix(base_path).len() == 0,
{
    match active_base(base_path) {
        Some(p) => lemma_trim_end_slashes_ends(p),
        None => {},
    }
}

proof fn lemma_trim_end_slashes_ends(s: Seq<char>)
    ensures
        trim_end_slashes(s).len() == 0 || trim_end_slashes(s).last() != '/',
    decreases s.len(),
{
    if s.len() > 0 && s.last() == '/' {
        lemma_trim_end_slashes_ends(s.drop_last());
    }
}

/// A trailing `/` on a base path in use changes neither where the API is
/// mounted nor where its documentation is: the documentation prefix of
/// `p/` is that of `p`.
pub proof fn lemma_trailing_slash_is_ignored(p: Seq<char>)
    requires
        active_base(Some(p)) is Some,
    ensures
        active_base(Some(p + "/"@)) == Some(p + "/"@),
        docs_prefix(Some(p + "/"@)) == docs_prefix(Some(p)),
{
    reveal_strlit("/");
    let q = p + "/"@;
    assert(q.len() >= 2);
    assert(q != "/"@);
    assert(q.last() == '/');
    assert(q.drop_last() =~= p);
}

} // verus!
