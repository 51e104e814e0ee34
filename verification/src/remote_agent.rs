//! Configuration of a remote agent reached over HTTP, an alternative to the in-process
//! executor: one `POST {base_url}/agent/execute` per container action, optionally guarded by an
//! `x-parton-token` shared-secret header.
use vstd::prelude::*;

use crate::text::{chars_of, push_str, string_of_range, trim_seq, trim_to_string};

verus! {

/// Environment variable naming the agent's base URL.
pub const REMOTE_PARTON_URL_ENV: &'static str = "PION_REMOTE_PARTON_URL";

/// Environment variable naming the optional shared token.
pub const REMOTE_PARTON_TOKEN_ENV: &'static str = "PION_REMOTE_PARTON_TOKEN";

/// Path, under the base URL, that receives the execute request.
pub const EXECUTE_PATH: &'static str = "/agent/execute";

/// Header that carries the shared token.
pub const TOKEN_HEADER: &'static str = "x-parton-token";

/// Where the remote agent listens and how to authenticate to it.
#[derive(Debug, Clone, PartialEq, Eq)]
pub struct RemoteAgentConfig {
    /// Base URL of the agent (a trailing slash is allowed).
    pub base_url: String,
    /// Shared token sent in [`TOKEN_HEADER`], if any.
    pub token: Option<String>,
}

/// The trimmed value when it is non-blank.
pub open spec fn nonblank(v: Option<Seq<char>>) -> Option<Seq<char>> {
    match v {
        Some(s) => if trim_seq(s).len() > 0 {
            Some(trim_seq(s))
        } else {
            None
        },
        None => None,
    }
}

fn nonblank_string(v: Option<&str>) -> (r: Option<String>)
    ensures
        match r {
            Some(s) => nonblank(crate::server::opt_view(v)) == Some(s@),
            None => nonblank(crate::server::opt_view(v)) is None,
        },
{
    match v {
        Some(s) => {
            let t = trim_to_string(s);
            if t.as_str().is_empty() {
                None
            } else {
                Some(t)
            }
        },
        None => None,
    }
}

/// `s` without its trailing `/` characters (`str::trim_end_matches('/')`).
pub open spec fn trim_trailing_slashes(s: Seq<char>) -> Seq<char>
    decreases s.len(),
{
    if s.len() > 0 && s.last() == '/' {
        trim_trailing_slashes(s.drop_last())
    } else {
        s
    }
}

impl RemoteAgentConfig {
    /// The configuration for the values of [`REMOTE_PARTON_URL_ENV`] and
    /// [`REMOTE_PARTON_TOKEN_ENV`] (`None` where unset): none when the URL is unset or blank,
    /// both values trimmed, a blank token dropped.
    pub fn from_env(url: Option<&str>, token: Option<&str>) -> (r: Option<Self>)
        ensures
            match r {
                Some(c) => nonblank(crate::server::opt_view(url)) == Some(c.base_url@) && match c.token {
                    Some(t) => nonblank(crate::server::opt_view(token)) == Some(t@),
                    None => nonblank(crate::server::opt_view(token)) is None,
                },
                None => nonblank(crate::server::opt_view(url)) is None,
            },
    {
        let base_url = nonblank_string(url)?;
        let token = nonblank_string(token);
        Some(RemoteAgentConfig { base_url, token })
    }

    /// URL of the execute request: the base URL without trailing slashes, then
    /// [`EXECUTE_PATH`].
    pub fn execute_url(&self) -> (r: String)
        ensures
            r@ == trim_trailing_slashes(self.base_url@) + EXECUTE_PATH@,
    {
        let v = chars_of(self.base_url.as_str());
        let mut end: usize = v.len();
        assert(v@.subrange(0, end as int) =~= v@);
        while end > 0 && v[end - 1] == '/'
            invariant
                end <= v@.len(),
                trim_trailing_slashes(v@.subrange(0, end as int)) == trim_trailing_slashes(v@),
            decreases end,
        {
            proof {
                let cur = v@.subrange(0, end as int);
                assert(cur.drop_last() =~= v@.subrange(0, end - 1));
            }
            end = end - 1;
        }
        proof {
            let cur = v@.subrange(0, end as int);
            assert(v@.subrange(0, v@.len() as int) =~= v@);
            assert(trim_trailing_slashes(cur) == cur);
        }
        let mut s = string_of_range(&v, 0, end);
        push_str(&mut s, EXECUTE_PATH);
        s
    }
}

} // verus!
