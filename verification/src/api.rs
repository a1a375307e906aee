//! Types shared with the HTTP front end: the service configuration record
//! and the error shapes it sends over the wire.  Reading the environment
//! stays with the caller; turning the raw values into a configuration, and
//! validating it, are verified here.

use vstd::prelude::*;
use vstd::string::*;

use crate::quality::{all_digits, dec_val, lemma_dec_val_nonneg, strip_plus};
use crate::text::chars_of;

verus! {

/// Service configuration, as loaded by the caller from its environment.
#[derive(Debug, Clone)]
pub struct Config {
    pub app_env: String,
    pub port: u16,
    pub cors_allowed_origins: Vec<String>,
    pub rust_log: String,
}

/// What `str::parse::<u16>` returns: the decimal value of an optionally
/// `+`-signed digit string not exceeding 65535.
pub open spec fn spec_parse_port(s: Seq<char>) -> Option<u16> {
    let d = strip_plus(s);
    if d.len() > 0 && all_digits(d) && dec_val(d) <= 65535 {
        Some(dec_val(d) as u16)
    } else {
        None
    }
}

/// ASCII whitespace, as trimmed from the edges of each origin entry.
pub open spec fn is_ascii_ws(c: char) -> bool {
    c == ' ' || c == '\t' || c == '\n' || c == '\r'
}

/// The string with ASCII whitespace removed from both ends.
pub open spec fn spec_trim(s: Seq<char>) -> Seq<char>
    decreases s.len(),
{
    if s.len() > 0 && is_ascii_ws(s.first()) {
        spec_trim(s.drop_first())
    } else if s.len() > 0 && is_ascii_ws(s.last()) {
        spec_trim(s.drop_last())
    } else {
        s
    }
}

/// One comma-separated piece after trimming: kept only when non-empty.
pub open spec fn spec_piece(s: Seq<char>, start: int, end: int) -> Seq<Seq<char>> {
    let t = spec_trim(s.subrange(start, end));
    if t.len() == 0 {
        Seq::empty()
    } else {
        seq![t]
    }
}

/// The origin list from position `cur`, with the current piece starting at
/// `start`: split on commas, trim each piece, drop empty ones.
pub open spec fn spec_cors_from(s: Seq<char>, start: int, cur: int) -> Seq<Seq<char>>
    decreases s.len() - cur,
{
    if cur >= s.len() {
        spec_piece(s, start, s.len() as int)
    } else if s[cur] == ',' {
        spec_piece(s, start, cur) + spec_cors_from(s, cur + 1, cur + 1)
    } else {
        spec_cors_from(s, start, cur + 1)
    }
}

/// The allowed-origin list an origins string denotes.
pub open spec fn spec_cors_list(s: Seq<char>) -> Seq<Seq<char>> {
    spec_cors_from(s, 0, 0)
}

/// The raw value when the environment held one, the default otherwise.
pub open spec fn opt_or(o: Option<String>, d: Seq<char>) -> Seq<char> {
    match o {
        Some(s) => s@,
        None => d,
    }
}

/// Parse a port number the way `str::parse::<u16>` does.
fn parse_port(s: &str) -> (r: Option<u16>)
    ensures
        r == spec_parse_port(s@),
{
    let cs = chars_of(s);
    let n = cs.len();
    let mut i: usize = 0;
    if i < n && cs[i] == '+' {
        i = 1;
    }
    let ghost d = strip_plus(s@);
    proof {
        assert(d =~= cs@.subrange(i as int, n as int));
    }
    if i == n {
        return None;
    }
    let mut acc: u32 = 0;
    let mut over = false;
    let mut k = i;
    while k < n
        invariant
            i <= k <= n,
            i < n,
            n == cs@.len(),
            cs@ == s@,
            d == strip_plus(s@),
            d =~= cs@.subrange(i as int, n as int),
            all_digits(cs@.subrange(i as int, k as int)),
            !over ==> acc == dec_val(cs@.subrange(i as int, k as int)) && acc <= 65535,
            over ==> dec_val(cs@.subrange(i as int, k as int)) > 65535,
        decreases n - k,
    {
        let c = cs[k];
        if (c as u32) < ('0' as u32) || (c as u32) > ('9' as u32) {
            proof {
                assert(d[k - i] == cs@[k as int]);
                assert(!all_digits(d));
            }
            return None;
        }
        let dv: u32 = c as u32 - '0' as u32;
        let ghost pre = cs@.subrange(i as int, k as int);
        let ghost post = cs@.subrange(i as int, k as int + 1);
        proof {
            assert(post.drop_last() =~= pre);
            assert(post.last() == cs@[k as int]);
            assert(dec_val(post) == 10 * dec_val(pre) + (c as u32 - '0' as u32));
            assert(all_digits(post));
        }
        if !over {
            let next: u32 = acc * 10 + dv;
            if next > 65535 {
                over = true;
            } else {
                acc = next;
            }
        } else {
            proof {
                lemma_dec_val_nonneg(pre);
            }
        }
        k = k + 1;
    }
    proof {
        assert(cs@.subrange(i as int, n as int) =~= d);
    }
    if over {
        None
    } else {
        Some(acc as u16)
    }
}

/// Check whether a character is ASCII whitespace.
fn is_ws_char(c: char) -> (r: bool)
    ensures
        r == is_ascii_ws(c),
{
    c == ' ' || c == '\t' || c == '\n' || c == '\r'
}

/// The piece `s[start..end)` with ASCII whitespace trimmed from both ends.
fn trimmed_piece(s: &str, start: usize, end: usize) -> (r: String)
    requires
        start <= end <= s@.len(),
    ensures
        r@ == spec_trim(s@.subrange(start as int, end as int)),
{
    let mut a = start;
    let mut b = end;
    while a < b && is_ws_char(s.get_char(a))
        invariant
            start <= a <= b <= end <= s@.len(),
            spec_trim(s@.subrange(start as int, end as int)) == spec_trim(
                s@.subrange(a as int, b as int),
            ),
        decreases b - a,
    {
        proof {
            let sub = s@.subrange(a as int, b as int);
            assert(sub.drop_first() =~= s@.subrange(a as int + 1, b as int));
        }
        a = a + 1;
    }
    while a < b && is_ws_char(s.get_char(b - 1))
        invariant
            start <= a <= b <= end <= s@.len(),
            spec_trim(s@.subrange(start as int, end as int)) == spec_trim(
                s@.subrange(a as int, b as int),
            ),
            a < b ==> !is_ascii_ws(s@[a as int]),
        decreases b - a,
    {
        proof {
            let sub = s@.subrange(a as int, b as int);
            assert(sub.first() == s@[a as int]);
            assert(sub.last() == s@[b as int - 1]);
            assert(sub.drop_last() =~= s@.subrange(a as int, b as int - 1));
        }
        b = b - 1;
    }
    proof {
        let sub = s@.subrange(a as int, b as int);
        if a < b {
            assert(sub.first() == s@[a as int]);
            assert(sub.last() == s@[b as int - 1]);
        }
        assert(spec_trim(sub) == sub);
    }
    String::from_str(s.substring_char(a, b))
}

/// Split an origins string on commas, trim each piece and drop empty ones.
fn cors_origins(s: &str) -> (r: Vec<String>)
    ensures
        r.deep_view() == spec_cors_list(s@),
{
    let n = s.unicode_len();
    let mut out: Vec<String> = Vec::new();
    let mut start: usize = 0;
    let mut cur: usize = 0;
    while cur < n
        invariant
            start <= cur <= n,
            n == s@.len(),
            out.deep_view() + spec_cors_from(s@, start as int, cur as int) == spec_cors_list(s@),
        decreases n - cur,
    {
        if s.get_char(cur) == ',' {
            let ghost before = out.deep_view();
            let piece = trimmed_piece(s, start, cur);
            if piece.unicode_len() > 0 {
                out.push(piece);
                proof {
                    assert(out.deep_view() =~= before + seq![piece@]);
                    assert(before + spec_cors_from(s@, start as int, cur as int) =~= out.deep_view()
                        + spec_cors_from(s@, cur as int + 1, cur as int + 1));
                }
            } else {
                proof {
                    assert(before + spec_cors_from(s@, start as int, cur as int) =~= before
                        + spec_cors_from(s@, cur as int + 1, cur as int + 1));
                }
            }
            start = cur + 1;
        }
        cur = cur + 1;
    }
    let ghost before = out.deep_view();
    let piece = trimmed_piece(s, start, n);
    if piece.unicode_len() > 0 {
        out.push(piece);
        proof {
            assert(out.deep_view() =~= before + seq![piece@]);
            assert(out.deep_view() =~= spec_cors_list(s@));
        }
    } else {
        proof {
            assert(before =~= spec_cors_list(s@));
        }
    }
    out
}

impl Config {
    /// Build the configuration from the raw environment values, with the
    /// front end's defaults: `development`, port `8080`, all origins, `info`
    /// logging.  Only an unparsable port is an error.
    pub fn from_parts(
        app_env: Option<String>,
        port: Option<String>,
        cors_allowed_origins: Option<String>,
        rust_log: Option<String>,
    ) -> (r: Result<Config, String>)
        ensures
            r is Ok <==> spec_parse_port(opt_or(port, "8080"@)) is Some,
            r matches Ok(c) ==> {
                &&& c.app_env@ == opt_or(app_env, "development"@)
                &&& Some(c.port) == spec_parse_port(opt_or(port, "8080"@))
                &&& c.cors_allowed_origins.deep_view() == spec_cors_list(
                    opt_or(cors_allowed_origins, "*"@),
                )
                &&& c.rust_log@ == opt_or(rust_log, "info"@)
            },
            r matches Err(m) ==> m@ == "PORT must be a valid u16"@,
    {
        let app_env = match app_env {
            Some(s) => s,
            None => String::from_str("development"),
        };
        let port_string = match port {
            Some(s) => s,
            None => String::from_str("8080"),
        };
        let p = match parse_port(port_string.as_str()) {
            Some(p) => p,
            None => {
                return Err(String::from_str("PORT must be a valid u16"));
            },
        };
        let cors_string = match cors_allowed_origins {
            Some(s) => s,
            None => String::from_str("*"),
        };
        let cors = cors_origins(cors_string.as_str());
        let rust_log = match rust_log {
            Some(s) => s,
            None => String::from_str("info"),
        };
        Ok(Config { app_env, port: p, cors_allowed_origins: cors, rust_log })
    }

    /// Validate the configuration: the only constraint is a non-zero port.
    pub fn validate(&self) -> (r: Result<(), String>)
        ensures
            r.is_ok() <==> self.port != 0,
            r matches Err(m) ==> m@ == "PORT must be greater than 0"@,
    {
        if self.port == 0 {
            Err(String::from_str("PORT must be greater than 0"))
        } else {
            Ok(())
        }
    }
}

/// The error body the HTTP front end sends.
#[derive(Debug, Clone)]
pub struct ErrorResponse {
    pub error: String,
}

/// The HTTP front end's error classification: a malformed request, or an
/// internal failure while compressing.
#[derive(Debug, Clone)]
pub enum ApiError {
    BadRequest(String),
    InternalError(String),
}

impl ApiError {
    pub open spec fn spec_message(&self) -> Seq<char> {
        match self {
            ApiError::BadRequest(m) => m@,
            ApiError::InternalError(m) => m@,
        }
    }

    /// The message carried by either variant.
    pub fn message(&self) -> (r: String)
        ensures
            r@ == self.spec_message(),
    {
        match self {
            ApiError::BadRequest(m) => m.clone(),
            ApiError::InternalError(m) => m.clone(),
        }
    }
}

} // verus!
