//! Host enrollment: feature flags, host-hint normalization, the one-time wire token
//! `ghe.<enrollment_id>.<secret>`, token hashing and comparison, and enrollment failures.
use sha2::Digest;
use subtle::ConstantTimeEq;
use vstd::prelude::*;
use vstd::string::StringSliceAdditionalSpecFns;

use crate::text::{
    chars_of, find_char, first_index_of, is_whitespace_char, lower_seq, push_char, push_chars, push_str,
    starts_with_seq, str_equal, string_of_range, trim_lower, trim_seq, trim_to_string,
};

verus! {

/// Default bootstrap / Host Setup session record id.
pub const DEFAULT_SETUP_WIZARD_SESSION_RECORD_ID: &'static str = "default";

/// Neutral alias for [`DEFAULT_SETUP_WIZARD_SESSION_RECORD_ID`] (fleet-bootstrap session id).
pub const DEFAULT_BOOTSTRAP_SESSION_RECORD_ID: &'static str = "default";

/// Spellings that switch a flag on (after trimming and lowercasing).
pub open spec fn truthy_flag(v: Seq<char>) -> bool {
    let n = lower_seq(trim_seq(v));
    n == "1"@ || n == "true"@ || n == "yes"@ || n == "on"@
}

/// Spellings that switch a flag off (after trimming and lowercasing).
pub open spec fn falsy_flag(v: Seq<char>) -> bool {
    let n = lower_seq(trim_seq(v));
    n == "0"@ || n == "false"@ || n == "no"@ || n == "off"@
}

/// Whether a flag value is one of `1`, `true`, `yes`, `on` (any case, surrounding space ignored).
pub fn is_truthy_flag(v: &str) -> (r: bool)
    ensures
        r == truthy_flag(v@),
{
    let n = trim_lower(v);
    let s = n.as_str();
    str_equal(s, "1") || str_equal(s, "true") || str_equal(s, "yes") || str_equal(s, "on")
}

/// Whether a flag value is one of `0`, `false`, `no`, `off` (any case, surrounding space ignored).
pub fn is_falsy_flag(v: &str) -> (r: bool)
    ensures
        r == falsy_flag(v@),
{
    let n = trim_lower(v);
    let s = n.as_str();
    str_equal(s, "0") || str_equal(s, "false") || str_equal(s, "no") || str_equal(s, "off")
}

/// Whether the operator opted into running without a configured shared token, given the value
/// of `PION_ALLOW_INSECURE` (`None` when unset).
pub fn insecure_mode_allowed(allow_insecure: Option<&str>) -> (r: bool)
    ensures
        r == match allow_insecure {
            Some(v) => truthy_flag(v@),
            None => false,
        },
{
    match allow_insecure {
        Some(v) => is_truthy_flag(v),
        None => false,
    }
}

/// Whether heartbeats that would create a new node must present a valid enrollment token, given
/// `PARTON_ENROLLMENT_STRICT_NEW_NODES` and `PION_ALLOW_INSECURE`.
///
/// Strict by default: a lax value of the first variable is honored only when insecure mode is
/// also switched on.
pub fn enrollment_strict_new_nodes(strict_new_nodes: Option<&str>, allow_insecure: Option<&str>) -> (r:
    bool)
    ensures
        r == !((match strict_new_nodes {
            Some(v) => falsy_flag(v@),
            None => false,
        }) && (match allow_insecure {
            Some(v) => truthy_flag(v@),
            None => false,
        })),
{
    let lax_requested = match strict_new_nodes {
        Some(v) => is_falsy_flag(v),
        None => false,
    };
    !(lax_requested && insecure_mode_allowed(allow_insecure))
}

/// Whether the connecting peer IP must match the enrollment's expected host, given
/// `PARTON_ENROLLMENT_VERIFY_SOURCE_IP`. On unless the value is a falsy spelling.
pub fn enrollment_verify_source_ip(verify_source_ip: Option<&str>) -> (r: bool)
    ensures
        r == match verify_source_ip {
            Some(v) => !falsy_flag(v@),
            None => true,
        },
{
    match verify_source_ip {
        Some(v) => !is_falsy_flag(v),
        None => true,
    }
}

/// A lone lax request never relaxes enrollment: without the insecure opt-in, enrollment is
/// strict whatever the strictness variable says, and an insecure opt-in alone relaxes nothing.
pub proof fn lemma_strict_without_insecure_opt_in(strict_value: Option<Seq<char>>, insecure_value: Option<Seq<char>>)
    ensures
        !(match insecure_value {
            Some(v) => truthy_flag(v),
            None => false,
        }) ==> !((match strict_value {
            Some(v) => falsy_flag(v),
            None => false,
        }) && (match insecure_value {
            Some(v) => truthy_flag(v),
            None => false,
        })),
        strict_value is None ==> !((match strict_value {
            Some(v) => falsy_flag(v),
            None => false,
        }) && (match insecure_value {
            Some(v) => truthy_flag(v),
            None => false,
        })),
{
}

/// Whether `c` is an ASCII digit.
pub open spec fn is_ascii_digit(c: char) -> bool {
    '0' <= c && c <= '9'
}

/// How many ASCII digits `s` ends with.
pub open spec fn trailing_digit_count(s: Seq<char>) -> nat
    decreases s.len(),
{
    if s.len() > 0 && is_ascii_digit(s.last()) {
        1 + trailing_digit_count(s.drop_last())
    } else {
        0
    }
}

/// `s` names an explicit port: it ends in `:` followed by one or more digits, with a host
/// part before the colon.
pub open spec fn has_port(s: Seq<char>) -> bool {
    let k = trailing_digit_count(s);
    0 < k && k < s.len() && s[s.len() - k - 1] == ':'
}

/// The host part of a hint: everything before the port's colon, or all of it without a port.
pub open spec fn host_part(s: Seq<char>) -> Seq<char> {
    if has_port(s) {
        s.subrange(0, s.len() - trailing_digit_count(s) - 1)
    } else {
        s
    }
}

/// The port of a hint: its trailing digits where it names a port, else the display default.
pub open spec fn port_part(s: Seq<char>) -> Seq<char> {
    if has_port(s) {
        s.subrange(s.len() - trailing_digit_count(s), s.len() as int)
    } else {
        "3000"@
    }
}

/// A normalized host hint: the trimmed input with its host part lowercased, its port kept,
/// and port 3000 added where none is given. Blank input stays empty (no host recorded).
pub open spec fn host_hint_text(raw: Seq<char>) -> Seq<char> {
    let t = trim_seq(raw);
    if t.len() == 0 {
        t
    } else {
        lower_seq(host_part(t)) + ":"@ + port_part(t)
    }
}

/// Normalize host input: trim, lowercase the host part, and default the port to 3000 for
/// display when none is given. Blank input gives the empty string.
pub fn normalize_agent_host_hint(raw: &str) -> (r: String)
    ensures
        r@ == host_hint_text(raw@),
        trim_seq(raw@).len() == 0 ==> r@.len() == 0,
        has_port(trim_seq(raw@)) ==> r@ == lower_seq(host_part(trim_seq(raw@))) + ":"@
            + port_part(trim_seq(raw@)),
        trim_seq(raw@).len() > 0 && !has_port(trim_seq(raw@)) ==> r@ == lower_seq(
            trim_seq(raw@),
        ) + ":3000"@,
{
    let t = trim_to_string(raw);
    let v = chars_of(t.as_str());
    let n = v.len();
    assert(v@ == trim_seq(raw@));
    if n == 0 {
        return t;
    }
    let mut k: usize = 0;
    assert(v@.subrange(0, n as int) =~= v@);
    while k < n && is_digit_char(v[n - 1 - k])
        invariant
            k <= n,
            n == v@.len(),
            trailing_digit_count(v@) == k + trailing_digit_count(v@.subrange(0, n - k)),
        decreases n - k,
    {
        let ghost pre = v@.subrange(0, n - k);
        assert(pre.drop_last() =~= v@.subrange(0, n - k - 1));
        k = k + 1;
    }
    assert(trailing_digit_count(v@.subrange(0, n - k)) == 0);
    assert(trailing_digit_count(v@) == k);
    let lowered = chars_of(trim_lower(raw).as_str());
    assert(lowered@ =~= lower_seq(v@));
    if k > 0 && k < n && v[n - 1 - k] == ':' {
        let h = n - 1 - k;
        let mut out = string_of_range(&lowered, 0, h);
        push_char(&mut out, ':');
        push_chars(&mut out, &v, n - k, n);
        assert(lowered@.subrange(0, h as int) =~= lower_seq(v@.subrange(0, h as int)));
        assert(has_port(v@));
        assert(host_part(v@) =~= v@.subrange(0, h as int));
        assert(port_part(v@) =~= v@.subrange(n - k, n as int));
        proof {
            reveal_strlit(":");
        }
        assert(out@ =~= host_hint_text(raw@));
        out
    } else {
        let mut out = string_of_range(&lowered, 0, n);
        push_str(&mut out, ":3000");
        assert(lowered@.subrange(0, n as int) =~= lowered@);
        assert(!has_port(v@));
        proof {
            reveal_strlit(":");
            reveal_strlit(":3000");
            reveal_strlit("3000");
        }
        assert(out@ =~= host_hint_text(raw@));
        out
    }
}

fn is_digit_char(c: char) -> (r: bool)
    ensures
        r == is_ascii_digit(c),
{
    '0' <= c && c <= '9'
}

/// Wire prefix of an enrollment token.
pub const TOKEN_PREFIX: &'static str = "ghe";

/// `ghe.<enrollment_id>.<secret>`.
pub open spec fn spec_build_token(id: Seq<char>, secret: Seq<char>) -> Seq<char> {
    "ghe"@ + "."@ + id + "."@ + secret
}

/// Parse of a wire token: trimmed, the `ghe.` prefix, then an id up to the first `.` and the
/// rest as the secret; both must be non-empty.
pub open spec fn spec_parse_token(raw: Seq<char>) -> Option<(Seq<char>, Seq<char>)> {
    let s = trim_seq(raw);
    if starts_with_seq(s, "ghe."@) {
        let rest = s.subrange(4, s.len() as int);
        match first_index_of(rest, '.') {
            Some(k) => {
                let id = rest.subrange(0, k);
                let secret = rest.subrange(k + 1, rest.len() as int);
                if id.len() > 0 && secret.len() > 0 {
                    Some((id, secret))
                } else {
                    None
                }
            },
            None => None,
        }
    } else {
        None
    }
}

/// Builds the wire form `ghe.<enrollment_id>.<secret>`.
pub fn build_full_token(enrollment_id: &str, secret: &str) -> (r: String)
    ensures
        r@ == spec_build_token(enrollment_id@, secret@),
{
    let mut s = String::new();
    push_str(&mut s, TOKEN_PREFIX);
    push_str(&mut s, ".");
    push_str(&mut s, enrollment_id);
    push_str(&mut s, ".");
    push_str(&mut s, secret);
    s
}

/// Parses the `ghe.<enrollment_id>.<secret>` wire form.
pub fn parse_enrollment_wire_token(raw: &str) -> (r: Option<(String, String)>)
    ensures
        match r {
            Some((id, secret)) => spec_parse_token(raw@) == Some((id@, secret@)),
            None => spec_parse_token(raw@) is None,
        },
{
    proof {
        reveal_strlit("ghe.");
    }
    let t = trim_to_string(raw);
    let v = chars_of(t.as_str());
    if v.len() < 4 || v[0] != 'g' || v[1] != 'h' || v[2] != 'e' || v[3] != '.' {
        proof {
            if starts_with_seq(v@, "ghe."@) {
                assert(v@.subrange(0, 4)[0] == 'g');
                assert(v@.subrange(0, 4)[1] == 'h');
                assert(v@.subrange(0, 4)[2] == 'e');
                assert(v@.subrange(0, 4)[3] == '.');
            }
        }
        return None;
    }
    assert(v@.subrange(0, 4) =~= "ghe."@);
    let rest = string_of_range(&v, 4, v.len());
    let rv = chars_of(rest.as_str());
    match find_char(&rv, '.') {
        Some(k) => {
            if k == 0 || k + 1 == rv.len() {
                return None;
            }
            let id = string_of_range(&rv, 0, k);
            let secret = string_of_range(&rv, k + 1, rv.len());
            Some((id, secret))
        },
        None => None,
    }
}

/// Parsing a built token gives back its id and secret, for an id with no `.` and a secret
/// that does not end in whitespace.
pub proof fn lemma_token_roundtrip(id: Seq<char>, secret: Seq<char>)
    requires
        id.len() > 0,
        forall|i: int| 0 <= i < id.len() ==> id[i] != '.',
        secret.len() > 0,
        !is_whitespace_char(secret.last()),
    ensures
        spec_parse_token(spec_build_token(id, secret)) == Some((id, secret)),
{
    reveal_strlit("ghe");
    reveal_strlit(".");
    reveal_strlit("ghe.");
    let w = spec_build_token(id, secret);
    assert(w[0] == 'g');
    assert(!is_whitespace_char(w[0]));
    assert(w.last() == secret.last());
    assert(trim_start_seq_is_identity(w));
    assert(trim_seq(w) == w);
    assert(w.subrange(0, 4) =~= "ghe."@);
    let rest = w.subrange(4, w.len() as int);
    assert(rest =~= id + "."@ + secret);
    assert(rest[id.len() as int] == '.');
    let k = id.len() as int;
    assert(forall|j: int| 0 <= j < k ==> rest[j] == id[j]);
    assert(first_index_of(rest, '.') == Some(k)) by {
        let c = choose|i: int|
            0 <= i < rest.len() && rest[i] == '.' && forall|j: int| 0 <= j < i ==> rest[j] != '.';
        assert(0 <= k < rest.len() && rest[k] == '.' && forall|j: int| 0 <= j < k ==> rest[j] != '.');
        if c < k {
            assert(rest[c] == id[c]);
        } else if c > k {
            assert(rest[k] != '.');
        }
    }
    assert(rest.subrange(0, k) =~= id);
    assert(rest.subrange(k + 1, rest.len() as int) =~= secret);
}

/// The trimming of a string whose ends are not whitespace leaves it unchanged.
pub open spec fn trim_start_seq_is_identity(s: Seq<char>) -> bool {
    s.len() > 0 && !is_whitespace_char(s[0]) && !is_whitespace_char(s.last())
}

/// Lowercase hex digit of a nibble.
pub open spec fn hex_digit(d: nat) -> char {
    if d < 10 {
        ((d + 48) as u32) as char
    } else {
        ((d + 87) as u32) as char
    }
}

/// Lowercase hex encoding, two digits per byte.
pub open spec fn hex_lower(bytes: Seq<u8>) -> Seq<char>
    decreases bytes.len(),
{
    if bytes.len() == 0 {
        seq![]
    } else {
        hex_lower(bytes.drop_last()) + seq![
            hex_digit((bytes.last() / 16) as nat),
            hex_digit((bytes.last() % 16) as nat),
        ]
    }
}

fn hex_digit_char(d: u8) -> (c: char)
    requires
        d < 16,
    ensures
        c == hex_digit(d as nat),
{
    if d < 10 {
        (d + 48) as char
    } else {
        (d + 87) as char
    }
}

/// SHA-256 digest of a byte string, as computed by the `sha2` crate.
pub uninterp spec fn sha256_digest(data: Seq<u8>) -> Seq<u8>;

/// Calls `sha2::Sha256::digest`; the contract says the result is the SHA-256 digest of the
/// input (an uninterpreted function of the bytes) and is 32 bytes long, the output size that
/// `sha2` declares for SHA-256.
#[verifier::external_body]
fn sha256(data: &[u8]) -> (r: Vec<u8>)
    ensures
        r@ == sha256_digest(data@),
        r@.len() == 32,
{
    sha2::Sha256::digest(data).to_vec()
}

/// Lowercase hex of a byte string: two digits per byte, high nibble first.
pub fn hex_lower_string(bytes: &[u8]) -> (r: String)
    ensures
        r@ == hex_lower(bytes@),
        r@.len() == 2 * bytes@.len(),
{
    let mut s = String::new();
    let mut i: usize = 0;
    while i < bytes.len()
        invariant
            i <= bytes@.len(),
            s@ == hex_lower(bytes@.subrange(0, i as int)),
            s@.len() == 2 * i,
        decreases bytes@.len() - i,
    {
        let b = bytes[i];
        push_char(&mut s, hex_digit_char(b / 16));
        push_char(&mut s, hex_digit_char(b % 16));
        proof {
            let post = bytes@.subrange(0, i + 1);
            assert(post.drop_last() =~= bytes@.subrange(0, i as int));
            assert(post.last() == b);
            assert(s@ =~= hex_lower(post));
        }
        i = i + 1;
    }
    assert(bytes@.subrange(0, bytes@.len() as int) =~= bytes@);
    s
}

/// Lowercase hex of the SHA-256 digest of the UTF-8 bytes of `input`.
pub fn hex_sha256(input: &str) -> (r: String)
    ensures
        r@ == hex_lower(sha256_digest(input.spec_bytes())),
        r@.len() == 64,
{
    let digest = sha256(input.as_bytes());
    hex_lower_string(digest.as_slice())
}

/// Calls `subtle::ConstantTimeEq::ct_eq` on two byte slices and converts the `Choice` to
/// `bool`; as its source shows, the result is true exactly when the slices are equal (it
/// returns false at once when their lengths differ).
#[verifier::external_body]
fn ct_eq_bytes(a: &[u8], b: &[u8]) -> (r: bool)
    ensures
        r == (a@ == b@),
{
    a.ct_eq(b).into()
}

/// Constant-time comparison of two strings (short-circuits only on a length mismatch).
pub fn constant_time_eq(a: &str, b: &str) -> (r: bool)
    ensures
        r == (a@ == b@),
{
    let x = a.as_bytes();
    let y = b.as_bytes();
    if x.len() != y.len() {
        proof {
            if a@ == b@ {
                assert(a.spec_bytes() == b.spec_bytes());
            }
        }
        return false;
    }
    let r = ct_eq_bytes(x, y);
    proof {
        vstd::utf8::encode_utf8_decode_utf8(a@);
        vstd::utf8::encode_utf8_decode_utf8(b@);
    }
    r
}

/// Failure reasons for enrollment token verification and new-node validation.
#[derive(Debug)]
pub enum EnrollmentError {
    /// New-node heartbeat omitted the enrollment wire token.
    TokenRequired,
    /// Wire token did not parse as `enrollment_id.secret`.
    InvalidFormat,
    /// No enrollment row for the parsed id.
    UnknownId,
    /// Enrollment row is not in `Pending` status.
    NotPending,
    /// Enrollment `expires_at` is in the past.
    Expired,
    /// Peer IP does not match `expected_agent_host` when source-IP verify is enabled.
    SourceIpMismatch,
    /// Presented token hash does not match the stored hash.
    TokenMismatch,
    /// Heartbeat `cell_id` does not match the enrollment row's cell.
    CellIdMismatch,
    /// Persistence failure while loading or updating enrollment.
    Internal {
        /// What the storage layer reported.
        message: String,
    },
}

/// The operator-facing message of each failure.
pub open spec fn enrollment_error_text(e: EnrollmentError) -> Seq<char> {
    match e {
        EnrollmentError::TokenRequired => "enrollment token required for new agent node"@,
        EnrollmentError::InvalidFormat => "invalid enrollment token format"@,
        EnrollmentError::UnknownId => "unknown enrollment id"@,
        EnrollmentError::NotPending => "enrollment is not pending"@,
        EnrollmentError::Expired => "enrollment expired"@,
        EnrollmentError::SourceIpMismatch => "enrollment source ip does not match expected host"@,
        EnrollmentError::TokenMismatch => "enrollment token mismatch"@,
        EnrollmentError::CellIdMismatch => "heartbeat cell_id does not match enrollment"@,
        EnrollmentError::Internal { message } => message@,
    }
}

impl EnrollmentError {
    /// The operator-facing message.
    pub fn to_string(&self) -> (r: String)
        ensures
            r@ == enrollment_error_text(*self),
    {
        let mut s = String::new();
        match self {
            EnrollmentError::TokenRequired => push_str(
                &mut s,
                "enrollment token required for new agent node",
            ),
            EnrollmentError::InvalidFormat => push_str(&mut s, "invalid enrollment token format"),
            EnrollmentError::UnknownId => push_str(&mut s, "unknown enrollment id"),
            EnrollmentError::NotPending => push_str(&mut s, "enrollment is not pending"),
            EnrollmentError::Expired => push_str(&mut s, "enrollment expired"),
            EnrollmentError::SourceIpMismatch => push_str(
                &mut s,
                "enrollment source ip does not match expected host",
            ),
            EnrollmentError::TokenMismatch => push_str(&mut s, "enrollment token mismatch"),
            EnrollmentError::CellIdMismatch => push_str(
                &mut s,
                "heartbeat cell_id does not match enrollment",
            ),
            EnrollmentError::Internal { message } => push_str(&mut s, message.as_str()),
        }
        assert(s@ =~= enrollment_error_text(*self));
        s
    }
}

} // verus!
