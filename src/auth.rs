//! The allow-list of HTTP Basic credentials that guards the metrics.
use vstd::prelude::*;
use vstd::string::StringSliceAdditionalSpecFns;
use vstd::utf8::{decode_utf8, encode_utf8, is_char_boundary, valid_utf8};
use base64::Engine as _;
use crate::text::{chars_of, debug_quote, debug_quoted, dec, push_dec, push_str, string_from_chars};

verus! {

broadcast use vstd::utf8::encode_utf8_valid_utf8;

/// The credentials that the allow-list accepts, as `user:password` strings.
pub struct AuthRules {
    pub entries: Vec<String>,
}

pub open spec fn strings_view(v: Seq<String>) -> Seq<Seq<char>> {
    v.map_values(|s: String| s@)
}

impl AuthRules {
    pub open spec fn allowed(&self) -> Set<Seq<char>> {
        strings_view(self.entries@).to_set()
    }

    /// Rules that accept exactly `entries`, or `None` when there are none.
    pub fn from_entries(entries: Vec<String>) -> (r: Option<Self>)
        ensures
            r is Some == (entries@.len() > 0),
            r matches Some(rules) ==> strings_view(rules.entries@) == strings_view(entries@),
    {
        if entries.len() == 0 {
            None
        } else {
            Some(AuthRules { entries })
        }
    }

    /// Number of entries.
    pub fn count(&self) -> (r: usize)
        ensures
            r == self.entries@.len(),
    {
        self.entries.len()
    }

    /// Whether `candidate` is on the list.
    pub fn allows(&self, candidate: &String) -> (r: bool)
        ensures
            r == self.allowed().contains(candidate@),
    {
        let ghost v = strings_view(self.entries@);
        let mut k: usize = 0;
        while k < self.entries.len()
            invariant
                k <= self.entries@.len(),
                v == strings_view(self.entries@),
                forall|j: int| 0 <= j < k ==> v[j] != candidate@,
            decreases self.entries@.len() - k,
        {
            if self.entries[k] == *candidate {
                assert(v[k as int] == candidate@);
                return true;
            }
            k = k + 1;
        }
        assert(!v.contains(candidate@));
        false
    }

    /// Evaluates the value of a request's `Authorization` header (`None`
    /// when the request has none).
    pub fn query_authorization(&self, auth_value: Option<&str>) -> (r: Result<
        AuthResult,
        InvalidHeaderError,
    >)
        ensures
            auth_value is None ==> r == Ok::<AuthResult, InvalidHeaderError>(
                AuthResult::MissingAuthHeader,
            ),
            auth_value matches Some(v) ==> match credentials_of(v@) {
                Err(e) => r == Err::<AuthResult, InvalidHeaderError>(e),
                Ok(c) => if self.allowed().contains(c) {
                    r == Ok::<AuthResult, InvalidHeaderError>(AuthResult::Accept)
                } else {
                    r matches Ok(AuthResult::Deny(who)) && who.shows(c)
                },
            },
    {
        match auth_value {
            None => Ok(AuthResult::MissingAuthHeader),
            Some(v) => {
                let credentials = parse_authorization_value(v)?;
                if self.allows(&credentials) {
                    Ok(AuthResult::Accept)
                } else {
                    Ok(AuthResult::Deny(DebugUserString::from_string(credentials)))
                }
            },
        }
    }
}

/// Why an `Authorization` header was not understood.
#[derive(Clone, Copy, Debug, PartialEq, Eq, Structural)]
pub enum InvalidHeaderError {
    MissingBasic,
    Base64,
    Utf8,
}

/// Result of evaluating a request against the rules.
#[derive(Clone, Debug, PartialEq, Eq)]
pub enum AuthResult {
    Accept,
    Deny(DebugUserString),
    MissingAuthHeader,
    NoneConfigured,
}

/// The bytes that `s` decodes to in standard base64 with padding, or `None`
/// when it is not such text.
pub uninterp spec fn base64_decoded(s: Seq<char>) -> Option<Seq<u8>>;

/// Relies on `base64::prelude::BASE64_STANDARD.decode`: its outcome depends
/// on the text alone.
#[verifier::external_body]
fn decode_base64(s: &str) -> (r: Option<Vec<u8>>)
    ensures
        r matches Some(v) ==> base64_decoded(s@) == Some(v@),
        r is None ==> base64_decoded(s@) is None,
{
    base64::prelude::BASE64_STANDARD.decode(s).ok()
}

/// Relies on `String::from_utf8` (std): it succeeds exactly on valid UTF-8,
/// with the characters that the bytes encode.
#[verifier::external_body]
fn string_from_utf8(bytes: Vec<u8>) -> (r: Option<String>)
    ensures
        r is Some == valid_utf8(bytes@),
        r matches Some(s) ==> s@ == decode_utf8(bytes@),
{
    String::from_utf8(bytes).ok()
}

/// The credentials of an `Authorization` header value: after `"Basic "`,
/// standard base64 of UTF-8 text.
pub open spec fn credentials_of(v: Seq<char>) -> Result<Seq<char>, InvalidHeaderError> {
    let p = "Basic "@;
    if !(p.len() <= v.len() && v.subrange(0, p.len() as int) == p) {
        Err(InvalidHeaderError::MissingBasic)
    } else {
        match base64_decoded(v.subrange(p.len() as int, v.len() as int)) {
            None => Err(InvalidHeaderError::Base64),
            Some(bytes) => if valid_utf8(bytes) {
                Ok(decode_utf8(bytes))
            } else {
                Err(InvalidHeaderError::Utf8)
            },
        }
    }
}

/// Decodes the credentials of an `Authorization` header value.
pub fn parse_authorization_value(auth_value: &str) -> (r: Result<String, InvalidHeaderError>)
    ensures
        match credentials_of(auth_value@) {
            Ok(c) => r matches Ok(s) && s@ == c,
            Err(e) => r == Err::<String, InvalidHeaderError>(e),
        },
{
    let v = chars_of(auth_value);
    let p = chars_of("Basic ");
    if !crate::text::starts_with_exec(&v, 0, v.len(), &p) {
        assert(v@.subrange(0, v@.len() as int) =~= v@);
        return Err(InvalidHeaderError::MissingBasic);
    }
    assert(v@.subrange(0, v@.len() as int) =~= v@);
    let rest = string_from_chars(&crate::text::copy_range(&v, p.len(), v.len()));
    let bytes = match decode_base64(rest.as_str()) {
        Some(b) => b,
        None => {
            return Err(InvalidHeaderError::Base64);
        },
    };
    match string_from_utf8(bytes) {
        Some(s) => Ok(s),
        None => Err(InvalidHeaderError::Utf8),
    }
}

/// Longest byte length of a user string that is shown in full.
pub const MAX_LEN: usize = 80;

/// The largest character boundary of `b` at or below `m`.
pub open spec fn boundary_at_most(b: Seq<u8>, m: int) -> int
    decreases m,
{
    if m <= 0 || is_char_boundary(b, m) {
        if m <= 0 {
            0
        } else {
            m
        }
    } else {
        boundary_at_most(b, m - 1)
    }
}

/// A user string for a log line, cut to at most `MAX_LEN` bytes.
#[derive(Clone, Debug, PartialEq, Eq)]
pub enum DebugUserString {
    Unchanged { value: String },
    Truncated { value: String, orig_len: usize },
}

impl DebugUserString {
    /// Whether this is how the credentials `c` are shown.
    pub open spec fn shows(&self, c: Seq<char>) -> bool {
        let b = encode_utf8(c);
        // the byte length as `str::len` reports it
        let n = b.len() as usize;
        if n <= MAX_LEN {
            *self matches DebugUserString::Unchanged { value } && value@ == c
        } else {
            *self matches DebugUserString::Truncated { value, orig_len } && orig_len == n
                && encode_utf8(value@) == b.subrange(0, boundary_at_most(b, MAX_LEN as int))
        }
    }

    /// Keeps `value` whole when it is at most `MAX_LEN` bytes long, otherwise
    /// its longest prefix of whole characters within `MAX_LEN` bytes.
    pub fn from_string(value: String) -> (r: Self)
        ensures
            r.shows(value@),
    {
        match DebugUserStringRef::from_str_ref(value.as_str()) {
            DebugUserStringRef::Unchanged { value: _ } => DebugUserString::Unchanged { value },
            DebugUserStringRef::Truncated { value: head, orig_len } => DebugUserString::Truncated {
                value: head.to_owned(),
                orig_len,
            },
        }
    }

    /// The text for a log line: the quoted value, followed by the full
    /// length when it was cut.
    pub fn to_text(&self) -> (r: String)
        ensures
            r@ == match self {
                DebugUserString::Unchanged { value } => debug_quoted(value@),
                DebugUserString::Truncated { value, orig_len } => debug_quoted(value@)
                    + "... (len "@ + dec(*orig_len as nat) + ")"@,
            },
    {
        match self {
            DebugUserString::Unchanged { value } => debug_quote(value.as_str()),
            DebugUserString::Truncated { value, orig_len } => {
                let quoted = debug_quote(value.as_str());
                let mut out = chars_of(quoted.as_str());
                push_str(&mut out, "... (len ");
                push_dec(&mut out, *orig_len as u128);
                push_str(&mut out, ")");
                string_from_chars(&out)
            },
        }
    }
}

/// A borrowed user string for a log line, cut to at most `MAX_LEN` bytes.
#[derive(Clone, Debug, PartialEq, Eq)]
pub enum DebugUserStringRef<'a> {
    Unchanged { value: &'a str },
    Truncated { value: &'a str, orig_len: usize },
}

impl<'a> DebugUserStringRef<'a> {
    /// Whether this is how the text `c` is shown.
    pub open spec fn shows(&self, c: Seq<char>) -> bool {
        let b = encode_utf8(c);
        let n = b.len() as usize;
        if n <= MAX_LEN {
            *self matches DebugUserStringRef::Unchanged { value } && value@ == c
        } else {
            *self matches DebugUserStringRef::Truncated { value, orig_len } && orig_len == n
                && encode_utf8(value@) == b.subrange(0, boundary_at_most(b, MAX_LEN as int))
        }
    }

    /// Keeps `value` whole when it is at most `MAX_LEN` bytes long, otherwise
    /// its longest prefix of whole characters within `MAX_LEN` bytes.
    pub fn from_str_ref(value: &'a str) -> (r: Self)
        ensures
            r.shows(value@),
    {
        let orig_len = value.len();
        assert(value.spec_bytes() == encode_utf8(value@));
        if orig_len <= MAX_LEN {
            DebugUserStringRef::Unchanged { value }
        } else {
            let mut cut = MAX_LEN;
            while cut > 0 && !value.is_char_boundary(cut)
                invariant
                    cut <= MAX_LEN,
                    boundary_at_most(value.spec_bytes(), MAX_LEN as int) == boundary_at_most(
                        value.spec_bytes(),
                        cut as int,
                    ),
                decreases cut,
            {
                cut = cut - 1;
            }
            assert(valid_utf8(value.spec_bytes()));
            assert(boundary_at_most(value.spec_bytes(), cut as int) == cut as int);
            let (head, _) = value.split_at(cut);
            DebugUserStringRef::Truncated { value: head, orig_len }
        }
    }

    /// The text for a log line: the quoted value, followed by the full
    /// length when it was cut.
    pub fn to_text(&self) -> (r: String)
        ensures
            r@ == match self {
                DebugUserStringRef::Unchanged { value } => debug_quoted(value@),
                DebugUserStringRef::Truncated { value, orig_len } => debug_quoted(value@)
                    + "... (len "@ + dec(*orig_len as nat) + ")"@,
            },
    {
        match self {
            DebugUserStringRef::Unchanged { value } => debug_quote(value),
            DebugUserStringRef::Truncated { value, orig_len } => {
                let quoted = debug_quote(value);
                let mut out = chars_of(quoted.as_str());
                push_str(&mut out, "... (len ");
                push_dec(&mut out, *orig_len as u128);
                push_str(&mut out, ")");
                string_from_chars(&out)
            },
        }
    }
}

} // verus!
