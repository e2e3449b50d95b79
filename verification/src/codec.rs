//! The value codec: the compact, colon-delimited text encoding in which
//! routing entries are stored in the key-value table.
//!
//! An entry is `version ':' body`, where `version` is three zero-padded
//! ASCII digits.  Version 0 bodies hold two one-character flags
//! (`permanent`, `append_path`); version 1 bodies hold a third (`fetch`).
//! Each flag sits at a fixed character offset, preceded by a `:` separator,
//! and everything after the last flag's separator is the destination URL,
//! taken verbatim (it may itself contain `:` or `/`).

use vstd::prelude::*;
use vstd::string::*;
use vstd::utf8::char_u32_cast;

verus! {

/// Why decoding a stored routing entry failed.
#[derive(Clone, Copy, Debug, PartialEq, Eq)]
pub enum DecodeError {
    /// The version field is absent or not three ASCII digits.
    InvalidVersion,
    /// The version number is outside the supported set {0, 1}.
    UnsupportedVersion,
    /// The entry ends before one of its flag positions.
    TruncatedEntry,
    /// A flag position holds a character other than `t` or `f`.
    InvalidFlag,
    /// The entry ends before any URL character.
    MissingUrl,
}

/// A decoded routing entry.
///
/// The encoding's version field only selects the schema an entry is read
/// with and is not retained: its one observable effect, whether a `fetch`
/// flag is present, is made explicit in that field's default.
#[derive(Clone, Debug, PartialEq, Eq)]
pub struct RoutingValue {
    /// Redirect with status 301 (permanent) rather than 307 (temporary).
    pub permanent: bool,
    /// Append the original request path to the target URL when redirecting.
    pub append_path: bool,
    /// Proxy-and-cache the stored URL instead of redirecting to it.
    /// Version 0 entries carry no such flag; for them it is always false.
    pub fetch: bool,
    /// The destination (redirect) or origin (proxy) URL; never empty.
    pub url: String,
}

/// Mathematical image of a [`RoutingValue`].
pub ghost struct RoutingValueView {
    pub permanent: bool,
    pub append_path: bool,
    pub fetch: bool,
    pub url: Seq<char>,
}

impl View for RoutingValue {
    type V = RoutingValueView;

    open spec fn view(&self) -> RoutingValueView {
        RoutingValueView {
            permanent: self.permanent,
            append_path: self.append_path,
            fetch: self.fetch,
            url: self.url@,
        }
    }
}

/// `c` is one of the ASCII digits `0`..`9`.
pub open spec fn is_ascii_digit_char(c: char) -> bool {
    48 <= c as u32 && c as u32 <= 57
}

/// Numeric value of the ASCII digit `c`.
pub open spec fn digit_value(c: char) -> int
    recommends
        is_ascii_digit_char(c),
{
    c as u32 - 48
}

/// The entry begins with a three-ASCII-digit version field.
pub open spec fn has_version_field(s: Seq<char>) -> bool {
    &&& s.len() >= 3
    &&& is_ascii_digit_char(s[0])
    &&& is_ascii_digit_char(s[1])
    &&& is_ascii_digit_char(s[2])
}

/// The number held by the version field.
pub open spec fn version_number(s: Seq<char>) -> int
    recommends
        has_version_field(s),
{
    100 * digit_value(s[0]) + 10 * digit_value(s[1]) + digit_value(s[2])
}

/// Reading the one-character flag at character offset `i`: absent when the
/// entry is too short, `true` for `t`, `false` for `f`, an error otherwise.
pub open spec fn flag_at(s: Seq<char>, i: int) -> Result<bool, DecodeError> {
    if s.len() <= i {
        Err(DecodeError::TruncatedEntry)
    } else if s[i] == 't' {
        Ok(true)
    } else if s[i] == 'f' {
        Ok(false)
    } else {
        Err(DecodeError::InvalidFlag)
    }
}

/// Reading the URL portion: everything from character offset `i` on,
/// which must be non-empty.
pub open spec fn url_from(s: Seq<char>, i: int) -> Result<Seq<char>, DecodeError>
    recommends
        0 <= i,
{
    if s.len() <= i {
        Err(DecodeError::MissingUrl)
    } else {
        Ok(s.subrange(i, s.len() as int))
    }
}

/// Decoding a version-0 body: flags at offsets 4 and 6, URL from offset 8,
/// `fetch` implicitly false.
pub open spec fn decode_v0_spec(s: Seq<char>) -> Result<RoutingValueView, DecodeError> {
    match flag_at(s, 4) {
        Err(e) => Err(e),
        Ok(permanent) => match flag_at(s, 6) {
            Err(e) => Err(e),
            Ok(append_path) => match url_from(s, 8) {
                Err(e) => Err(e),
                Ok(url) => Ok(RoutingValueView { permanent, append_path, fetch: false, url }),
            },
        },
    }
}

/// Decoding a version-1 body: flags at offsets 4, 6 and 8, URL from offset 10.
pub open spec fn decode_v1_spec(s: Seq<char>) -> Result<RoutingValueView, DecodeError> {
    match flag_at(s, 4) {
        Err(e) => Err(e),
        Ok(permanent) => match flag_at(s, 6) {
            Err(e) => Err(e),
            Ok(append_path) => match flag_at(s, 8) {
                Err(e) => Err(e),
                Ok(fetch) => match url_from(s, 10) {
                    Err(e) => Err(e),
                    Ok(url) => Ok(RoutingValueView { permanent, append_path, fetch, url }),
                },
            },
        },
    }
}

/// What decoding an encoded entry yields: the version field selects the
/// schema, and the body is read at that schema's fixed offsets.
pub open spec fn decode_spec(s: Seq<char>) -> Result<RoutingValueView, DecodeError> {
    if !has_version_field(s) {
        Err(DecodeError::InvalidVersion)
    } else if version_number(s) == 0 {
        decode_v0_spec(s)
    } else if version_number(s) == 1 {
        decode_v1_spec(s)
    } else {
        Err(DecodeError::UnsupportedVersion)
    }
}

/// The character that encodes flag `b`.
pub open spec fn flag_char(b: bool) -> char {
    if b {
        't'
    } else {
        'f'
    }
}

/// Spec image of [`encode`]: a version-1 entry holding `v`'s flags and URL.
pub open spec fn encode_spec(v: RoutingValueView) -> Seq<char> {
    seq![
        '0',
        '0',
        '1',
        ':',
        flag_char(v.permanent),
        ':',
        flag_char(v.append_path),
        ':',
        flag_char(v.fetch),
        ':',
    ] + v.url
}

/// Encode a routing entry in the newest schema (version 1).
///
/// Entries are normally authored out of band; the encoder exists so the
/// grammar's round trip can be stated and exercised.
pub fn encode(v: &RoutingValue) -> (r: String)
    ensures
        r@ == encode_spec(v@),
{
    proof {
        reveal_strlit("001:");
        reveal_strlit("t");
        reveal_strlit("f");
        reveal_strlit(":");
    }
    let mut s = String::from_str("001:");
    s.append(if v.permanent { "t" } else { "f" });
    s.append(":");
    s.append(if v.append_path { "t" } else { "f" });
    s.append(":");
    s.append(if v.fetch { "t" } else { "f" });
    s.append(":");
    s.append(v.url.as_str());
    proof {
        assert(s@ =~= encode_spec(v@));
    }
    s
}

/// The grammar round-trips: decoding an encoded entry yields the entry
/// back, for every value whose URL is non-empty, as the data model
/// requires of every entry.
pub proof fn lemma_encode_decode_round_trip(v: RoutingValueView)
    requires
        v.url.len() > 0,
    ensures
        decode_spec(encode_spec(v)) == Ok::<RoutingValueView, DecodeError>(v),
{
    let s = encode_spec(v);
    assert(s.len() == 10 + v.url.len());
    assert(version_number(s) == 1);
    assert(flag_at(s, 4) == Ok::<bool, DecodeError>(v.permanent));
    assert(flag_at(s, 6) == Ok::<bool, DecodeError>(v.append_path));
    assert(flag_at(s, 8) == Ok::<bool, DecodeError>(v.fetch));
    assert(url_from(s, 10) == Ok::<Seq<char>, DecodeError>(v.url)) by {
        assert(s.subrange(10, s.len() as int) =~= v.url);
    }
}

/// Every valid version-0 entry decodes to the literal flags at offsets 4
/// and 6, an implicit false `fetch`, and the remainder from offset 8 as
/// its URL.
pub proof fn lemma_decode_v0_literal(s: Seq<char>)
    requires
        s.len() > 8,
        s[0] == '0' && s[1] == '0' && s[2] == '0',
        s[4] == 't' || s[4] == 'f',
        s[6] == 't' || s[6] == 'f',
    ensures
        decode_spec(s) == Ok::<RoutingValueView, DecodeError>(
            RoutingValueView {
                permanent: s[4] == 't',
                append_path: s[6] == 't',
                fetch: false,
                url: s.subrange(8, s.len() as int),
            },
        ),
{
}

/// Every valid version-1 entry decodes to the literal flags at offsets 4,
/// 6 and 8 and the remainder from offset 10 as its URL.
pub proof fn lemma_decode_v1_literal(s: Seq<char>)
    requires
        s.len() > 10,
        s[0] == '0' && s[1] == '0' && s[2] == '1',
        s[4] == 't' || s[4] == 'f',
        s[6] == 't' || s[6] == 'f',
        s[8] == 't' || s[8] == 'f',
    ensures
        decode_spec(s) == Ok::<RoutingValueView, DecodeError>(
            RoutingValueView {
                permanent: s[4] == 't',
                append_path: s[6] == 't',
                fetch: s[8] == 't',
                url: s.subrange(10, s.len() as int),
            },
        ),
{
}

/// Any well-formed version field other than `000` or `001` is rejected as
/// an unsupported version.
pub proof fn lemma_unsupported_version(s: Seq<char>)
    requires
        has_version_field(s),
        !(s[0] == '0' && s[1] == '0' && (s[2] == '0' || s[2] == '1')),
    ensures
        decode_spec(s) == Err::<RoutingValueView, DecodeError>(DecodeError::UnsupportedVersion),
{
    let a = digit_value(s[0]);
    let b = digit_value(s[1]);
    let c = digit_value(s[2]);
    assert(0 <= a <= 9 && 0 <= b <= 9 && 0 <= c <= 9);
    if version_number(s) == 0 {
        assert(a == 0 && b == 0 && c == 0);
        char_u32_cast(s[0], 48);
        char_u32_cast(s[1], 48);
        char_u32_cast(s[2], 48);
        char_u32_cast('0', 48);
        assert(s[0] == '0' && s[1] == '0' && s[2] == '0');
        assert(false);
    }
    if version_number(s) == 1 {
        assert(a == 0 && b == 0 && c == 1);
        char_u32_cast(s[0], 48);
        char_u32_cast(s[1], 48);
        char_u32_cast(s[2], 49);
        char_u32_cast('0', 48);
        char_u32_cast('1', 49);
        assert(s[0] == '0' && s[1] == '0' && s[2] == '1');
        assert(false);
    }
}

fn parse_flag(raw: &str, n: usize, off: usize) -> (r: Result<bool, DecodeError>)
    requires
        n == raw@.len(),
    ensures
        r == flag_at(raw@, off as int),
{
    if n <= off {
        return Err(DecodeError::TruncatedEntry);
    }
    let c = raw.get_char(off);
    if c == 't' {
        Ok(true)
    } else if c == 'f' {
        Ok(false)
    } else {
        Err(DecodeError::InvalidFlag)
    }
}

fn extract_url(raw: &str, n: usize, start: usize) -> (r: Result<String, DecodeError>)
    requires
        n == raw@.len(),
    ensures
        match r {
            Ok(u) => url_from(raw@, start as int) == Ok::<Seq<char>, DecodeError>(u@),
            Err(e) => url_from(raw@, start as int) == Err::<Seq<char>, DecodeError>(e),
        },
{
    if n <= start {
        return Err(DecodeError::MissingUrl);
    }
    let sub = raw.substring_char(start, n);
    Ok(String::from_str(sub))
}

fn decode_v0(raw: &str, n: usize) -> (r: Result<RoutingValue, DecodeError>)
    requires
        n == raw@.len(),
    ensures
        match r {
            Ok(v) => decode_v0_spec(raw@) == Ok::<RoutingValueView, DecodeError>(v@),
            Err(e) => decode_v0_spec(raw@) == Err::<RoutingValueView, DecodeError>(e),
        },
{
    let permanent = match parse_flag(raw, n, 4) {
        Ok(b) => b,
        Err(e) => return Err(e),
    };
    let append_path = match parse_flag(raw, n, 6) {
        Ok(b) => b,
        Err(e) => return Err(e),
    };
    let url = match extract_url(raw, n, 8) {
        Ok(u) => u,
        Err(e) => return Err(e),
    };
    Ok(RoutingValue { permanent, append_path, fetch: false, url })
}

fn decode_v1(raw: &str, n: usize) -> (r: Result<RoutingValue, DecodeError>)
    requires
        n == raw@.len(),
    ensures
        match r {
            Ok(v) => decode_v1_spec(raw@) == Ok::<RoutingValueView, DecodeError>(v@),
            Err(e) => decode_v1_spec(raw@) == Err::<RoutingValueView, DecodeError>(e),
        },
{
    let permanent = match parse_flag(raw, n, 4) {
        Ok(b) => b,
        Err(e) => return Err(e),
    };
    let append_path = match parse_flag(raw, n, 6) {
        Ok(b) => b,
        Err(e) => return Err(e),
    };
    let fetch = match parse_flag(raw, n, 8) {
        Ok(b) => b,
        Err(e) => return Err(e),
    };
    let url = match extract_url(raw, n, 10) {
        Ok(u) => u,
        Err(e) => return Err(e),
    };
    Ok(RoutingValue { permanent, append_path, fetch, url })
}

/// Decode a stored routing entry.
///
/// Succeeds exactly on the strings the encoding grammar admits, and then
/// returns the literal flags and URL present in the string; otherwise it
/// reports which part of the grammar the string breaks.
pub fn decode(raw: &str) -> (r: Result<RoutingValue, DecodeError>)
    ensures
        match r {
            Ok(v) => decode_spec(raw@) == Ok::<RoutingValueView, DecodeError>(v@),
            Err(e) => decode_spec(raw@) == Err::<RoutingValueView, DecodeError>(e),
        },
{
    let n = raw.unicode_len();
    if n < 3 {
        return Err(DecodeError::InvalidVersion);
    }
    let d0 = raw.get_char(0);
    let d1 = raw.get_char(1);
    let d2 = raw.get_char(2);
    let u0 = d0 as u32;
    let u1 = d1 as u32;
    let u2 = d2 as u32;
    if !(48 <= u0 && u0 <= 57 && 48 <= u1 && u1 <= 57 && 48 <= u2 && u2 <= 57) {
        return Err(DecodeError::InvalidVersion);
    }
    let version: u32 = 100 * (u0 - 48) + 10 * (u1 - 48) + (u2 - 48);
    if version == 0 {
        decode_v0(raw, n)
    } else if version == 1 {
        decode_v1(raw, n)
    } else {
        Err(DecodeError::UnsupportedVersion)
    }
}

} // verus!
