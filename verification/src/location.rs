//! Which lookup resolves the location of a request.
use vstd::prelude::*;
use vstd::string::is_ascii_spec_bytes;

verus! {

/// Whether `c` has the Unicode property White_Space.
pub open spec fn is_white_space(c: char) -> bool {
    let v = c as u32;
    ||| 0x09 <= v <= 0x0d
    ||| v == 0x20
    ||| v == 0x85
    ||| v == 0xa0
    ||| v == 0x1680
    ||| 0x2000 <= v <= 0x200a
    ||| v == 0x2028
    ||| v == 0x2029
    ||| v == 0x202f
    ||| v == 0x205f
    ||| v == 0x3000
}

/// `s` without its leading white space.
pub open spec fn trim_start(s: Seq<char>) -> Seq<char>
    decreases s.len(),
{
    if s.len() > 0 && is_white_space(s[0]) {
        trim_start(s.drop_first())
    } else {
        s
    }
}

/// `s` without its trailing white space.
pub open spec fn trim_end(s: Seq<char>) -> Seq<char>
    decreases s.len(),
{
    if s.len() > 0 && is_white_space(s.last()) {
        trim_end(s.drop_last())
    } else {
        s
    }
}

/// `s` without its leading and trailing white space.
pub open spec fn trimmed(s: Seq<char>) -> Seq<char> {
    trim_end(trim_start(s))
}

/// Trimming removes white space from the two ends and nothing else: the result
/// is a contiguous part of `s`, everything cut before and after it is white
/// space, and it neither starts nor ends with white space.
pub proof fn lemma_trimmed_cuts_only_white_space(s: Seq<char>)
    ensures
        exists|i: int, j: int|
            0 <= i <= j <= s.len() && trimmed(s) == s.subrange(i, j) && (forall|k: int|
                0 <= k < i ==> is_white_space(#[trigger] s[k])) && (forall|k: int|
                j <= k < s.len() ==> is_white_space(#[trigger] s[k])),
        trimmed(s).len() > 0 ==> !is_white_space(trimmed(s)[0]) && !is_white_space(
            trimmed(s).last(),
        ),
{
    let i = lemma_trim_start_cut(s);
    let t = trim_start(s);
    let j = lemma_trim_end_cut(t);
    assert(trimmed(s) == s.subrange(i, i + j));
    assert forall|k: int| i + j <= k < s.len() implies is_white_space(#[trigger] s[k]) by {
        assert(s[k] == t[k - i]);
    }
    if trimmed(s).len() > 0 {
        assert(trimmed(s)[0] == t[0]);
    }
}

/// `trim_start(s)` is `s` from some index on, white space before it, and does
/// not start with white space; the index is returned.
proof fn lemma_trim_start_cut(s: Seq<char>) -> (i: int)
    ensures
        0 <= i <= s.len(),
        trim_start(s) == s.subrange(i, s.len() as int),
        forall|k: int| 0 <= k < i ==> is_white_space(#[trigger] s[k]),
        trim_start(s).len() > 0 ==> !is_white_space(trim_start(s)[0]),
    decreases s.len(),
{
    if s.len() > 0 && is_white_space(s[0]) {
        let i1 = lemma_trim_start_cut(s.drop_first());
        assert forall|k: int| 0 <= k < i1 + 1 implies is_white_space(#[trigger] s[k]) by {
            if k > 0 {
                assert(s[k] == s.drop_first()[k - 1]);
            }
        }
        assert(s.drop_first().subrange(i1, s.len() - 1) == s.subrange(i1 + 1, s.len() as int));
        i1 + 1
    } else {
        assert(s.subrange(0, s.len() as int) == s);
        0
    }
}

/// `trim_end(s)` is the first `j` characters of `s`, white space after them,
/// and does not end with white space; `j` is returned.
proof fn lemma_trim_end_cut(s: Seq<char>) -> (j: int)
    ensures
        0 <= j <= s.len(),
        trim_end(s) == s.subrange(0, j),
        forall|k: int| j <= k < s.len() ==> is_white_space(#[trigger] s[k]),
        trim_end(s).len() > 0 ==> !is_white_space(trim_end(s).last()),
    decreases s.len(),
{
    if s.len() > 0 && is_white_space(s.last()) {
        let j1 = lemma_trim_end_cut(s.drop_last());
        assert forall|k: int| j1 <= k < s.len() implies is_white_space(#[trigger] s[k]) by {
            if k < s.len() - 1 {
                assert(s[k] == s.drop_last()[k]);
            }
        }
        assert(s.drop_last().subrange(0, j1) == s.subrange(0, j1));
        j1
    } else {
        assert(s.subrange(0, s.len() as int) == s);
        s.len() as int
    }
}

/// `str::trim`: the documentation of std says that it returns the string
/// without leading and trailing white space, white space being the characters
/// with the Unicode property White_Space. That is the whole claim here.
#[verifier::external_body]
fn trim(s: &str) -> (res: &str)
    ensures
        res@ == trimmed(s@),
{
    s.trim()
}

/// `c` with an ASCII capital letter turned into the small one.
pub open spec fn ascii_lowercase(c: char) -> char {
    if 'A' <= c <= 'Z' {
        ((c as u32) + 32) as char
    } else {
        c
    }
}

/// Whether `s` is the marker `auto`, in any mix of ASCII cases.
pub open spec fn is_ip_marker(s: Seq<char>) -> bool {
    &&& s.len() == 4
    &&& ascii_lowercase(s[0]) == 'a'
    &&& ascii_lowercase(s[1]) == 'u'
    &&& ascii_lowercase(s[2]) == 't'
    &&& ascii_lowercase(s[3]) == 'o'
}

/// The marker `auto` is matched in any mix of ASCII cases and nothing else:
/// exactly four characters, each the small or the capital letter of `auto` in turn.
pub proof fn lemma_ip_marker_is_auto_in_any_case(s: Seq<char>)
    ensures
        is_ip_marker(s) <==> (s.len() == 4 && (s[0] == 'a' || s[0] == 'A') && (s[1] == 'u' || s[1]
            == 'U') && (s[2] == 't' || s[2] == 'T') && (s[3] == 'o' || s[3] == 'O')),
{
}

/// How the location of a request is resolved.
pub enum LocationLookup {
    /// Coordinates were given: no lookup.
    Coordinates,
    /// Geolocate the machine by its IP address.
    ByIp,
    /// Geocode this place name.
    ByName(String),
}

/// `b` with an ASCII capital letter turned into the small one.
fn byte_lowercase(b: u8) -> (res: u8)
    ensures
        res == if 65 <= b <= 90 { b + 32 } else { b as int },
{
    if 65 <= b && b <= 90 {
        b + 32
    } else {
        b
    }
}

/// Whether `s` is the marker `auto`, in any mix of ASCII cases.
pub fn matches_ip_marker(s: &str) -> (res: bool)
    ensures
        res == is_ip_marker(s@),
{
    if !s.is_ascii() {
        proof {
            if is_ip_marker(s@) {
                assert forall|i: int| 0 <= i < s@.len() implies (s@[i] as u32) < 128 by {
                    assert(i == 0 || i == 1 || i == 2 || i == 3);
                }
                assert(vstd::utf8::is_ascii_chars(s@));
            }
        }
        return false;
    }
    let bytes = s.as_bytes();
    proof {
        broadcast use is_ascii_spec_bytes;

        assert(bytes@ =~= Seq::new(s@.len(), |i| s@.index(i) as u8));
    }
    if bytes.len() != 4 {
        return false;
    }
    proof {
        assert(s@.len() == 4);
        assert(bytes@[0] == s@[0] as u8);
        assert(bytes@[1] == s@[1] as u8);
        assert(bytes@[2] == s@[2] as u8);
        assert(bytes@[3] == s@[3] as u8);
    }
    byte_lowercase(bytes[0]) == 97 && byte_lowercase(bytes[1]) == 117 && byte_lowercase(bytes[2])
        == 116 && byte_lowercase(bytes[3]) == 111
}

/// Decides how to resolve the location: the given coordinates if there are
/// any; else IP geolocation when no location, a blank one or the marker
/// `auto` (any ASCII case) was given; else geocoding of the given name
/// without its surrounding white space.
pub fn location_lookup(has_coordinates: bool, location: Option<&str>) -> (res: LocationLookup)
    ensures
        has_coordinates ==> res is Coordinates,
        !has_coordinates && location is None ==> res is ByIp,
        !has_coordinates && location is Some ==> {
            let name = trimmed(location.unwrap()@);
            if name.len() == 0 || is_ip_marker(name) {
                res is ByIp
            } else {
                res matches LocationLookup::ByName(n) && n@ == name
            }
        },
{
    if has_coordinates {
        return LocationLookup::Coordinates;
    }
    match location {
        Some(location) => {
            let name = trim(location);
            if name.is_empty() || matches_ip_marker(name) {
                LocationLookup::ByIp
            } else {
                LocationLookup::ByName(String::from_str(name))
            }
        },
        None => LocationLookup::ByIp,
    }
}

} // verus!
