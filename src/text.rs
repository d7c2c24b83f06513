//! Character and byte level helpers: blank strings, header text, ASCII
//! lower-casing and prefixes.

use vstd::prelude::*;

verus! {

/// The code points with the Unicode `White_Space` property, which is what
/// `char::is_whitespace` and `str::trim` go by.
pub open spec fn is_white_space(c: char) -> bool {
    let n = c as u32;
    ||| 0x9 <= n && n <= 0xd
    ||| n == 0x20
    ||| n == 0x85
    ||| n == 0xa0
    ||| n == 0x1680
    ||| 0x2000 <= n && n <= 0x200a
    ||| n == 0x2028
    ||| n == 0x2029
    ||| n == 0x202f
    ||| n == 0x205f
    ||| n == 0x3000
}

/// A string is blank when nothing is left of it once white space is trimmed.
pub open spec fn is_blank(s: Seq<char>) -> bool {
    forall|i: int| 0 <= i < s.len() ==> is_white_space(#[trigger] s[i])
}

pub fn white_space(c: char) -> (r: bool)
    ensures
        r == is_white_space(c),
{
    let n = c as u32;
    (0x9 <= n && n <= 0xd) || n == 0x20 || n == 0x85 || n == 0xa0 || n == 0x1680 || (0x2000
        <= n && n <= 0x200a) || n == 0x2028 || n == 0x2029 || n == 0x202f || n == 0x205f || n
        == 0x3000
}

pub fn blank(s: &str) -> (r: bool)
    ensures
        r == is_blank(s@),
{
    let n = s.unicode_len();
    let mut i: usize = 0;
    while i < n
        invariant
            n == s@.len(),
            i <= n,
            forall|j: int| 0 <= j < i ==> is_white_space(#[trigger] s@[j]),
        decreases n - i,
    {
        if !white_space(s.get_char(i)) {
            return false;
        }
        i = i + 1;
    }
    true
}

/// A byte that `HeaderValue::to_str` accepts: a tab or visible ASCII.
pub open spec fn is_header_text_byte(b: u8) -> bool {
    b == 9 || (32 <= b && b < 127)
}

/// A header value that can be read as text.
pub open spec fn is_header_text(raw: Seq<u8>) -> bool {
    forall|i: int| 0 <= i < raw.len() ==> is_header_text_byte(#[trigger] raw[i])
}

pub open spec fn ascii_lower_byte(b: u8) -> u8 {
    if 65 <= b && b <= 90 {
        (b + 32) as u8
    } else {
        b
    }
}

/// The text of a header value, lower-cased. On header text, ASCII
/// lower-casing and full Unicode lower-casing agree.
pub open spec fn lowered_text(raw: Seq<u8>) -> Seq<char> {
    raw.map_values(|b: u8| ascii_lower_byte(b) as char)
}

pub open spec fn starts_with(s: Seq<char>, p: Seq<char>) -> bool {
    p.len() <= s.len() && s.subrange(0, p.len() as int) == p
}

pub fn header_text(raw: &[u8]) -> (r: bool)
    ensures
        r == is_header_text(raw@),
{
    let mut i: usize = 0;
    while i < raw.len()
        invariant
            i <= raw@.len(),
            forall|j: int| 0 <= j < i ==> is_header_text_byte(#[trigger] raw@[j]),
        decreases raw@.len() - i,
    {
        let b = raw[i];
        if !(b == 9 || (32 <= b && b < 127)) {
            return false;
        }
        i = i + 1;
    }
    true
}

/// Relies on `String::from_utf8_lossy`: ASCII bytes are valid UTF-8 and
/// decode to the same characters, one per byte.
#[verifier::external_body]
fn ascii_string(b: &[u8]) -> (r: String)
    requires
        forall|i: int| 0 <= i < b@.len() ==> #[trigger] b@[i] < 128,
    ensures
        r@ == b@.map_values(|x: u8| x as char),
{
    String::from_utf8_lossy(b).into_owned()
}

/// The lower-cased text of a header value that is header text.
pub fn lower_text(raw: &[u8]) -> (r: String)
    requires
        is_header_text(raw@),
    ensures
        r@ == lowered_text(raw@),
{
    let mut low: Vec<u8> = Vec::new();
    let mut i: usize = 0;
    while i < raw.len()
        invariant
            i <= raw@.len(),
            is_header_text(raw@),
            low@.len() == i,
            forall|j: int| 0 <= j < i ==> #[trigger] low@[j] == ascii_lower_byte(raw@[j]),
        decreases raw@.len() - i,
    {
        let b = raw[i];
        if 65 <= b && b <= 90 {
            low.push(b + 32);
        } else {
            low.push(b);
        }
        i = i + 1;
    }
    proof {
        assert forall|j: int| 0 <= j < low@.len() implies #[trigger] low@[j] < 128 by {
            assert(is_header_text_byte(raw@[j]));
        }
    }
    let r = ascii_string(low.as_slice());
    assert(r@ =~= lowered_text(raw@));
    r
}

pub fn has_prefix(s: &str, p: &str) -> (r: bool)
    ensures
        r == starts_with(s@, p@),
{
    let n = p.unicode_len();
    if s.unicode_len() < n {
        return false;
    }
    let mut i: usize = 0;
    while i < n
        invariant
            n == p@.len(),
            n <= s@.len(),
            i <= n,
            forall|j: int| 0 <= j < i ==> s@[j] == p@[j],
        decreases n - i,
    {
        if s.get_char(i) != p.get_char(i) {
            assert(s@.subrange(0, n as int)[i as int] != p@[i as int]);
            return false;
        }
        i = i + 1;
    }
    assert(s@.subrange(0, n as int) =~= p@);
    true
}

} // verus!
