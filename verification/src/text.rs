//! Small string helpers the rest of the library relies on.

use vstd::prelude::*;

verus! {

/// Whether `c` has the Unicode `White_Space` property.
pub open spec fn is_white_space(c: char) -> bool {
    let n = c as u32;
    ||| 0x09 <= n <= 0x0D
    ||| n == 0x20
    ||| n == 0x85
    ||| n == 0xA0
    ||| n == 0x1680
    ||| 0x2000 <= n <= 0x200A
    ||| n == 0x2028
    ||| n == 0x2029
    ||| n == 0x202F
    ||| n == 0x205F
    ||| n == 0x3000
}

/// A string that holds nothing but white space, which is exactly what
/// `str::trim` reduces to the empty string.
pub open spec fn is_blank(s: Seq<char>) -> bool {
    forall|i: int| 0 <= i < s.len() ==> is_white_space(#[trigger] s[i])
}

/// Whether `c` is Unicode white space, the test `str::trim` trims by.
pub(crate) fn char_is_whitespace(c: char) -> (r: bool)
    ensures
        r == is_white_space(c),
{
    let n = c as u32;
    (0x09 <= n && n <= 0x0D) || n == 0x20 || n == 0x85 || n == 0xA0 || n == 0x1680 || (0x2000 <= n && n
        <= 0x200A) || n == 0x2028 || n == 0x2029 || n == 0x202F || n == 0x205F || n == 0x3000
}

/// Whether `s` trims to the empty string.
pub fn blank(s: &str) -> (r: bool)
    ensures
        r == is_blank(s@),
{
    let n = s.unicode_len();
    let mut i: usize = 0;
    while i < n
        invariant
            n == s@.len(),
            i <= n,
            forall|j: int| 0 <= j < i ==> is_white_space(#[trigger] s@[j]),
        decreases n - i,
    {
        let c = s.get_char(i);
        if !char_is_whitespace(c) {
            return false;
        }
        i = i + 1;
    }
    true
}

/// Character-by-character equality of two string slices.
pub fn same_text(a: &str, b: &str) -> (r: bool)
    ensures
        r == (a@ == b@),
{
    let n = a.unicode_len();
    if n != b.unicode_len() {
        return false;
    }
    let mut i: usize = 0;
    while i < n
        invariant
            n == a@.len(),
            n == b@.len(),
            i <= n,
            forall|j: int| 0 <= j < i ==> a@[j] == b@[j],
        decreases n - i,
    {
        if a.get_char(i) != b.get_char(i) {
            assert(a@[i as int] != b@[i as int]);
            return false;
        }
        i = i + 1;
    }
    assert(a@ =~= b@);
    true
}

/// `r` is `s` without its leading and trailing white space.
pub open spec fn trims(s: Seq<char>, r: Seq<char>) -> bool {
    exists|a: int, b: int|
        {
            &&& 0 <= a <= b <= s.len()
            &&& r == #[trigger] s.subrange(a, b)
            &&& forall|i: int| 0 <= i < a ==> is_white_space(#[trigger] s[i])
            &&& forall|i: int| b <= i < s.len() ==> is_white_space(#[trigger] s[i])
            &&& a < b ==> !is_white_space(s[a]) && !is_white_space(s[b - 1])
        }
}

/// `s` without its leading and trailing white space, as `str::trim` gives it.
pub fn trim(s: &str) -> (r: String)
    ensures
        trims(s@, r@),
{
    let n = s.unicode_len();
    let mut a: usize = 0;
    while a < n && char_is_whitespace(s.get_char(a))
        invariant
            n == s@.len(),
            a <= n,
            forall|i: int| 0 <= i < a ==> is_white_space(#[trigger] s@[i]),
        decreases n - a,
    {
        a = a + 1;
    }
    let mut b: usize = n;
    while b > a && char_is_whitespace(s.get_char(b - 1))
        invariant
            n == s@.len(),
            a <= b <= n,
            forall|i: int| b <= i < n ==> is_white_space(#[trigger] s@[i]),
            a < n ==> !is_white_space(s@[a as int]),
        decreases b - a,
    {
        b = b - 1;
    }
    let r = s.substring_char(a, b).to_owned();
    assert(r@ == s@.subrange(a as int, b as int));
    r
}

/// Whether `c` is an ASCII hexadecimal digit.
pub open spec fn is_hex_digit(c: char) -> bool {
    ||| '0' <= c <= '9'
    ||| 'a' <= c <= 'f'
    ||| 'A' <= c <= 'F'
}

/// A Spotify client id: 32 hexadecimal characters once trimmed.
pub open spec fn is_client_id(s: Seq<char>) -> bool {
    forall|r: Seq<char>| trims(s, r) ==> r.len() == 32 && forall|i: int| 0 <= i < 32 ==> is_hex_digit(#[trigger] r[i])
}

/// Whether `client_id` is one Spotify could have issued.
pub fn valid_client_id(client_id: &str) -> (r: bool)
    ensures
        r == is_client_id(client_id@),
{
    let trimmed = trim(client_id);
    proof {
        lemma_trim_unique(client_id@, trimmed@);
    }
    let t = trimmed.as_str();
    if t.unicode_len() != 32 {
        return false;
    }
    let mut i: usize = 0;
    while i < 32
        invariant
            t@.len() == 32,
            trims(client_id@, t@),
            i <= 32,
            forall|j: int| 0 <= j < i ==> is_hex_digit(#[trigger] t@[j]),
        decreases 32 - i,
    {
        let c = t.get_char(i);
        if !(('0' <= c && c <= '9') || ('a' <= c && c <= 'f') || ('A' <= c && c <= 'F')) {
            assert(!is_hex_digit(t@[i as int]));
            assert(trims(client_id@, t@));
            assert(!(forall|j: int| 0 <= j < 32 ==> is_hex_digit(#[trigger] t@[j])));
            return false;
        }
        i = i + 1;
    }
    true
}

/// A string has one trimmed form.
pub proof fn lemma_trim_unique(s: Seq<char>, r: Seq<char>)
    requires
        trims(s, r),
    ensures
        forall|q: Seq<char>| trims(s, q) ==> q == r,
{
    let (a, b) = choose|a: int, b: int|
        {
            &&& 0 <= a <= b <= s.len()
            &&& r == #[trigger] s.subrange(a, b)
            &&& forall|i: int| 0 <= i < a ==> is_white_space(#[trigger] s[i])
            &&& forall|i: int| b <= i < s.len() ==> is_white_space(#[trigger] s[i])
            &&& a < b ==> !is_white_space(s[a]) && !is_white_space(s[b - 1])
        };
    assert forall|q: Seq<char>| trims(s, q) implies q == r by {
        let (c, d) = choose|c: int, d: int|
            {
                &&& 0 <= c <= d <= s.len()
                &&& q == #[trigger] s.subrange(c, d)
                &&& forall|i: int| 0 <= i < c ==> is_white_space(#[trigger] s[i])
                &&& forall|i: int| d <= i < s.len() ==> is_white_space(#[trigger] s[i])
                &&& c < d ==> !is_white_space(s[c]) && !is_white_space(s[d - 1])
            };
        if a < b && c < d {
            if a < c {
                assert(is_white_space(s[a]));
            }
            if c < a {
                assert(is_white_space(s[c]));
            }
            if b < d {
                assert(is_white_space(s[d - 1]));
            }
            if d < b {
                assert(is_white_space(s[b - 1]));
            }
            assert(q =~= r);
        } else if a < b {
            // every character is white space on the other reading
            assert(is_white_space(s[a])) by {
                if a < c {
                } else {
                    assert(d <= a);
                }
            }
        } else if c < d {
            assert(is_white_space(s[c])) by {
                if c < a {
                } else {
                    assert(b <= c);
                }
            }
        } else {
            assert(q =~= r);
        }
    }
}

} // verus!
