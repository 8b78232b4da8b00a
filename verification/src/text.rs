//! Small verified text utilities that the wallet's rules are built from.
use vstd::prelude::*;
use vstd::std_specs::iter::IteratorSpec;

verus! {

/// The characters of a text, in order.
pub fn chars_of(s: &str) -> (r: Vec<char>)
    ensures
        r@ == s@,
{
    broadcast use vstd::string::group_string_axioms;
    let mut it = s.chars();
    let mut out: Vec<char> = Vec::new();
    assert(it.remaining() == s@);
    loop
        invariant
            it.obeys_prophetic_iter_laws(),
            out@ + it.remaining() == s@,
            it.decrease() is Some,
        ensures
            out@ == s@,
        decreases it.decrease()->0,
    {
        match it.next() {
            Some(c) => {
                out.push(c);
            },
            None => {
                assert(it.remaining().len() == 0);
                assert(out@ =~= s@);
                break;
            },
        }
    }
    out
}

/// The ASCII lower-case form of one character: `'A'..='Z'` map to
/// `'a'..='z'`, every other character is unchanged.
pub open spec fn ascii_lower_char(c: char) -> char {
    if 'A' <= c && c <= 'Z' {
        ((c as u32) + 32) as char
    } else {
        c
    }
}

/// The ASCII lower-case form of a text, character by character.
pub open spec fn ascii_lower(s: Seq<char>) -> Seq<char> {
    Seq::new(s.len(), |i: int| ascii_lower_char(s[i]))
}

/// Appends one character to a string (`String::push`).
#[verifier::external_body]
fn push_char(s: &mut String, c: char)
    ensures
        final(s)@ == old(s)@.push(c),
{
    s.push(c);
}

/// The ASCII lower-case copy of a text, as `str::to_ascii_lowercase` makes it.
pub fn to_ascii_lowercase(s: &str) -> (r: String)
    ensures
        r@ == ascii_lower(s@),
        r@.len() == s@.len(),
        forall|i: int|
            0 <= i < s@.len() && 'A' <= #[trigger] s@[i] <= 'Z' ==> r@[i] as u32 == (s@[i] as u32)
                + 32,
        forall|i: int| 0 <= i < s@.len() && !('A' <= #[trigger] s@[i] <= 'Z') ==> r@[i] == s@[i],
{
    let v = chars_of(s);
    let mut out = String::new();
    let mut i: usize = 0;
    while i < v.len()
        invariant
            v@ == s@,
            i <= v.len(),
            out@ == ascii_lower(s@.subrange(0, i as int)),
        decreases v.len() - i,
    {
        let c = v[i];
        let lc = if 'A' <= c && c <= 'Z' {
            ((c as u8) + 32) as char
        } else {
            c
        };
        push_char(&mut out, lc);
        assert(ascii_lower(s@.subrange(0, i + 1)) =~= ascii_lower(s@.subrange(0, i as int)).push(lc));
        i = i + 1;
    }
    assert(s@.subrange(0, v.len() as int) =~= s@);
    proof {
        assert forall|i: int| 0 <= i < s@.len() implies #[trigger] out@[i] == ascii_lower_char(
            s@[i],
        ) by {}
        assert forall|i: int| 0 <= i < s@.len() && 'A' <= #[trigger] s@[i] <= 'Z' implies out@[i] as u32
            == (s@[i] as u32) + 32 by {
            ascii_lower_char_maps_capitals(s@[i]);
        }
        assert forall|i: int| 0 <= i < s@.len() && !('A' <= #[trigger] s@[i] <= 'Z') implies out@[i]
            == s@[i] by {
            ascii_lower_char_maps_capitals(s@[i]);
        }
    }
    out
}

/// Whether two texts hold the same characters.
pub fn str_eq(a: &str, b: &str) -> (r: bool)
    ensures
        r == (a@ == b@),
{
    let va = chars_of(a);
    let vb = chars_of(b);
    if va.len() != vb.len() {
        return false;
    }
    let mut i: usize = 0;
    while i < va.len()
        invariant
            va@ == a@,
            vb@ == b@,
            va.len() == vb.len(),
            i <= va.len(),
            forall|k: int| 0 <= k < i ==> a@[k] == b@[k],
        decreases va.len() - i,
    {
        if va[i] != vb[i] {
            return false;
        }
        i = i + 1;
    }
    assert(a@ =~= b@);
    true
}

/// The concatenation of three texts, as a new string.
pub fn concat3(a: &str, b: &str, c: &str) -> (r: String)
    ensures
        r@ == a@ + b@ + c@,
{
    let mut out = String::from_str(a);
    out.append(b);
    out.append(c);
    out
}

/// The concatenation of four texts, as a new string.
pub fn concat4(a: &str, b: &str, c: &str, d: &str) -> (r: String)
    ensures
        r@ == a@ + b@ + c@ + d@,
{
    let mut out = concat3(a, b, c);
    out.append(d);
    out
}

/// The characters that have the Unicode `White_Space` property, which is
/// what `char::is_whitespace` and `str::trim_start` go by.
pub open spec fn is_white_space(c: char) -> bool {
    ||| ('\u{9}' <= c && c <= '\u{d}')
    ||| c == ' '
    ||| c == '\u{85}'
    ||| c == '\u{a0}'
    ||| c == '\u{1680}'
    ||| ('\u{2000}' <= c && c <= '\u{200a}')
    ||| c == '\u{2028}'
    ||| c == '\u{2029}'
    ||| c == '\u{202f}'
    ||| c == '\u{205f}'
    ||| c == '\u{3000}'
}

/// Whether a character has the Unicode `White_Space` property.
pub fn white_space(c: char) -> (r: bool)
    ensures
        r == is_white_space(c),
{
    ('\u{9}' <= c && c <= '\u{d}') || c == ' ' || c == '\u{85}' || c == '\u{a0}' || c
        == '\u{1680}' || ('\u{2000}' <= c && c <= '\u{200a}') || c == '\u{2028}' || c
        == '\u{2029}' || c == '\u{202f}' || c == '\u{205f}' || c == '\u{3000}'
}

} // verus!

verus! {

/// Lower-casing turns every ASCII capital into its small letter, 32 code
/// points further on, and leaves every other character as it is.
pub proof fn ascii_lower_char_maps_capitals(c: char)
    ensures
        'A' <= c <= 'Z' ==> ascii_lower_char(c) as u32 == (c as u32) + 32,
        'A' <= c <= 'Z' ==> 'a' <= ascii_lower_char(c) <= 'z',
        !('A' <= c <= 'Z') ==> ascii_lower_char(c) == c,
{
}

/// Whether `v` spells the lower-case word `t` in some mix of ASCII cases: each
/// character is the small letter of `t` or its capital.
pub open spec fn same_word_any_case(v: Seq<char>, t: Seq<char>) -> bool {
    &&& v.len() == t.len()
    &&& forall|i: int| 0 <= i < t.len() ==> 'a' <= #[trigger] t[i] <= 'z'
    &&& forall|i: int|
        0 <= i < v.len() ==> #[trigger] v[i] == t[i] || (v[i] as u32) + 32 == t[i] as u32
}

/// Lower-casing a word written in any mix of ASCII cases gives the word.
pub proof fn ascii_lower_of_any_case(v: Seq<char>, t: Seq<char>)
    requires
        same_word_any_case(v, t),
    ensures
        ascii_lower(v) == t,
{
    assert forall|i: int| 0 <= i < v.len() implies #[trigger] ascii_lower(v)[i] == t[i] by {
        ascii_lower_char_maps_capitals(v[i]);
        assert('a' <= t[i] <= 'z');
        if v[i] != t[i] {
            assert((v[i] as u32) + 32 == t[i] as u32);
            assert('A' <= v[i] <= 'Z');
            assert(ascii_lower(v)[i] as u32 == t[i] as u32);
        }
    }
    assert(ascii_lower(v) =~= t);
}

} // verus!
