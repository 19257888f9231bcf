//! String facts the billing rules rely on: equality, trimming and lowercasing, each done by std.
use vstd::prelude::*;

verus! {

/// Unicode `White_Space` (what `char::is_whitespace` and `str::trim` test).
pub open spec fn is_white_space(c: char) -> bool {
    ||| '\u{9}' <= c <= '\u{d}'
    ||| c == ' '
    ||| c == '\u{85}'
    ||| c == '\u{a0}'
    ||| c == '\u{1680}'
    ||| '\u{2000}' <= c <= '\u{200a}'
    ||| c == '\u{2028}'
    ||| c == '\u{2029}'
    ||| c == '\u{202f}'
    ||| c == '\u{205f}'
    ||| c == '\u{3000}'
}

/// Every character is white space (vacuously so for the empty string).
pub open spec fn is_blank(s: Seq<char>) -> bool {
    forall|i: int| 0 <= i < s.len() ==> is_white_space(#[trigger] s[i])
}

/// ASCII lowercase of a character sequence: `A`..=`Z` mapped to `a`..=`z`, all else kept.
pub open spec fn ascii_lower(s: Seq<char>) -> Seq<char> {
    Seq::new(
        s.len(),
        |i: int|
            if 'A' <= s[i] <= 'Z' {
                ((s[i] as int) + 32) as char
            } else {
                s[i]
            },
    )
}

/// `t` is `s` with some white space removed from its start and its end.
pub open spec fn trimmed_from(t: Seq<char>, s: Seq<char>) -> bool {
    exists|i: int, j: int|
        #![trigger s.subrange(i, j)]
        0 <= i <= j <= s.len() && t == s.subrange(i, j) && is_blank(s.subrange(0, i)) && is_blank(
            s.subrange(j, s.len() as int),
        )
}

/// What `str::to_lowercase` returns for a string.
pub uninterp spec fn unicode_lowercase(s: Seq<char>) -> Seq<char>;

/// `<str as PartialEq>::eq`: the same characters.
#[verifier::external_body]
pub(crate) fn str_eq(a: &str, b: &str) -> (r: bool)
    ensures
        r == (a@ == b@),
{
    a == b
}

/// `str::trim`: the string with leading and trailing white space removed; what remains starts and
/// ends with a character that is not white space.
#[verifier::external_body]
pub(crate) fn trim(s: &str) -> (r: &str)
    ensures
        trimmed_from(r@, s@),
        r@.len() > 0 ==> !is_white_space(r@[0]) && !is_white_space(r@.last()),
{
    s.trim()
}

/// `str::to_lowercase`. Named (Unicode lowercase mapping); on an ASCII string it lowercases
/// `A`..=`Z` and keeps every other character.
#[verifier::external_body]
pub(crate) fn to_lowercase(s: &str) -> (r: String)
    ensures
        r@ == unicode_lowercase(s@),
        vstd::utf8::is_ascii_chars(s@) ==> r@ == ascii_lower(s@),
{
    s.to_lowercase()
}

/// ASCII uppercase of a character sequence: `a`..=`z` mapped to `A`..=`Z`, all else kept.
pub open spec fn ascii_upper(s: Seq<char>) -> Seq<char> {
    Seq::new(
        s.len(),
        |i: int|
            if 'a' <= s[i] <= 'z' {
                ((s[i] as int) - 32) as char
            } else {
                s[i]
            },
    )
}

/// Uppercasing an ASCII name keeps it ASCII, and lowercasing it again gives back its lowercase:
/// a case-insensitive parse reads a name in any ASCII casing as the name itself.
pub proof fn lemma_ascii_case_round_trip(s: Seq<char>)
    requires
        vstd::utf8::is_ascii_chars(s),
    ensures
        vstd::utf8::is_ascii_chars(ascii_upper(s)),
        ascii_lower(ascii_upper(s)) == ascii_lower(s),
{
    assert forall|i: int| 0 <= i < s.len() implies (#[trigger] ascii_upper(s)[i]) as u32 <= 0x7f by {
        assert(s[i] as u32 <= 0x7f);
    }
    assert(ascii_lower(ascii_upper(s)) =~= ascii_lower(s));
}

/// Whether a name is empty once trimmed, i.e. made of white space only.
pub fn blank(s: &str) -> (r: bool)
    ensures
        r == is_blank(s@),
{
    let t = trim(s);
    let r = t.is_empty();
    proof {
        let (i, j) = choose|i: int, j: int|
            #![trigger s@.subrange(i, j)]
            0 <= i <= j <= s@.len() && t@ == s@.subrange(i, j) && is_blank(s@.subrange(0, i))
                && is_blank(s@.subrange(j, s@.len() as int));
        if r {
            assert forall|k: int| 0 <= k < s@.len() implies is_white_space(#[trigger] s@[k]) by {
                if k < i {
                    assert(s@.subrange(0, i)[k] == s@[k]);
                } else {
                    assert(s@.subrange(j, s@.len() as int)[k - j] == s@[k]);
                }
            }
        } else {
            assert(t@[0] == s@[i]);
        }
    }
    r
}

} // verus!
