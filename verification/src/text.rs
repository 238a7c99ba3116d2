//! Character classes and string trimming, with their Unicode definitions.

use vstd::prelude::*;
use vstd::string::*;

verus! {

broadcast use vstd::string::group_string_axioms;

/// Unicode `White_Space` property, the set that `char::is_whitespace` and `str::trim` use.
pub open spec fn is_whitespace_spec(c: char) -> bool {
    let u = c as u32;
    ||| 0x9 <= u <= 0xD
    ||| u == 0x20
    ||| u == 0x85
    ||| u == 0xA0
    ||| u == 0x1680
    ||| 0x2000 <= u <= 0x200A
    ||| u == 0x2028
    ||| u == 0x2029
    ||| u == 0x202F
    ||| u == 0x205F
    ||| u == 0x3000
}

/// Unicode's `White_Space` characters, written out: what `char::is_whitespace` accepts.
pub open spec fn unicode_white_space(c: char) -> bool {
    ||| '\u{9}' <= c <= '\u{d}'
    ||| c == ' '
    ||| c == '\u{85}'
    ||| c == '\u{a0}'
    ||| c == '\u{1680}'
    ||| '\u{2000}' <= c <= '\u{200a}'
    ||| c == '\u{2028}'
    ||| c == '\u{2029}'
    ||| c == '\u{202f}'
    ||| c == '\u{205f}'
    ||| c == '\u{3000}'
}

/// The whitespace that trimming removes is exactly Unicode's `White_Space` set, the set that
/// `char::is_whitespace` and so `str::trim` use (the ideographic space U+3000 and the
/// no-break space U+00A0 included).
pub proof fn law_whitespace_is_unicode_white_space(c: char)
    ensures
        is_whitespace_spec(c) == unicode_white_space(c),
{
    vstd::utf8::char_u32_cast(c, c as u32);
}

/// Unicode general category `Cc` (control codes), the set that `char::is_control` tests.
pub open spec fn is_control_spec(c: char) -> bool {
    let u = c as u32;
    u <= 0x1F || (0x7F <= u && u <= 0x9F)
}

/// ASCII letters, ASCII digits and the underscore.
pub open spec fn is_word_char_spec(c: char) -> bool {
    let u = c as u32;
    ||| 0x30 <= u <= 0x39
    ||| 0x41 <= u <= 0x5A
    ||| 0x61 <= u <= 0x7A
    ||| u == 0x5F
}

/// ASCII lower case of one character: `A`..`Z` become `a`..`z`, all else is unchanged.
pub open spec fn ascii_lower_spec(c: char) -> char {
    let u = c as u32;
    if 0x41 <= u <= 0x5A {
        (u + 32) as char
    } else {
        c
    }
}

/// The control characters refused in nicknames and passwords are Unicode's category `Cc`,
/// what `char::is_control` accepts: U+0000..=U+001F and U+007F..=U+009F.
pub proof fn law_control_is_unicode_cc(c: char)
    ensures
        is_control_spec(c) == (c <= '\u{1f}' || ('\u{7f}' <= c <= '\u{9f}')),
{
    vstd::utf8::char_u32_cast(c, c as u32);
}

/// ASCII lower-casing maps `A`..=`Z` to `a`..=`z` in order and keeps every other character.
pub proof fn law_ascii_lower_maps_only_capitals(c: char)
    ensures
        ('A' <= c <= 'Z') ==> ('a' <= ascii_lower_spec(c) <= 'z' && ascii_lower_spec(c) as u32 - (c as u32)
            == ('a' as u32) - ('A' as u32)),
        !('A' <= c <= 'Z') ==> ascii_lower_spec(c) == c,
{
    vstd::utf8::char_u32_cast(c, c as u32);
    if 'A' <= c <= 'Z' {
        vstd::utf8::char_u32_cast(ascii_lower_spec(c), ascii_lower_spec(c) as u32);
    }
}

/// `s` without its leading whitespace.
pub open spec fn trim_start_spec(s: Seq<char>) -> Seq<char>
    decreases s.len(),
{
    if s.len() > 0 && is_whitespace_spec(s[0]) {
        trim_start_spec(s.drop_first())
    } else {
        s
    }
}

/// `s` without its trailing whitespace.
pub open spec fn trim_end_spec(s: Seq<char>) -> Seq<char>
    decreases s.len(),
{
    if s.len() > 0 && is_whitespace_spec(s.last()) {
        trim_end_spec(s.drop_last())
    } else {
        s
    }
}

/// `s` without leading and trailing whitespace, as `str::trim` gives it.
pub open spec fn trim_spec(s: Seq<char>) -> Seq<char> {
    trim_end_spec(trim_start_spec(s))
}

/// Number of bytes of the UTF-8 encoding of `s`, as `str::len` returns it (a string held in
/// memory never has more bytes than `usize` counts).
pub open spec fn byte_len(s: Seq<char>) -> usize {
    vstd::utf8::encode_utf8(s).len() as usize
}

pub fn is_whitespace(c: char) -> (b: bool)
    ensures
        b == is_whitespace_spec(c),
{
    let u = c as u32;
    (0x9 <= u && u <= 0xD) || u == 0x20 || u == 0x85 || u == 0xA0 || u == 0x1680 || (0x2000 <= u
        && u <= 0x200A) || u == 0x2028 || u == 0x2029 || u == 0x202F || u == 0x205F || u == 0x3000
}

pub fn is_control(c: char) -> (b: bool)
    ensures
        b == is_control_spec(c),
{
    let u = c as u32;
    u <= 0x1F || (0x7F <= u && u <= 0x9F)
}

pub fn is_word_char(c: char) -> (b: bool)
    ensures
        b == is_word_char_spec(c),
{
    let u = c as u32;
    (0x30 <= u && u <= 0x39) || (0x41 <= u && u <= 0x5A) || (0x61 <= u && u <= 0x7A) || u == 0x5F
}

/// The characters of `s`, in order.
pub fn chars_of(s: &str) -> (v: Vec<char>)
    ensures
        v@ == s@,
{
    let mut v: Vec<char> = Vec::new();
    for c in iter: s.chars()
        invariant
            iter.seq() == s@,
            v@ == iter.seq().take(iter.index() as int),
    {
        v.push(c);
    }
    v
}

proof fn lemma_trim_start_shape(s: Seq<char>)
    ensures
        trim_start_spec(s).len() <= s.len(),
        trim_start_spec(s) == s.subrange(s.len() - trim_start_spec(s).len(), s.len() as int),
        trim_start_spec(s).len() == 0 || !is_whitespace_spec(trim_start_spec(s)[0]),
    decreases s.len(),
{
    if s.len() > 0 && is_whitespace_spec(s[0]) {
        lemma_trim_start_shape(s.drop_first());
        let t = trim_start_spec(s.drop_first());
        assert(s.drop_first().subrange(s.len() - 1 - t.len(), s.len() - 1) =~= s.subrange(
            s.len() - t.len(),
            s.len() as int,
        ));
    } else {
        assert(s.subrange(0, s.len() as int) =~= s);
    }
}

proof fn lemma_trim_end_shape(s: Seq<char>)
    ensures
        trim_end_spec(s).len() <= s.len(),
        trim_end_spec(s) == s.subrange(0, trim_end_spec(s).len() as int),
        trim_end_spec(s).len() == 0 || !is_whitespace_spec(trim_end_spec(s).last()),
    decreases s.len(),
{
    if s.len() > 0 && is_whitespace_spec(s.last()) {
        lemma_trim_end_shape(s.drop_last());
        let t = trim_end_spec(s.drop_last());
        assert(s.drop_last().subrange(0, t.len() as int) =~= s.subrange(0, t.len() as int));
    } else {
        assert(s.subrange(0, s.len() as int) =~= s);
    }
}

/// A text that neither starts nor ends with whitespace trims to itself.
pub proof fn lemma_trim_of_untrimmable(s: Seq<char>)
    requires
        s.len() == 0 || (!is_whitespace_spec(s[0]) && !is_whitespace_spec(s.last())),
    ensures
        trim_spec(s) == s,
{
}

/// A text made only of `White_Space` characters trims to nothing.
pub proof fn law_white_space_trims_to_nothing(s: Seq<char>)
    requires
        forall|i: int| 0 <= i < s.len() ==> unicode_white_space(#[trigger] s[i]),
    ensures
        trim_spec(s).len() == 0,
    decreases s.len(),
{
    if s.len() > 0 {
        law_whitespace_is_unicode_white_space(s[0]);
        assert forall|i: int| 0 <= i < s.drop_first().len() implies unicode_white_space(
            #[trigger] s.drop_first()[i],
        ) by {
            assert(s.drop_first()[i] == s[i + 1]);
        }
        law_white_space_trims_to_nothing(s.drop_first());
        assert(trim_start_spec(s) == trim_start_spec(s.drop_first()));
        lemma_trim_start_shape(s.drop_first());
        lemma_trim_end_shape(trim_start_spec(s.drop_first()));
        if trim_start_spec(s.drop_first()).len() > 0 {
            let u = trim_start_spec(s.drop_first());
            assert(u == s.drop_first().subrange(s.drop_first().len() - u.len(), s.drop_first().len() as int));
            assert(u[0] == s.drop_first()[s.drop_first().len() - u.len()]);
            law_whitespace_is_unicode_white_space(u[0]);
        }
    }
}

/// Trimming removes `White_Space` from both ends and nothing else: a character that is not
/// `White_Space` at either end of a text stays.
pub proof fn law_trim_keeps_non_white_space_ends(s: Seq<char>)
    requires
        s.len() > 0,
        !unicode_white_space(s[0]),
        !unicode_white_space(s.last()),
    ensures
        trim_spec(s) == s,
{
    law_whitespace_is_unicode_white_space(s[0]);
    law_whitespace_is_unicode_white_space(s.last());
    lemma_trim_of_untrimmable(s);
}

/// A trimmed text neither starts nor ends with a `White_Space` character.
pub proof fn law_trimmed_ends_are_not_white_space(s: Seq<char>)
    ensures
        trim_spec(s).len() > 0 ==> !unicode_white_space(trim_spec(s)[0]) && !unicode_white_space(
            trim_spec(s).last(),
        ),
{
    lemma_trim_start_shape(s);
    let u = trim_start_spec(s);
    lemma_trim_end_shape(u);
    let t = trim_end_spec(u);
    if t.len() > 0 {
        assert(t[0] == u[0]);
        law_whitespace_is_unicode_white_space(t[0]);
        law_whitespace_is_unicode_white_space(t.last());
    }
}

/// Trimming twice is trimming once.
pub proof fn law_trim_is_idempotent(s: Seq<char>)
    ensures
        trim_spec(trim_spec(s)) == trim_spec(s),
{
    lemma_trim_start_shape(s);
    let u = trim_start_spec(s);
    lemma_trim_end_shape(u);
    let t = trim_end_spec(u);
    if t.len() > 0 {
        assert(t[0] == u[0]);
    }
    lemma_trim_of_untrimmable(t);
}

proof fn lemma_trim_start_step(s: Seq<char>, lo: int)
    requires
        0 <= lo < s.len(),
        is_whitespace_spec(s[lo]),
    ensures
        trim_start_spec(s.subrange(lo, s.len() as int)) == trim_start_spec(
            s.subrange(lo + 1, s.len() as int),
        ),
{
    assert(s.subrange(lo, s.len() as int).drop_first() =~= s.subrange(lo + 1, s.len() as int));
}

proof fn lemma_trim_end_step(s: Seq<char>, lo: int, hi: int)
    requires
        0 <= lo < hi <= s.len(),
        is_whitespace_spec(s[hi - 1]),
    ensures
        trim_end_spec(s.subrange(lo, hi)) == trim_end_spec(s.subrange(lo, hi - 1)),
{
    assert(s.subrange(lo, hi).drop_last() =~= s.subrange(lo, hi - 1));
}

/// Whether every character of `s` is whitespace (so that it trims to nothing).
pub fn is_blank(s: &str) -> (b: bool)
    ensures
        b == (trim_spec(s@).len() == 0),
{
    let t = trim(s);
    t.unicode_len() == 0
}

/// `s` without leading and trailing whitespace.
pub fn trim(s: &str) -> (t: &str)
    ensures
        t@ == trim_spec(s@),
{
    let v = chars_of(s);
    let n = v.len();
    let mut lo: usize = 0;
    assert(v@.subrange(0, n as int) =~= v@);
    while lo < n && is_whitespace(v[lo])
        invariant
            lo <= n,
            n == v@.len(),
            trim_start_spec(v@) == trim_start_spec(v@.subrange(lo as int, n as int)),
        decreases n - lo,
    {
        proof {
            lemma_trim_start_step(v@, lo as int);
        }
        lo = lo + 1;
    }
    assert(trim_start_spec(v@) == v@.subrange(lo as int, n as int));
    let mut hi: usize = n;
    while hi > lo && is_whitespace(v[hi - 1])
        invariant
            lo <= hi <= n,
            n == v@.len(),
            trim_spec(v@) == trim_end_spec(v@.subrange(lo as int, hi as int)),
        decreases hi - lo,
    {
        proof {
            lemma_trim_end_step(v@, lo as int, hi as int);
        }
        hi = hi - 1;
    }
    assert(trim_spec(v@) == v@.subrange(lo as int, hi as int));
    s.substring_char(lo, hi)
}

/// Whether some character of `s` is a control character.
pub fn has_control(s: &str) -> (b: bool)
    ensures
        b == exists|i: int| 0 <= i < s@.len() && is_control_spec(#[trigger] s@[i]),
{
    let v = chars_of(s);
    let mut i: usize = 0;
    while i < v.len()
        invariant
            i <= v@.len(),
            v@ == s@,
            forall|j: int| 0 <= j < i ==> !is_control_spec(#[trigger] v@[j]),
        decreases v.len() - i,
    {
        if is_control(v[i]) {
            assert(is_control_spec(s@[i as int]));
            return true;
        }
        i = i + 1;
    }
    false
}

/// Whether every character of `s` is an ASCII letter, digit or underscore.
pub fn all_word_chars(s: &str) -> (b: bool)
    ensures
        b == forall|i: int| 0 <= i < s@.len() ==> is_word_char_spec(#[trigger] s@[i]),
{
    let v = chars_of(s);
    let mut i: usize = 0;
    while i < v.len()
        invariant
            i <= v@.len(),
            v@ == s@,
            forall|j: int| 0 <= j < i ==> is_word_char_spec(#[trigger] v@[j]),
        decreases v.len() - i,
    {
        if !is_word_char(v[i]) {
            assert(!is_word_char_spec(s@[i as int]));
            return false;
        }
        i = i + 1;
    }
    true
}

/// `str::to_ascii_lowercase`: its documentation says that each ASCII letter `A`..`Z` becomes
/// `a`..`z` and every other character is kept; the contract states exactly that.
#[verifier::external_body]
pub(crate) fn to_ascii_lowercase(s: &str) -> (r: String)
    ensures
        r@ == s@.map_values(|c: char| ascii_lower_spec(c)),
{
    s.to_ascii_lowercase()
}

} // verus!
