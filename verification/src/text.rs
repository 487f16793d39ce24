//! Text helpers: substring and prefix tests, case folding, padding, and
//! editing a line of input one character at a time.

use vstd::prelude::*;

verus! {

/// `needle` stands in `hay` at position `at`.
pub open spec fn occurs_at(needle: Seq<char>, hay: Seq<char>, at: int) -> bool {
    &&& 0 <= at
    &&& at + needle.len() <= hay.len()
    &&& hay.subrange(at, at + needle.len()) == needle
}

/// `needle` stands somewhere in `hay` as a run of consecutive characters.
pub open spec fn is_substring(needle: Seq<char>, hay: Seq<char>) -> bool {
    exists|at: int| occurs_at(needle, hay, at)
}

/// What `str::to_lowercase` makes of a text.
pub uninterp spec fn lowercase(text: Seq<char>) -> Seq<char>;

/// `text` followed by as many spaces as it takes to reach `width` characters;
/// a text that is already that long stays as it is.
pub open spec fn padded(text: Seq<char>, width: nat) -> Seq<char> {
    if text.len() >= width {
        text
    } else {
        text + Seq::new((width - text.len()) as nat, |i: int| ' ')
    }
}

/// The empty text stands in every text.
pub proof fn lemma_empty_is_substring(hay: Seq<char>)
    ensures
        is_substring(Seq::<char>::empty(), hay),
{
    assert(hay.subrange(0, 0) =~= Seq::<char>::empty());
    assert(occurs_at(Seq::<char>::empty(), hay, 0));
}

/// What stands in a part of a text stands in the text.
pub proof fn lemma_substring_transitive(a: Seq<char>, b: Seq<char>, c: Seq<char>)
    requires
        is_substring(a, b),
        is_substring(b, c),
    ensures
        is_substring(a, c),
{
    let i = choose|i: int| occurs_at(a, b, i);
    let j = choose|j: int| occurs_at(b, c, j);
    assert(c.subrange(j + i, j + i + a.len()) =~= c.subrange(j, j + b.len()).subrange(
        i,
        i + a.len(),
    ));
    assert(occurs_at(a, c, j + i));
}

/// Wraps `str::to_lowercase`, whose result is named `lowercase`. The empty
/// text has no characters to fold and comes back empty.
#[verifier::external_body]
pub(crate) fn to_lowercase(text: &str) -> (r: String)
    ensures
        r@ == lowercase(text@),
        text@.len() == 0 ==> r@.len() == 0,
{
    text.to_lowercase()
}

/// Wraps `str::contains` with a string pattern: true exactly when the
/// pattern matches a sub-slice of the text.
#[verifier::external_body]
pub(crate) fn contains(hay: &str, needle: &str) -> (r: bool)
    ensures
        r == is_substring(needle@, hay@),
{
    hay.contains(needle)
}

/// Wraps `str::starts_with` with a string pattern: true exactly when the
/// pattern matches a prefix of the text.
#[verifier::external_body]
pub(crate) fn starts_with(text: &str, prefix: &str) -> (r: bool)
    ensures
        r == prefix@.is_prefix_of(text@),
{
    text.starts_with(prefix)
}

/// Wraps `String::push`, which appends one character.
#[verifier::external_body]
pub(crate) fn push_char(text: &mut String, c: char)
    ensures
        final(text)@ == old(text)@.push(c),
{
    text.push(c)
}

/// Wraps `String::pop`, which removes the last character and leaves an empty
/// string as it is.
#[verifier::external_body]
pub(crate) fn pop_char(text: &mut String)
    ensures
        old(text)@.len() == 0 ==> final(text)@ == old(text)@,
        old(text)@.len() > 0 ==> final(text)@ == old(text)@.drop_last(),
{
    text.pop();
}

/// Case-insensitive containment: the folded `filter` stands in the folded
/// `text`.
pub open spec fn matches_filter(text: Seq<char>, filter: Seq<char>) -> bool {
    is_substring(lowercase(filter), lowercase(text))
}

/// Tests whether `text` contains `filter`, ignoring case.
pub fn text_matches(text: &str, filter: &str) -> (r: bool)
    ensures
        r == matches_filter(text@, filter@),
{
    let folded_text = to_lowercase(text);
    let folded_filter = to_lowercase(filter);
    contains(folded_text.as_str(), folded_filter.as_str())
}

/// Pads `text` with spaces on the right up to `width` characters.
pub fn pad_right(text: &str, width: usize) -> (r: String)
    ensures
        r@ == padded(text@, width as nat),
{
    let mut out = text.to_owned();
    let mut n: usize = text.unicode_len();
    proof {
        assert(text@ + Seq::new(0, |i: int| ' ') =~= text@);
    }
    while n < width
        invariant
            text@.len() <= n,
            n <= width || n == text@.len(),
            out@ == text@ + Seq::new((n - text@.len()) as nat, |i: int| ' '),
        decreases width - n,
    {
        push_char(&mut out, ' ');
        n = n + 1;
        proof {
            assert(out@ =~= text@ + Seq::new((n - text@.len()) as nat, |i: int| ' '));
        }
    }
    out
}

} // verus!
