//! Character-level helpers shared by the modules that take names apart and
//! put them together.

use vstd::prelude::*;
use vstd::std_specs::iter::IteratorSpec;

verus! {

/// `String::push` appends the one character to the string.
pub assume_specification[ String::push ](s: &mut String, c: char)
    ensures
        final(s)@ == old(s)@.push(c),
;

/// The characters of `s`, in order.
pub fn chars_of(s: &str) -> (chars: Vec<char>)
    ensures
        chars@ == s@,
{
    let mut chars: Vec<char> = Vec::new();
    for c in it: s.chars()
        invariant
            it.seq() == s@,
            chars@ == it.seq().take(it.index()),
    {
        chars.push(c);
    }
    chars
}

/// The characters of `chars` from position `from` up to position `to`, as a
/// string.
pub fn text_of(chars: &Vec<char>, from: usize, to: usize) -> (text: String)
    requires
        from <= to <= chars@.len(),
    ensures
        text@ == chars@.subrange(from as int, to as int),
{
    let mut text = String::new();
    let mut i: usize = from;
    while i < to
        invariant
            from <= i <= to <= chars@.len(),
            text@ == chars@.subrange(from as int, i as int),
        decreases to - i,
    {
        text.push(chars[i]);
        i += 1;
        assert(text@ =~= chars@.subrange(from as int, i as int));
    }
    text
}

/// A list of pairs of texts, as sequences.
pub open spec fn pairs_view(pairs: Seq<(String, String)>) -> Seq<(Seq<char>, Seq<char>)> {
    pairs.map_values(|pair: (String, String)| (pair.0@, pair.1@))
}

/// Whether `piece` stands in `text` at position `at`.
pub open spec fn stands_at(text: Seq<char>, at: int, piece: Seq<char>) -> bool {
    &&& 0 <= at
    &&& at + piece.len() <= text.len()
    &&& text.subrange(at, at + piece.len()) == piece
}

/// Decides [`stands_at`].
pub fn matches_at(text: &Vec<char>, at: usize, piece: &Vec<char>) -> (yes: bool)
    ensures
        yes == stands_at(text@, at as int, piece@),
{
    if at > text.len() || piece.len() > text.len() - at {
        return false;
    }
    let mut i: usize = 0;
    while i < piece.len()
        invariant
            i <= piece@.len(),
            at + piece@.len() <= text@.len() <= usize::MAX,
            forall|k: int| 0 <= k < i ==> text@[at + k] == piece@[k],
        decreases piece@.len() - i,
    {
        if text[at + i] != piece[i] {
            assert(text@.subrange(at as int, at + piece@.len())[i as int] != piece@[i as int]);
            return false;
        }
        i += 1;
    }
    assert(text@.subrange(at as int, at + piece@.len()) =~= piece@);
    true
}

/// Whether `text` ends with `suffix`.
pub fn ends_with(text: &Vec<char>, suffix: &Vec<char>) -> (yes: bool)
    ensures
        yes == suffix@.is_suffix_of(text@),
{
    if suffix.len() > text.len() {
        return false;
    }
    matches_at(text, text.len() - suffix.len(), suffix)
}

/// Whether `text` starts with `prefix`.
pub fn starts_with(text: &Vec<char>, prefix: &Vec<char>) -> (yes: bool)
    ensures
        yes == prefix@.is_prefix_of(text@),
{
    matches_at(text, 0, prefix)
}

} // verus!
