//! Text helpers: blank input, separated lists and joined lines.

use vstd::prelude::*;

verus! {

/// The characters that Unicode gives the `White_Space` property.
pub open spec fn is_whitespace(c: char) -> bool {
    let code = c as u32;
    ||| 0x09 <= code <= 0x0d
    ||| code == 0x20
    ||| code == 0x85
    ||| code == 0xa0
    ||| code == 0x1680
    ||| 0x2000 <= code <= 0x200a
    ||| code == 0x2028
    ||| code == 0x2029
    ||| code == 0x202f
    ||| code == 0x205f
    ||| code == 0x3000
}

/// A text is blank when nothing is left of it once whitespace is trimmed
/// away: it is empty, or every character of it is whitespace.
pub open spec fn is_blank(text: Seq<char>) -> bool {
    forall|i: int| 0 <= i < text.len() ==> is_whitespace(#[trigger] text[i])
}

/// The parts written one after another, with the separator between each two
/// neighbours and none at either end.
pub open spec fn joined(parts: Seq<Seq<char>>, separator: Seq<char>) -> Seq<char>
    decreases parts.len(),
{
    if parts.len() == 0 {
        Seq::empty()
    } else if parts.len() == 1 {
        parts[0]
    } else {
        joined(parts.drop_last(), separator) + separator + parts.last()
    }
}

/// The pieces of a list between its separators, in order. A list without a
/// separator is one piece, and two separators in a row hold an empty piece.
pub open spec fn split(list: Seq<char>, separator: char) -> Seq<Seq<char>>
    decreases list.len(),
{
    if list.len() == 0 {
        seq![Seq::empty()]
    } else {
        let before = split(list.drop_last(), separator);
        if list.last() == separator {
            before.push(Seq::empty())
        } else {
            before.drop_last().push(before.last().push(list.last()))
        }
    }
}

/// How often the separator occurs in a text.
pub open spec fn occurrences(text: Seq<char>, separator: char) -> nat
    decreases text.len(),
{
    if text.len() == 0 {
        0
    } else {
        occurrences(text.drop_last(), separator) + if text.last() == separator {
            1nat
        } else {
            0nat
        }
    }
}

/// Tells whether a character is whitespace.
pub fn is_whitespace_char(c: char) -> (r: bool)
    ensures
        r == is_whitespace(c),
{
    let code: u32 = c as u32;
    (0x09 <= code && code <= 0x0d) || code == 0x20 || code == 0x85 || code == 0xa0 || code
        == 0x1680 || (0x2000 <= code && code <= 0x200a) || code == 0x2028 || code == 0x2029
        || code == 0x202f || code == 0x205f || code == 0x3000
}

/// Tells whether trimming would leave nothing of the text.
pub fn blank(text: &str) -> (r: bool)
    ensures
        r == is_blank(text@),
{
    let n: usize = text.unicode_len();
    let mut i: usize = 0;
    while i < n
        invariant
            n == text@.len(),
            i <= n,
            forall|j: int| 0 <= j < i ==> is_whitespace(#[trigger] text@[j]),
        decreases n - i,
    {
        if !is_whitespace_char(text.get_char(i)) {
            return false;
        }
        i += 1;
    }
    true
}

/// Splitting undoes joining: the pieces of a list, joined by the separator,
/// are the list again, there is one piece more than the list has separators,
/// and no piece holds the separator.
pub proof fn split_is_inverse_of_joined(list: Seq<char>, separator: char)
    ensures
        joined(split(list, separator), seq![separator]) == list,
        split(list, separator).len() == occurrences(list, separator) + 1,
        forall|i: int|
            0 <= i < split(list, separator).len() ==> !(#[trigger] split(
                list,
                separator,
            )[i]).contains(separator),
    decreases list.len(),
{
    let pieces = split(list, separator);
    if list.len() == 0 {
        assert(joined(pieces, seq![separator]) =~= list);
    } else {
        let shorter = list.drop_last();
        let before = split(shorter, separator);
        split_is_inverse_of_joined(shorter, separator);
        if list.last() == separator {
            assert(pieces.drop_last() =~= before);
            assert(joined(pieces, seq![separator]) =~= shorter + seq![separator]);
            assert(shorter + seq![separator] =~= list);
        } else {
            let grown = before.last().push(list.last());
            assert(pieces.last() == grown);
            assert(pieces.drop_last() =~= before.drop_last());
            if before.len() == 1 {
                assert(before[0] == shorter);
                assert(joined(pieces, seq![separator]) =~= list);
            } else {
                assert(joined(before, seq![separator]) == joined(
                    before.drop_last(),
                    seq![separator],
                ) + seq![separator] + before.last());
                assert(joined(pieces, seq![separator]) =~= joined(
                    before.drop_last(),
                    seq![separator],
                ) + seq![separator] + grown);
                assert(joined(pieces, seq![separator]) =~= shorter.push(list.last()));
                assert(shorter.push(list.last()) =~= list);
            }
            assert forall|i: int| 0 <= i < pieces.len() implies !(#[trigger] pieces[i]).contains(
                separator,
            ) by {
                if i < pieces.len() - 1 {
                    assert(pieces[i] == before[i]);
                } else {
                    assert(!before.last().contains(separator));
                    if grown.contains(separator) {
                        let k = choose|k: int| 0 <= k < grown.len() && grown[k] == separator;
                        assert(before.last()[k] == separator);
                    }
                }
            }
        }
    }
}

/// Cuts a list at each separator.
pub fn split_list(list: &str, separator: char) -> (pieces: Vec<String>)
    ensures
        pieces.deep_view() == split(list@, separator),
        joined(pieces.deep_view(), seq![separator]) == list@,
{
    proof {
        split_is_inverse_of_joined(list@, separator);
    }
    let n: usize = list.unicode_len();
    let mut pieces: Vec<String> = Vec::new();
    let mut start: usize = 0;
    let mut i: usize = 0;
    assert(list@.subrange(0, 0) =~= Seq::empty());
    assert(pieces.deep_view().push(Seq::empty()) =~= split(list@.take(0), separator));
    while i < n
        invariant
            n == list@.len(),
            start <= i <= n,
            pieces.deep_view().push(list@.subrange(start as int, i as int)) == split(
                list@.take(i as int),
                separator,
            ),
        decreases n - i,
    {
        let ghost before = split(list@.take(i as int), separator);
        let ghost old_pieces = pieces.deep_view();
        assert(list@.take(i + 1).drop_last() =~= list@.take(i as int));
        assert(list@.take(i + 1).last() == list@[i as int]);
        if list.get_char(i) == separator {
            let piece = list.substring_char(start, i).to_owned();
            pieces.push(piece);
            start = i + 1;
            assert(pieces.deep_view() =~= before);
            assert(list@.subrange(start as int, i + 1) =~= Seq::empty());
        } else {
            assert(before.drop_last() =~= old_pieces);
            assert(list@.subrange(start as int, i + 1) =~= before.last().push(list@[i as int]));
        }
        i += 1;
    }
    let piece = list.substring_char(start, n).to_owned();
    pieces.push(piece);
    assert(list@.take(n as int) =~= list@);
    assert(pieces.deep_view() =~= split(list@, separator));
    pieces
}

} // verus!
