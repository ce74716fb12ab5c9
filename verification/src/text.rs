//! Text as it comes out of markup: pieces that are trimmed and joined.

use vstd::prelude::*;
use vstd::string::*;

verus! {

/// Whether the character has the Unicode property White_Space, which is
/// what std's `char::is_whitespace` tells: the controls from tab to carriage
/// return, the space, next line, the no-break spaces, the Ogham space mark,
/// the spaces of fixed width, the line and paragraph separators, the
/// medium mathematical space and the ideographic space.
pub open spec fn white_space(c: char) -> bool {
    let code = c as u32;
    ||| 0x0009 <= code <= 0x000D
    ||| code == 0x0020
    ||| code == 0x0085
    ||| code == 0x00A0
    ||| code == 0x1680
    ||| 0x2000 <= code <= 0x200A
    ||| code == 0x2028
    ||| code == 0x2029
    ||| code == 0x202F
    ||| code == 0x205F
    ||| code == 0x3000
}

/// Tells whether the character is white space.
pub fn is_white_space(c: char) -> (r: bool)
    ensures
        r == white_space(c),
{
    let code = c as u32;
    (0x0009 <= code && code <= 0x000D) || code == 0x0020 || code == 0x0085 || code == 0x00A0
        || code == 0x1680 || (0x2000 <= code && code <= 0x200A) || code == 0x2028
        || code == 0x2029 || code == 0x202F || code == 0x205F || code == 0x3000
}

/// The text without the white space that it begins with.
pub open spec fn without_leading_space(text: Seq<char>) -> Seq<char>
    decreases text.len(),
{
    if text.len() > 0 && white_space(text.first()) {
        without_leading_space(text.drop_first())
    } else {
        text
    }
}

/// The text without the white space that it ends with.
pub open spec fn without_trailing_space(text: Seq<char>) -> Seq<char>
    decreases text.len(),
{
    if text.len() > 0 && white_space(text.last()) {
        without_trailing_space(text.drop_last())
    } else {
        text
    }
}

/// The text with the white space at both ends removed.
pub open spec fn trimmed(text: Seq<char>) -> Seq<char> {
    without_trailing_space(without_leading_space(text))
}

/// Each piece trimmed, and the results laid end to end.
pub open spec fn joined(pieces: Seq<Seq<char>>) -> Seq<char> {
    pieces.map_values(|piece: Seq<char>| trimmed(piece)).flatten()
}

/// std's `str::trim` returns the slice of the text that is left when leading
/// and trailing white space is removed, white space being the characters with
/// the property White_Space: what is cut off at either end is white space,
/// and what is kept neither begins nor ends with it. That the characters with
/// the property are those of `white_space` is part of what is trusted here.
pub assume_specification[ str::trim ](text: &str) -> (r: &str)
    ensures
        r@.len() <= text@.len(),
        exists|from: int|
            0 <= from <= text@.len() - r@.len() && r@ == (#[trigger] text@.skip(from)).take(
                r@.len() as int,
            ) && (forall|i: int|
                0 <= i < text@.len() && !(from <= i < from + r@.len()) ==> white_space(
                    #[trigger] text@[i],
                )),
        r@.len() > 0 ==> !white_space(r@.first()) && !white_space(r@.last()),
;

proof fn lemma_leading_space(text: Seq<char>, from: int)
    requires
        0 <= from <= text.len(),
        forall|i: int| 0 <= i < from ==> white_space(#[trigger] text[i]),
        from < text.len() ==> !white_space(text[from]),
    ensures
        without_leading_space(text) == text.subrange(from, text.len() as int),
    decreases text.len(),
{
    if from == 0 {
        assert(text.subrange(0, text.len() as int) =~= text);
    } else {
        assert(white_space(text[0]));
        let rest = text.drop_first();
        assert forall|i: int| 0 <= i < from - 1 implies white_space(#[trigger] rest[i]) by {
            assert(rest[i] == text[i + 1]);
        }
        lemma_leading_space(rest, from - 1);
        assert(rest.subrange(from - 1, rest.len() as int) =~= text.subrange(
            from,
            text.len() as int,
        ));
    }
}

proof fn lemma_trailing_space(text: Seq<char>, to: int)
    requires
        0 <= to <= text.len(),
        forall|i: int| to <= i < text.len() ==> white_space(#[trigger] text[i]),
        0 < to ==> !white_space(text[to - 1]),
    ensures
        without_trailing_space(text) == text.subrange(0, to),
    decreases text.len(),
{
    if to == text.len() {
        assert(text.subrange(0, to) =~= text);
    } else {
        assert(white_space(text[text.len() - 1]));
        let rest = text.drop_last();
        assert forall|i: int| to <= i < rest.len() implies white_space(#[trigger] rest[i]) by {
            assert(rest[i] == text[i]);
        }
        lemma_trailing_space(rest, to);
        assert(rest.subrange(0, to) =~= text.subrange(0, to));
    }
}

/// A slice of the text whose cut-off ends are white space, and which neither
/// begins nor ends with white space, is the trimmed text.
pub proof fn lemma_trimmed_slice(text: Seq<char>, from: int, to: int)
    requires
        0 <= from <= to <= text.len(),
        forall|i: int| 0 <= i < from ==> white_space(#[trigger] text[i]),
        forall|i: int| to <= i < text.len() ==> white_space(#[trigger] text[i]),
        from < to ==> !white_space(text[from]) && !white_space(text[to - 1]),
    ensures
        text.subrange(from, to) == trimmed(text),
{
    let len = text.len() as int;
    if from == to {
        lemma_leading_space(text, len);
        lemma_trailing_space(text.subrange(len, len), 0);
        assert(text.subrange(from, to) =~= text.subrange(len, len).subrange(0, 0));
    } else {
        lemma_leading_space(text, from);
        let rest = text.subrange(from, len);
        assert forall|i: int| to - from <= i < rest.len() implies white_space(
            #[trigger] rest[i],
        ) by {
            assert(rest[i] == text[i + from]);
        }
        assert(rest[to - from - 1] == text[to - 1]);
        lemma_trailing_space(rest, to - from);
        assert(rest.subrange(0, to - from) =~= text.subrange(from, to));
    }
}

/// The text with the white space at both ends removed.
pub fn trim_text(text: &str) -> (r: &str)
    ensures
        r@ == trimmed(text@),
{
    let r = text.trim();
    proof {
        let from = choose|from: int|
            0 <= from <= text@.len() - r@.len() && r@ == (#[trigger] text@.skip(from)).take(
                r@.len() as int,
            ) && (forall|i: int|
                0 <= i < text@.len() && !(from <= i < from + r@.len()) ==> white_space(
                    #[trigger] text@[i],
                ));
        let to = from + r@.len();
        assert(text@.skip(from).take(r@.len() as int) =~= text@.subrange(from, to));
        if from < to {
            assert(r@.first() == text@[from]);
            assert(r@.last() == text@[to - 1]);
        }
        lemma_trimmed_slice(text@, from, to);
    }
    r
}

/// A text that neither begins nor ends with white space is its own trim.
pub proof fn lemma_trimmed_unchanged(text: Seq<char>)
    requires
        text.len() > 0 ==> !white_space(text.first()) && !white_space(text.last()),
    ensures
        trimmed(text) == text,
{
    lemma_trimmed_slice(text, 0, text.len() as int);
    assert(text.subrange(0, text.len() as int) =~= text);
}

/// Joining one piece more appends the trim of that piece.
pub proof fn lemma_joined_push(pieces: Seq<Seq<char>>, piece: Seq<char>)
    ensures
        joined(pieces.push(piece)) == joined(pieces) + trimmed(piece),
{
    let each = |piece: Seq<char>| trimmed(piece);
    assert(pieces.push(piece).map_values(each) =~= pieces.map_values(each).push(trimmed(piece)));
    pieces.map_values(each).lemma_flatten_push(trimmed(piece));
}

/// Trims every piece and joins the results into one text.
pub fn join_trimmed(pieces: &Vec<String>) -> (text: String)
    ensures
        text@ == joined(pieces.deep_view()),
{
    let ghost source = pieces.deep_view();
    let mut text = String::new();
    let mut i: usize = 0;
    assert(joined(source.subrange(0, 0)) =~= Seq::<char>::empty());
    while i < pieces.len()
        invariant
            i <= pieces.len(),
            source == pieces.deep_view(),
            text@ == joined(source.subrange(0, i as int)),
        decreases pieces.len() - i,
    {
        let piece = trim_text(pieces[i].as_str());
        proof {
            let before = source.subrange(0, i as int);
            assert(source.subrange(0, i as int + 1) =~= before.push(pieces@[i as int]@));
            lemma_joined_push(before, pieces@[i as int]@);
        }
        text.append(piece);
        i = i + 1;
    }
    assert(source.subrange(0, i as int) =~= source);
    text
}

} // verus!
