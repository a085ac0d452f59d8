//! The two encodings that token responses use for their fields: a list of
//! words as one text with single spaces between the words, and a name out
//! of a fixed vocabulary, written in any case.

use vstd::prelude::*;
use vstd::std_specs::iter::IteratorSpec;
use vstd::string::StringExecFns;
use crate::text::{lowercase, push_char, texts, to_lowercase};
use crate::token::TokenType;

verus! {

/// The words of `items` with a single space between each two of them.
pub open spec fn join_spaces(items: Seq<Seq<char>>) -> Seq<char>
    decreases items.len(),
{
    if items.len() == 0 {
        Seq::empty()
    } else if items.len() == 1 {
        items[0]
    } else {
        join_spaces(items.drop_last()) + seq![' '] + items.last()
    }
}

/// The pieces into which the spaces of `s` cut it. Each space ends one
/// piece and begins the next, so a text with `n` spaces has `n + 1` pieces,
/// some of which may be empty.
pub open spec fn split_spaces(s: Seq<char>) -> Seq<Seq<char>>
    decreases s.len(),
{
    if s.len() == 0 {
        seq![Seq::empty()]
    } else if s.last() == ' ' {
        split_spaces(s.drop_last()).push(Seq::empty())
    } else {
        let pieces = split_spaces(s.drop_last());
        pieces.drop_last().push(pieces.last().push(s.last()))
    }
}

/// Whether `s` holds no space.
pub open spec fn spaceless(s: Seq<char>) -> bool {
    forall|i: int| 0 <= i < s.len() ==> s[i] != ' '
}

/// A text always has a first piece.
pub proof fn lemma_split_nonempty(s: Seq<char>)
    ensures
        split_spaces(s).len() >= 1,
    decreases s.len(),
{
    if s.len() > 0 {
        lemma_split_nonempty(s.drop_last());
    }
}

/// Appending a space to a text adds an empty piece to its pieces.
proof fn lemma_split_space(s: Seq<char>)
    ensures
        split_spaces(s + seq![' ']) == split_spaces(s).push(Seq::empty()),
{
    assert((s + seq![' ']).drop_last() == s);
}

/// Appending a word without spaces to a text lengthens its last piece.
proof fn lemma_split_word(s: Seq<char>, word: Seq<char>)
    requires
        spaceless(word),
    ensures
        split_spaces(s).len() >= 1,
        split_spaces(s + word) == split_spaces(s).drop_last().push(split_spaces(s).last() + word),
    decreases word.len(),
{
    lemma_split_nonempty(s);
    let pieces = split_spaces(s);
    if word.len() == 0 {
        assert(s + word == s);
        assert(pieces.last() + word == pieces.last());
        assert(pieces.drop_last().push(pieces.last()) == pieces);
    } else {
        let shorter = word.drop_last();
        lemma_split_word(s, shorter);
        assert((s + word).drop_last() == s + shorter);
        assert((s + word).last() == word.last());
        let before = split_spaces(s + shorter);
        assert(before.last() == pieces.last() + shorter);
        assert(before.drop_last() == pieces.drop_last());
        assert((pieces.last() + shorter).push(word.last()) == pieces.last() + word);
    }
}

/// Splitting undoes joining: a list of at least one word, none of which
/// holds a space, is recovered from its joined form.
pub proof fn lemma_split_join(items: Seq<Seq<char>>)
    requires
        items.len() >= 1,
        forall|i: int| 0 <= i < items.len() ==> spaceless(#[trigger] items[i]),
    ensures
        split_spaces(join_spaces(items)) == items,
    decreases items.len(),
{
    if items.len() == 1 {
        lemma_split_word(Seq::empty(), items[0]);
        assert(Seq::<char>::empty() + items[0] == items[0]);
        assert(split_spaces(Seq::empty()) == seq![Seq::<char>::empty()]);
        assert(seq![Seq::<char>::empty()].drop_last().push(items[0]) == items);
    } else {
        let init = items.drop_last();
        lemma_split_join(init);
        let joined = join_spaces(init);
        lemma_split_space(joined);
        lemma_split_word(joined + seq![' '], items.last());
        assert(Seq::<char>::empty() + items.last() == items.last());
        assert(init.push(Seq::empty()).drop_last() == init);
        assert(init.push(items.last()) == items);
    }
}

/// Joining undoes splitting, whatever the text.
pub proof fn lemma_join_split(s: Seq<char>)
    ensures
        join_spaces(split_spaces(s)) == s,
    decreases s.len(),
{
    if s.len() == 0 {
    } else {
        let shorter = s.drop_last();
        lemma_join_split(shorter);
        lemma_split_nonempty(shorter);
        let pieces = split_spaces(shorter);
        if s.last() == ' ' {
            let longer = pieces.push(Seq::empty());
            assert(longer.drop_last() == pieces);
            assert(join_spaces(longer) == shorter + seq![' '] + Seq::<char>::empty());
            assert(shorter + seq![' '] + Seq::<char>::empty() == s);
        } else {
            let grown = pieces.last().push(s.last());
            let longer = pieces.drop_last().push(grown);
            assert(longer.drop_last() == pieces.drop_last());
            if pieces.len() == 1 {
                assert(pieces.last() == shorter);
                assert(grown == s);
            } else {
                assert(shorter == join_spaces(pieces.drop_last()) + seq![' '] + pieces.last());
                assert(join_spaces(longer) == join_spaces(pieces.drop_last()) + seq![' '] + grown);
                assert(s == shorter.push(s.last()));
                assert(join_spaces(pieces.drop_last()) + seq![' '] + grown == (join_spaces(
                    pieces.drop_last(),
                ) + seq![' '] + pieces.last()).push(s.last()));
            }
        }
    }
}

/// Joins `items` into one text, with a single space between each two.
pub fn join_space_delimited(items: &Vec<String>) -> (joined: String)
    ensures
        joined@ == join_spaces(texts(items@)),
{
    let mut joined = String::new();
    let mut i: usize = 0;
    while i < items.len()
        invariant
            0 <= i <= items.len(),
            joined@ == join_spaces(texts(items@).take(i as int)),
        decreases items.len() - i,
    {
        proof {
            let sofar = texts(items@).take(i as int);
            let next = texts(items@).take(i + 1);
            assert(next.drop_last() == sofar);
            assert(next.last() == items@[i as int]@);
            if i == 0 {
                assert(Seq::<char>::empty() + items@[0]@ == items@[0]@);
            }
        }
        if i > 0 {
            joined.append(" ");
            proof {
                reveal_strlit(" ");
                assert(" "@ == seq![' ']);
            }
        }
        joined.append(items[i].as_str());
        i = i + 1;
    }
    assert(texts(items@).take(items.len() as int) == texts(items@));
    joined
}

/// Cuts `s` at each of its spaces.
pub fn split_space_delimited(s: &str) -> (pieces: Vec<String>)
    ensures
        texts(pieces@) == split_spaces(s@),
{
    let mut pieces: Vec<String> = Vec::new();
    let mut piece = String::new();
    for c in it: s.chars()
        invariant
            it.seq() == s@,
            texts(pieces@).push(piece@) == split_spaces(s@.take(it.index())),
    {
        proof {
            let read = s@.take(it.index() + 1);
            assert(read.drop_last() == s@.take(it.index()));
            assert(read.last() == c);
            assert(texts(pieces@).push(piece@).drop_last() == texts(pieces@));
        }
        if c == ' ' {
            proof {
                assert(texts(pieces@.push(piece)) == texts(pieces@).push(piece@));
            }
            pieces.push(piece);
            piece = String::new();
        } else {
            push_char(&mut piece, c);
        }
    }
    proof {
        assert(s@.take(s@.len() as int) == s@);
        assert(texts(pieces@.push(piece)) == texts(pieces@).push(piece@));
    }
    pieces.push(piece);
    pieces
}

/// Reads a name out of the vocabulary `T`, whatever the case of its
/// letters: the name is brought to lower case before it is looked up.
pub fn deserialize_untagged_enum_case_insensitive<T: TokenType>(name: &str) -> (member: Option<T>)
    ensures
        member == T::named(lowercase(name@)),
{
    let lower = to_lowercase(name);
    T::from_name(lower.as_str())
}

/// Reads a list of words from its space-delimited form. A field that is
/// absent gives no list, which differs from an empty one.
pub fn deserialize_space_delimited_vec(space_delimited: Option<&str>) -> (items: Option<Vec<String>>)
    ensures
        match space_delimited {
            Some(s) => items is Some && texts(items.unwrap()@) == split_spaces(s@),
            None => items is None,
        },
{
    match space_delimited {
        Some(s) => Some(split_space_delimited(s)),
        None => None,
    }
}

/// Writes a list of words in its space-delimited form. No list gives no
/// text.
pub fn serialize_space_delimited_vec(string_vec_opt: &Option<Vec<String>>) -> (space_delimited: Option<String>)
    ensures
        match *string_vec_opt {
            Some(items) => space_delimited is Some && space_delimited.unwrap()@ == join_spaces(
                texts(items@),
            ),
            None => space_delimited is None,
        },
{
    match string_vec_opt {
        Some(items) => Some(join_space_delimited(items)),
        None => None,
    }
}

} // verus!
