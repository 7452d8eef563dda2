//! Words for a shell: how a text is written between double quotes so that
//! a shell reads back exactly that text, and how a shell reads such words.

use vstd::prelude::*;
use crate::text::{chars_of, joined};

verus! {

/// Whether a character keeps a meaning of its own between double quotes,
/// and so must follow a backslash to stand for itself.
pub open spec fn needs_escape(c: char) -> bool {
    c == '"' || c == '\\' || c == '$' || c == '`'
}

/// A character as it is written between double quotes.
pub open spec fn escaped_char(c: char) -> Seq<char> {
    if needs_escape(c) {
        seq!['\\', c]
    } else {
        seq![c]
    }
}

/// A text as it is written between double quotes: a backslash before each
/// character that needs one.
pub open spec fn escaped(s: Seq<char>) -> Seq<char>
    decreases s.len(),
{
    if s.len() == 0 {
        Seq::empty()
    } else {
        escaped(s.drop_last()) + escaped_char(s.last())
    }
}

/// A text as one word for a shell: escaped, between double quotes.
pub open spec fn quoted(text: Seq<char>) -> Seq<char> {
    seq!['"'] + escaped(text) + seq!['"']
}

/// Each text as one word for a shell.
pub open spec fn quoted_all(items: Seq<Seq<char>>) -> Seq<Seq<char>> {
    Seq::new(items.len(), |i: int| quoted(items[i]))
}

/// A list of texts as words for a shell: each one quoted, one space
/// between neighbours. The empty list is the empty text.
pub open spec fn words_of(items: Seq<Seq<char>>) -> Seq<char> {
    joined(quoted_all(items), seq![' '])
}

/// What a shell reads of a word between double quotes, from just after
/// the opening quote: the text of the word, and what follows the closing
/// quote. A backslash before a character that needs one, or before the
/// end of a line, is dropped, and so is that end of line; every other
/// character stands for itself. There is nothing to read where the quote
/// is not closed, and where a `$` or a backquote would start an expansion.
pub open spec fn read_quoted(s: Seq<char>) -> Option<(Seq<char>, Seq<char>)>
    decreases s.len(),
{
    if s.len() == 0 {
        None
    } else if s[0] == '"' {
        Some((Seq::empty(), s.skip(1)))
    } else if s[0] == '$' || s[0] == '`' {
        None
    } else if s[0] == '\\' && s.len() >= 2 && needs_escape(s[1]) {
        match read_quoted(s.skip(2)) {
            Some(read) => Some((seq![s[1]] + read.0, read.1)),
            None => None,
        }
    } else if s[0] == '\\' && s.len() >= 2 && s[1] == '\n' {
        read_quoted(s.skip(2))
    } else {
        match read_quoted(s.skip(1)) {
            Some(read) => Some((seq![s[0]] + read.0, read.1)),
            None => None,
        }
    }
}

/// The texts that a shell reads of a run of words, each between double
/// quotes, with one space between neighbours. There is nothing to read
/// where the text is not such a run.
pub open spec fn read_words(s: Seq<char>) -> Option<Seq<Seq<char>>>
    decreases s.len(),
{
    if s.len() == 0 {
        Some(Seq::empty())
    } else if s[0] != '"' {
        None
    } else {
        match read_quoted(s.skip(1)) {
            None => None,
            Some(read) => if read.1.len() == 0 {
                Some(seq![read.0])
            } else if read.1.len() < s.len() && read.1[0] == ' ' {
                match read_words(read.1.skip(1)) {
                    Some(more) => Some(seq![read.0] + more),
                    None => None,
                }
            } else {
                None
            },
        }
    }
}

/// An escaped text begins with its first character, escaped.
pub proof fn lemma_escaped_front(s: Seq<char>)
    requires
        s.len() > 0,
    ensures
        escaped(s) == escaped_char(s[0]) + escaped(s.drop_first()),
    decreases s.len(),
{
    if s.len() == 1 {
        assert(s.drop_last() =~= Seq::<char>::empty());
        assert(s.drop_first() =~= Seq::<char>::empty());
        assert(escaped(s) =~= escaped_char(s[0]) + escaped(s.drop_first()));
    } else {
        lemma_escaped_front(s.drop_last());
        assert(s.drop_last().drop_first() =~= s.drop_first().drop_last());
        assert(s.drop_first().last() == s.last());
        assert(s.drop_last()[0] == s[0]);
        assert(escaped(s) =~= escaped_char(s[0]) + escaped(s.drop_first()));
    }
}

/// A shell reads an escaped text, up to the quote that closes it, as the
/// text itself.
pub proof fn lemma_read_quoted(text: Seq<char>, rest: Seq<char>)
    ensures
        read_quoted(escaped(text) + seq!['"'] + rest) == Some((text, rest)),
    decreases text.len(),
{
    let s = escaped(text) + seq!['"'] + rest;
    if text.len() == 0 {
        assert(s.skip(1) =~= rest);
    } else {
        let c = text[0];
        let tail = text.drop_first();
        lemma_escaped_front(text);
        lemma_read_quoted(tail, rest);
        let after = escaped(tail) + seq!['"'] + rest;
        if needs_escape(c) {
            assert(s[0] == '\\');
            assert(s[1] == c);
            assert(s.skip(2) =~= after);
        } else {
            assert(s[0] == c);
            assert(s.skip(1) =~= after);
        }
        assert(seq![c] + tail =~= text);
    }
}

/// Texts joined with a separator begin with the first of them.
pub proof fn lemma_joined_front(parts: Seq<Seq<char>>, sep: Seq<char>)
    requires
        parts.len() >= 2,
    ensures
        joined(parts, sep) == parts[0] + sep + joined(parts.drop_first(), sep),
    decreases parts.len(),
{
    if parts.len() == 2 {
        reveal_with_fuel(joined, 2);
        assert(parts.drop_last()[0] == parts[0]);
        assert(parts.drop_first()[0] == parts.last());
        assert(joined(parts, sep) =~= parts[0] + sep + joined(parts.drop_first(), sep));
    } else {
        lemma_joined_front(parts.drop_last(), sep);
        assert(parts.drop_last().drop_first() =~= parts.drop_first().drop_last());
        assert(parts.drop_first().last() == parts.last());
        assert(parts.drop_last()[0] == parts[0]);
        assert(joined(parts, sep) =~= parts[0] + sep + joined(parts.drop_first(), sep));
    }
}

/// Reading the words back gives the list: whatever the texts hold, a shell
/// reads the words written for them as exactly those texts, in order.
pub proof fn lemma_words_read_back(items: Seq<Seq<char>>)
    ensures
        read_words(words_of(items)) == Some(items),
    decreases items.len(),
{
    let s = words_of(items);
    if items.len() == 0 {
        assert(items =~= Seq::<Seq<char>>::empty());
    } else {
        let first = items[0];
        let words = quoted_all(items);
        if items.len() == 1 {
            assert(s == quoted(first));
            lemma_read_quoted(first, Seq::empty());
            assert(s.skip(1) =~= escaped(first) + seq!['"'] + Seq::<char>::empty());
            assert(seq![first] =~= items);
        } else {
            let tail = items.drop_first();
            lemma_joined_front(words, seq![' ']);
            assert(words.drop_first() =~= quoted_all(tail));
            let rest = seq![' '] + words_of(tail);
            lemma_read_quoted(first, rest);
            assert(s.skip(1) =~= escaped(first) + seq!['"'] + rest);
            assert(rest.skip(1) =~= words_of(tail));
            lemma_words_read_back(tail);
            assert(seq![first] + tail =~= items);
        }
    }
}

/// Whether a character must follow a backslash between double quotes.
fn is_special(c: char) -> (special: bool)
    ensures
        special == needs_escape(c),
{
    c == '"' || c == '\\' || c == '$' || c == '`'
}

/// Appends a text as one word for a shell.
pub fn push_quoted(out: &mut String, text: &str)
    ensures
        final(out)@ == old(out)@ + quoted(text@),
{
    proof {
        reveal_strlit("\"");
        reveal_strlit("\\");
    }
    let chars = chars_of(text);
    let ghost before = out@;
    out.append("\"");
    let mut start: usize = 0;
    let mut i: usize = 0;
    proof {
        assert(text@.take(0) =~= Seq::<char>::empty());
        assert(out@ + text@.subrange(0, 0) =~= before + seq!['"'] + escaped(text@.take(0)));
    }
    while i < chars.len()
        invariant
            start <= i <= chars.len(),
            chars@ == text@,
            "\\"@ == seq!['\\'],
            out@ + text@.subrange(start as int, i as int) == before + seq!['"'] + escaped(
                text@.take(i as int),
            ),
        decreases chars.len() - i,
    {
        let c = chars[i];
        proof {
            assert(text@.take(i + 1).drop_last() =~= text@.take(i as int));
            assert(text@.take(i + 1).last() == c);
        }
        let ghost sent = out@;
        if is_special(c) {
            out.append(text.substring_char(start, i));
            out.append("\\");
            proof {
                assert(out@ + text@.subrange(i as int, i + 1) =~= (sent + text@.subrange(
                    start as int,
                    i as int,
                )) + seq!['\\', c]);
            }
            start = i;
        } else {
            proof {
                assert(sent + text@.subrange(start as int, i + 1) =~= (sent + text@.subrange(
                    start as int,
                    i as int,
                )) + seq![c]);
            }
        }
        i = i + 1;
    }
    out.append(text.substring_char(start, i));
    out.append("\"");
    proof {
        assert(text@.take(chars.len() as int) =~= text@);
        assert(out@ =~= before + quoted(text@));
    }
}

} // verus!
