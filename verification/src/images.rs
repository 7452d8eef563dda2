//! Reading the engine's list of images.
//!
//! The engine prints one image to a line, as `repository:tag`. An image
//! name without a tag stands for the tag `latest`.

use vstd::prelude::*;
use crate::text::{chars_of, trim_range, trimmed};

verus! {

/// Whether the colon at `i` begins the tag of an image reference: it is
/// the last colon, and no slash comes after it. A colon with a slash
/// after it belongs to the address of a registry, as in
/// `localhost:5000/image`.
pub open spec fn tag_begins_after(s: Seq<char>, i: int) -> bool {
    &&& 0 <= i < s.len()
    &&& s[i] == ':'
    &&& forall|j: int| i < j < s.len() ==> s[j] != ':' && s[j] != '/'
}

/// Whether an image reference names a tag.
pub open spec fn has_tag(s: Seq<char>) -> bool {
    exists|i: int| tag_begins_after(s, i)
}

/// The tag that a reference without a tag stands for.
pub const DEFAULT_TAG: &'static str = "latest";

/// The repository and the tag of an image reference: what stands before
/// and after the colon that begins the tag, or the whole reference and
/// `latest` where it names no tag.
pub open spec fn image_parts(s: Seq<char>) -> (Seq<char>, Seq<char>) {
    if has_tag(s) {
        let i = choose|i: int| tag_begins_after(s, i);
        (s.take(i), s.skip(i + 1))
    } else {
        (s, DEFAULT_TAG@)
    }
}

/// Whether a line of the list, already trimmed, is the image that `name`
/// asks for: the two have the same repository and the same tag.
pub open spec fn entry_matches(line: Seq<char>, name: Seq<char>) -> bool {
    image_parts(line) == image_parts(name)
}

/// Whether the characters from `from` up to `to` are one line of `s`.
pub open spec fn is_line(s: Seq<char>, from: int, to: int) -> bool {
    &&& 0 <= from <= to <= s.len()
    &&& from == 0 || s[from - 1] == '\n'
    &&& to == s.len() || s[to] == '\n'
    &&& forall|k: int| from <= k < to ==> s[k] != '\n'
}

/// Whether the list holds the image that `name` asks for: some line of it,
/// trimmed, is not empty and matches.
pub open spec fn lists_image(listing: Seq<char>, name: Seq<char>) -> bool {
    exists|from: int, to: int|
        #![trigger listing.subrange(from, to)]
        is_line(listing, from, to) && trimmed(listing.subrange(from, to)).len() > 0
            && entry_matches(trimmed(listing.subrange(from, to)), name)
}

/// A reference has one colon at most that begins its tag, and is cut
/// there.
pub proof fn lemma_cut_at_tag(s: Seq<char>, i: int)
    requires
        tag_begins_after(s, i),
    ensures
        has_tag(s),
        image_parts(s) == (s.take(i), s.skip(i + 1)),
{
    let chosen = choose|k: int| tag_begins_after(s, k);
    assert(chosen == i);
}

/// The first place from `from` up to `to` that holds `c`.
fn find_char(chars: &Vec<char>, from: usize, to: usize, c: char) -> (found: Option<usize>)
    requires
        from <= to <= chars.len(),
    ensures
        match found {
            Some(at) => from <= at < to && chars@[at as int] == c && forall|j: int|
                from <= j < at ==> chars@[j] != c,
            None => forall|j: int| from <= j < to ==> chars@[j] != c,
        },
{
    let mut i: usize = from;
    while i < to
        invariant
            from <= i <= to <= chars.len(),
            forall|j: int| from <= j < i ==> chars@[j] != c,
        decreases to - i,
    {
        if chars[i] == c {
            return Some(i);
        }
        i = i + 1;
    }
    None
}

/// The colon that begins the tag of the reference from `from` up to `to`.
fn find_tag(chars: &Vec<char>, from: usize, to: usize) -> (found: Option<usize>)
    requires
        from <= to <= chars.len(),
    ensures
        match found {
            Some(at) => from <= at < to && tag_begins_after(
                chars@.subrange(from as int, to as int),
                at - from,
            ),
            None => !has_tag(chars@.subrange(from as int, to as int)),
        },
{
    let ghost part = chars@.subrange(from as int, to as int);
    let mut i: usize = to;
    while i > from
        invariant
            from <= i <= to <= chars.len(),
            part == chars@.subrange(from as int, to as int),
            forall|j: int| i - from <= j < part.len() ==> part[j] != ':' && part[j] != '/',
        decreases i - from,
    {
        i = i - 1;
        assert(part[i - from] == chars@[i as int]);
        if chars[i] == ':' {
            return Some(i);
        }
        if chars[i] == '/' {
            assert forall|k: int| !tag_begins_after(part, k) by {
                if tag_begins_after(part, k) {
                    if k < i - from {
                        assert(part[i - from] == '/');
                    }
                }
            }
            return None;
        }
    }
    assert forall|k: int| !tag_begins_after(part, k) by {}
    None
}

/// Whether two parts of two texts hold the same characters.
fn same_part(a: &Vec<char>, a_from: usize, a_to: usize, b: &Vec<char>, b_from: usize, b_to: usize) -> (same:
    bool)
    requires
        a_from <= a_to <= a.len(),
        b_from <= b_to <= b.len(),
    ensures
        same == (a@.subrange(a_from as int, a_to as int) == b@.subrange(
            b_from as int,
            b_to as int,
        )),
{
    let ghost left = a@.subrange(a_from as int, a_to as int);
    let ghost right = b@.subrange(b_from as int, b_to as int);
    if a_to - a_from != b_to - b_from {
        assert(left.len() != right.len());
        return false;
    }
    let n = a_to - a_from;
    let mut i: usize = 0;
    while i < n
        invariant
            i <= n,
            n == a_to - a_from,
            n == b_to - b_from,
            a_to <= a.len(),
            b_to <= b.len(),
            left == a@.subrange(a_from as int, a_to as int),
            right == b@.subrange(b_from as int, b_to as int),
            forall|k: int| 0 <= k < i ==> left[k] == right[k],
        decreases n - i,
    {
        if a[a_from + i] != b[b_from + i] {
            assert(left[i as int] != right[i as int]);
            return false;
        }
        i = i + 1;
    }
    assert(left =~= right);
    true
}

/// Whether the trimmed line from `from` up to `to` of the list is the
/// image that `name` asks for.
fn line_matches(
    listing: &Vec<char>,
    from: usize,
    to: usize,
    name: &Vec<char>,
    tag: &Vec<char>,
) -> (matches: bool)
    requires
        from <= to <= listing.len(),
        tag@ == DEFAULT_TAG@,
    ensures
        matches == entry_matches(listing@.subrange(from as int, to as int), name@),
{
    let ghost line = listing@.subrange(from as int, to as int);
    let line_cut = find_tag(listing, from, to);
    let name_cut = find_tag(name, 0, name.len());
    proof {
        assert(name@.subrange(0, name.len() as int) =~= name@);
        assert(tag@.subrange(0, tag.len() as int) =~= tag@);
        assert(listing@.subrange(from as int, to as int) =~= line);
        if let Some(cut) = line_cut {
            lemma_cut_at_tag(line, cut - from);
            assert(line.take(cut - from) =~= listing@.subrange(from as int, cut as int));
            assert(line.skip(cut - from + 1) =~= listing@.subrange(cut + 1, to as int));
        }
        if let Some(cut) = name_cut {
            lemma_cut_at_tag(name@, cut as int);
            assert(name@.take(cut as int) =~= name@.subrange(0, cut as int));
            assert(name@.skip(cut + 1) =~= name@.subrange(cut + 1, name.len() as int));
        }
    }
    let line_end = match line_cut {
        Some(cut) => cut,
        None => to,
    };
    let name_end = match name_cut {
        Some(cut) => cut,
        None => name.len(),
    };
    if !same_part(listing, from, line_end, name, 0, name_end) {
        return false;
    }
    match line_cut {
        Some(cut) => match name_cut {
            Some(other) => same_part(listing, cut + 1, to, name, other + 1, name.len()),
            None => same_part(listing, cut + 1, to, tag, 0, tag.len()),
        },
        None => match name_cut {
            Some(other) => same_part(tag, 0, tag.len(), name, other + 1, name.len()),
            None => true,
        },
    }
}

/// Whether the engine's list of images holds the image that `image_name`
/// asks for.
pub fn image_listed(listing: &str, image_name: &str) -> (listed: bool)
    ensures
        listed == lists_image(listing@, image_name@),
{
    let chars = chars_of(listing);
    let name = chars_of(image_name);
    let tag = chars_of(DEFAULT_TAG);
    let ghost s = chars@;
    let mut start: usize = 0;
    loop
        invariant
            start <= chars.len(),
            chars@ == listing@,
            s == chars@,
            name@ == image_name@,
            tag@ == DEFAULT_TAG@,
            start == 0 || s[start - 1] == '\n',
            forall|from: int, to: int|
                #![trigger s.subrange(from, to)]
                is_line(s, from, to) && from < start ==> !(trimmed(s.subrange(from, to)).len()
                    > 0 && entry_matches(trimmed(s.subrange(from, to)), name@)),
        decreases chars.len() - start,
    {
        let end = match find_char(&chars, start, chars.len(), '\n') {
            Some(at) => at,
            None => chars.len(),
        };
        assert(is_line(s, start as int, end as int));
        let bounds = trim_range(&chars, start, end);
        if bounds.0 < bounds.1 && line_matches(&chars, bounds.0, bounds.1, &name, &tag) {
            assert(trimmed(s.subrange(start as int, end as int)) == s.subrange(
                bounds.0 as int,
                bounds.1 as int,
            ));
            return true;
        }
        proof {
            assert forall|from: int, to: int|
                #![trigger s.subrange(from, to)]
                is_line(s, from, to) && from < end + 1 implies !(trimmed(
                s.subrange(from, to),
            ).len() > 0 && entry_matches(trimmed(s.subrange(from, to)), name@)) by {
                if from >= start {
                    if from > start {
                        assert(s[from - 1] == '\n');
                    }
                    assert(from == start);
                    if to < end {
                        assert(s[to] == '\n');
                    }
                    if to > end {
                        assert(s[end as int] == '\n');
                    }
                    assert(to == end);
                }
            }
        }
        if end == chars.len() {
            proof {
                assert forall|from: int, to: int|
                    #![trigger s.subrange(from, to)]
                    is_line(s, from, to) implies !(trimmed(s.subrange(from, to)).len() > 0
                    && entry_matches(trimmed(s.subrange(from, to)), name@)) by {
                    assert(from < end + 1);
                }
            }
            return false;
        }
        start = end + 1;
    }
}

} // verus!
