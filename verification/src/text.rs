//! Text building blocks shared by the rest of the library.

use vstd::prelude::*;

verus! {

/// The texts of `items` written one after another, with `separator` between
/// each two neighbours and nothing before the first or after the last.
pub open spec fn joined(items: Seq<Seq<char>>, separator: Seq<char>) -> Seq<char>
    decreases items.len(),
{
    if items.len() == 0 {
        Seq::empty()
    } else if items.len() == 1 {
        items[0]
    } else {
        joined(items.drop_last(), separator) + separator + items.last()
    }
}

/// Joining grows by one separator and one item for each item after the first.
pub proof fn lemma_joined_push(items: Seq<Seq<char>>, separator: Seq<char>, item: Seq<char>)
    ensures
        joined(items.push(item), separator) == if items.len() == 0 {
            item
        } else {
            joined(items, separator) + separator + item
        },
{
    let longer = items.push(item);
    assert(longer.drop_last() =~= items);
    assert(longer.last() == item);
    if items.len() == 0 {
        assert(longer[0] == item);
    }
}

/// Joins `items` with `separator`.
pub fn join(items: &Vec<String>, separator: &str) -> (out: String)
    ensures
        out@ == joined(items.deep_view(), separator@),
{
    let mut out = String::new();
    let mut i: usize = 0;
    while i < items.len()
        invariant
            i <= items.len(),
            out@ == joined(items.deep_view().take(i as int), separator@),
        decreases items.len() - i,
    {
        proof {
            let done = items.deep_view().take(i as int);
            lemma_joined_push(done, separator@, items[i as int]@);
            assert(items.deep_view().take(i + 1) =~= done.push(items[i as int]@));
        }
        if i > 0 {
            out.append(separator);
        }
        out.append(items[i].as_str());
        i = i + 1;
    }
    proof {
        assert(items.deep_view().take(i as int) =~= items.deep_view());
    }
    out
}

/// The place of the first `mark` in `text`.
pub open spec fn find(text: Seq<char>, mark: char) -> Option<int>
    decreases text.len(),
{
    if text.len() == 0 {
        None
    } else if text[0] == mark {
        Some(0)
    } else {
        match find(text.drop_first(), mark) {
            Some(place) => Some(place + 1),
            None => None,
        }
    }
}

/// `find` gives the least place that holds the mark, and gives one whenever
/// the mark occurs.
pub proof fn lemma_find(text: Seq<char>, mark: char)
    ensures
        match find(text, mark) {
            Some(place) => 0 <= place < text.len() && text[place] == mark && forall|i: int|
                0 <= i < place ==> text[i] != mark,
            None => forall|i: int| 0 <= i < text.len() ==> text[i] != mark,
        },
    decreases text.len(),
{
    if text.len() > 0 && text[0] != mark {
        let rest = text.drop_first();
        lemma_find(rest, mark);
        assert forall|i: int| 1 <= i < text.len() implies text[i] == rest[i - 1] by {}
        match find(rest, mark) {
            Some(place) => {
                assert forall|i: int| 0 <= i < place + 1 implies text[i] != mark by {
                    if i > 0 {
                        assert(text[i] == rest[i - 1]);
                    }
                }
            },
            None => {
                assert forall|i: int| 0 <= i < text.len() implies text[i] != mark by {
                    if i > 0 {
                        assert(text[i] == rest[i - 1]);
                    }
                }
            },
        }
    }
}

/// The place where `find` stops is fixed by what the text holds.
pub proof fn lemma_find_at(text: Seq<char>, mark: char, place: int)
    requires
        0 <= place < text.len(),
        text[place] == mark,
        forall|i: int| 0 <= i < place ==> text[i] != mark,
    ensures
        find(text, mark) == Some(place),
{
    lemma_find(text, mark);
    match find(text, mark) {
        Some(found) => {
            if found < place {
                assert(text[found] != mark);
            } else if place < found {
                assert(text[place] != mark);
            }
        },
        None => {
            assert(text[place] != mark);
        },
    }
}

/// The text before the first `mark` and the text after it.
pub open spec fn split_once(text: Seq<char>, mark: char) -> Option<(Seq<char>, Seq<char>)> {
    match find(text, mark) {
        Some(place) => Some((text.take(place), text.skip(place + 1))),
        None => None,
    }
}

/// A text without the mark, the mark, and any text: splitting gives the two
/// texts back.
pub proof fn lemma_split_joined(head: Seq<char>, mark: char, tail: Seq<char>)
    requires
        !head.contains(mark),
    ensures
        split_once(head + seq![mark] + tail, mark) == Some((head, tail)),
{
    let text = head + seq![mark] + tail;
    let place = head.len() as int;
    assert(text[place] == mark);
    assert forall|i: int| 0 <= i < place implies text[i] != mark by {
        assert(text[i] == head[i]);
        assert(head.contains(head[i]));
    }
    lemma_find_at(text, mark, place);
    assert(text.take(place) =~= head);
    assert(text.skip(place + 1) =~= tail);
}

/// Splits `text` at the first `mark`.
pub fn split_at_mark(text: &str, mark: char) -> (parts: Option<(String, String)>)
    ensures
        parts.deep_view() == split_once(text@, mark),
{
    let length = text.unicode_len();
    let mut i: usize = 0;
    while i < length
        invariant
            i <= length,
            length == text@.len(),
            forall|j: int| 0 <= j < i ==> text@[j] != mark,
        decreases length - i,
    {
        if text.get_char(i) == mark {
            proof {
                lemma_find_at(text@, mark, i as int);
            }
            let head = String::from_str(text.substring_char(0, i));
            let tail = String::from_str(text.substring_char(i + 1, length));
            proof {
                assert(text@.subrange(0, i as int) =~= text@.take(i as int));
                assert(text@.subrange(i + 1, length as int) =~= text@.skip(i + 1));
            }
            return Some((head, tail));
        }
        i = i + 1;
    }
    proof {
        lemma_find(text@, mark);
    }
    None
}

} // verus!
