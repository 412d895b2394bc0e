//! Comparing, joining and splitting text.
use vstd::prelude::*;

verus! {

/// Whether `separator` stands in `text` at the position `at`.
pub open spec fn occurs_at(text: Seq<char>, separator: Seq<char>, at: int) -> bool {
    &&& 0 <= at
    &&& at + separator.len() <= text.len()
    &&& text.subrange(at, at + separator.len()) == separator
}

/// The first position at or after `from` where `separator` stands in `text`.
pub open spec fn find_from(text: Seq<char>, separator: Seq<char>, from: int) -> Option<int>
    decreases text.len() + 1 - from,
{
    if from + separator.len() > text.len() {
        None
    } else if occurs_at(text, separator, from) {
        Some(from)
    } else {
        find_from(text, separator, from + 1)
    }
}

/// What stands before and after the first `separator` in `text`.
pub open spec fn split_first(text: Seq<char>, separator: Seq<char>) -> Option<
    (Seq<char>, Seq<char>),
> {
    match find_from(text, separator, 0) {
        Some(at) => Some(
            (
                text.subrange(0, at),
                text.subrange(at + separator.len(), text.len() as int),
            ),
        ),
        None => None,
    }
}

/// The views of the two halves of a split.
pub open spec fn halves(split: Option<(&str, &str)>) -> Option<(Seq<char>, Seq<char>)> {
    match split {
        Some((head, tail)) => Some((head@, tail@)),
        None => None,
    }
}

/// The position found is the first one: the separator stands there, and at no
/// position between `from` and it.
pub proof fn lemma_find_from_is_first(text: Seq<char>, separator: Seq<char>, from: int)
    requires
        0 <= from,
    ensures
        match find_from(text, separator, from) {
            Some(at) => {
                &&& from <= at
                &&& occurs_at(text, separator, at)
                &&& forall|j: int| from <= j < at ==> !#[trigger] occurs_at(text, separator, j)
            },
            None => forall|j: int| from <= j ==> !#[trigger] occurs_at(text, separator, j),
        },
    decreases text.len() + 1 - from,
{
    if from + separator.len() <= text.len() && !occurs_at(text, separator, from) {
        lemma_find_from_is_first(text, separator, from + 1);
    }
}

/// Nothing is lost in a split: the two halves with the separator between them
/// are the text, and the separator stands nowhere earlier.
pub proof fn law_split_first_rejoins(text: Seq<char>, separator: Seq<char>)
    ensures
        match split_first(text, separator) {
            Some((head, tail)) => {
                &&& head + separator + tail == text
                &&& forall|j: int|
                    0 <= j < head.len() ==> !#[trigger] occurs_at(text, separator, j)
            },
            None => forall|j: int| !#[trigger] occurs_at(text, separator, j),
        },
{
    lemma_find_from_is_first(text, separator, 0);
    if let Some(at) = find_from(text, separator, 0) {
        let head = text.subrange(0, at);
        let tail = text.subrange(at + separator.len(), text.len() as int);
        assert(text =~= head + text.subrange(at, at + separator.len()) + tail);
    }
}

/// A text that starts with `head` and `separator` is split right there, where
/// the separator stands nowhere earlier in that start.
pub proof fn lemma_split_first_of_joined(head: Seq<char>, separator: Seq<char>, tail: Seq<char>)
    requires
        forall|j: int| 0 <= j < head.len() ==> !occurs_at(head + separator + tail, separator, j),
    ensures
        split_first(head + separator + tail, separator) == Some((head, tail)),
{
    let text = head + separator + tail;
    lemma_find_from_is_first(text, separator, 0);
    assert(text.subrange(head.len() as int, (head.len() + separator.len()) as int) =~= separator);
    assert(occurs_at(text, separator, head.len() as int));
    assert(text.subrange(0, head.len() as int) =~= head);
    assert(text.subrange((head.len() + separator.len()) as int, text.len() as int) =~= tail);
}

/// Whether two texts hold the same characters.
pub fn str_eq(left: &str, right: &str) -> (same: bool)
    ensures
        same == (left@ == right@),
{
    left.to_owned() == right.to_owned()
}

/// The two texts, one behind the other.
pub fn join(left: &str, right: &str) -> (joined: String)
    ensures
        joined@ == left@ + right@,
{
    left.to_owned().concat(right)
}

/// Splits `text` at the first `separator`.
pub fn split_once<'a>(text: &'a str, separator: &str) -> (split: Option<(&'a str, &'a str)>)
    ensures
        halves(split) == split_first(text@, separator@),
{
    let length: usize = text.unicode_len();
    let width: usize = separator.unicode_len();
    if width > length {
        return None;
    }
    let last: usize = length - width;
    let mut at: usize = 0;
    while at <= last
        invariant
            at <= last + 1,
            last + width == length,
            length == text@.len(),
            width == separator@.len(),
            find_from(text@, separator@, 0) == find_from(text@, separator@, at as int),
        decreases last + 1 - at,
    {
        if str_eq(text.substring_char(at, at + width), separator) {
            return Some((text.substring_char(0, at), text.substring_char(at + width, length)));
        }
        if at == last {
            assert(find_from(text@, separator@, at + 1) is None);
            return None;
        }
        at = at + 1;
    }
    None
}

/// The halves of a split are the text around the first place where the separator
/// stands, and a text is not split where the separator stands nowhere in it.
pub proof fn law_split_is_at_the_first_separator(text: Seq<char>, separator: Seq<char>)
    ensures
        match split_first(text, separator) {
            Some((head, tail)) => {
                &&& text == head + separator + tail
                &&& forall|j: int|
                    0 <= j < head.len() ==> (#[trigger] text.subrange(j, j + separator.len()))
                        != separator
            },
            None => forall|j: int|
                0 <= j && j + separator.len() <= text.len() ==> (#[trigger] text.subrange(
                    j,
                    j + separator.len(),
                )) != separator,
        },
{
    law_split_first_rejoins(text, separator);
    match split_first(text, separator) {
        Some((head, tail)) => {
            assert forall|j: int| 0 <= j < head.len() implies (#[trigger] text.subrange(
                j,
                j + separator.len(),
            )) != separator by {
                assert(!occurs_at(text, separator, j));
            }
        },
        None => {
            assert forall|j: int| 0 <= j && j + separator.len() <= text.len() implies (
            #[trigger] text.subrange(j, j + separator.len())) != separator by {
                assert(!occurs_at(text, separator, j));
            }
        },
    }
}

/// A split that is handed out has the views that it is made of.
pub proof fn law_halves_are_views(split: Option<(&str, &str)>)
    ensures
        split is None <==> halves(split) is None,
        split matches Some((head, tail)) ==> halves(split) == Some((head@, tail@)),
{
}

} // verus!
