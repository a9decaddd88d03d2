//! Pieces of text: comparing them, and joining them with a separator.

use vstd::prelude::*;
use vstd::string::*;

verus! {

/// Assumed of the standard library's `<str as PartialEq>::eq`, and not
/// proved here: two string slices are equal exactly when they hold the same
/// characters.
pub assume_specification[ <str as PartialEq>::eq ](a: &str, b: &str) -> (same: bool)
    ensures
        same == (a@ == b@),
;

/// The view of an optional piece of text.
pub open spec fn text_of(text: Option<&str>) -> Option<Seq<char>> {
    match text {
        Some(t) => Some(t@),
        None => None,
    }
}

/// The views of a list of strings, in the same order.
pub open spec fn texts(items: Seq<String>) -> Seq<Seq<char>> {
    Seq::new(items.len(), |i: int| items[i]@)
}

/// The items written one after another, with the separator between each two
/// neighbours. No separator stands before the first or after the last item.
pub open spec fn join(items: Seq<Seq<char>>, separator: Seq<char>) -> Seq<char>
    decreases items.len(),
{
    if items.len() == 0 {
        Seq::empty()
    } else if items.len() == 1 {
        items[0]
    } else {
        join(items.drop_last(), separator) + separator + items.last()
    }
}

/// Joining one more item appends the separator, unless the item is the
/// first, and then the item.
pub proof fn lemma_join_push(items: Seq<Seq<char>>, separator: Seq<char>, item: Seq<char>)
    ensures
        join(items.push(item), separator) == if items.len() == 0 {
            item
        } else {
            join(items, separator) + separator + item
        },
{
    let all = items.push(item);
    assert(all.drop_last() =~= items);
    assert(all.last() == item);
}

/// Writes the items one after another, with the separator between each two
/// neighbours.
pub fn join_texts(items: &Vec<String>, separator: &str) -> (joined: String)
    ensures
        joined@ == join(texts(items@), separator@),
{
    let ghost all = texts(items@);
    let mut joined = String::new();
    let mut i: usize = 0;
    while i < items.len()
        invariant
            i <= items.len(),
            all == texts(items@),
            joined@ == join(all.take(i as int), separator@),
        decreases items.len() - i,
    {
        proof {
            lemma_join_push(all.take(i as int), separator@, all[i as int]);
            assert(all.take(i as int).push(all[i as int]) =~= all.take(i + 1));
            assert(Seq::<char>::empty() + all[i as int] =~= all[i as int]);
        }
        if i > 0 {
            joined.append(separator);
        }
        joined.append(items[i].as_str());
        i += 1;
    }
    proof {
        assert(all.take(i as int) =~= all);
    }
    joined
}

} // verus!
