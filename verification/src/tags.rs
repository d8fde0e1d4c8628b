use vstd::prelude::*;

use crate::views_of;

verus! {

/// No entry of the list occurs twice.
pub open spec fn no_duplicates(s: Seq<Seq<char>>) -> bool {
    forall|i: int, j: int| 0 <= i < s.len() && 0 <= j < s.len() && i != j ==> s[i] != s[j]
}

/// The list after recording `item`: unchanged when it is already there,
/// otherwise with `item` appended at the end.
pub open spec fn with_item(s: Seq<Seq<char>>, item: Seq<char>) -> Seq<Seq<char>> {
    if s.contains(item) {
        s
    } else {
        s.push(item)
    }
}

/// Whether some entry of the list equals `item`.
pub fn contains_tag(list: &Vec<String>, item: &str) -> (r: bool)
    ensures
        r == views_of(list@).contains(item@),
{
    let wanted = item.to_owned();
    let mut i: usize = 0;
    while i < list.len()
        invariant
            i <= list.len(),
            wanted@ == item@,
            forall|k: int| 0 <= k < i ==> list@[k]@ != item@,
        decreases list.len() - i,
    {
        if list[i] == wanted {
            proof {
                assert(views_of(list@)[i as int] == item@);
            }
            return true;
        }
        i = i + 1;
    }
    proof {
        if views_of(list@).contains(item@) {
            let k = choose|k: int| 0 <= k < views_of(list@).len() && views_of(list@)[k] == item@;
            assert(list@[k]@ == item@);
        }
    }
    false
}

/// Records `item` in the list unless an equal entry is already there.
/// Returns whether it was added.
pub fn add_unique(list: &mut Vec<String>, item: &str) -> (added: bool)
    ensures
        added == !views_of(old(list)@).contains(item@),
        views_of(final(list)@) == with_item(views_of(old(list)@), item@),
        !added ==> final(list)@ == old(list)@,
        added ==> final(list)@.drop_last() == old(list)@,
        added ==> final(list)@.len() == old(list)@.len() + 1 && final(list)@.last()@ == item@,
        no_duplicates(views_of(old(list)@)) ==> no_duplicates(views_of(final(list)@)),
{
    if contains_tag(list, item) {
        false
    } else {
        let entry = item.to_owned();
        list.push(entry);
        proof {
            assert(views_of(list@) =~= views_of(old(list)@).push(item@));
            assert(list@.drop_last() =~= old(list)@);
        }
        true
    }
}

/// Recording an item a second time changes nothing: the item is present
/// after the first time, and the list keeps its entries distinct.
pub proof fn lemma_with_item_idempotent(s: Seq<Seq<char>>, item: Seq<char>)
    ensures
        with_item(s, item).contains(item),
        with_item(with_item(s, item), item) == with_item(s, item),
        no_duplicates(s) ==> no_duplicates(with_item(s, item)),
{
    if !s.contains(item) {
        assert(s.push(item)[s.len() as int] == item);
    }
}

} // verus!
