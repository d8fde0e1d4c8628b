use vstd::prelude::*;

use crate::mood::{mood_phrase, PetMood};
use crate::views_of;
use crate::species::{species_name, PetSpecies};

verus! {

/// The size word for a pet of the given level.
pub open spec fn size_label(level: u32) -> Seq<char> {
    if 1 <= level <= 3 {
        "small"@
    } else if 4 <= level <= 6 {
        "medium-sized"@
    } else if 7 <= level <= 9 {
        "large"@
    } else {
        "magnificent"@
    }
}

/// The items of a list separated by a comma and a space.
pub open spec fn comma_joined(items: Seq<Seq<char>>) -> Seq<char>
    decreases items.len(),
{
    if items.len() == 0 {
        Seq::empty()
    } else if items.len() == 1 {
        items[0]
    } else {
        comma_joined(items.drop_last()) + ", "@ + items.last()
    }
}

/// The prose description of a pet with the given name, species, level,
/// mood, accessories and tricks.
pub open spec fn appearance_text(
    name: Seq<char>,
    species: PetSpecies,
    level: u32,
    mood: PetMood,
    accessories: Seq<Seq<char>>,
    tricks: Seq<Seq<char>>,
) -> Seq<char> {
    let base = name + " the "@ + size_label(level) + " "@ + species_name(species) + " is "@
        + mood_phrase(mood) + "."@;
    let worn = if accessories.len() == 0 {
        base
    } else {
        base + " Wearing "@ + comma_joined(accessories) + "."@
    };
    if tricks.len() == 0 {
        worn
    } else {
        worn + " Knows tricks: "@ + comma_joined(tricks) + "."@
    }
}

/// The size word for a pet of the given level.
pub fn size_for_level(level: u32) -> (r: &'static str)
    ensures
        r@ == size_label(level),
        1 <= level <= 3 ==> r@ == "small"@,
        4 <= level <= 6 ==> r@ == "medium-sized"@,
        7 <= level <= 9 ==> r@ == "large"@,
        (level == 0 || level >= 10) ==> r@ == "magnificent"@,
{
    if 1 <= level && level <= 3 {
        "small"
    } else if 4 <= level && level <= 6 {
        "medium-sized"
    } else if 7 <= level && level <= 9 {
        "large"
    } else {
        "magnificent"
    }
}

/// Joins the items with ", " between consecutive ones.
pub fn join_with_commas(items: &Vec<String>) -> (r: String)
    ensures
        r@ == comma_joined(views_of(items@)),
{
    let ghost all = views_of(items@);
    let mut out = String::new();
    let mut i: usize = 0;
    while i < items.len()
        invariant
            i <= items.len(),
            all == views_of(items@),
            out@ == comma_joined(all.take(i as int)),
        decreases items.len() - i,
    {
        if i > 0 {
            out.append(", ");
        }
        out.append(items[i].as_str());
        proof {
            assert(all.take(i + 1).drop_last() =~= all.take(i as int));
        }
        i = i + 1;
    }
    proof {
        assert(all.take(items.len() as int) =~= all);
    }
    out
}

/// The prose description of a pet: its name, size, species and mood, then
/// what it wears and the tricks it knows, when it has any.
pub fn describe_appearance(
    name: &str,
    species: PetSpecies,
    level: u32,
    mood: PetMood,
    accessories: &Vec<String>,
    tricks: &Vec<String>,
) -> (r: String)
    ensures
        r@ == appearance_text(name@, species, level, mood, views_of(accessories@), views_of(tricks@)),
{
    let mut desc = name.to_owned();
    desc.append(" the ");
    desc.append(size_for_level(level));
    desc.append(" ");
    desc.append(species.name());
    desc.append(" is ");
    desc.append(mood.phrase());
    desc.append(".");
    if accessories.len() > 0 {
        desc.append(" Wearing ");
        let worn = join_with_commas(accessories);
        desc.append(worn.as_str());
        desc.append(".");
    }
    if tricks.len() > 0 {
        desc.append(" Knows tricks: ");
        let known = join_with_commas(tricks);
        desc.append(known.as_str());
        desc.append(".");
    }
    desc
}

/// The size word of each level: "small" for levels 1 to 3, "medium-sized"
/// for 4 to 6, "large" for 7 to 9, and "magnificent" for every other level.
pub proof fn lemma_size_words()
    ensures
        forall|l: u32| 1 <= l <= 3 ==> #[trigger] size_label(l) == "small"@,
        forall|l: u32| 4 <= l <= 6 ==> #[trigger] size_label(l) == "medium-sized"@,
        forall|l: u32| 7 <= l <= 9 ==> #[trigger] size_label(l) == "large"@,
        forall|l: u32| (l == 0 || l >= 10) ==> #[trigger] size_label(l) == "magnificent"@,
{
}

/// The offset at which item `i` starts in the comma-joined text: the
/// lengths of the items before it, each followed by a two-character
/// separator.
pub open spec fn joined_offset(items: Seq<Seq<char>>, i: int) -> int
    decreases i,
{
    if i <= 0 {
        0
    } else {
        joined_offset(items, i - 1) + items[i - 1].len() + 2
    }
}

/// Offsets only depend on the items before them.
proof fn lemma_offset_prefix(items: Seq<Seq<char>>, shorter: Seq<Seq<char>>, i: int)
    requires
        0 <= i <= shorter.len(),
        shorter.len() <= items.len(),
        forall|j: int| 0 <= j < shorter.len() ==> shorter[j] == items[j],
    ensures
        joined_offset(items, i) == joined_offset(shorter, i),
    decreases i,
{
    if i > 0 {
        lemma_offset_prefix(items, shorter, i - 1);
    }
}

/// Offsets grow with the index.
proof fn lemma_offset_grows(items: Seq<Seq<char>>, i: int, j: int)
    requires
        0 <= i <= j,
    ensures
        joined_offset(items, i) + 2 * (j - i) <= joined_offset(items, j),
    decreases j - i,
{
    if i < j {
        lemma_offset_grows(items, i, j - 1);
    }
}

/// A slice inside the left part of a concatenation is a slice of that part.
proof fn lemma_slice_left(a: Seq<char>, b: Seq<char>, lo: int, hi: int)
    requires
        0 <= lo <= hi <= a.len(),
    ensures
        (a + b).subrange(lo, hi) == a.subrange(lo, hi),
{
    assert((a + b).subrange(lo, hi) =~= a.subrange(lo, hi));
}

/// The right part of a concatenation is the slice after the left part.
proof fn lemma_slice_right(a: Seq<char>, b: Seq<char>)
    ensures
        (a + b).subrange(a.len() as int, a.len() + b.len() as int) == b,
{
    assert((a + b).subrange(a.len() as int, a.len() + b.len() as int) =~= b);
}

/// The text holds item `i` of the list at that item's offset.
pub open spec fn holds_item(text: Seq<char>, items: Seq<Seq<char>>, i: int) -> bool {
    text.subrange(joined_offset(items, i), joined_offset(items, i) + items[i].len()) == items[i]
}

/// The text holds ", " just before the offset of item `i`.
pub open spec fn holds_separator(text: Seq<char>, items: Seq<Seq<char>>, i: int) -> bool {
    text.subrange(joined_offset(items, i) - 2, joined_offset(items, i)) == ", "@
}

/// The comma-joined text of a non-empty list holds every item, in order, at
/// its own offset, with ", " between consecutive items and nothing else:
/// its length is the sum of the item lengths plus two per separator.
/// The text of an empty list is empty.
pub proof fn lemma_comma_joined_layout(items: Seq<Seq<char>>)
    ensures
        items.len() == 0 ==> comma_joined(items) == Seq::<char>::empty(),
        items.len() >= 1 ==> comma_joined(items).len() == joined_offset(items, items.len() as int)
            - 2,
        forall|i: int| 0 <= i < items.len() ==> #[trigger] holds_item(comma_joined(items), items, i),
        forall|i: int|
            1 <= i < items.len() ==> #[trigger] holds_separator(comma_joined(items), items, i),
    decreases items.len(),
{
    let n = items.len() as int;
    if n == 0 {
    } else if n == 1 {
        assert(items[0].subrange(0, items[0].len() as int) =~= items[0]);
        assert(joined_offset(items, 0) == 0);
        assert(joined_offset(items, 1) == items[0].len() + 2);
        assert forall|i: int| 0 <= i < items.len() implies #[trigger] holds_item(
            comma_joined(items),
            items,
            i,
        ) by {
            assert(i == 0);
        }
    } else {
        let p = items.drop_last();
        lemma_comma_joined_layout(p);
        lemma_layout_step(items);
    }
}

/// The step of the layout proof: from the layout of all items but the last
/// to the layout of all items.
proof fn lemma_layout_step(items: Seq<Seq<char>>)
    requires
        items.len() >= 2,
        comma_joined(items.drop_last()).len() == joined_offset(items.drop_last(), items.len() - 1)
            - 2,
        forall|i: int|
            0 <= i < items.len() - 1 ==> #[trigger] holds_item(
                comma_joined(items.drop_last()),
                items.drop_last(),
                i,
            ),
        forall|i: int|
            1 <= i < items.len() - 1 ==> #[trigger] holds_separator(
                comma_joined(items.drop_last()),
                items.drop_last(),
                i,
            ),
    ensures
        comma_joined(items).len() == joined_offset(items, items.len() as int) - 2,
        forall|i: int| 0 <= i < items.len() ==> #[trigger] holds_item(comma_joined(items), items, i),
        forall|i: int|
            1 <= i < items.len() ==> #[trigger] holds_separator(comma_joined(items), items, i),
{
    let n = items.len() as int;
    let p = items.drop_last();
    let last = items.last();
    let head = comma_joined(p);
    let sep = ", "@;
    let whole = comma_joined(items);
    assert(whole == (head + sep) + last);
    assert(sep.len() == 2) by {
        reveal_strlit(", ");
    }
    lemma_offset_prefix(items, p, n - 1);
    assert(joined_offset(items, n - 1) == head.len() + 2);
    assert forall|i: int| 0 <= i < items.len() implies #[trigger] holds_item(whole, items, i) by {
        let lo = joined_offset(items, i);
        if i < n - 1 {
            lemma_offset_prefix(items, p, i);
            assert(holds_item(head, p, i));
            assert(p[i] == items[i]);
            lemma_offset_grows(items, 0, i);
            assert(joined_offset(items, i + 1) == lo + items[i].len() + 2);
            lemma_offset_grows(items, i + 1, n - 1);
            lemma_slice_left(head + sep, last, lo, lo + items[i].len());
            lemma_slice_left(head, sep, lo, lo + items[i].len());
        } else {
            lemma_slice_right(head + sep, last);
        }
    }
    assert forall|i: int| 1 <= i < items.len() implies #[trigger] holds_separator(whole, items, i) by {
        let hi = joined_offset(items, i);
        if i < n - 1 {
            lemma_offset_prefix(items, p, i);
            assert(holds_separator(head, p, i));
            lemma_offset_grows(items, 1, i);
            assert(joined_offset(items, 0) == 0);
            assert(joined_offset(items, 1) == items[0].len() + 2);
            lemma_offset_grows(items, i, n - 1);
            lemma_slice_left(head + sep, last, hi - 2, hi);
            lemma_slice_left(head, sep, hi - 2, hi);
        } else {
            assert(hi == head.len() + 2);
            lemma_slice_left(head + sep, last, hi - 2, hi);
            lemma_slice_right(head, sep);
        }
    }
}

/// How the description is put together: the base sentence names the pet,
/// its size, its own species and the phrase of its own mood; a pet with
/// accessories then gets " Wearing " and its accessories; a pet with tricks
/// then gets " Knows tricks: " and its tricks, always after the accessories.
pub proof fn lemma_appearance_sections(
    name: Seq<char>,
    species: PetSpecies,
    level: u32,
    mood: PetMood,
    accessories: Seq<Seq<char>>,
    tricks: Seq<Seq<char>>,
)
    ensures
        appearance_text(name, species, level, mood, Seq::empty(), Seq::empty()) == name + " the "@
            + size_label(level) + " "@ + species_name(species) + " is "@ + mood_phrase(mood) + "."@,
        accessories.len() > 0 ==> appearance_text(name, species, level, mood, accessories, Seq::empty())
            == appearance_text(name, species, level, mood, Seq::empty(), Seq::empty()) + " Wearing "@
            + comma_joined(accessories) + "."@,
        accessories.len() == 0 ==> appearance_text(name, species, level, mood, accessories, tricks)
            == appearance_text(name, species, level, mood, Seq::empty(), tricks),
        tricks.len() > 0 ==> appearance_text(name, species, level, mood, accessories, tricks)
            == appearance_text(name, species, level, mood, accessories, Seq::empty())
            + " Knows tricks: "@ + comma_joined(tricks) + "."@,
        tricks.len() == 0 ==> appearance_text(name, species, level, mood, accessories, tricks)
            == appearance_text(name, species, level, mood, accessories, Seq::empty()),
{
}

} // verus!
