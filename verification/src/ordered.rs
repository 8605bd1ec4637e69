//! The order in which lists of texts are handed out.
use vstd::prelude::*;

use crate::text::same_text;

verus! {

/// Whether bytes come before others: by the first byte that differs, and a
/// beginning before what it begins.
pub open spec fn bytes_before(left: Seq<u8>, right: Seq<u8>) -> bool
    decreases left.len(),
{
    if right.len() == 0 {
        false
    } else if left.len() == 0 {
        true
    } else if left.first() != right.first() {
        left.first() < right.first()
    } else {
        bytes_before(left.drop_first(), right.drop_first())
    }
}

/// Whether a text comes before another, by the bytes of its encoding.
pub open spec fn text_before(left: Seq<char>, right: Seq<char>) -> bool {
    bytes_before(
        vstd::utf8::encode_utf8(left),
        vstd::utf8::encode_utf8(right),
    )
}

/// Whether a text comes before another.
pub fn is_text_before(left: &str, right: &str) -> (before: bool)
    ensures
        before == text_before(left@, right@),
{
    let left_bytes = left.as_bytes();
    let right_bytes = right.as_bytes();
    let ghost first = vstd::utf8::encode_utf8(left@);
    let ghost second = vstd::utf8::encode_utf8(right@);
    let mut at: usize = 0;
    proof {
        assert(first.subrange(0, first.len() as int) =~= first);
        assert(second.subrange(0, second.len() as int) =~= second);
    }
    while at < left_bytes.len() && at < right_bytes.len()
        invariant
            left_bytes@ == first,
            right_bytes@ == second,
            first == vstd::utf8::encode_utf8(left@),
            second == vstd::utf8::encode_utf8(right@),
            at <= first.len(),
            at <= second.len(),
            bytes_before(
                first.subrange(at as int, first.len() as int),
                second.subrange(at as int, second.len() as int),
            ) == bytes_before(first, second),
        decreases first.len() - at,
    {
        proof {
            assert(first.subrange(at as int, first.len() as int).drop_first() =~= first.subrange(
                at + 1,
                first.len() as int,
            ));
            assert(second.subrange(at as int, second.len() as int).drop_first()
                =~= second.subrange(at + 1, second.len() as int));
        }
        if left_bytes[at] != right_bytes[at] {
            return left_bytes[at] < right_bytes[at];
        }
        at += 1;
    }
    at < right_bytes.len()
}

/// A kind of entry that lists are ordered by.
pub trait Ranked: View + Sized {
    /// Whether an entry comes before another.
    spec fn ranked_before(left: Self::V, right: Self::V) -> bool;

    /// Whether this entry comes before another.
    fn comes_before(&self, other: &Self) -> (before: bool)
        ensures
            before == Self::ranked_before(self@, other@),
    ;
}

impl Ranked for String {
    open spec fn ranked_before(left: Seq<char>, right: Seq<char>) -> bool {
        text_before(left, right)
    }

    fn comes_before(&self, other: &String) -> (before: bool) {
        is_text_before(self.as_str(), other.as_str())
    }
}

impl Ranked for (String, String) {
    open spec fn ranked_before(
        left: (Seq<char>, Seq<char>),
        right: (Seq<char>, Seq<char>),
    ) -> bool {
        text_before(left.0, right.0) || (left.0 == right.0 && text_before(left.1, right.1))
    }

    fn comes_before(&self, other: &(String, String)) -> (before: bool) {
        is_text_before(self.0.as_str(), other.0.as_str()) || (same_text(
            self.0.as_str(),
            other.0.as_str(),
        ) && is_text_before(self.1.as_str(), other.1.as_str()))
    }
}

/// An ordered list with one entry more, behind those that do not come after it.
pub open spec fn inserted<T: Ranked>(list: Seq<T::V>, entry: T::V) -> Seq<T::V>
    decreases list.len(),
{
    if list.len() == 0 {
        seq![entry]
    } else if T::ranked_before(entry, list.first()) {
        seq![entry] + list
    } else {
        seq![list.first()] + inserted::<T>(list.drop_first(), entry)
    }
}

/// The entries of a list in their order.
pub open spec fn ordered<T: Ranked>(list: Seq<T::V>) -> Seq<T::V>
    decreases list.len(),
{
    if list.len() == 0 {
        Seq::empty()
    } else {
        inserted::<T>(ordered::<T>(list.drop_last()), list.last())
    }
}

/// Contents of a list.
pub open spec fn views<T: View>(list: Seq<T>) -> Seq<T::V> {
    list.map_values(|entry: T| entry@)
}

/// Whether a list of texts holds one.
pub fn holds(list: &Vec<String>, text: &str) -> (found: bool)
    ensures
        found == views(list@).contains(text@),
{
    let mut at: usize = 0;
    while at < list.len()
        invariant
            at <= list@.len(),
            forall|k: int| 0 <= k < at ==> (#[trigger] views(list@)[k]) != text@,
        decreases list@.len() - at,
    {
        proof {
            assert(views(list@)[at as int] == list@[at as int]@);
        }
        if same_text(list[at].as_str(), text) {
            return true;
        }
        at += 1;
    }
    false
}

proof fn lemma_inserted<T: Ranked>(list: Seq<T::V>, entry: T::V, at: int)
    requires
        0 <= at <= list.len(),
        forall|k: int| 0 <= k < at ==> !T::ranked_before(entry, #[trigger] list[k]),
        at < list.len() ==> T::ranked_before(entry, list[at]),
    ensures
        inserted::<T>(list, entry) == list.insert(at, entry),
    decreases list.len(),
{
    if list.len() == 0 {
        assert(list.insert(at, entry) =~= seq![entry]);
    } else if at == 0 {
        assert(list.insert(0, entry) =~= seq![entry] + list);
    } else {
        assert(!T::ranked_before(entry, list[0]));
        let rest = list.drop_first();
        assert forall|k: int| 0 <= k < at - 1 implies !T::ranked_before(
            entry,
            #[trigger] rest[k],
        ) by {
            assert(rest[k] == list[k + 1]);
        }
        lemma_inserted::<T>(rest, entry, at - 1);
        assert(list.insert(at, entry) =~= seq![list.first()] + rest.insert(at - 1, entry));
    }
}

/// The entries of a list in their order.
pub fn in_order<T: Ranked>(list: Vec<T>) -> (sorted: Vec<T>)
    ensures
        views(sorted@) == ordered::<T>(views(list@)),
{
    let mut rest = list;
    let mut reversed: Vec<T> = Vec::new();
    let ghost all = views(list@);
    while rest.len() > 0
        invariant
            all.len() == rest@.len() + reversed@.len(),
            forall|k: int| 0 <= k < rest@.len() ==> (#[trigger] rest@[k])@ == all[k],
            forall|k: int|
                0 <= k < reversed@.len() ==> (#[trigger] reversed@[k])@ == all[all.len() - 1 - k],
        decreases rest@.len(),
    {
        if let Some(entry) = rest.pop() {
            reversed.push(entry);
        }
    }
    let mut sorted: Vec<T> = Vec::new();
    proof {
        assert(views(sorted@) =~= Seq::empty());
        assert(all.take(0) =~= Seq::empty());
    }
    while reversed.len() > 0
        invariant
            reversed@.len() <= all.len(),
            forall|k: int|
                0 <= k < reversed@.len() ==> (#[trigger] reversed@[k])@ == all[all.len() - 1 - k],
            views(sorted@) == ordered::<T>(all.take(all.len() - reversed@.len())),
        decreases reversed@.len(),
    {
        let ghost done = all.len() - reversed@.len();
        if let Some(entry) = reversed.pop() {
            let mut at: usize = 0;
            while at < sorted.len() && !entry.comes_before(&sorted[at])
                invariant
                    at <= sorted@.len(),
                    forall|k: int|
                        0 <= k < at ==> !T::ranked_before(entry@, #[trigger] views(sorted@)[k]),
                decreases sorted@.len() - at,
            {
                proof {
                    assert(views(sorted@)[at as int] == sorted@[at as int]@);
                }
                at += 1;
            }
            let ghost before = views(sorted@);
            proof {
                if at < sorted@.len() {
                    assert(before[at as int] == sorted@[at as int]@);
                }
                lemma_inserted::<T>(before, entry@, at as int);
                let taken = all.take(done + 1);
                assert(taken.drop_last() =~= all.take(done));
                assert(taken.last() == entry@);
            }
            sorted.insert(at, entry);
            proof {
                assert(views(sorted@) =~= before.insert(at as int, entry@));
            }
        }
    }
    proof {
        assert(all.take(all.len() as int) =~= all);
    }
    sorted
}

proof fn lemma_front_multiset<A>(list: Seq<A>, entry: A)
    ensures
        (seq![entry] + list).to_multiset() == list.to_multiset().insert(entry),
{
    broadcast use vstd::seq_lib::group_to_multiset_ensures;

    let longer = seq![entry] + list;
    assert(longer.remove(0) =~= list);
    assert(longer[0] == entry);
    assert(longer.contains(entry));
    assert(longer.to_multiset().count(entry) > 0);
    assert(longer.to_multiset().remove(entry).insert(entry) =~= longer.to_multiset());
}

proof fn lemma_inserted_multiset<T: Ranked>(list: Seq<T::V>, entry: T::V)
    ensures
        inserted::<T>(list, entry).to_multiset() == list.to_multiset().insert(entry),
    decreases list.len(),
{
    if list.len() == 0 {
        lemma_front_multiset(list, entry);
        assert(seq![entry] + list =~= seq![entry]);
    } else if T::ranked_before(entry, list.first()) {
        lemma_front_multiset(list, entry);
    } else {
        let rest = list.drop_first();
        lemma_inserted_multiset::<T>(rest, entry);
        lemma_front_multiset(inserted::<T>(rest, entry), list.first());
        lemma_front_multiset(rest, list.first());
        assert(list =~= seq![list.first()] + rest);
        assert(rest.to_multiset().insert(entry).insert(list.first())
            =~= rest.to_multiset().insert(list.first()).insert(entry));
    }
}

/// Ordering a list keeps every entry as often as it stands there.
pub proof fn ordering_keeps_the_entries<T: Ranked>(list: Seq<T::V>)
    ensures
        ordered::<T>(list).to_multiset() == list.to_multiset(),
    decreases list.len(),
{
    broadcast use vstd::seq_lib::group_to_multiset_ensures;

    if list.len() == 0 {
        assert(list =~= Seq::empty());
    } else {
        ordering_keeps_the_entries::<T>(list.drop_last());
        lemma_inserted_multiset::<T>(ordered::<T>(list.drop_last()), list.last());
        assert(list =~= list.drop_last().push(list.last()));
    }
}

/// The order of bytes is one: of two lists at most one comes first, and what
/// does not come after another does not come after what that does not come
/// after.
proof fn lemma_bytes_order(a: Seq<u8>, b: Seq<u8>, c: Seq<u8>)
    ensures
        bytes_before(a, b) ==> !bytes_before(b, a),
        !bytes_before(b, a) && !bytes_before(c, b) ==> !bytes_before(c, a),
    decreases a.len() + b.len() + c.len(),
{
    if a.len() > 0 && b.len() > 0 && c.len() > 0 {
        lemma_bytes_order(a.drop_first(), b.drop_first(), c.drop_first());
    } else if a.len() > 0 && b.len() > 0 {
        lemma_bytes_order(a.drop_first(), b.drop_first(), c);
    }
}

/// Whether no text of a list comes before one that stands in front of it.
pub open spec fn ascending(list: Seq<Seq<char>>) -> bool {
    forall|i: int, j: int| 0 <= i < j < list.len() ==> !text_before(#[trigger] list[j], #[trigger] list[i])
}

proof fn lemma_inserted_ascends(list: Seq<Seq<char>>, entry: Seq<char>)
    requires
        ascending(list),
    ensures
        ascending(inserted::<String>(list, entry)),
    decreases list.len(),
{
    let longer = inserted::<String>(list, entry);
    if list.len() == 0 {
    } else if text_before(entry, list.first()) {
        assert forall|i: int, j: int| 0 <= i < j < longer.len() implies !text_before(
            #[trigger] longer[j],
            #[trigger] longer[i],
        ) by {
            assert(longer[j] == list[j - 1]);
            if i > 0 {
                assert(longer[i] == list[i - 1]);
            } else {
                lemma_bytes_order(
                    vstd::utf8::encode_utf8(entry),
                    vstd::utf8::encode_utf8(list[0]),
                    vstd::utf8::encode_utf8(list[j - 1]),
                );
                if j > 1 {
                    assert(!text_before(list[j - 1], list[0]));
                }
            }
        }
    } else {
        let rest = list.drop_first();
        assert forall|i: int, j: int| 0 <= i < j < rest.len() implies !text_before(
            #[trigger] rest[j],
            #[trigger] rest[i],
        ) by {
            assert(rest[j] == list[j + 1] && rest[i] == list[i + 1]);
        }
        lemma_inserted_ascends(rest, entry);
        let tail = inserted::<String>(rest, entry);
        lemma_inserted_multiset::<String>(rest, entry);
        broadcast use vstd::seq_lib::group_to_multiset_ensures;

        assert forall|i: int, j: int| 0 <= i < j < longer.len() implies !text_before(
            #[trigger] longer[j],
            #[trigger] longer[i],
        ) by {
            assert(longer[j] == tail[j - 1]);
            if i > 0 {
                assert(longer[i] == tail[i - 1]);
            } else {
                let later = tail[j - 1];
                assert(tail.contains(later));
                assert(tail.to_multiset().count(later) > 0);
                if later != entry {
                    assert(rest.to_multiset().count(later) > 0);
                    assert(rest.contains(later));
                    let k = choose|k: int| 0 <= k < rest.len() && rest[k] == later;
                    assert(list[k + 1] == later);
                }
            }
        }
    }
}

/// Ordered texts ascend.
pub proof fn ordered_texts_ascend(list: Seq<Seq<char>>)
    ensures
        ascending(ordered::<String>(list)),
    decreases list.len(),
{
    if list.len() > 0 {
        ordered_texts_ascend(list.drop_last());
        lemma_inserted_ascends(ordered::<String>(list.drop_last()), list.last());
    }
}

} // verus!
