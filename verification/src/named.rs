//! Values held under names, in the order in which the names came.
//!
//! A list of pairs of a name and a value stands for a map from names to
//! values: the value of a name is that of the first pair with the name.

use vstd::prelude::*;

verus! {

/// The value held under `name`: that of the first entry with that name, if
/// there is one.
pub open spec fn first_named<V>(entries: Seq<(String, V)>, name: Seq<char>) -> Option<V>
    decreases entries.len(),
{
    if entries.len() == 0 {
        None
    } else if entries[0].0@ == name {
        Some(entries[0].1)
    } else {
        first_named(entries.drop_first(), name)
    }
}

/// A name that no entry has holds no value.
pub proof fn lemma_unnamed<V>(entries: Seq<(String, V)>, name: Seq<char>)
    requires
        forall|j: int| 0 <= j < entries.len() ==> (#[trigger] entries[j]).0@ != name,
    ensures
        first_named(entries, name) is None,
    decreases entries.len(),
{
    if entries.len() > 0 {
        let rest = entries.drop_first();
        assert forall|j: int| 0 <= j < rest.len() implies (#[trigger] rest[j]).0@ != name by {
            assert(rest[j] == entries[j + 1]);
        }
        lemma_unnamed(rest, name);
    }
}

/// The value under a name is that of the first entry that has the name.
pub proof fn lemma_first_named<V>(entries: Seq<(String, V)>, name: Seq<char>, i: int)
    requires
        0 <= i < entries.len(),
        entries[i].0@ == name,
        forall|j: int| 0 <= j < i ==> (#[trigger] entries[j]).0@ != name,
    ensures
        first_named(entries, name) == Some(entries[i].1),
    decreases entries.len(),
{
    if i > 0 {
        let rest = entries.drop_first();
        assert forall|j: int| 0 <= j < i - 1 implies (#[trigger] rest[j]).0@ != name by {
            assert(rest[j] == entries[j + 1]);
        }
        assert(rest[i - 1] == entries[i]);
        lemma_first_named(rest, name, i - 1);
    }
}

/// Entries that differ only where the name is `changed`, and in new
/// entries of that name at the end, hold the same value under every other
/// name.
pub proof fn lemma_others_kept<V>(
    before: Seq<(String, V)>,
    after: Seq<(String, V)>,
    changed: Seq<char>,
    name: Seq<char>,
)
    requires
        name != changed,
        before.len() <= after.len(),
        forall|j: int| 0 <= j < before.len() ==> (#[trigger] before[j]).0@ == after[j].0@,
        forall|j: int|
            0 <= j < before.len() && (#[trigger] before[j]).0@ != changed ==> before[j].1
                == after[j].1,
        forall|j: int| before.len() <= j < after.len() ==> (#[trigger] after[j]).0@ == changed,
    ensures
        first_named(after, name) == first_named(before, name),
    decreases after.len(),
{
    if before.len() == 0 {
        lemma_unnamed(after, name);
    } else {
        let b = before.drop_first();
        let a = after.drop_first();
        assert(before[0].0@ == after[0].0@);
        if before[0].0@ != name {
            assert forall|j: int| 0 <= j < b.len() implies (#[trigger] b[j]).0@ == a[j].0@ by {
                assert(b[j] == before[j + 1]);
                assert(a[j] == after[j + 1]);
            }
            assert forall|j: int| 0 <= j < b.len() && (#[trigger] b[j]).0@ != changed implies b[j].1
                == a[j].1 by {
                assert(b[j] == before[j + 1]);
                assert(a[j] == after[j + 1]);
            }
            assert forall|j: int| b.len() <= j < a.len() implies (#[trigger] a[j]).0@
                == changed by {
                assert(a[j] == after[j + 1]);
            }
            lemma_others_kept(b, a, changed, name);
        }
    }
}

} // verus!
