//! Reconciling what the backend reported with what the user wants to see.

use crate::models::ProxyGroupView;
use crate::ordered::{
    group_entries, groups_retain_listed, listed, only_listed, DelayMap, GroupMap,
};
use vstd::prelude::*;

verus! {

/// The groups to show: all of them under an empty allow-list, and otherwise
/// those that the allow-list names, in the order they came in.
pub open spec fn reconciled(
    entries: Seq<(Seq<char>, ProxyGroupView)>,
    allow_list: Seq<Seq<char>>,
) -> Seq<(Seq<char>, ProxyGroupView)> {
    if allow_list.len() == 0 {
        entries
    } else {
        only_listed(entries, allow_list)
    }
}

/// Applies the allow-list to the groups. The delays pass through as they
/// are: a node's delay is shown wherever the node appears.
pub fn reconcile(groups: GroupMap, delays: DelayMap, allow_list: &Vec<String>) -> (out: (
    GroupMap,
    DelayMap,
))
    ensures
        group_entries(out.0) == reconciled(group_entries(groups), allow_list.deep_view()),
        allow_list.len() == 0 ==> out.0 == groups,
        out.1 == delays,
{
    let mut groups = groups;
    if allow_list.len() > 0 {
        groups_retain_listed(&mut groups, allow_list);
    }
    (groups, delays)
}

/// The positions of the entries whose key is one of `names`, ascending.
pub open spec fn listed_positions<V>(entries: Seq<(Seq<char>, V)>, names: Seq<Seq<char>>) -> Seq<
    int,
>
    decreases entries.len(),
{
    if entries.len() == 0 {
        Seq::empty()
    } else {
        let before = listed_positions(entries.drop_last(), names);
        if listed(names, entries.last().0) {
            before.push(entries.len() - 1)
        } else {
            before
        }
    }
}

/// Filtering by an allow-list yields exactly the entries at the listed
/// positions: each kept entry is the entry at its position, the positions
/// ascend, every position holds a listed key, and every entry with a listed
/// key has its position among them.
pub proof fn lemma_only_listed_is_ordered_intersection<V>(
    entries: Seq<(Seq<char>, V)>,
    names: Seq<Seq<char>>,
)
    ensures
        only_listed(entries, names).len() == listed_positions(entries, names).len(),
        forall|k: int|
            0 <= k < listed_positions(entries, names).len() ==> {
                let at = #[trigger] listed_positions(entries, names)[k];
                &&& 0 <= at < entries.len()
                &&& listed(names, entries[at].0)
                &&& only_listed(entries, names)[k] == entries[at]
            },
        forall|j: int, k: int|
            0 <= j < k < listed_positions(entries, names).len() ==> #[trigger] listed_positions(
                entries,
                names,
            )[j] < #[trigger] listed_positions(entries, names)[k],
        forall|i: int|
            0 <= i < entries.len() && listed(names, #[trigger] entries[i].0)
                ==> listed_positions(entries, names).contains(i),
    decreases entries.len(),
{
    reveal(Seq::filter);
    if entries.len() > 0 {
        let shorter = entries.drop_last();
        lemma_only_listed_is_ordered_intersection(shorter, names);
        let before = listed_positions(shorter, names);
        let at = listed_positions(entries, names);
        assert forall|i: int|
            0 <= i < entries.len() && listed(names, #[trigger] entries[i].0) implies at.contains(
            i,
        ) by {
            if i < entries.len() - 1 {
                assert(shorter[i] == entries[i]);
                let k = choose|k: int| 0 <= k < before.len() && before[k] == i;
                assert(at[k] == i);
            } else {
                assert(at[at.len() - 1] == i);
            }
        }
    }
}

/// With an empty allow-list every group passes, in the order supplied; with
/// any other the result is the supplied groups at the listed positions.
pub proof fn lemma_reconciled_keeps_supplied_order(
    entries: Seq<(Seq<char>, ProxyGroupView)>,
    allow_list: Seq<Seq<char>>,
)
    ensures
        allow_list.len() == 0 ==> reconciled(entries, allow_list) == entries,
        allow_list.len() > 0 ==> reconciled(entries, allow_list).len() == listed_positions(
            entries,
            allow_list,
        ).len(),
        allow_list.len() > 0 ==> forall|k: int|
            0 <= k < reconciled(entries, allow_list).len() ==> #[trigger] reconciled(
                entries,
                allow_list,
            )[k] == entries[listed_positions(entries, allow_list)[k]],
{
    lemma_only_listed_is_ordered_intersection(entries, allow_list);
}

} // verus!
