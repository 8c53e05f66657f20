//! A bounded list of authorized operators, kept without duplicates.

use vstd::prelude::*;

use crate::pubkey::Pubkey;

verus! {

/// The largest number of operators that an administrator can authorize.
pub const MAX_OPERATORS: usize = 4;

/// The list holds at most `MAX_OPERATORS` operators and none of them twice.
pub open spec fn list_wf(list: Seq<Pubkey>) -> bool {
    list.len() <= MAX_OPERATORS && list.no_duplicates()
}

/// The list after `operator` has been put on it: unchanged where the
/// operator is on it already or the list is full.
pub open spec fn with_operator(list: Seq<Pubkey>, operator: Pubkey) -> Seq<Pubkey> {
    if list.contains(operator) || list.len() >= MAX_OPERATORS {
        list
    } else {
        list.push(operator)
    }
}

/// The test that every key but `operator` passes.
pub open spec fn other_than(operator: Pubkey) -> spec_fn(Pubkey) -> bool {
    |k: Pubkey| k != operator
}

/// The list after `operator` has been taken off it.
pub open spec fn without_operator(list: Seq<Pubkey>, operator: Pubkey) -> Seq<Pubkey> {
    list.filter(other_than(operator))
}

/// Whether the list holds at most `MAX_OPERATORS` operators and none of
/// them twice.
pub fn is_list_wf(list: &Vec<Pubkey>) -> (ok: bool)
    ensures
        ok == list_wf(list@),
{
    if list.len() > MAX_OPERATORS {
        return false;
    }
    let mut i: usize = 0;
    while i < list.len()
        invariant
            i <= list@.len(),
            forall|a: int, b: int| 0 <= a < b < i ==> list@[a] != list@[b],
        decreases list@.len() - i,
    {
        let mut j: usize = 0;
        while j < i
            invariant
                j <= i < list@.len(),
                forall|a: int| 0 <= a < j ==> list@[a] != list@[i as int],
            decreases i - j,
        {
            if list[j] == list[i] {
                proof {
                    list@[j as int].lemma_view_injective(list@[i as int]);
                }
                return false;
            }
            j += 1;
        }
        i += 1;
    }
    true
}

/// Whether `operator` is on the list.
pub fn contains(list: &Vec<Pubkey>, operator: &Pubkey) -> (found: bool)
    ensures
        found == list@.contains(*operator),
{
    let mut i: usize = 0;
    while i < list.len()
        invariant
            i <= list@.len(),
            forall|j: int| 0 <= j < i ==> list@[j] != *operator,
        decreases list@.len() - i,
    {
        if list[i] == *operator {
            proof {
                list@[i as int].lemma_view_injective(*operator);
            }
            return true;
        }
        i += 1;
    }
    false
}

/// Puts `operator` on the list, unless it is there already or the list is
/// full. Returns whether the operator is on the list afterwards: `false`
/// only for a new operator and a full list.
pub fn insert(list: &mut Vec<Pubkey>, operator: Pubkey) -> (authorized: bool)
    requires
        list_wf(old(list)@),
    ensures
        list_wf(final(list)@),
        final(list)@ == with_operator(old(list)@, operator),
        authorized == final(list)@.contains(operator),
        authorized == (old(list)@.contains(operator) || old(list)@.len() < MAX_OPERATORS),
{
    if contains(list, &operator) {
        return true;
    }
    if list.len() >= MAX_OPERATORS {
        return false;
    }
    list.push(operator);
    assert(list@[list@.len() - 1] == operator);
    true
}

/// Takes `operator` off the list; the others stay in their order.
pub fn remove(list: &mut Vec<Pubkey>, operator: &Pubkey)
    ensures
        final(list)@ == without_operator(old(list)@, *operator),
        !final(list)@.contains(*operator),
        list_wf(old(list)@) ==> list_wf(final(list)@),
        forall|k: Pubkey|
            k != *operator ==> (final(list)@.contains(k) <==> old(list)@.contains(k)),
{
    let ghost keep = other_than(*operator);
    let mut kept: Vec<Pubkey> = Vec::new();
    let mut i: usize = 0;
    assert(list@.take(0).filter(keep) =~= Seq::<Pubkey>::empty()) by {
        reveal_with_fuel(Seq::filter, 1);
    }
    while i < list.len()
        invariant
            i <= list@.len(),
            *list == *old(list),
            keep == other_than(*operator),
            kept@ == list@.take(i as int).filter(keep),
        decreases list@.len() - i,
    {
        let candidate: Pubkey = list[i];
        let same: bool = candidate == *operator;
        proof {
            let before = list@.take(i as int);
            let after = list@.take(i + 1);
            assert(after.drop_last() =~= before);
            assert(after.last() == candidate);
            reveal_with_fuel(Seq::filter, 1);
            if same {
                candidate.lemma_view_injective(*operator);
            }
            assert(after.filter(keep) == if keep(candidate) {
                before.filter(keep).push(candidate)
            } else {
                before.filter(keep)
            });
        }
        if !same {
            kept.push(candidate);
        }
        i += 1;
    }
    proof {
        let all = list@;
        assert(all.take(all.len() as int) =~= all);
        lemma_filter_keeps_order(all, keep);
        all.lemma_filter_len(keep);
        assert forall|k: Pubkey| k != *operator implies (kept@.contains(k) <==> all.contains(
            k,
        )) by {
            if all.contains(k) {
                let j = choose|j: int| 0 <= j < all.len() && all[j] == k;
                all.lemma_filter_contains(keep, j);
            }
        }
        if kept@.contains(*operator) {
            let j = choose|j: int| 0 <= j < kept@.len() && kept@[j] == *operator;
            all.lemma_filter_pred(keep, j);
        }
    }
    *list = kept;
}

/// Filtering a list drops members and adds none: what is left was there, and
/// a list without duplicates stays one.
pub proof fn lemma_filter_keeps_order<A>(all: Seq<A>, keep: spec_fn(A) -> bool)
    ensures
        forall|k: A| #[trigger] all.filter(keep).contains(k) ==> all.contains(k),
        all.no_duplicates() ==> all.filter(keep).no_duplicates(),
    decreases all.len(),
{
    reveal_with_fuel(Seq::filter, 1);
    let filtered = all.filter(keep);
    if all.len() > 0 {
        let front = all.drop_last();
        let last = all.last();
        lemma_filter_keeps_order(front, keep);
        let kept = front.filter(keep);
        assert(filtered == if keep(last) {
            kept.push(last)
        } else {
            kept
        });
        assert forall|j: int| 0 <= j < filtered.len() implies all.contains(
            #[trigger] filtered[j],
        ) by {
            if j < kept.len() {
                assert(kept.contains(kept[j]));
                let i = choose|i: int| 0 <= i < front.len() && front[i] == kept[j];
                assert(all[i] == filtered[j]);
            } else {
                assert(all[all.len() - 1] == filtered[j]);
            }
        }
        if all.no_duplicates() && keep(last) {
            assert(front.no_duplicates());
            assert forall|i: int| 0 <= i < kept.len() implies kept[i] != last by {
                assert(kept.contains(kept[i]));
                let at = choose|at: int| 0 <= at < front.len() && front[at] == kept[i];
                assert(all[at] == kept[i]);
                assert(all[all.len() - 1] == last);
            }
        }
    }
    assert forall|k: A| filtered.contains(k) implies all.contains(k) by {
        let j = choose|j: int| 0 <= j < filtered.len() && filtered[j] == k;
        assert(all.contains(filtered[j]));
    }
}

} // verus!
