//! The administrator of the club game and the operators it has authorized.

use vstd::prelude::*;

use crate::operators::{contains, insert, list_wf, remove, with_operator, without_operator};
use crate::pubkey::Pubkey;

verus! {

/// The administrator: its owner, who alone changes the list, and the
/// operators that may place and settle bets.
#[derive(Debug)]
pub struct Admin {
    pub owner: Pubkey,
    pub operators: Vec<Pubkey>,
}

impl Admin {
    /// The list holds at most four operators and none of them twice.
    pub open spec fn wf(&self) -> bool {
        list_wf(self.operators@)
    }

    /// Whether `operator` is on the list.
    pub open spec fn authorizes(&self, operator: Pubkey) -> bool {
        self.operators@.contains(operator)
    }

    /// An administrator that has authorized nobody yet.
    pub fn new(owner: Pubkey) -> (out: Admin)
        ensures
            out.owner == owner,
            out.operators@.len() == 0,
            out.wf(),
    {
        Admin { owner, operators: Vec::new() }
    }

    /// Whether `operator` is on the list.
    pub fn is_operator(&self, operator: &Pubkey) -> (found: bool)
        ensures
            found == self.authorizes(*operator),
    {
        contains(&self.operators, operator)
    }

    /// Puts `operator` on the list, unless it is there already or the list
    /// is full. Returns whether the operator is on the list afterwards:
    /// `false` only for a new operator and a full list, which stays as it
    /// was.
    pub fn assign_operator(&mut self, operator: Pubkey) -> (authorized: bool)
        requires
            old(self).wf(),
        ensures
            final(self).wf(),
            final(self).owner == old(self).owner,
            final(self).operators@ == with_operator(old(self).operators@, operator),
            authorized == final(self).authorizes(operator),
            authorized == (old(self).authorizes(operator) || old(self).operators@.len() < 4),
    {
        insert(&mut self.operators, operator)
    }

    /// Takes `operator` off the list; the others stay in their order.
    pub fn remove_operator(&mut self, operator: &Pubkey)
        ensures
            final(self).owner == old(self).owner,
            final(self).operators@ == without_operator(old(self).operators@, *operator),
            !final(self).authorizes(*operator),
            old(self).wf() ==> final(self).wf(),
            forall|k: Pubkey|
                k != *operator ==> (final(self).authorizes(k) <==> old(self).authorizes(k)),
    {
        remove(&mut self.operators, operator)
    }
}

} // verus!
