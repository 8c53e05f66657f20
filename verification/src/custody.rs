//! Custody of native funds: one total for the vault and one credential per
//! user, kept in step by checked arithmetic.

use vstd::prelude::*;

verus! {

/// Why an operation on the custody was rejected.
#[derive(Clone, Copy, Debug, PartialEq, Eq, Structural)]
pub enum CustomError {
    /// An amount would leave 64 bits or fall below zero.
    Overflow,
}

/// The total that the custody holds.
#[derive(Clone, Copy, Debug)]
pub struct Global {
    pub amount: u64,
}

/// What one user has in custody.
#[derive(Debug)]
pub struct Credential {
    pub amount: u64,
}

/// Resets the total to zero.
pub fn init_global(global: &mut Global)
    ensures
        final(global).amount == 0,
{
    global.amount = 0;
}

/// Whether a deposit or a withdrawal of `amount` can be booked: a deposit
/// must fit into both the total and the credential, a withdrawal must be
/// covered by both.
pub open spec fn movement_accepted(
    global: Global,
    credential: &Credential,
    is_deposit: bool,
    amount: u64,
) -> bool {
    if is_deposit {
        global.amount + amount <= u64::MAX && credential.amount + amount <= u64::MAX
    } else {
        amount <= credential.amount && amount <= global.amount
    }
}

/// Books a deposit or a withdrawal of `amount` in the total and in the
/// user's credential. The caller moves the funds: into custody before a
/// deposit is booked, out of it after a withdrawal is.
///
/// Fails with `Overflow`, leaving both records as they were, exactly when
/// the movement is not accepted.
pub fn deposit_or_withdraw(
    global: &mut Global,
    credential: &mut Credential,
    is_deposit: bool,
    amount: u64,
) -> (out: Result<(), CustomError>)
    ensures
        out is Ok <==> movement_accepted(*old(global), old(credential), is_deposit, amount),
        out matches Err(e) ==> {
            &&& e == CustomError::Overflow
            &&& *final(global) == *old(global)
            &&& *final(credential) == *old(credential)
        },
        out is Ok ==> {
            &&& final(global).amount == (if is_deposit {
                old(global).amount + amount
            } else {
                old(global).amount - amount
            })
            &&& final(credential).amount == (if is_deposit {
                old(credential).amount + amount
            } else {
                old(credential).amount - amount
            })
            &&& final(global).amount - final(credential).amount == old(global).amount - old(
                credential,
            ).amount
        },
{
    let (total, own) = if is_deposit {
        (global.amount.checked_add(amount), credential.amount.checked_add(amount))
    } else {
        (global.amount.checked_sub(amount), credential.amount.checked_sub(amount))
    };
    match (total, own) {
        (Some(total), Some(own)) => {
            global.amount = total;
            credential.amount = own;
            Ok(())
        },
        _ => Err(CustomError::Overflow),
    }
}

/// Closes a credential, which takes the record away, and returns what it
/// held, which the caller moves out of custody to the user.
///
/// Fails with `Overflow`, leaving the total as it was, exactly when the
/// credential holds more than the total.
pub fn close_credential(global: &mut Global, credential: Credential) -> (out: Result<
    u64,
    CustomError,
>)
    ensures
        out is Ok <==> credential.amount <= old(global).amount,
        out matches Err(e) ==> e == CustomError::Overflow && *final(global) == *old(global),
        out matches Ok(released) ==> released == credential.amount && final(global).amount == old(
            global,
        ).amount - credential.amount,
{
    match global.amount.checked_sub(credential.amount) {
        Some(total) => {
            global.amount = total;
            Ok(credential.amount)
        },
        None => Err(CustomError::Overflow),
    }
}

} // verus!
