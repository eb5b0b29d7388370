//! One invocation as a state machine: validation, then the single sub-call,
//! then the log record. The library decides; its caller performs each action
//! and hands back what happened.
//!
//! An invocation starts in `execute_burn_hook`, which validates the accounts
//! and leaves it either `Rejected` or `Forwarding`. From `Forwarding` the
//! outcome of the sub-call leads to `Failed` or to `Notifying`, and from
//! `Notifying` the appended record leads to `Completed`.

use vstd::prelude::*;
use crate::accounts::{ExecuteBurnHook, Rejection};
use crate::address::Address;
use crate::request::{BurnHookExecuted, BurnParams, BurnRequest, DepositForBurnWithHook, SubCall};

verus! {

/// Why an invocation failed. `E` is the failure of the bridging program, which
/// is handed on as it came.
#[derive(Clone, Debug, PartialEq, Eq)]
pub enum BurnHookError<E> {
    /// A supplied account is not at the address derived for it.
    AddressMismatch,
    /// An ownership, type, signer or mutability constraint does not hold.
    ConstraintViolation,
    /// The bridging program turned the request down.
    ExternalCallFailure(E),
}

/// Where an invocation stands after a step.
#[derive(Clone, Copy, Debug, PartialEq, Eq)]
pub enum Stage {
    /// Validation failed; nothing was forwarded.
    Rejected,
    /// Validation passed and the sub-call was handed out; holds the record
    /// that a successful sub-call will be logged with.
    Forwarding(BurnHookExecuted),
    /// The sub-call failed.
    Failed,
    /// The sub-call succeeded and the record was handed out.
    Notifying,
    /// The record is appended; the invocation succeeded.
    Completed,
}

/// What the caller reports back after performing an action.
#[derive(Debug, PartialEq, Eq)]
pub enum Event<E> {
    /// The sub-call returned, with success or with the bridging program's
    /// failure.
    SubCallReturned(Result<(), E>),
    /// The record was appended to the log.
    RecordAppended,
}

/// What the caller has to do next.
#[derive(Debug, PartialEq, Eq)]
pub enum Action<E> {
    /// Issue this sub-call, once, and report how it returned.
    Invoke(DepositForBurnWithHook),
    /// Append this record to the log and report it.
    Emit(BurnHookExecuted),
    /// End the invocation with this result.
    Return(Result<(), BurnHookError<E>>),
    /// Nothing: the event does not belong to the stage.
    Nothing,
}

/// An action as plain values: the view of `Action`.
pub enum Step<E> {
    Invoke(SubCall),
    Emit(BurnHookExecuted),
    Return(Result<(), BurnHookError<E>>),
    Nothing,
}

impl<E> View for Action<E> {
    type V = Step<E>;

    open spec fn view(&self) -> Step<E> {
        match *self {
            Action::Invoke(call) => Step::Invoke(call@),
            Action::Emit(record) => Step::Emit(record),
            Action::Return(result) => Step::Return(result),
            Action::Nothing => Step::Nothing,
        }
    }
}

impl<E> BurnHookError<E> {
    /// The error that a rejection ends the invocation with.
    pub open spec fn of_rejection(rejection: Rejection) -> BurnHookError<E> {
        match rejection {
            Rejection::AddressMismatch => BurnHookError::AddressMismatch,
            Rejection::ConstraintViolation => BurnHookError::ConstraintViolation,
        }
    }

    /// Turns a rejection into the error of the invocation.
    pub fn from_rejection(rejection: Rejection) -> (error: BurnHookError<E>)
        ensures
            error == Self::of_rejection(rejection),
    {
        match rejection {
            Rejection::AddressMismatch => BurnHookError::AddressMismatch,
            Rejection::ConstraintViolation => BurnHookError::ConstraintViolation,
        }
    }
}

/// The first step of an invocation whose validation ended with `verdict`: a
/// rejected request ends at once with its error; a valid one is forwarded as
/// the one sub-call, and its record is kept for the log.
pub open spec fn admitted<E>(
    verdict: Result<(), Rejection>,
    accounts: ExecuteBurnHook,
    request: BurnRequest,
) -> (Stage, Step<E>) {
    match verdict {
        Ok(()) => (Stage::Forwarding(request.record()), Step::Invoke(accounts.sub_call(request))),
        Err(rejection) => (
            Stage::Rejected,
            Step::Return(Err(BurnHookError::of_rejection(rejection))),
        ),
    }
}

impl Stage {
    /// No step leads out of this stage.
    pub open spec fn is_terminal(self) -> bool {
        self is Rejected || self is Failed || self is Completed
    }

    /// The stage and the action that follow `event` in this stage.
    pub open spec fn next<E>(self, event: Event<E>) -> (Stage, Step<E>) {
        match (self, event) {
            (Stage::Forwarding(record), Event::SubCallReturned(Ok(()))) => (
                Stage::Notifying,
                Step::Emit(record),
            ),
            (Stage::Forwarding(_), Event::SubCallReturned(Err(failure))) => (
                Stage::Failed,
                Step::Return(Err(BurnHookError::ExternalCallFailure(failure))),
            ),
            (Stage::Notifying, Event::RecordAppended) => (Stage::Completed, Step::Return(Ok(()))),
            _ => (self, Step::Nothing),
        }
    }

    /// Whether no step leads out of this stage.
    pub fn finished(&self) -> (r: bool)
        ensures
            r == self.is_terminal(),
    {
        match self {
            Stage::Rejected => true,
            Stage::Failed => true,
            Stage::Completed => true,
            Stage::Forwarding(_) => false,
            Stage::Notifying => false,
        }
    }

    /// Takes the invocation one step on: a failure of the sub-call ends it
    /// with that failure, unchanged; its success hands out the record; the
    /// appended record ends it with success. An event that does not belong to
    /// the stage changes nothing.
    pub fn resume<E>(self, event: Event<E>) -> (r: (Stage, Action<E>))
        ensures
            (r.0, r.1@) == self.next(event),
    {
        match self {
            Stage::Forwarding(record) => match event {
                Event::SubCallReturned(Ok(())) => (Stage::Notifying, Action::Emit(record)),
                Event::SubCallReturned(Err(failure)) => (
                    Stage::Failed,
                    Action::Return(Err(BurnHookError::ExternalCallFailure(failure))),
                ),
                Event::RecordAppended => (self, Action::Nothing),
            },
            Stage::Notifying => match event {
                Event::RecordAppended => (Stage::Completed, Action::Return(Ok(()))),
                Event::SubCallReturned(_) => (self, Action::Nothing),
            },
            _ => (self, Action::Nothing),
        }
    }
}

/// Starts an invocation whose accounts were validated with `verdict`.
pub fn after_validation<E>(
    verdict: Result<(), Rejection>,
    accounts: &ExecuteBurnHook,
    params: BurnParams,
) -> (r: (Stage, Action<E>))
    ensures
        (r.0, r.1@) == admitted::<E>(verdict, *accounts, params@),
{
    match verdict {
        Ok(()) => {
            let record = params.executed();
            (Stage::Forwarding(record), Action::Invoke(accounts.forward(params)))
        },
        Err(rejection) => (
            Stage::Rejected,
            Action::Return(Err(BurnHookError::from_rejection(rejection))),
        ),
    }
}

/// Starts the invocation of a burn request: validates `accounts` under
/// `bridge_program` and, where they are valid, hands out the sub-call that
/// forwards `params` unchanged.
pub fn execute_burn_hook<E>(
    bridge_program: &Address,
    accounts: &ExecuteBurnHook,
    params: BurnParams,
) -> (r: (Stage, Action<E>))
    ensures
        (r.0, r.1@) == admitted::<E>(accounts.validation(bridge_program@), *accounts, params@),
{
    after_validation(accounts.validate(bridge_program), accounts, params)
}

} // verus!
