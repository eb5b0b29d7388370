//! The ledger as an observer sees it, the sub-calls made and the records
//! logged, and what holds of every invocation over it.

use vstd::prelude::*;
use crate::accounts::{AccountRef, ExecuteBurnHook, Rejection};
use crate::address::Address;
use crate::invocation::{admitted, BurnHookError, Event, Stage, Step};
use crate::request::{BurnHookExecuted, BurnRequest, SubCall};

verus! {

/// What can be observed of the ledger: the sub-calls issued into the bridging
/// program, which alone move funds and change registries, and the records in
/// the log, each list in the order of time.
pub struct Ledger {
    pub sub_calls: Seq<SubCall>,
    pub records: Seq<BurnHookExecuted>,
}

impl Ledger {
    /// The ledger after the caller performed `step`.
    pub open spec fn after<E>(self, step: Step<E>) -> Ledger {
        match step {
            Step::Invoke(call) => Ledger { sub_calls: self.sub_calls.push(call), ..self },
            Step::Emit(record) => Ledger { records: self.records.push(record), ..self },
            Step::Return(_) => self,
            Step::Nothing => self,
        }
    }
}

/// The stage and the ledger after the invocation at `stage` was taken through
/// `events`, each action performed as it was handed out.
pub open spec fn replay<E>(stage: Stage, events: Seq<Event<E>>, ledger: Ledger) -> (Stage, Ledger)
    decreases events.len(),
{
    if events.len() == 0 {
        (stage, ledger)
    } else {
        let (following, step) = stage.next(events[0]);
        replay(following, events.drop_first(), ledger.after(step))
    }
}

/// The stage and the ledger after a request whose validation ended with
/// `verdict` was submitted and taken through `events`.
pub open spec fn submit<E>(
    verdict: Result<(), Rejection>,
    accounts: ExecuteBurnHook,
    request: BurnRequest,
    events: Seq<Event<E>>,
    ledger: Ledger,
) -> (Stage, Ledger) {
    let (stage, step) = admitted::<E>(verdict, accounts, request);
    replay(stage, events, ledger.after(step))
}

/// Validation succeeds where every constraint holds and every derived
/// account is at the address derived for it.
pub proof fn lemma_valid_accounts_pass(accounts: ExecuteBurnHook, program: Seq<u8>)
    requires
        accounts.constraints_hold(),
        accounts.addresses_derivable(program),
    ensures
        accounts.validation(program) == Ok::<(), Rejection>(()),
{
}

/// Where valid accounts have one derived address replaced by another
/// address (that of the sending-authority delegate, of the deny-list entry or
/// of the local-asset registry), validation fails with an address mismatch,
/// and the request leaves the ledger as it was: no sub-call, no record.
pub proof fn lemma_altered_address_fails<E>(
    accounts: ExecuteBurnHook,
    altered: ExecuteBurnHook,
    other: Address,
    program: Seq<u8>,
    request: BurnRequest,
    events: Seq<Event<E>>,
    ledger: Ledger,
)
    requires
        accounts.validation(program) is Ok,
        ({
            ||| other@ != accounts.sender_authority_pda.key@ && altered == (ExecuteBurnHook {
                sender_authority_pda: AccountRef {
                    key: other,
                    ..accounts.sender_authority_pda
                },
                ..accounts
            })
            ||| other@ != accounts.denylist_account.key@ && altered == (ExecuteBurnHook {
                denylist_account: AccountRef {
                    key: other,
                    ..accounts.denylist_account
                },
                ..accounts
            })
            ||| other@ != accounts.local_token.key@ && altered == (ExecuteBurnHook {
                local_token: AccountRef { key: other, ..accounts.local_token },
                ..accounts
            })
        }),
    ensures
        altered.validation(program) == Err::<(), Rejection>(Rejection::AddressMismatch),
        admitted::<E>(altered.validation(program), altered, request).1 == Step::<E>::Return(
            Err(BurnHookError::AddressMismatch),
        ),
        submit(altered.validation(program), altered, request, events, ledger) == (
            Stage::Rejected,
            ledger,
        ),
{
    lemma_terminal_stays(Stage::Rejected, events, ledger);
}

/// Where the burn token holding is not owned by the caller, or is not of the
/// burn asset, validation fails with a constraint violation, whatever else
/// holds, and the request leaves the ledger as it was: no sub-call, no
/// record.
pub proof fn lemma_foreign_holding_fails<E>(
    accounts: ExecuteBurnHook,
    program: Seq<u8>,
    request: BurnRequest,
    events: Seq<Event<E>>,
    ledger: Ledger,
)
    requires
        accounts.burn_token_account.owner@ != accounts.payer.key@
            || accounts.burn_token_account.mint@ != accounts.burn_token_mint.key@,
    ensures
        accounts.validation(program) == Err::<(), Rejection>(Rejection::ConstraintViolation),
        admitted::<E>(accounts.validation(program), accounts, request).1 == Step::<E>::Return(
            Err(BurnHookError::ConstraintViolation),
        ),
        submit(accounts.validation(program), accounts, request, events, ledger) == (
            Stage::Rejected,
            ledger,
        ),
{
    lemma_terminal_stays(Stage::Rejected, events, ledger);
}

/// A stage that no step leads out of stays, and nothing more is observed,
/// whatever events follow.
pub proof fn lemma_terminal_stays<E>(stage: Stage, events: Seq<Event<E>>, ledger: Ledger)
    requires
        stage.is_terminal(),
    ensures
        replay(stage, events, ledger) == (stage, ledger),
    decreases events.len(),
{
    if events.len() > 0 {
        lemma_terminal_stays(stage, events.drop_first(), ledger);
    }
}

/// A request that fails validation leaves the ledger as it was: no sub-call,
/// no record, whatever events follow. So does submitting it again.
pub proof fn lemma_rejected_leaves_no_trace<E>(
    verdict: Result<(), Rejection>,
    accounts: ExecuteBurnHook,
    request: BurnRequest,
    events: Seq<Event<E>>,
    again: Seq<Event<E>>,
    ledger: Ledger,
)
    requires
        verdict is Err,
    ensures
        admitted::<E>(verdict, accounts, request).1 == Step::<E>::Return(
            Err(BurnHookError::of_rejection(verdict->Err_0)),
        ),
        submit(verdict, accounts, request, events, ledger) == (Stage::Rejected, ledger),
        submit(
            verdict,
            accounts,
            request,
            again,
            submit(verdict, accounts, request, events, ledger).1,
        ) == (Stage::Rejected, ledger),
{
    lemma_terminal_stays(Stage::Rejected, events, ledger);
    lemma_terminal_stays(Stage::Rejected, again, ledger);
}

/// After its first step an invocation issues no sub-call, and it logs at most
/// one record: the one kept while forwarding.
pub proof fn lemma_steps_after_the_first<E>(stage: Stage, events: Seq<Event<E>>, ledger: Ledger)
    ensures
        replay(stage, events, ledger).1.sub_calls == ledger.sub_calls,
        replay(stage, events, ledger).1.records == ledger.records || (stage
            matches Stage::Forwarding(record) && replay(stage, events, ledger).1.records
            == ledger.records.push(record)),
    decreases events.len(),
{
    if events.len() > 0 {
        let (following, step) = stage.next(events[0]);
        lemma_steps_after_the_first(following, events.drop_first(), ledger.after(step));
    }
}

/// An invocation issues the sub-call at most once, and only where validation
/// passed: then exactly once, with the request unchanged. It logs at most one
/// record, that of the request.
pub proof fn lemma_one_sub_call_one_record<E>(
    verdict: Result<(), Rejection>,
    accounts: ExecuteBurnHook,
    request: BurnRequest,
    events: Seq<Event<E>>,
    ledger: Ledger,
)
    ensures
        submit(verdict, accounts, request, events, ledger).1.sub_calls == if verdict is Ok {
            ledger.sub_calls.push(accounts.sub_call(request))
        } else {
            ledger.sub_calls
        },
        accounts.sub_call(request).params == request,
        submit(verdict, accounts, request, events, ledger).1.records == ledger.records || (
        verdict is Ok && submit(verdict, accounts, request, events, ledger).1.records
            == ledger.records.push(request.record())),
{
    let (stage, step) = admitted::<E>(verdict, accounts, request);
    lemma_steps_after_the_first(stage, events, ledger.after(step));
}

/// Where the bridging program fails the sub-call, the invocation ends with
/// that failure, unchanged, and no record is logged, whatever events follow.
pub proof fn lemma_failed_sub_call_logs_nothing<E>(
    accounts: ExecuteBurnHook,
    request: BurnRequest,
    failure: E,
    events: Seq<Event<E>>,
    ledger: Ledger,
)
    requires
        events.len() > 0,
        events[0] == Event::SubCallReturned(Err::<(), E>(failure)),
    ensures
        Stage::Forwarding(request.record()).next(events[0]).1 == Step::Return(
            Err(BurnHookError::ExternalCallFailure(failure)),
        ),
        submit(Ok(()), accounts, request, events, ledger) == (
            Stage::Failed,
            Ledger { sub_calls: ledger.sub_calls.push(accounts.sub_call(request)), ..ledger },
        ),
{
    let (stage, step) = admitted::<E>(Ok(()), accounts, request);
    let forwarded = ledger.after(step);
    lemma_terminal_stays(Stage::Failed, events.drop_first(), forwarded);
}

/// Where the sub-call succeeds and the record is appended, the invocation is
/// completed with exactly one sub-call and exactly one record, that of the
/// request, whatever events follow.
pub proof fn lemma_completed_logs_once<E>(
    accounts: ExecuteBurnHook,
    request: BurnRequest,
    events: Seq<Event<E>>,
    ledger: Ledger,
)
    requires
        events.len() >= 2,
        events[0] == Event::SubCallReturned(Ok::<(), E>(())),
        events[1] == Event::<E>::RecordAppended,
    ensures
        Stage::Notifying.next(events[1]).1 == Step::<E>::Return(Ok(())),
        submit(Ok(()), accounts, request, events, ledger) == (
            Stage::Completed,
            Ledger {
                sub_calls: ledger.sub_calls.push(accounts.sub_call(request)),
                records: ledger.records.push(request.record()),
            },
        ),
{
    let (stage, step) = admitted::<E>(Ok(()), accounts, request);
    let forwarded = ledger.after(step);
    let rest = events.drop_first();
    let (notifying, emit) = stage.next(events[0]);
    let logged = forwarded.after(emit);
    assert(rest.len() > 0 && rest[0] == events[1]);
    let (completed, done) = notifying.next(rest[0]);
    lemma_terminal_stays(Stage::Completed, rest.drop_first(), logged.after(done));
    assert(replay(notifying, rest, logged) == replay(
        completed,
        rest.drop_first(),
        logged.after(done),
    ));
}

} // verus!
