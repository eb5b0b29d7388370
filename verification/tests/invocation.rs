use cctp_burn_hook_wrapper::accounts::{AccountRef, ExecuteBurnHook, Rejection, TokenHolding};
use cctp_burn_hook_wrapper::address::Address;
use cctp_burn_hook_wrapper::invocation::{
    after_validation, execute_burn_hook, Action, BurnHookError, Event, Stage,
};
use cctp_burn_hook_wrapper::pda;
use cctp_burn_hook_wrapper::pda::{
    derive_denylist_account, derive_local_token, derive_sender_authority,
};
use cctp_burn_hook_wrapper::request::{
    BurnHookExecuted, BurnParams, DepositForBurnContext, DepositForBurnWithHook,
    DepositForBurnWithHookParams,
};

const CALLER: u8 = 1;
const ASSET: u8 = 2;
const RECIPIENT: u8 = 21;
const BRIDGE: u8 = 13;

fn address(byte: u8) -> Address {
    Address::new([byte; 32])
}

fn account(key: Address, is_signer: bool, is_writable: bool) -> AccountRef {
    AccountRef { key, is_signer, is_writable }
}

fn valid_accounts() -> ExecuteBurnHook {
    let bridge = address(BRIDGE);
    ExecuteBurnHook {
        payer: account(address(CALLER), true, true),
        sender_authority_pda: account(derive_sender_authority(&bridge).unwrap(), false, false),
        burn_token_account: TokenHolding {
            account: account(address(4), false, true),
            mint: address(ASSET),
            owner: address(CALLER),
        },
        denylist_account: account(
            derive_denylist_account(&address(CALLER), &bridge).unwrap(),
            false,
            false,
        ),
        burn_token_mint: account(address(ASSET), false, true),
        message_transmitter: account(address(6), false, true),
        token_messenger: account(address(7), false, true),
        remote_token_messenger: account(address(8), false, true),
        token_minter: account(address(9), false, true),
        local_token: account(derive_local_token(&address(ASSET), &bridge).unwrap(), false, true),
        message_sent_event_data: account(address(11), true, true),
        message_transmitter_program: account(address(12), false, false),
        token_messenger_minter_program: account(bridge, false, false),
        token_program: account(address(14), false, false),
        system_program: account(address(0), false, false),
    }
}

fn burn_of_one_million(hook_data: Vec<u8>) -> BurnParams {
    BurnParams {
        amount: 1_000_000,
        destination_domain: 6,
        mint_recipient: address(RECIPIENT),
        destination_caller: Address::default(),
        max_fee: 100,
        min_finality_threshold: 2000,
        hook_data,
    }
}

/// A ledger with a bridging program that answers every sub-call with
/// `answer`, and burns the amount where it answers with success.
struct World {
    answer: Result<(), String>,
    balance: u64,
    sub_calls: Vec<DepositForBurnWithHook>,
    records: Vec<BurnHookExecuted>,
}

fn world(answer: Result<(), String>) -> World {
    World { answer, balance: 5_000_000, sub_calls: Vec::new(), records: Vec::new() }
}

/// Runs one invocation to its end: performs each action and hands back what
/// happened, until the invocation returns.
fn invoke(
    world: &mut World,
    accounts: &ExecuteBurnHook,
    params: BurnParams,
) -> (Stage, Result<(), BurnHookError<String>>) {
    let (mut stage, mut action) = execute_burn_hook(&address(BRIDGE), accounts, params);
    for _ in 0..8 {
        let event = match action {
            Action::Invoke(call) => {
                let answer = world.answer.clone();
                if answer.is_ok() {
                    world.balance -= call.params.amount;
                }
                world.sub_calls.push(call);
                Event::SubCallReturned(answer)
            }
            Action::Emit(record) => {
                world.records.push(record);
                Event::RecordAppended
            }
            Action::Return(result) => return (stage, result),
            Action::Nothing => panic!("the invocation stalled"),
        };
        let (following, then) = stage.resume(event);
        stage = following;
        action = then;
    }
    panic!("the invocation did not end");
}

#[test]
fn valid_request_is_forwarded_and_logged_once() {
    let mut world = world(Ok(()));
    let accounts = valid_accounts();
    let (stage, result) = invoke(&mut world, &accounts, burn_of_one_million(Vec::new()));
    assert_eq!(result, Ok(()));
    assert_eq!(stage, Stage::Completed);
    assert_eq!(
        world.records,
        vec![BurnHookExecuted {
            amount: 1_000_000,
            destination_domain: 6,
            mint_recipient: address(RECIPIENT),
            destination_caller: Address::new([0u8; 32]),
            max_fee: 100,
            min_finality_threshold: 2000,
        }]
    );
    assert_eq!(world.sub_calls.len(), 1);
    assert_eq!(world.balance, 4_000_000);
}

#[test]
fn sub_call_has_the_expected_shape() {
    let mut world = world(Ok(()));
    let accounts = valid_accounts();
    invoke(&mut world, &accounts, burn_of_one_million(Vec::new()));
    let expected = DepositForBurnWithHook {
        program: address(BRIDGE),
        accounts: DepositForBurnContext {
            owner: address(CALLER),
            event_rent_payer: address(CALLER),
            sender_authority_pda: accounts.sender_authority_pda.key,
            burn_token_account: address(4),
            denylist_account: accounts.denylist_account.key,
            message_transmitter: address(6),
            token_messenger: address(7),
            remote_token_messenger: address(8),
            token_minter: address(9),
            local_token: accounts.local_token.key,
            burn_token_mint: address(ASSET),
            message_sent_event_data: address(11),
            message_transmitter_program: address(12),
            token_messenger_minter_program: address(BRIDGE),
            token_program: address(14),
            system_program: address(0),
        },
        params: DepositForBurnWithHookParams {
            amount: 1_000_000,
            destination_domain: 6,
            mint_recipient: address(RECIPIENT),
            destination_caller: Address::new([0u8; 32]),
            max_fee: 100,
            min_finality_threshold: 2000,
            hook_data: Vec::new(),
        },
    };
    assert_eq!(world.sub_calls, vec![expected]);
}

#[test]
fn denylist_account_off_by_one_seed_byte_is_an_address_mismatch() {
    let mut world = world(Ok(()));
    let mut accounts = valid_accounts();
    accounts.denylist_account.key =
        pda::derive(&[b"denylist_accounu", &[CALLER; 32]], &address(BRIDGE)).unwrap();
    let (stage, result) = invoke(&mut world, &accounts, burn_of_one_million(Vec::new()));
    assert_eq!(result, Err(BurnHookError::AddressMismatch));
    assert_eq!(stage, Stage::Rejected);
    assert!(world.records.is_empty());
    assert!(world.sub_calls.is_empty());
    assert_eq!(world.balance, 5_000_000);
}

#[test]
fn unsupported_destination_is_an_external_call_failure() {
    let failure = String::from("destination domain unsupported");
    let mut world = world(Err(failure.clone()));
    let accounts = valid_accounts();
    let (stage, result) = invoke(&mut world, &accounts, burn_of_one_million(Vec::new()));
    assert_eq!(result, Err(BurnHookError::ExternalCallFailure(failure)));
    assert_eq!(stage, Stage::Failed);
    assert!(world.records.is_empty());
    assert_eq!(world.sub_calls.len(), 1);
    assert_eq!(world.balance, 5_000_000);
}

#[test]
fn hook_payload_arrives_byte_identical() {
    let payload: Vec<u8> = vec![0, 255, 1, 254, 0, 0, 42, 13, 10, 128, 127, 7];
    let mut world = world(Ok(()));
    let accounts = valid_accounts();
    let (_, result) = invoke(&mut world, &accounts, burn_of_one_million(payload.clone()));
    assert_eq!(result, Ok(()));
    assert_eq!(world.sub_calls.len(), 1);
    assert_eq!(world.sub_calls[0].params.hook_data, payload);
    assert_eq!(world.records.len(), 1);
}

#[test]
fn hook_payload_of_every_byte_value_arrives_byte_identical() {
    let payload: Vec<u8> = (0..=255u8).chain(0..=255u8).collect();
    let accounts = valid_accounts();
    let call = accounts.forward(burn_of_one_million(payload.clone()));
    assert_eq!(call.params.hook_data, payload);
    assert_eq!(call.params.amount, 1_000_000);
}

#[test]
fn foreign_holding_is_rejected_before_any_sub_call() {
    let mut world = world(Ok(()));
    let mut accounts = valid_accounts();
    accounts.burn_token_account.owner = address(3);
    let (stage, result) = invoke(&mut world, &accounts, burn_of_one_million(Vec::new()));
    assert_eq!(result, Err(BurnHookError::ConstraintViolation));
    assert_eq!(stage, Stage::Rejected);
    assert!(world.sub_calls.is_empty());
    assert!(world.records.is_empty());
}

#[test]
fn resubmitting_a_rejected_request_changes_nothing() {
    let mut world = world(Ok(()));
    let mut accounts = valid_accounts();
    accounts.local_token.key = address(10);
    let first = invoke(&mut world, &accounts, burn_of_one_million(vec![1, 2, 3]));
    let second = invoke(&mut world, &accounts, burn_of_one_million(vec![1, 2, 3]));
    assert_eq!(first, (Stage::Rejected, Err(BurnHookError::AddressMismatch)));
    assert_eq!(second, first);
    assert!(world.sub_calls.is_empty());
    assert!(world.records.is_empty());
    assert_eq!(world.balance, 5_000_000);
}

#[test]
fn two_successful_invocations_log_two_records() {
    let mut world = world(Ok(()));
    let accounts = valid_accounts();
    invoke(&mut world, &accounts, burn_of_one_million(Vec::new()));
    invoke(&mut world, &accounts, burn_of_one_million(vec![9]));
    assert_eq!(world.records.len(), 2);
    assert_eq!(world.sub_calls.len(), 2);
    assert_eq!(world.balance, 3_000_000);
}

#[test]
fn after_validation_follows_the_verdict() {
    let accounts = valid_accounts();
    let params = burn_of_one_million(vec![5]);
    let record = params.executed();
    let call = accounts.forward(params.clone());

    let (stage, action) = after_validation::<String>(Ok(()), &accounts, params.clone());
    assert_eq!(stage, Stage::Forwarding(record));
    assert_eq!(action, Action::Invoke(call));

    let (stage, action) =
        after_validation::<String>(Err(Rejection::AddressMismatch), &accounts, params.clone());
    assert_eq!(stage, Stage::Rejected);
    assert_eq!(action, Action::Return(Err(BurnHookError::AddressMismatch)));

    let (stage, action) =
        after_validation::<String>(Err(Rejection::ConstraintViolation), &accounts, params);
    assert_eq!(stage, Stage::Rejected);
    assert_eq!(action, Action::Return(Err(BurnHookError::ConstraintViolation)));
}

#[test]
fn rejection_becomes_the_error_of_the_same_kind() {
    assert_eq!(
        BurnHookError::<u32>::from_rejection(Rejection::AddressMismatch),
        BurnHookError::AddressMismatch
    );
    assert_eq!(
        BurnHookError::<u32>::from_rejection(Rejection::ConstraintViolation),
        BurnHookError::ConstraintViolation
    );
}

#[test]
fn record_is_the_request_without_its_hook_payload() {
    let params = BurnParams {
        amount: u64::MAX,
        destination_domain: u32::MAX,
        mint_recipient: address(31),
        destination_caller: address(32),
        max_fee: 0,
        min_finality_threshold: 1,
        hook_data: vec![1, 2, 3],
    };
    assert_eq!(
        params.executed(),
        BurnHookExecuted {
            amount: u64::MAX,
            destination_domain: u32::MAX,
            mint_recipient: address(31),
            destination_caller: address(32),
            max_fee: 0,
            min_finality_threshold: 1,
        }
    );
}

#[test]
fn zero_amount_is_forwarded_as_it_is() {
    let mut world = world(Ok(()));
    let accounts = valid_accounts();
    let mut params = burn_of_one_million(Vec::new());
    params.amount = 0;
    let (_, result) = invoke(&mut world, &accounts, params);
    assert_eq!(result, Ok(()));
    assert_eq!(world.sub_calls[0].params.amount, 0);
    assert_eq!(world.records[0].amount, 0);
}

#[test]
fn stages_step_as_the_machine_says() {
    let record = burn_of_one_million(Vec::new()).executed();
    let forwarding = Stage::Forwarding(record);

    let (stage, action) = forwarding.resume(Event::<u32>::SubCallReturned(Ok(())));
    assert_eq!((stage, action), (Stage::Notifying, Action::Emit(record)));

    let (stage, action) = forwarding.resume(Event::SubCallReturned(Err(7u32)));
    assert_eq!(
        (stage, action),
        (Stage::Failed, Action::Return(Err(BurnHookError::ExternalCallFailure(7u32))))
    );

    let (stage, action) = Stage::Notifying.resume(Event::<u32>::RecordAppended);
    assert_eq!((stage, action), (Stage::Completed, Action::Return(Ok(()))));
}

#[test]
fn events_out_of_place_change_nothing() {
    let record = burn_of_one_million(Vec::new()).executed();
    let stages = [
        Stage::Rejected,
        Stage::Failed,
        Stage::Completed,
        Stage::Forwarding(record),
        Stage::Notifying,
    ];
    for stage in stages {
        if !matches!(stage, Stage::Notifying) {
            let (after, action) = stage.resume(Event::<u32>::RecordAppended);
            assert_eq!((after, action), (stage, Action::Nothing));
        }
        if !matches!(stage, Stage::Forwarding(_)) {
            let (after, action) = stage.resume(Event::<u32>::SubCallReturned(Ok(())));
            assert_eq!((after, action), (stage, Action::Nothing));
            let (after, action) = stage.resume(Event::SubCallReturned(Err(1u32)));
            assert_eq!((after, action), (stage, Action::Nothing));
        }
    }
}

#[test]
fn finished_names_the_terminal_stages() {
    let record = burn_of_one_million(Vec::new()).executed();
    assert!(Stage::Rejected.finished());
    assert!(Stage::Failed.finished());
    assert!(Stage::Completed.finished());
    assert!(!Stage::Forwarding(record).finished());
    assert!(!Stage::Notifying.finished());
}
