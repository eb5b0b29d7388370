//! The burn request, the parameters and account context of the sub-call it is
//! forwarded as, and the log record of a forwarded request.

use vstd::prelude::*;
use crate::accounts::ExecuteBurnHook;
use crate::address::Address;

verus! {

/// The fields of a burn request as plain values: the view of `BurnParams`
/// and of `DepositForBurnWithHookParams` alike.
pub struct BurnRequest {
    pub amount: u64,
    pub destination_domain: u32,
    pub mint_recipient: Address,
    pub destination_caller: Address,
    pub max_fee: u64,
    pub min_finality_threshold: u32,
    pub hook_data: Seq<u8>,
}

/// The burn parameters that the caller supplies.
#[derive(Clone, Debug, PartialEq, Eq)]
pub struct BurnParams {
    /// Quantity of the asset to burn.
    pub amount: u64,
    /// Identifier of the destination domain.
    pub destination_domain: u32,
    /// Recipient of the mint on the destination domain.
    pub mint_recipient: Address,
    /// Who may finalize on the destination domain.
    pub destination_caller: Address,
    /// Upper bound of the fee that the caller accepts.
    pub max_fee: u64,
    /// Attestation confidence that the caller asks for.
    pub min_finality_threshold: u32,
    /// Bytes for the hook on the destination side; never read here.
    pub hook_data: Vec<u8>,
}

/// The parameters of the bridging program's deposit-for-burn-with-hook entry.
#[derive(Clone, Debug, PartialEq, Eq)]
pub struct DepositForBurnWithHookParams {
    pub amount: u64,
    pub destination_domain: u32,
    pub mint_recipient: Address,
    pub destination_caller: Address,
    pub max_fee: u64,
    pub min_finality_threshold: u32,
    pub hook_data: Vec<u8>,
}

/// The log record of one forwarded request: the request without its hook
/// payload.
#[derive(Clone, Copy, Debug, PartialEq, Eq)]
pub struct BurnHookExecuted {
    pub amount: u64,
    pub destination_domain: u32,
    pub mint_recipient: Address,
    pub destination_caller: Address,
    pub max_fee: u64,
    pub min_finality_threshold: u32,
}

/// The accounts that the sub-call is given, by the role each plays in it.
#[derive(Clone, Copy, Debug, PartialEq, Eq)]
pub struct DepositForBurnContext {
    pub owner: Address,
    pub event_rent_payer: Address,
    pub sender_authority_pda: Address,
    pub burn_token_account: Address,
    pub denylist_account: Address,
    pub message_transmitter: Address,
    pub token_messenger: Address,
    pub remote_token_messenger: Address,
    pub token_minter: Address,
    pub local_token: Address,
    pub burn_token_mint: Address,
    pub message_sent_event_data: Address,
    pub message_transmitter_program: Address,
    pub token_messenger_minter_program: Address,
    pub token_program: Address,
    pub system_program: Address,
}

/// One sub-call into the bridging program, as plain values: the view of
/// `DepositForBurnWithHook`.
pub struct SubCall {
    pub program: Address,
    pub accounts: DepositForBurnContext,
    pub params: BurnRequest,
}

/// One sub-call into the bridging program, ready to be issued.
#[derive(Clone, Debug, PartialEq, Eq)]
pub struct DepositForBurnWithHook {
    /// The program that is called.
    pub program: Address,
    pub accounts: DepositForBurnContext,
    pub params: DepositForBurnWithHookParams,
}

impl View for BurnParams {
    type V = BurnRequest;

    open spec fn view(&self) -> BurnRequest {
        BurnRequest {
            amount: self.amount,
            destination_domain: self.destination_domain,
            mint_recipient: self.mint_recipient,
            destination_caller: self.destination_caller,
            max_fee: self.max_fee,
            min_finality_threshold: self.min_finality_threshold,
            hook_data: self.hook_data@,
        }
    }
}

impl View for DepositForBurnWithHookParams {
    type V = BurnRequest;

    open spec fn view(&self) -> BurnRequest {
        BurnRequest {
            amount: self.amount,
            destination_domain: self.destination_domain,
            mint_recipient: self.mint_recipient,
            destination_caller: self.destination_caller,
            max_fee: self.max_fee,
            min_finality_threshold: self.min_finality_threshold,
            hook_data: self.hook_data@,
        }
    }
}

impl View for DepositForBurnWithHook {
    type V = SubCall;

    open spec fn view(&self) -> SubCall {
        SubCall { program: self.program, accounts: self.accounts, params: self.params@ }
    }
}

impl BurnRequest {
    /// The log record of this request: every field but the hook payload.
    pub open spec fn record(self) -> BurnHookExecuted {
        BurnHookExecuted {
            amount: self.amount,
            destination_domain: self.destination_domain,
            mint_recipient: self.mint_recipient,
            destination_caller: self.destination_caller,
            max_fee: self.max_fee,
            min_finality_threshold: self.min_finality_threshold,
        }
    }
}

impl ExecuteBurnHook {
    /// The account context of the sub-call: the caller stands as owner and as
    /// payer of the event-data slot, every other account in its own role.
    pub open spec fn context(self) -> DepositForBurnContext {
        DepositForBurnContext {
            owner: self.payer.key,
            event_rent_payer: self.payer.key,
            sender_authority_pda: self.sender_authority_pda.key,
            burn_token_account: self.burn_token_account.account.key,
            denylist_account: self.denylist_account.key,
            message_transmitter: self.message_transmitter.key,
            token_messenger: self.token_messenger.key,
            remote_token_messenger: self.remote_token_messenger.key,
            token_minter: self.token_minter.key,
            local_token: self.local_token.key,
            burn_token_mint: self.burn_token_mint.key,
            message_sent_event_data: self.message_sent_event_data.key,
            message_transmitter_program: self.message_transmitter_program.key,
            token_messenger_minter_program: self.token_messenger_minter_program.key,
            token_program: self.token_program.key,
            system_program: self.system_program.key,
        }
    }

    /// The sub-call that forwards `request` with these accounts.
    pub open spec fn sub_call(self, request: BurnRequest) -> SubCall {
        SubCall {
            program: self.token_messenger_minter_program.key,
            accounts: self.context(),
            params: request,
        }
    }

    /// Builds the account context of the sub-call.
    pub fn to_context(&self) -> (context: DepositForBurnContext)
        ensures
            context == self.context(),
    {
        DepositForBurnContext {
            owner: self.payer.key,
            event_rent_payer: self.payer.key,
            sender_authority_pda: self.sender_authority_pda.key,
            burn_token_account: self.burn_token_account.account.key,
            denylist_account: self.denylist_account.key,
            message_transmitter: self.message_transmitter.key,
            token_messenger: self.token_messenger.key,
            remote_token_messenger: self.remote_token_messenger.key,
            token_minter: self.token_minter.key,
            local_token: self.local_token.key,
            burn_token_mint: self.burn_token_mint.key,
            message_sent_event_data: self.message_sent_event_data.key,
            message_transmitter_program: self.message_transmitter_program.key,
            token_messenger_minter_program: self.token_messenger_minter_program.key,
            token_program: self.token_program.key,
            system_program: self.system_program.key,
        }
    }

    /// Packages `params` with these accounts into the one sub-call. Every
    /// field of the request goes through unchanged, the hook payload byte for
    /// byte.
    pub fn forward(&self, params: BurnParams) -> (call: DepositForBurnWithHook)
        ensures
            call@ == self.sub_call(params@),
    {
        DepositForBurnWithHook {
            program: self.token_messenger_minter_program.key,
            accounts: self.to_context(),
            params: params.into_sub_call_params(),
        }
    }
}

impl BurnParams {
    /// Builds the log record of the request.
    pub fn executed(&self) -> (record: BurnHookExecuted)
        ensures
            record == self@.record(),
    {
        BurnHookExecuted {
            amount: self.amount,
            destination_domain: self.destination_domain,
            mint_recipient: self.mint_recipient,
            destination_caller: self.destination_caller,
            max_fee: self.max_fee,
            min_finality_threshold: self.min_finality_threshold,
        }
    }

    /// The request as the parameters of the sub-call, field for field.
    pub fn into_sub_call_params(self) -> (out: DepositForBurnWithHookParams)
        ensures
            out@ == self@,
    {
        DepositForBurnWithHookParams {
            amount: self.amount,
            destination_domain: self.destination_domain,
            mint_recipient: self.mint_recipient,
            destination_caller: self.destination_caller,
            max_fee: self.max_fee,
            min_finality_threshold: self.min_finality_threshold,
            hook_data: self.hook_data,
        }
    }
}

} // verus!
