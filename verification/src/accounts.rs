//! The accounts of one burn request and the checks made on them before
//! anything is forwarded.

use vstd::prelude::*;
use crate::address::Address;
use crate::pda::{
    denylist_seeds, derive_denylist_account, derive_local_token, derive_sender_authority,
    derived_address, local_token_seeds, sender_authority_seeds,
};

verus! {

/// A reference to an account as the caller supplied it.
#[derive(Clone, Copy, Debug, PartialEq, Eq)]
pub struct AccountRef {
    /// Address of the account.
    pub key: Address,
    /// Whether the account signed the request.
    pub is_signer: bool,
    /// Whether the caller flagged the account as mutable.
    pub is_writable: bool,
}

/// A token holding: an account together with the asset it holds and the
/// owner registered for it.
#[derive(Clone, Copy, Debug, PartialEq, Eq)]
pub struct TokenHolding {
    pub account: AccountRef,
    /// Asset type registered for the holding.
    pub mint: Address,
    /// Owner registered for the holding.
    pub owner: Address,
}

/// The full account list of one burn request.
#[derive(Clone, Copy, Debug, PartialEq, Eq)]
pub struct ExecuteBurnHook {
    /// The invoking caller; pays for the event-data slot.
    pub payer: AccountRef,
    /// Sending-authority delegate of the bridging program.
    pub sender_authority_pda: AccountRef,
    /// Token holding that the burn draws on.
    pub burn_token_account: TokenHolding,
    /// Deny-list entry of the caller.
    pub denylist_account: AccountRef,
    /// Registry entry of the burn asset.
    pub burn_token_mint: AccountRef,
    /// Bridging-state registry.
    pub message_transmitter: AccountRef,
    /// Local bridging-authority registry.
    pub token_messenger: AccountRef,
    /// Bridging-authority registry of the remote domain.
    pub remote_token_messenger: AccountRef,
    /// Asset-minter registry.
    pub token_minter: AccountRef,
    /// Local-asset registry of the burn asset.
    pub local_token: AccountRef,
    /// Fresh storage slot for the event data, co-signed by the caller.
    pub message_sent_event_data: AccountRef,
    pub message_transmitter_program: AccountRef,
    pub token_messenger_minter_program: AccountRef,
    pub token_program: AccountRef,
    pub system_program: AccountRef,
}

/// Why a request was turned away before the sub-call.
#[derive(Clone, Copy, Debug, PartialEq, Eq)]
pub enum Rejection {
    /// A supplied account is not at the address derived for it.
    AddressMismatch,
    /// An ownership, type, signer or mutability constraint does not hold.
    ConstraintViolation,
}

/// The three addresses derived for a request, each `None` where the
/// derivation yields no address.
#[derive(Clone, Copy, Debug, PartialEq, Eq)]
pub struct DerivedAddresses {
    pub sender_authority: Option<Address>,
    pub denylist_account: Option<Address>,
    pub local_token: Option<Address>,
}

/// The bytes of an optional address.
pub open spec fn option_view(address: Option<Address>) -> Option<Seq<u8>> {
    match address {
        Some(a) => Some(a@),
        None => None,
    }
}

impl DerivedAddresses {
    /// These are the addresses derived, under the program with the bytes
    /// `program`, for the caller and the burn asset of `accounts`.
    pub open spec fn derived_for(self, accounts: ExecuteBurnHook, program: Seq<u8>) -> bool {
        &&& option_view(self.sender_authority) == derived_address(sender_authority_seeds(), program)
        &&& option_view(self.denylist_account) == derived_address(
            denylist_seeds(accounts.payer.key@),
            program,
        )
        &&& option_view(self.local_token) == derived_address(
            local_token_seeds(accounts.burn_token_mint.key@),
            program,
        )
    }
}

impl ExecuteBurnHook {
    /// The caller and the event-data slot both signed.
    pub open spec fn signers_hold(self) -> bool {
        self.payer.is_signer && self.message_sent_event_data.is_signer
    }

    /// Every account that the sub-call changes is flagged as mutable.
    pub open spec fn mutability_holds(self) -> bool {
        &&& self.payer.is_writable
        &&& self.burn_token_account.account.is_writable
        &&& self.burn_token_mint.is_writable
        &&& self.message_transmitter.is_writable
        &&& self.token_messenger.is_writable
        &&& self.remote_token_messenger.is_writable
        &&& self.token_minter.is_writable
        &&& self.local_token.is_writable
        &&& self.message_sent_event_data.is_writable
    }

    /// The burn token holding is of the burn asset and owned by the caller.
    pub open spec fn ownership_holds(self) -> bool {
        &&& self.burn_token_account.mint@ == self.burn_token_mint.key@
        &&& self.burn_token_account.owner@ == self.payer.key@
    }

    /// All ownership, type, signer and mutability constraints hold.
    pub open spec fn constraints_hold(self) -> bool {
        self.signers_hold() && self.mutability_holds() && self.ownership_holds()
    }

    /// Each derived account is at the address given for it in `derived`.
    pub open spec fn addresses_match(self, derived: DerivedAddresses) -> bool {
        &&& option_view(derived.sender_authority) == Some(self.sender_authority_pda.key@)
        &&& option_view(derived.denylist_account) == Some(self.denylist_account.key@)
        &&& option_view(derived.local_token) == Some(self.local_token.key@)
    }

    /// Each derived account is at the address that the derivation scheme
    /// gives under the program with the bytes `program`.
    pub open spec fn addresses_derivable(self, program: Seq<u8>) -> bool {
        &&& derived_address(sender_authority_seeds(), program) == Some(
            self.sender_authority_pda.key@,
        )
        &&& derived_address(denylist_seeds(self.payer.key@), program) == Some(
            self.denylist_account.key@,
        )
        &&& derived_address(local_token_seeds(self.burn_token_mint.key@), program) == Some(
            self.local_token.key@,
        )
    }

    /// The outcome of the checks, given the derived addresses: a violated
    /// constraint comes before a mismatched address.
    pub open spec fn verdict(self, derived: DerivedAddresses) -> Result<(), Rejection> {
        if !self.constraints_hold() {
            Err(Rejection::ConstraintViolation)
        } else if !self.addresses_match(derived) {
            Err(Rejection::AddressMismatch)
        } else {
            Ok(())
        }
    }

    /// The outcome of validation under the program with the bytes `program`.
    pub open spec fn validation(self, program: Seq<u8>) -> Result<(), Rejection> {
        if !self.constraints_hold() {
            Err(Rejection::ConstraintViolation)
        } else if !self.addresses_derivable(program) {
            Err(Rejection::AddressMismatch)
        } else {
            Ok(())
        }
    }

    /// Checks the ownership, type, signer and mutability constraints.
    pub fn check_constraints(&self) -> (r: Result<(), Rejection>)
        ensures
            r == if self.constraints_hold() {
                Ok::<(), Rejection>(())
            } else {
                Err(Rejection::ConstraintViolation)
            },
    {
        let signers = self.payer.is_signer && self.message_sent_event_data.is_signer;
        let mutable = self.payer.is_writable && self.burn_token_account.account.is_writable
            && self.burn_token_mint.is_writable && self.message_transmitter.is_writable
            && self.token_messenger.is_writable && self.remote_token_messenger.is_writable
            && self.token_minter.is_writable && self.local_token.is_writable
            && self.message_sent_event_data.is_writable;
        let owned = self.burn_token_account.mint == self.burn_token_mint.key
            && self.burn_token_account.owner == self.payer.key;
        if signers && mutable && owned {
            Ok(())
        } else {
            Err(Rejection::ConstraintViolation)
        }
    }

    /// Checks the three derived accounts against `derived`.
    pub fn check_addresses(&self, derived: &DerivedAddresses) -> (r: Result<(), Rejection>)
        ensures
            r == if self.addresses_match(*derived) {
                Ok::<(), Rejection>(())
            } else {
                Err(Rejection::AddressMismatch)
            },
    {
        if is_at(&self.sender_authority_pda, &derived.sender_authority) && is_at(
            &self.denylist_account,
            &derived.denylist_account,
        ) && is_at(&self.local_token, &derived.local_token) {
            Ok(())
        } else {
            Err(Rejection::AddressMismatch)
        }
    }

    /// Checks the accounts against addresses already derived.
    pub fn check(&self, derived: &DerivedAddresses) -> (r: Result<(), Rejection>)
        ensures
            r == self.verdict(*derived),
    {
        match self.check_constraints() {
            Ok(()) => self.check_addresses(derived),
            Err(rejection) => Err(rejection),
        }
    }

    /// Derives, under `bridge_program`, the addresses of the sending-authority
    /// delegate, of the caller's deny-list entry and of the burn asset's
    /// local-asset registry.
    pub fn resolve(&self, bridge_program: &Address) -> (derived: DerivedAddresses)
        ensures
            derived.derived_for(*self, bridge_program@),
    {
        DerivedAddresses {
            sender_authority: derive_sender_authority(bridge_program),
            denylist_account: derive_denylist_account(&self.payer.key, bridge_program),
            local_token: derive_local_token(&self.burn_token_mint.key, bridge_program),
        }
    }

    /// Validates the accounts of a request: the constraints first, then the
    /// derived addresses under `bridge_program`. Nothing is changed.
    pub fn validate(&self, bridge_program: &Address) -> (r: Result<(), Rejection>)
        ensures
            r == self.validation(bridge_program@),
    {
        match self.check_constraints() {
            Ok(()) => {
                let derived = self.resolve(bridge_program);
                self.check_addresses(&derived)
            },
            Err(rejection) => Err(rejection),
        }
    }
}

/// Whether `account` is at the address `expected`.
fn is_at(account: &AccountRef, expected: &Option<Address>) -> (r: bool)
    ensures
        r == (option_view(*expected) == Some(account.key@)),
{
    match expected {
        Some(address) => *address == account.key,
        None => false,
    }
}

/// Validation is the verdict on the addresses that derivation gives.
pub proof fn lemma_validation_is_verdict(
    accounts: ExecuteBurnHook,
    derived: DerivedAddresses,
    program: Seq<u8>,
)
    requires
        derived.derived_for(accounts, program),
    ensures
        accounts.validation(program) == accounts.verdict(derived),
{
}

} // verus!
