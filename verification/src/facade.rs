//! The asset facade: a standard token interface over the extension gate.
//!
//! A facade binds one asset identifier at construction, stores it
//! verbatim, and forwards every gate operation with that identifier
//! prepended. It introduces no new error condition: a typed failure of a
//! failure-capable operation reaches the caller as is, and the three
//! queries whose token interface has no error channel (`total_supply`,
//! `balance_of`, `allowance`) collapse a typed failure to zero — a
//! deliberate, documented information loss, so a zero from them is not
//! proof of success. A protocol violation is never collapsed.

use vstd::prelude::*;

use crate::error::{CallOutcome, ProtocolViolation};
use crate::gate::{
    asset_account_input, asset_account_value_input, asset_input, asset_two_accounts_input,
    asset_two_accounts_value_input, balance_reply, bytes_reply, bytes_view, called_once,
    u8_reply, unit_reply, Psp22Extension, ALLOWANCE_SELECTOR, APPROVE_SELECTOR, BALANCE_OF_SELECTOR,
    BURN_SELECTOR, DECREASE_ALLOWANCE_SELECTOR, INCREASE_ALLOWANCE_SELECTOR, MINT_SELECTOR,
    TOKEN_DECIMALS_SELECTOR, TOKEN_NAME_SELECTOR, TOKEN_SYMBOL_SELECTOR, TOTAL_SUPPLY_SELECTOR,
    TRANSFER_FROM_SELECTOR, TRANSFER_SELECTOR,
};
use crate::host::{host_answered, Host};
use crate::types::{AccountId, AssetId, Balance};

verus! {

/// What a bare-value query returns once a typed failure has been
/// collapsed: the balance on success, zero in place of a typed failure,
/// or the protocol violation, which is never collapsed.
pub open spec fn collapsed(rep: CallOutcome<Balance>, r: Result<Balance, ProtocolViolation>) -> bool {
    match rep {
        CallOutcome::Success(v) => r == Result::<Balance, ProtocolViolation>::Ok(v),
        CallOutcome::Failure(_) => r == Result::<Balance, ProtocolViolation>::Ok(0u128),
        CallOutcome::Violation(p) => r == Result::<Balance, ProtocolViolation>::Err(p),
    }
}

/// The standard token interface: one method per catalogue operation,
/// each scoped to the asset bound at construction.
pub trait PSP22 {
    /// The asset identifier every operation is scoped to.
    spec fn bound_asset(&self) -> AssetId;

    /// Total supply of the bound asset; a typed failure collapses to
    /// zero.
    fn total_supply<H: Host>(&self, host: &mut H) -> (r: Result<Balance, ProtocolViolation>)
        ensures
            called_once(
                old(host).log(),
                final(host).log(),
                TOTAL_SUPPLY_SELECTOR,
                asset_input(self.bound_asset()),
            ),
            collapsed(
                balance_reply(final(host).log().last().status, final(host).log().last().output),
                r,
            ),
            host_answered(*old(host), final(host).log().last()),
    ;

    /// Balance `owner` holds of the bound asset; a typed failure
    /// collapses to zero.
    fn balance_of<H: Host>(&self, host: &mut H, owner: &AccountId) -> (r: Result<
        Balance,
        ProtocolViolation,
    >)
        ensures
            called_once(
                old(host).log(),
                final(host).log(),
                BALANCE_OF_SELECTOR,
                asset_account_input(self.bound_asset(), owner@),
            ),
            collapsed(
                balance_reply(final(host).log().last().status, final(host).log().last().output),
                r,
            ),
            host_answered(*old(host), final(host).log().last()),
    ;

    /// What `spender` may still withdraw from `owner`; a typed failure
    /// collapses to zero.
    fn allowance<H: Host>(&self, host: &mut H, owner: &AccountId, spender: &AccountId) -> (r:
        Result<Balance, ProtocolViolation>)
        ensures
            called_once(
                old(host).log(),
                final(host).log(),
                ALLOWANCE_SELECTOR,
                asset_two_accounts_input(self.bound_asset(), owner@, spender@),
            ),
            collapsed(
                balance_reply(final(host).log().last().status, final(host).log().last().output),
                r,
            ),
            host_answered(*old(host), final(host).log().last()),
    ;

    /// Moves `value` to `to`; a failure keeps its typed error.
    fn transfer<H: Host>(&mut self, host: &mut H, to: &AccountId, value: Balance) -> (r:
        CallOutcome<()>)
        ensures
            final(self).bound_asset() == old(self).bound_asset(),
            called_once(
                old(host).log(),
                final(host).log(),
                TRANSFER_SELECTOR,
                asset_account_value_input(old(self).bound_asset(), to@, value),
            ),
            r == unit_reply(final(host).log().last().status, final(host).log().last().output),
            host_answered(*old(host), final(host).log().last()),
    ;

    /// Moves `value` from `from` to `to` on the caller's allowance; a
    /// failure keeps its typed error.
    fn transfer_from<H: Host>(
        &mut self,
        host: &mut H,
        from: &AccountId,
        to: &AccountId,
        value: Balance,
    ) -> (r: CallOutcome<()>)
        ensures
            final(self).bound_asset() == old(self).bound_asset(),
            called_once(
                old(host).log(),
                final(host).log(),
                TRANSFER_FROM_SELECTOR,
                asset_two_accounts_value_input(old(self).bound_asset(), from@, to@, value),
            ),
            r == unit_reply(final(host).log().last().status, final(host).log().last().output),
            host_answered(*old(host), final(host).log().last()),
    ;

    /// Lets `spender` withdraw up to `value`; a failure keeps its typed
    /// error.
    fn approve<H: Host>(&mut self, host: &mut H, spender: &AccountId, value: Balance) -> (r:
        CallOutcome<()>)
        ensures
            final(self).bound_asset() == old(self).bound_asset(),
            called_once(
                old(host).log(),
                final(host).log(),
                APPROVE_SELECTOR,
                asset_account_value_input(old(self).bound_asset(), spender@, value),
            ),
            r == unit_reply(final(host).log().last().status, final(host).log().last().output),
            host_answered(*old(host), final(host).log().last()),
    ;

    /// Raises the caller's allowance for `spender`; a failure keeps its
    /// typed error.
    fn increase_allowance<H: Host>(
        &mut self,
        host: &mut H,
        spender: &AccountId,
        value: Balance,
    ) -> (r: CallOutcome<()>)
        ensures
            final(self).bound_asset() == old(self).bound_asset(),
            called_once(
                old(host).log(),
                final(host).log(),
                INCREASE_ALLOWANCE_SELECTOR,
                asset_account_value_input(old(self).bound_asset(), spender@, value),
            ),
            r == unit_reply(final(host).log().last().status, final(host).log().last().output),
            host_answered(*old(host), final(host).log().last()),
    ;

    /// Lowers the caller's allowance for `spender`; a failure keeps its
    /// typed error.
    fn decrease_allowance<H: Host>(
        &mut self,
        host: &mut H,
        spender: &AccountId,
        value: Balance,
    ) -> (r: CallOutcome<()>)
        ensures
            final(self).bound_asset() == old(self).bound_asset(),
            called_once(
                old(host).log(),
                final(host).log(),
                DECREASE_ALLOWANCE_SELECTOR,
                asset_account_value_input(old(self).bound_asset(), spender@, value),
            ),
            r == unit_reply(final(host).log().last().status, final(host).log().last().output),
            host_answered(*old(host), final(host).log().last()),
    ;

    /// The token name; a failure keeps its typed error.
    fn token_name<H: Host>(&self, host: &mut H) -> (r: CallOutcome<Vec<u8>>)
        ensures
            called_once(
                old(host).log(),
                final(host).log(),
                TOKEN_NAME_SELECTOR,
                asset_input(self.bound_asset()),
            ),
            bytes_view(r) == bytes_reply(
                final(host).log().last().status,
                final(host).log().last().output,
            ),
            host_answered(*old(host), final(host).log().last()),
    ;

    /// The token symbol; a failure keeps its typed error.
    fn token_symbol<H: Host>(&self, host: &mut H) -> (r: CallOutcome<Vec<u8>>)
        ensures
            called_once(
                old(host).log(),
                final(host).log(),
                TOKEN_SYMBOL_SELECTOR,
                asset_input(self.bound_asset()),
            ),
            bytes_view(r) == bytes_reply(
                final(host).log().last().status,
                final(host).log().last().output,
            ),
            host_answered(*old(host), final(host).log().last()),
    ;

    /// The decimal places; a failure keeps its typed error.
    fn token_decimals<H: Host>(&self, host: &mut H) -> (r: CallOutcome<u8>)
        ensures
            called_once(
                old(host).log(),
                final(host).log(),
                TOKEN_DECIMALS_SELECTOR,
                asset_input(self.bound_asset()),
            ),
            r == u8_reply(final(host).log().last().status, final(host).log().last().output),
            host_answered(*old(host), final(host).log().last()),
    ;

    /// Creates `value` for `to`; a failure keeps its typed error.
    fn mint<H: Host>(&mut self, host: &mut H, to: &AccountId, value: Balance) -> (r: CallOutcome<
        (),
    >)
        ensures
            final(self).bound_asset() == old(self).bound_asset(),
            called_once(
                old(host).log(),
                final(host).log(),
                MINT_SELECTOR,
                asset_account_value_input(old(self).bound_asset(), to@, value),
            ),
            r == unit_reply(final(host).log().last().status, final(host).log().last().output),
            host_answered(*old(host), final(host).log().last()),
    ;

    /// Destroys `value` held by `from`; a failure keeps its typed error.
    fn burn<H: Host>(&mut self, host: &mut H, from: &AccountId, value: Balance) -> (r: CallOutcome<
        (),
    >)
        ensures
            final(self).bound_asset() == old(self).bound_asset(),
            called_once(
                old(host).log(),
                final(host).log(),
                BURN_SELECTOR,
                asset_account_value_input(old(self).bound_asset(), from@, value),
            ),
            r == unit_reply(final(host).log().last().status, final(host).log().last().output),
            host_answered(*old(host), final(host).log().last()),
    ;
}

/// A token contract bound to one asset ledger on the host. The bound
/// identifier is the facade's whole state: it is set at construction and
/// never changes.
pub struct MyPSP22 {
    asset_id: AssetId,
}

impl View for MyPSP22 {
    type V = AssetId;

    closed spec fn view(&self) -> AssetId {
        self.asset_id
    }
}

impl MyPSP22 {
    /// Binds the facade to `asset_id`. Nothing is validated and no host
    /// call is made.
    pub fn new(asset_id: AssetId) -> (c: MyPSP22)
        ensures
            c@ == asset_id,
    {
        MyPSP22 { asset_id }
    }

    /// The bound asset identifier.
    pub fn asset_id(&self) -> (r: AssetId)
        ensures
            r == self@,
    {
        self.asset_id
    }
}

impl PSP22 for MyPSP22 {
    open spec fn bound_asset(&self) -> AssetId {
        self@
    }

    fn total_supply<H: Host>(&self, host: &mut H) -> (r: Result<Balance, ProtocolViolation>) {
        match Psp22Extension::total_supply(host, self.asset_id) {
            CallOutcome::Success(v) => Ok(v),
            CallOutcome::Failure(_) => Ok(0),
            CallOutcome::Violation(p) => Err(p),
        }
    }

    fn balance_of<H: Host>(&self, host: &mut H, owner: &AccountId) -> (r: Result<
        Balance,
        ProtocolViolation,
    >) {
        match Psp22Extension::balance_of(host, self.asset_id, owner) {
            CallOutcome::Success(v) => Ok(v),
            CallOutcome::Failure(_) => Ok(0),
            CallOutcome::Violation(p) => Err(p),
        }
    }

    fn allowance<H: Host>(&self, host: &mut H, owner: &AccountId, spender: &AccountId) -> (r:
        Result<Balance, ProtocolViolation>) {
        match Psp22Extension::allowance(host, self.asset_id, owner, spender) {
            CallOutcome::Success(v) => Ok(v),
            CallOutcome::Failure(_) => Ok(0),
            CallOutcome::Violation(p) => Err(p),
        }
    }

    fn transfer<H: Host>(&mut self, host: &mut H, to: &AccountId, value: Balance) -> (r:
        CallOutcome<()>) {
        Psp22Extension::transfer(host, self.asset_id, to, value)
    }

    fn transfer_from<H: Host>(
        &mut self,
        host: &mut H,
        from: &AccountId,
        to: &AccountId,
        value: Balance,
    ) -> (r: CallOutcome<()>) {
        Psp22Extension::transfer_from(host, self.asset_id, from, to, value)
    }

    fn approve<H: Host>(&mut self, host: &mut H, spender: &AccountId, value: Balance) -> (r:
        CallOutcome<()>) {
        Psp22Extension::approve(host, self.asset_id, spender, value)
    }

    fn increase_allowance<H: Host>(
        &mut self,
        host: &mut H,
        spender: &AccountId,
        value: Balance,
    ) -> (r: CallOutcome<()>) {
        Psp22Extension::increase_allowance(host, self.asset_id, spender, value)
    }

    fn decrease_allowance<H: Host>(
        &mut self,
        host: &mut H,
        spender: &AccountId,
        value: Balance,
    ) -> (r: CallOutcome<()>) {
        Psp22Extension::decrease_allowance(host, self.asset_id, spender, value)
    }

    fn token_name<H: Host>(&self, host: &mut H) -> (r: CallOutcome<Vec<u8>>) {
        Psp22Extension::token_name(host, self.asset_id)
    }

    fn token_symbol<H: Host>(&self, host: &mut H) -> (r: CallOutcome<Vec<u8>>) {
        Psp22Extension::token_symbol(host, self.asset_id)
    }

    fn token_decimals<H: Host>(&self, host: &mut H) -> (r: CallOutcome<u8>) {
        Psp22Extension::token_decimals(host, self.asset_id)
    }

    fn mint<H: Host>(&mut self, host: &mut H, to: &AccountId, value: Balance) -> (r: CallOutcome<
        (),
    >) {
        Psp22Extension::mint(host, self.asset_id, to, value)
    }

    fn burn<H: Host>(&mut self, host: &mut H, from: &AccountId, value: Balance) -> (r: CallOutcome<
        (),
    >) {
        Psp22Extension::burn(host, self.asset_id, from, value)
    }
}

} // verus!
