//! The extension gate: the fixed catalogue of host operations.
//!
//! Each of the thirteen operations owns one 16-bit selector. The selector
//! values are part of the compatibility surface with the host and must be
//! preserved exactly; the selector-to-operation mapping is a bijection and
//! a selector is never reused for another meaning. A call serializes the
//! asset identifier and the declared arguments in their fixed order,
//! issues one synchronous host call, and decodes the status code: zero
//! means the payload is the result, a declared failure code names its
//! taxonomy variant (the payload, if any, is discarded), and anything
//! else — an undeclared code, or a success payload that is not exactly
//! one well-formed result encoding — is a protocol violation.

use vstd::prelude::*;

use crate::codec::{
    decode_scale_bytes, decode_u128, encode_account, encode_u128, encode_u32, from_le,
    lemma_u128_le_round_trip, parse_scale_bytes, u128_le, u32_le,
};
use crate::error::{
    error_of_status, is_declared_status, is_error_status, CallOutcome, ProtocolViolation,
    Psp22Error,
};
use crate::host::{host_answered, CallRecord, Host};
use crate::types::{AccountId, AssetId, Balance};

verus! {

pub const TOKEN_NAME_SELECTOR: u16 = 0x3d26;

pub const TOKEN_SYMBOL_SELECTOR: u16 = 0x3420;

pub const TOKEN_DECIMALS_SELECTOR: u16 = 0x7271;

pub const TOTAL_SUPPLY_SELECTOR: u16 = 0x162d;

pub const BALANCE_OF_SELECTOR: u16 = 0x6568;

pub const ALLOWANCE_SELECTOR: u16 = 0x4d47;

pub const TRANSFER_SELECTOR: u16 = 0xdb20;

pub const TRANSFER_FROM_SELECTOR: u16 = 0x54b3;

pub const APPROVE_SELECTOR: u16 = 0xb20f;

pub const INCREASE_ALLOWANCE_SELECTOR: u16 = 0x96d6;

pub const DECREASE_ALLOWANCE_SELECTOR: u16 = 0xfecb;

pub const MINT_SELECTOR: u16 = 0x6bba;

pub const BURN_SELECTOR: u16 = 0x9e55;

/// The catalogue of host operations.
#[derive(Clone, Copy, PartialEq, Eq, Debug)]
pub enum Operation {
    TokenName,
    TokenSymbol,
    TokenDecimals,
    TotalSupply,
    BalanceOf,
    Allowance,
    Transfer,
    TransferFrom,
    Approve,
    IncreaseAllowance,
    DecreaseAllowance,
    Mint,
    Burn,
}

/// The selector each operation calls the host with.
pub open spec fn selector_of(op: Operation) -> u16 {
    match op {
        Operation::TokenName => TOKEN_NAME_SELECTOR,
        Operation::TokenSymbol => TOKEN_SYMBOL_SELECTOR,
        Operation::TokenDecimals => TOKEN_DECIMALS_SELECTOR,
        Operation::TotalSupply => TOTAL_SUPPLY_SELECTOR,
        Operation::BalanceOf => BALANCE_OF_SELECTOR,
        Operation::Allowance => ALLOWANCE_SELECTOR,
        Operation::Transfer => TRANSFER_SELECTOR,
        Operation::TransferFrom => TRANSFER_FROM_SELECTOR,
        Operation::Approve => APPROVE_SELECTOR,
        Operation::IncreaseAllowance => INCREASE_ALLOWANCE_SELECTOR,
        Operation::DecreaseAllowance => DECREASE_ALLOWANCE_SELECTOR,
        Operation::Mint => MINT_SELECTOR,
        Operation::Burn => BURN_SELECTOR,
    }
}

/// The selector-to-operation mapping is a bijection: no selector is
/// shared by two operations.
pub proof fn lemma_selectors_injective(a: Operation, b: Operation)
    ensures
        selector_of(a) == selector_of(b) ==> a == b,
{
}

/// The wire shape of a call that sends only the asset identifier.
pub open spec fn asset_input(asset_id: AssetId) -> Seq<u8> {
    u32_le(asset_id)
}

/// The wire shape of a call that sends the asset identifier and one
/// account.
pub open spec fn asset_account_input(asset_id: AssetId, account: Seq<u8>) -> Seq<u8> {
    u32_le(asset_id) + account
}

/// The wire shape of a call that sends the asset identifier and two
/// accounts.
pub open spec fn asset_two_accounts_input(asset_id: AssetId, first: Seq<u8>, second: Seq<u8>) -> Seq<
    u8,
> {
    u32_le(asset_id) + first + second
}

/// The wire shape of a call that sends the asset identifier, one account
/// and a balance.
pub open spec fn asset_account_value_input(
    asset_id: AssetId,
    account: Seq<u8>,
    value: Balance,
) -> Seq<u8> {
    u32_le(asset_id) + account + u128_le(value)
}

/// The wire shape of a call that sends the asset identifier, two accounts
/// and a balance.
pub open spec fn asset_two_accounts_value_input(
    asset_id: AssetId,
    first: Seq<u8>,
    second: Seq<u8>,
    value: Balance,
) -> Seq<u8> {
    u32_le(asset_id) + first + second + u128_le(value)
}

/// One call was appended to the host log, with this selector and input.
pub open spec fn called_once(
    pre: Seq<CallRecord>,
    post: Seq<CallRecord>,
    selector: u16,
    input: Seq<u8>,
) -> bool {
    &&& post.len() == pre.len() + 1
    &&& post.drop_last() == pre
    &&& post.last().selector == selector
    &&& post.last().input == input
}

/// How a unit result decodes: status zero with an empty payload is
/// success; a declared failure code is its variant; anything else is a
/// violation.
pub open spec fn unit_reply(status: u32, output: Seq<u8>) -> CallOutcome<()> {
    if status == 0 {
        if output.len() == 0 {
            CallOutcome::Success(())
        } else {
            CallOutcome::Violation(ProtocolViolation::InvalidPayload)
        }
    } else if is_error_status(status) {
        CallOutcome::Failure(error_of_status(status))
    } else {
        CallOutcome::Violation(ProtocolViolation::UnknownStatusCode(status))
    }
}

/// How an 8-bit result decodes: on success the payload must be exactly
/// one byte, the value itself.
pub open spec fn u8_reply(status: u32, output: Seq<u8>) -> CallOutcome<u8> {
    if status == 0 {
        if output.len() == 1 {
            CallOutcome::Success(output[0])
        } else {
            CallOutcome::Violation(ProtocolViolation::InvalidPayload)
        }
    } else if is_error_status(status) {
        CallOutcome::Failure(error_of_status(status))
    } else {
        CallOutcome::Violation(ProtocolViolation::UnknownStatusCode(status))
    }
}

/// How a balance result decodes: on success the payload must be exactly
/// its sixteen little-endian bytes.
pub open spec fn balance_reply(status: u32, output: Seq<u8>) -> CallOutcome<Balance> {
    if status == 0 {
        if output.len() == 16 {
            CallOutcome::Success(from_le(output) as u128)
        } else {
            CallOutcome::Violation(ProtocolViolation::InvalidPayload)
        }
    } else if is_error_status(status) {
        CallOutcome::Failure(error_of_status(status))
    } else {
        CallOutcome::Violation(ProtocolViolation::UnknownStatusCode(status))
    }
}

/// How a byte-sequence result decodes: on success the payload must be
/// exactly one well-formed length-prefixed byte sequence.
pub open spec fn bytes_reply(status: u32, output: Seq<u8>) -> CallOutcome<Seq<u8>> {
    if status == 0 {
        match parse_scale_bytes(output) {
            Some(v) => CallOutcome::Success(v),
            None => CallOutcome::Violation(ProtocolViolation::InvalidPayload),
        }
    } else if is_error_status(status) {
        CallOutcome::Failure(error_of_status(status))
    } else {
        CallOutcome::Violation(ProtocolViolation::UnknownStatusCode(status))
    }
}

/// Each declared failure code decodes to exactly its documented taxonomy
/// variant on every decode path, whatever the payload; the payload is
/// discarded.
pub proof fn lemma_declared_failure_is_its_variant(status: u32, output: Seq<u8>)
    requires
        is_error_status(status),
    ensures
        unit_reply(status, output) == CallOutcome::<()>::Failure(error_of_status(status)),
        u8_reply(status, output) == CallOutcome::<u8>::Failure(error_of_status(status)),
        balance_reply(status, output) == CallOutcome::<Balance>::Failure(error_of_status(status)),
        bytes_reply(status, output) == CallOutcome::<Seq<u8>>::Failure(error_of_status(status)),
{
}

/// A status code outside the declared set is fatal on every decode path:
/// whatever the payload, it never becomes a typed error or a success
/// value.
pub proof fn lemma_undeclared_status_is_fatal(status: u32, output: Seq<u8>)
    requires
        !is_declared_status(status),
    ensures
        unit_reply(status, output) == CallOutcome::<()>::Violation(
            ProtocolViolation::UnknownStatusCode(status),
        ),
        u8_reply(status, output) == CallOutcome::<u8>::Violation(
            ProtocolViolation::UnknownStatusCode(status),
        ),
        balance_reply(status, output) == CallOutcome::<Balance>::Violation(
            ProtocolViolation::UnknownStatusCode(status),
        ),
        bytes_reply(status, output) == CallOutcome::<Seq<u8>>::Violation(
            ProtocolViolation::UnknownStatusCode(status),
        ),
{
}

/// A byte-sequence outcome, seen at the specification level.
pub open spec fn bytes_view(r: CallOutcome<Vec<u8>>) -> CallOutcome<Seq<u8>> {
    match r {
        CallOutcome::Success(v) => CallOutcome::Success(v@),
        CallOutcome::Failure(e) => CallOutcome::Failure(e),
        CallOutcome::Violation(p) => CallOutcome::Violation(p),
    }
}

/// Decodes a status code that is known not to be success.
fn decode_failure(status: u32) -> (r: CallOutcome<()>)
    requires
        status != 0,
    ensures
        r == unit_reply(status, Seq::<u8>::empty()),
{
    if status <= 11 {
        match Psp22Error::from_status_code(status) {
            Ok(_) => {
                proof {
                    assert(false);
                }
                CallOutcome::Violation(ProtocolViolation::UnknownStatusCode(status))
            },
            Err(e) => CallOutcome::Failure(e),
        }
    } else {
        CallOutcome::Violation(ProtocolViolation::UnknownStatusCode(status))
    }
}

/// The decode path for a unit result, total over every status code and
/// payload.
pub fn decode_unit_reply(status: u32, output: Vec<u8>) -> (r: CallOutcome<()>)
    ensures
        r == unit_reply(status, output@),
{
    if status == 0 {
        if output.len() == 0 {
            CallOutcome::Success(())
        } else {
            CallOutcome::Violation(ProtocolViolation::InvalidPayload)
        }
    } else {
        match decode_failure(status) {
            CallOutcome::Success(_) => {
                proof {
                    assert(false);
                }
                CallOutcome::Violation(ProtocolViolation::InvalidPayload)
            },
            CallOutcome::Failure(e) => CallOutcome::Failure(e),
            CallOutcome::Violation(p) => CallOutcome::Violation(p),
        }
    }
}

/// The decode path for an 8-bit result, total over every status code and
/// payload.
pub fn decode_u8_reply(status: u32, output: Vec<u8>) -> (r: CallOutcome<u8>)
    ensures
        r == u8_reply(status, output@),
{
    if status == 0 {
        if output.len() == 1 {
            CallOutcome::Success(output[0])
        } else {
            CallOutcome::Violation(ProtocolViolation::InvalidPayload)
        }
    } else {
        match decode_failure(status) {
            CallOutcome::Success(_) => {
                proof {
                    assert(false);
                }
                CallOutcome::Violation(ProtocolViolation::InvalidPayload)
            },
            CallOutcome::Failure(e) => CallOutcome::Failure(e),
            CallOutcome::Violation(p) => CallOutcome::Violation(p),
        }
    }
}

/// The decode path for a balance result, total over every status code and
/// payload.
pub fn decode_balance_reply(status: u32, output: Vec<u8>) -> (r: CallOutcome<Balance>)
    ensures
        r == balance_reply(status, output@),
{
    if status == 0 {
        match decode_u128(&output) {
            Some(v) => {
                proof {
                    lemma_u128_le_round_trip(v);
                }
                CallOutcome::Success(v)
            },
            None => CallOutcome::Violation(ProtocolViolation::InvalidPayload),
        }
    } else {
        match decode_failure(status) {
            CallOutcome::Success(_) => {
                proof {
                    assert(false);
                }
                CallOutcome::Violation(ProtocolViolation::InvalidPayload)
            },
            CallOutcome::Failure(e) => CallOutcome::Failure(e),
            CallOutcome::Violation(p) => CallOutcome::Violation(p),
        }
    }
}

/// The decode path for a byte-sequence result, total over every status
/// code and payload.
pub fn decode_bytes_reply(status: u32, output: Vec<u8>) -> (r: CallOutcome<Vec<u8>>)
    ensures
        bytes_view(r) == bytes_reply(status, output@),
{
    if status == 0 {
        match decode_scale_bytes(&output) {
            Some(v) => CallOutcome::Success(v),
            None => CallOutcome::Violation(ProtocolViolation::InvalidPayload),
        }
    } else {
        match decode_failure(status) {
            CallOutcome::Success(_) => {
                proof {
                    assert(false);
                }
                CallOutcome::Violation(ProtocolViolation::InvalidPayload)
            },
            CallOutcome::Failure(e) => CallOutcome::Failure(e),
            CallOutcome::Violation(p) => CallOutcome::Violation(p),
        }
    }
}

fn build_asset_input(asset_id: AssetId) -> (r: Vec<u8>)
    ensures
        r@ == asset_input(asset_id),
{
    encode_u32(asset_id)
}

fn build_asset_account_input(asset_id: AssetId, account: &AccountId) -> (r: Vec<u8>)
    ensures
        r@ == asset_account_input(asset_id, account@),
{
    let mut buf = encode_u32(asset_id);
    let mut acct = encode_account(account);
    buf.append(&mut acct);
    buf
}

fn build_asset_two_accounts_input(
    asset_id: AssetId,
    first: &AccountId,
    second: &AccountId,
) -> (r: Vec<u8>)
    ensures
        r@ == asset_two_accounts_input(asset_id, first@, second@),
{
    let mut buf = encode_u32(asset_id);
    let mut a = encode_account(first);
    let mut b = encode_account(second);
    buf.append(&mut a);
    buf.append(&mut b);
    buf
}

fn build_asset_account_value_input(
    asset_id: AssetId,
    account: &AccountId,
    value: Balance,
) -> (r: Vec<u8>)
    ensures
        r@ == asset_account_value_input(asset_id, account@, value),
{
    let mut buf = encode_u32(asset_id);
    let mut acct = encode_account(account);
    let mut val = encode_u128(value);
    buf.append(&mut acct);
    buf.append(&mut val);
    buf
}

fn build_asset_two_accounts_value_input(
    asset_id: AssetId,
    first: &AccountId,
    second: &AccountId,
    value: Balance,
) -> (r: Vec<u8>)
    ensures
        r@ == asset_two_accounts_value_input(asset_id, first@, second@, value),
{
    let mut buf = encode_u32(asset_id);
    let mut a = encode_account(first);
    let mut b = encode_account(second);
    let mut val = encode_u128(value);
    buf.append(&mut a);
    buf.append(&mut b);
    buf.append(&mut val);
    buf
}

/// The extension gate. It is stateless: each operation is one
/// self-contained request and response.
pub struct Psp22Extension;

impl Psp22Extension {
    /// The token name of the asset, as the host stores it.
    pub fn token_name<H: Host>(host: &mut H, asset_id: AssetId) -> (r: CallOutcome<Vec<u8>>)
        ensures
            called_once(
                old(host).log(),
                final(host).log(),
                TOKEN_NAME_SELECTOR,
                asset_input(asset_id),
            ),
            bytes_view(r) == bytes_reply(
                final(host).log().last().status,
                final(host).log().last().output,
            ),
            host_answered(*old(host), final(host).log().last()),
    {
        let input = build_asset_input(asset_id);
        let (status, output) = host.call(TOKEN_NAME_SELECTOR, input);
        proof {
            assert(host.log().drop_last() =~= old(host).log());
        }
        decode_bytes_reply(status, output)
    }

    /// The token symbol of the asset, as the host stores it.
    pub fn token_symbol<H: Host>(host: &mut H, asset_id: AssetId) -> (r: CallOutcome<Vec<u8>>)
        ensures
            called_once(
                old(host).log(),
                final(host).log(),
                TOKEN_SYMBOL_SELECTOR,
                asset_input(asset_id),
            ),
            bytes_view(r) == bytes_reply(
                final(host).log().last().status,
                final(host).log().last().output,
            ),
            host_answered(*old(host), final(host).log().last()),
    {
        let input = build_asset_input(asset_id);
        let (status, output) = host.call(TOKEN_SYMBOL_SELECTOR, input);
        proof {
            assert(host.log().drop_last() =~= old(host).log());
        }
        decode_bytes_reply(status, output)
    }

    /// The decimal places of the asset.
    pub fn token_decimals<H: Host>(host: &mut H, asset_id: AssetId) -> (r: CallOutcome<u8>)
        ensures
            called_once(
                old(host).log(),
                final(host).log(),
                TOKEN_DECIMALS_SELECTOR,
                asset_input(asset_id),
            ),
            r == u8_reply(final(host).log().last().status, final(host).log().last().output),
            host_answered(*old(host), final(host).log().last()),
    {
        let input = build_asset_input(asset_id);
        let (status, output) = host.call(TOKEN_DECIMALS_SELECTOR, input);
        proof {
            assert(host.log().drop_last() =~= old(host).log());
        }
        decode_u8_reply(status, output)
    }

    /// The total supply of the asset.
    pub fn total_supply<H: Host>(host: &mut H, asset_id: AssetId) -> (r: CallOutcome<Balance>)
        ensures
            called_once(
                old(host).log(),
                final(host).log(),
                TOTAL_SUPPLY_SELECTOR,
                asset_input(asset_id),
            ),
            r == balance_reply(final(host).log().last().status, final(host).log().last().output),
            host_answered(*old(host), final(host).log().last()),
    {
        let input = build_asset_input(asset_id);
        let (status, output) = host.call(TOTAL_SUPPLY_SELECTOR, input);
        proof {
            assert(host.log().drop_last() =~= old(host).log());
        }
        decode_balance_reply(status, output)
    }

    /// The balance `owner` holds of the asset.
    pub fn balance_of<H: Host>(host: &mut H, asset_id: AssetId, owner: &AccountId) -> (r:
        CallOutcome<Balance>)
        ensures
            called_once(
                old(host).log(),
                final(host).log(),
                BALANCE_OF_SELECTOR,
                asset_account_input(asset_id, owner@),
            ),
            r == balance_reply(final(host).log().last().status, final(host).log().last().output),
            host_answered(*old(host), final(host).log().last()),
    {
        let input = build_asset_account_input(asset_id, owner);
        let (status, output) = host.call(BALANCE_OF_SELECTOR, input);
        proof {
            assert(host.log().drop_last() =~= old(host).log());
        }
        decode_balance_reply(status, output)
    }

    /// What `spender` may still withdraw from `owner`.
    pub fn allowance<H: Host>(
        host: &mut H,
        asset_id: AssetId,
        owner: &AccountId,
        spender: &AccountId,
    ) -> (r: CallOutcome<Balance>)
        ensures
            called_once(
                old(host).log(),
                final(host).log(),
                ALLOWANCE_SELECTOR,
                asset_two_accounts_input(asset_id, owner@, spender@),
            ),
            r == balance_reply(final(host).log().last().status, final(host).log().last().output),
            host_answered(*old(host), final(host).log().last()),
    {
        let input = build_asset_two_accounts_input(asset_id, owner, spender);
        let (status, output) = host.call(ALLOWANCE_SELECTOR, input);
        proof {
            assert(host.log().drop_last() =~= old(host).log());
        }
        decode_balance_reply(status, output)
    }

    /// Moves `value` of the asset from the caller to `to`.
    pub fn transfer<H: Host>(
        host: &mut H,
        asset_id: AssetId,
        to: &AccountId,
        value: Balance,
    ) -> (r: CallOutcome<()>)
        ensures
            called_once(
                old(host).log(),
                final(host).log(),
                TRANSFER_SELECTOR,
                asset_account_value_input(asset_id, to@, value),
            ),
            r == unit_reply(final(host).log().last().status, final(host).log().last().output),
            host_answered(*old(host), final(host).log().last()),
    {
        let input = build_asset_account_value_input(asset_id, to, value);
        let (status, output) = host.call(TRANSFER_SELECTOR, input);
        proof {
            assert(host.log().drop_last() =~= old(host).log());
        }
        decode_unit_reply(status, output)
    }

    /// Moves `value` of the asset from `from` to `to` on the caller's
    /// allowance.
    pub fn transfer_from<H: Host>(
        host: &mut H,
        asset_id: AssetId,
        from: &AccountId,
        to: &AccountId,
        value: Balance,
    ) -> (r: CallOutcome<()>)
        ensures
            called_once(
                old(host).log(),
                final(host).log(),
                TRANSFER_FROM_SELECTOR,
                asset_two_accounts_value_input(asset_id, from@, to@, value),
            ),
            r == unit_reply(final(host).log().last().status, final(host).log().last().output),
            host_answered(*old(host), final(host).log().last()),
    {
        let input = build_asset_two_accounts_value_input(asset_id, from, to, value);
        let (status, output) = host.call(TRANSFER_FROM_SELECTOR, input);
        proof {
            assert(host.log().drop_last() =~= old(host).log());
        }
        decode_unit_reply(status, output)
    }

    /// Lets `spender` withdraw up to `value` from the caller.
    pub fn approve<H: Host>(
        host: &mut H,
        asset_id: AssetId,
        spender: &AccountId,
        value: Balance,
    ) -> (r: CallOutcome<()>)
        ensures
            called_once(
                old(host).log(),
                final(host).log(),
                APPROVE_SELECTOR,
                asset_account_value_input(asset_id, spender@, value),
            ),
            r == unit_reply(final(host).log().last().status, final(host).log().last().output),
            host_answered(*old(host), final(host).log().last()),
    {
        let input = build_asset_account_value_input(asset_id, spender, value);
        let (status, output) = host.call(APPROVE_SELECTOR, input);
        proof {
            assert(host.log().drop_last() =~= old(host).log());
        }
        decode_unit_reply(status, output)
    }

    /// Raises the caller's allowance for `spender` by `value`.
    pub fn increase_allowance<H: Host>(
        host: &mut H,
        asset_id: AssetId,
        spender: &AccountId,
        value: Balance,
    ) -> (r: CallOutcome<()>)
        ensures
            called_once(
                old(host).log(),
                final(host).log(),
                INCREASE_ALLOWANCE_SELECTOR,
                asset_account_value_input(asset_id, spender@, value),
            ),
            r == unit_reply(final(host).log().last().status, final(host).log().last().output),
            host_answered(*old(host), final(host).log().last()),
    {
        let input = build_asset_account_value_input(asset_id, spender, value);
        let (status, output) = host.call(INCREASE_ALLOWANCE_SELECTOR, input);
        proof {
            assert(host.log().drop_last() =~= old(host).log());
        }
        decode_unit_reply(status, output)
    }

    /// Lowers the caller's allowance for `spender` by `value`.
    pub fn decrease_allowance<H: Host>(
        host: &mut H,
        asset_id: AssetId,
        spender: &AccountId,
        value: Balance,
    ) -> (r: CallOutcome<()>)
        ensures
            called_once(
                old(host).log(),
                final(host).log(),
                DECREASE_ALLOWANCE_SELECTOR,
                asset_account_value_input(asset_id, spender@, value),
            ),
            r == unit_reply(final(host).log().last().status, final(host).log().last().output),
            host_answered(*old(host), final(host).log().last()),
    {
        let input = build_asset_account_value_input(asset_id, spender, value);
        let (status, output) = host.call(DECREASE_ALLOWANCE_SELECTOR, input);
        proof {
            assert(host.log().drop_last() =~= old(host).log());
        }
        decode_unit_reply(status, output)
    }

    /// Creates `value` of the asset for `to`.
    pub fn mint<H: Host>(host: &mut H, asset_id: AssetId, to: &AccountId, value: Balance) -> (r:
        CallOutcome<()>)
        ensures
            called_once(
                old(host).log(),
                final(host).log(),
                MINT_SELECTOR,
                asset_account_value_input(asset_id, to@, value),
            ),
            r == unit_reply(final(host).log().last().status, final(host).log().last().output),
            host_answered(*old(host), final(host).log().last()),
    {
        let input = build_asset_account_value_input(asset_id, to, value);
        let (status, output) = host.call(MINT_SELECTOR, input);
        proof {
            assert(host.log().drop_last() =~= old(host).log());
        }
        decode_unit_reply(status, output)
    }

    /// Destroys `value` of the asset held by `from`.
    pub fn burn<H: Host>(host: &mut H, asset_id: AssetId, from: &AccountId, value: Balance) -> (r:
        CallOutcome<()>)
        ensures
            called_once(
                old(host).log(),
                final(host).log(),
                BURN_SELECTOR,
                asset_account_value_input(asset_id, from@, value),
            ),
            r == unit_reply(final(host).log().last().status, final(host).log().last().output),
            host_answered(*old(host), final(host).log().last()),
    {
        let input = build_asset_account_value_input(asset_id, from, value);
        let (status, output) = host.call(BURN_SELECTOR, input);
        proof {
            assert(host.log().drop_last() =~= old(host).log());
        }
        decode_unit_reply(status, output)
    }
}

} // verus!
