use parity_scale_codec::Encode;
use psp22_extension::codec::{decode_scale_bytes, decode_u128, decode_u32};
use psp22_extension::error::{CallOutcome, ProtocolViolation, Psp22Error};
use psp22_extension::facade::{MyPSP22, PSP22};
use psp22_extension::gate::{decode_unit_reply, Psp22Extension};
use psp22_extension::host::StubHost;
use psp22_extension::types::AccountId;

fn acct(fill: u8) -> AccountId {
    AccountId([fill; 32])
}

fn ok_stub(output: Vec<u8>) -> StubHost {
    StubHost::new(0, output)
}

#[test]
fn selectors_golden_table() {
    let asset: u32 = 0xa1b2_c3d4;
    let a = acct(1);
    let b = acct(2);

    let mut recorded: Vec<(u16, u16)> = Vec::new();
    {
        let mut h = ok_stub(Vec::<u8>::new().encode());
        Psp22Extension::token_name(&mut h, asset);
        recorded.push((h.calls[0].selector, 0x3d26));
    }
    {
        let mut h = ok_stub(Vec::<u8>::new().encode());
        Psp22Extension::token_symbol(&mut h, asset);
        recorded.push((h.calls[0].selector, 0x3420));
    }
    {
        let mut h = ok_stub(vec![12u8]);
        Psp22Extension::token_decimals(&mut h, asset);
        recorded.push((h.calls[0].selector, 0x7271));
    }
    {
        let mut h = ok_stub(77u128.encode());
        Psp22Extension::total_supply(&mut h, asset);
        recorded.push((h.calls[0].selector, 0x162d));
    }
    {
        let mut h = ok_stub(77u128.encode());
        Psp22Extension::balance_of(&mut h, asset, &a);
        recorded.push((h.calls[0].selector, 0x6568));
    }
    {
        let mut h = ok_stub(77u128.encode());
        Psp22Extension::allowance(&mut h, asset, &a, &b);
        recorded.push((h.calls[0].selector, 0x4d47));
    }
    {
        let mut h = ok_stub(Vec::new());
        Psp22Extension::transfer(&mut h, asset, &a, 5);
        recorded.push((h.calls[0].selector, 0xdb20));
    }
    {
        let mut h = ok_stub(Vec::new());
        Psp22Extension::transfer_from(&mut h, asset, &a, &b, 5);
        recorded.push((h.calls[0].selector, 0x54b3));
    }
    {
        let mut h = ok_stub(Vec::new());
        Psp22Extension::approve(&mut h, asset, &a, 5);
        recorded.push((h.calls[0].selector, 0xb20f));
    }
    {
        let mut h = ok_stub(Vec::new());
        Psp22Extension::increase_allowance(&mut h, asset, &a, 5);
        recorded.push((h.calls[0].selector, 0x96d6));
    }
    {
        let mut h = ok_stub(Vec::new());
        Psp22Extension::decrease_allowance(&mut h, asset, &a, 5);
        recorded.push((h.calls[0].selector, 0xfecb));
    }
    {
        let mut h = ok_stub(Vec::new());
        Psp22Extension::mint(&mut h, asset, &a, 5);
        recorded.push((h.calls[0].selector, 0x6bba));
    }
    {
        let mut h = ok_stub(Vec::new());
        Psp22Extension::burn(&mut h, asset, &a, 5);
        recorded.push((h.calls[0].selector, 0x9e55));
    }

    assert_eq!(recorded.len(), 13);
    for (used, documented) in recorded {
        assert_eq!(used, documented);
    }
}

#[test]
fn status_codes_decode_to_documented_variants() {
    assert!(Psp22Error::from_status_code(0).is_ok());
    let table: [(u32, Psp22Error); 11] = [
        (1, Psp22Error::TotalSupplyFailed),
        (2, Psp22Error::BalanceOfFailed),
        (3, Psp22Error::AllowanceFailed),
        (4, Psp22Error::TransferFailed),
        (5, Psp22Error::TransferFromFailed),
        (6, Psp22Error::ApproveFailed),
        (7, Psp22Error::IncreaseAllowanceFailed),
        (8, Psp22Error::DecreaseAllowanceFailed),
        (9, Psp22Error::TokenNameFailed),
        (10, Psp22Error::TokenSymbolFailed),
        (11, Psp22Error::TokenDecimalsFailed),
    ];
    for (status, expected) in table {
        assert_eq!(Psp22Error::from_status_code(status), Err(expected));
        assert_eq!(
            decode_unit_reply(status, Vec::new()),
            CallOutcome::Failure(expected)
        );
    }
}

#[test]
fn undeclared_status_is_a_violation_not_a_value() {
    for status in [12u32, 255, 0xffff_ffff] {
        let r = decode_unit_reply(status, Vec::new());
        assert_eq!(
            r,
            CallOutcome::Violation(ProtocolViolation::UnknownStatusCode(status))
        );
    }
}

#[test]
fn call_arguments_round_trip_bit_for_bit() {
    let from = acct(0x11);
    let to = acct(0x22);
    let mut h = ok_stub(Vec::new());
    Psp22Extension::transfer_from(&mut h, 7, &from, &to, 500);

    let input = h.calls[0].input.clone();
    assert_eq!(input.len(), 4 + 32 + 32 + 16);

    // Decoding the same bytes reproduces the arguments bit for bit.
    assert_eq!(decode_u32(&input[0..4].to_vec()), Some(7));
    assert_eq!(&input[4..36], &from.0[..]);
    assert_eq!(&input[36..68], &to.0[..]);
    assert_eq!(decode_u128(&input[68..84].to_vec()), Some(500));

    // And the bytes are exactly what the shared codec produces.
    let mut expected = 7u32.encode();
    expected.extend_from_slice(&from.0.encode());
    expected.extend_from_slice(&to.0.encode());
    expected.extend_from_slice(&500u128.encode());
    assert_eq!(input, expected);
}

#[test]
fn facade_forwards_bound_asset_id_to_every_operation() {
    let asset: u32 = 0x0badf00d;
    let expected_prefix = asset.encode();
    let a = acct(3);
    let b = acct(4);
    let mut facade = MyPSP22::new(asset);
    assert_eq!(facade.asset_id(), asset);

    let mut inputs: Vec<Vec<u8>> = Vec::new();
    {
        let mut h = ok_stub(Vec::<u8>::new().encode());
        facade.token_name(&mut h);
        inputs.push(h.calls[0].input.clone());
    }
    {
        let mut h = ok_stub(Vec::<u8>::new().encode());
        facade.token_symbol(&mut h);
        inputs.push(h.calls[0].input.clone());
    }
    {
        let mut h = ok_stub(vec![6u8]);
        facade.token_decimals(&mut h);
        inputs.push(h.calls[0].input.clone());
    }
    {
        let mut h = ok_stub(1u128.encode());
        facade.total_supply(&mut h);
        inputs.push(h.calls[0].input.clone());
    }
    {
        let mut h = ok_stub(1u128.encode());
        facade.balance_of(&mut h, &a);
        inputs.push(h.calls[0].input.clone());
    }
    {
        let mut h = ok_stub(1u128.encode());
        facade.allowance(&mut h, &a, &b);
        inputs.push(h.calls[0].input.clone());
    }
    {
        let mut h = ok_stub(Vec::new());
        facade.transfer(&mut h, &a, 9);
        inputs.push(h.calls[0].input.clone());
    }
    {
        let mut h = ok_stub(Vec::new());
        facade.transfer_from(&mut h, &a, &b, 9);
        inputs.push(h.calls[0].input.clone());
    }
    {
        let mut h = ok_stub(Vec::new());
        facade.approve(&mut h, &a, 9);
        inputs.push(h.calls[0].input.clone());
    }
    {
        let mut h = ok_stub(Vec::new());
        facade.increase_allowance(&mut h, &a, 9);
        inputs.push(h.calls[0].input.clone());
    }
    {
        let mut h = ok_stub(Vec::new());
        facade.decrease_allowance(&mut h, &a, 9);
        inputs.push(h.calls[0].input.clone());
    }
    {
        let mut h = ok_stub(Vec::new());
        facade.mint(&mut h, &a, 9);
        inputs.push(h.calls[0].input.clone());
    }
    {
        let mut h = ok_stub(Vec::new());
        facade.burn(&mut h, &a, 9);
        inputs.push(h.calls[0].input.clone());
    }

    assert_eq!(inputs.len(), 13);
    for input in inputs {
        assert_eq!(&input[0..4], &expected_prefix[..]);
    }
}

#[test]
fn balance_of_returns_stubbed_balance() {
    let facade = MyPSP22::new(7);
    let mut h = ok_stub(500u128.encode());
    let owner = acct(5);
    assert_eq!(facade.balance_of(&mut h, &owner), Ok(500));
}

#[test]
fn failed_transfer_surfaces_its_error_and_nothing_else_happens() {
    let mut facade = MyPSP22::new(7);
    let mut h = StubHost::new(4, Vec::new());
    let to = acct(6);
    let r = facade.transfer(&mut h, &to, 123);
    assert_eq!(r, CallOutcome::Failure(Psp22Error::TransferFailed));
    // Exactly one call crossed the boundary; the stub held no ledger and
    // nothing on it changed.
    assert_eq!(h.calls.len(), 1);
    assert_eq!(h.status, 4);
    assert!(h.output.is_empty());
}

#[test]
fn empty_token_name_is_success_not_an_error() {
    let facade = MyPSP22::new(7);
    let empty: Vec<u8> = Vec::new();
    let mut h = ok_stub(empty.encode());
    let r = facade.token_name(&mut h);
    assert_eq!(r, CallOutcome::Success(Vec::new()));
}

#[test]
fn mint_with_undeclared_status_hits_the_fatal_path() {
    let mut facade = MyPSP22::new(7);
    let mut h = StubHost::new(42, Vec::new());
    let to = acct(8);
    let r = facade.mint(&mut h, &to, 1);
    assert_eq!(
        r,
        CallOutcome::Violation(ProtocolViolation::UnknownStatusCode(42))
    );
}

#[test]
fn malformed_success_payloads_are_violations() {
    // A balance must be exactly sixteen bytes.
    let facade = MyPSP22::new(7);
    let mut h = ok_stub(vec![0u8; 15]);
    assert_eq!(
        facade.total_supply(&mut h),
        Err(ProtocolViolation::InvalidPayload)
    );

    // Decimals must be exactly one byte.
    let mut h = ok_stub(vec![1u8, 2u8]);
    assert_eq!(
        facade.token_decimals(&mut h),
        CallOutcome::Violation(ProtocolViolation::InvalidPayload)
    );

    // A unit result allows no payload at all.
    let mut facade2 = MyPSP22::new(7);
    let mut h = ok_stub(vec![0u8]);
    assert_eq!(
        facade2.transfer(&mut h, &acct(9), 1),
        CallOutcome::Violation(ProtocolViolation::InvalidPayload)
    );

    // A byte sequence must be one well-formed encoding with no trailing
    // bytes.
    let mut h = ok_stub(vec![0u8, 0xff]);
    assert_eq!(
        facade.token_name(&mut h),
        CallOutcome::Violation(ProtocolViolation::InvalidPayload)
    );
}

#[test]
fn typed_query_failure_collapses_to_zero_only_for_bare_queries() {
    let facade = MyPSP22::new(7);

    // total_supply failure code collapses to zero.
    let mut h = StubHost::new(1, Vec::new());
    assert_eq!(facade.total_supply(&mut h), Ok(0));

    // balance_of failure code collapses to zero.
    let mut h = StubHost::new(2, Vec::new());
    assert_eq!(facade.balance_of(&mut h, &acct(1)), Ok(0));

    // allowance failure code collapses to zero.
    let mut h = StubHost::new(3, Vec::new());
    assert_eq!(facade.allowance(&mut h, &acct(1), &acct(2)), Ok(0));

    // The metadata queries keep their typed errors.
    let mut h = StubHost::new(9, Vec::new());
    assert_eq!(
        facade.token_name(&mut h),
        CallOutcome::Failure(Psp22Error::TokenNameFailed)
    );
    let mut h = StubHost::new(10, Vec::new());
    assert_eq!(
        facade.token_symbol(&mut h),
        CallOutcome::Failure(Psp22Error::TokenSymbolFailed)
    );
    let mut h = StubHost::new(11, Vec::new());
    assert_eq!(
        facade.token_decimals(&mut h),
        CallOutcome::Failure(Psp22Error::TokenDecimalsFailed)
    );
}

#[test]
fn token_metadata_success_payloads_decode() {
    let facade = MyPSP22::new(3);

    let name: Vec<u8> = b"Example Token".to_vec();
    let mut h = ok_stub(name.encode());
    assert_eq!(facade.token_name(&mut h), CallOutcome::Success(name));

    let symbol: Vec<u8> = b"EXT".to_vec();
    let mut h = ok_stub(symbol.encode());
    assert_eq!(facade.token_symbol(&mut h), CallOutcome::Success(symbol));

    let mut h = ok_stub(vec![18u8]);
    assert_eq!(facade.token_decimals(&mut h), CallOutcome::Success(18));
}

#[test]
fn byte_sequence_decoding_agrees_with_the_shared_codec() {
    // Lengths on both sides of every compact-mode boundary.
    for len in [0usize, 1, 5, 63, 64, 100, 16383, 16384, 20000] {
        let v: Vec<u8> = (0..len).map(|i| (i % 251) as u8).collect();
        let encoded = v.encode();
        assert_eq!(decode_scale_bytes(&encoded), Some(v));
    }

    // A length prefix that the shared codec would never emit is refused.
    assert_eq!(decode_scale_bytes(&vec![0x01, 0x00]), None);
    // Truncated and over-long payloads are refused.
    assert_eq!(decode_scale_bytes(&vec![0x08, 0xaa]), None);
    assert_eq!(decode_scale_bytes(&vec![0x04, 0xaa, 0xbb]), None);
    assert_eq!(decode_scale_bytes(&Vec::new()), None);
}

#[test]
fn fixed_width_decoding_agrees_with_the_shared_codec() {
    for x in [0u32, 1, 7, 0xa1b2_c3d4, u32::MAX] {
        assert_eq!(decode_u32(&x.encode()), Some(x));
    }
    for v in [0u128, 500, u128::MAX] {
        assert_eq!(decode_u128(&v.encode()), Some(v));
    }
    assert_eq!(decode_u32(&vec![1, 2, 3]), None);
    assert_eq!(decode_u128(&vec![0; 17]), None);
}
