//! The typed failure model of the host boundary.
//!
//! Every host call answers with a 32-bit status code. Zero is success, the
//! eleven declared non-zero codes map one-to-one onto the variants of
//! [`Psp22Error`], and any other code means the host and the sandbox no
//! longer agree on the protocol: that is a [`ProtocolViolation`], never a
//! typed error. The code-to-variant mapping is a permanent external
//! contract and must never be renumbered.

use vstd::prelude::*;

verus! {

/// The closed error taxonomy: one variant per declared non-zero status
/// code, each meaning that the host rejected that specific operation.
/// There is no catch-all variant; an undocumented code is not an error
/// value but a protocol violation.
#[derive(Clone, Copy, PartialEq, Eq, Debug)]
pub enum Psp22Error {
    TotalSupplyFailed,
    BalanceOfFailed,
    AllowanceFailed,
    TransferFailed,
    TransferFromFailed,
    ApproveFailed,
    IncreaseAllowanceFailed,
    DecreaseAllowanceFailed,
    TokenNameFailed,
    TokenSymbolFailed,
    TokenDecimalsFailed,
}

/// A fatal divergence from the agreed protocol. It is not part of the
/// error taxonomy: the caller is expected to abort the whole invocation,
/// not to handle it.
#[derive(Clone, Copy, PartialEq, Eq, Debug)]
pub enum ProtocolViolation {
    /// The host answered with a status code outside the declared set.
    UnknownStatusCode(u32),
    /// The host answered success, but the payload was not exactly one
    /// well-formed encoding of the declared result shape.
    InvalidPayload,
}

/// How one host call ended: the decoded success payload, one typed error
/// from the taxonomy, or a fatal protocol violation.
#[derive(Clone, Copy, PartialEq, Eq, Debug)]
pub enum CallOutcome<T> {
    Success(T),
    Failure(Psp22Error),
    Violation(ProtocolViolation),
}

/// The eleven declared failure codes.
pub open spec fn is_error_status(status: u32) -> bool {
    1 <= status <= 11
}

/// The declared codes: success plus the eleven failures.
pub open spec fn is_declared_status(status: u32) -> bool {
    status <= 11
}

/// The documented code-to-variant mapping.
pub open spec fn error_of_status(status: u32) -> Psp22Error
    recommends
        is_error_status(status),
{
    if status == 1 {
        Psp22Error::TotalSupplyFailed
    } else if status == 2 {
        Psp22Error::BalanceOfFailed
    } else if status == 3 {
        Psp22Error::AllowanceFailed
    } else if status == 4 {
        Psp22Error::TransferFailed
    } else if status == 5 {
        Psp22Error::TransferFromFailed
    } else if status == 6 {
        Psp22Error::ApproveFailed
    } else if status == 7 {
        Psp22Error::IncreaseAllowanceFailed
    } else if status == 8 {
        Psp22Error::DecreaseAllowanceFailed
    } else if status == 9 {
        Psp22Error::TokenNameFailed
    } else if status == 10 {
        Psp22Error::TokenSymbolFailed
    } else {
        Psp22Error::TokenDecimalsFailed
    }
}

/// The documented variant-to-code mapping, the inverse of
/// [`error_of_status`].
pub open spec fn status_of_error(e: Psp22Error) -> u32 {
    match e {
        Psp22Error::TotalSupplyFailed => 1,
        Psp22Error::BalanceOfFailed => 2,
        Psp22Error::AllowanceFailed => 3,
        Psp22Error::TransferFailed => 4,
        Psp22Error::TransferFromFailed => 5,
        Psp22Error::ApproveFailed => 6,
        Psp22Error::IncreaseAllowanceFailed => 7,
        Psp22Error::DecreaseAllowanceFailed => 8,
        Psp22Error::TokenNameFailed => 9,
        Psp22Error::TokenSymbolFailed => 10,
        Psp22Error::TokenDecimalsFailed => 11,
    }
}

/// The status-code-to-error mapping is a bijection over its declared
/// domain: every declared failure code comes back unchanged from its
/// variant.
pub proof fn lemma_status_to_error_round_trip(status: u32)
    requires
        is_error_status(status),
    ensures
        status_of_error(error_of_status(status)) == status,
{
}

/// The status-code-to-error mapping is a bijection over its declared
/// domain: every variant comes back unchanged from its declared code.
pub proof fn lemma_error_to_status_round_trip(e: Psp22Error)
    ensures
        is_error_status(status_of_error(e)),
        error_of_status(status_of_error(e)) == e,
{
}

impl Psp22Error {
    /// Decodes a declared status code: zero is success, each other
    /// declared code is exactly its documented variant. Codes outside the
    /// declared set have no decoding here at all; see
    /// [`ProtocolViolation`].
    pub fn from_status_code(status_code: u32) -> (r: Result<(), Psp22Error>)
        requires
            is_declared_status(status_code),
        ensures
            status_code == 0 ==> r == Result::<(), Psp22Error>::Ok(()),
            status_code != 0 ==> r == Result::<(), Psp22Error>::Err(error_of_status(status_code)),
    {
        match status_code {
            0 => Ok(()),
            1 => Err(Psp22Error::TotalSupplyFailed),
            2 => Err(Psp22Error::BalanceOfFailed),
            3 => Err(Psp22Error::AllowanceFailed),
            4 => Err(Psp22Error::TransferFailed),
            5 => Err(Psp22Error::TransferFromFailed),
            6 => Err(Psp22Error::ApproveFailed),
            7 => Err(Psp22Error::IncreaseAllowanceFailed),
            8 => Err(Psp22Error::DecreaseAllowanceFailed),
            9 => Err(Psp22Error::TokenNameFailed),
            10 => Err(Psp22Error::TokenSymbolFailed),
            _ => {
                proof {
                    assert(status_code == 11);
                }
                Err(Psp22Error::TokenDecimalsFailed)
            },
        }
    }
}

} // verus!
