//! The order event: a record of an order's identifier and the time it was
//! reported at. There is no state and no validation.

use vstd::prelude::*;

verus! {

/// First number of the error codes of a program.
pub const ERROR_CODE_OFFSET: u32 = 6000;

/// The log record of one order.
#[derive(Clone, Copy, Debug, PartialEq, Eq)]
pub struct OrderCreated {
    /// Identifier of the order, 32 bytes.
    pub order_id: [u8; 32],
    /// Unix time of the ledger's clock, in seconds.
    pub timestamp: i64,
}

/// The errors of the order event program.
#[derive(Clone, Copy, Debug, PartialEq, Eq)]
pub enum OrderEventError {
    InvalidOrderId,
}

impl OrderEventError {
    /// Name of the error.
    pub fn name(&self) -> (name: String)
        ensures
            name@ == "InvalidOrderId"@,
    {
        match self {
            OrderEventError::InvalidOrderId => "InvalidOrderId".to_owned(),
        }
    }

    /// Number of the error: its place in the enum, counted from the offset.
    pub fn code(&self) -> (code: u32)
        ensures
            code == ERROR_CODE_OFFSET,
    {
        match self {
            OrderEventError::InvalidOrderId => ERROR_CODE_OFFSET,
        }
    }

    /// Message of the error.
    pub fn message(&self) -> (message: String)
        ensures
            message@ == "Invalid order ID"@,
    {
        match self {
            OrderEventError::InvalidOrderId => "Invalid order ID".to_owned(),
        }
    }
}

/// Builds the record of the order `order_id` from a reading of the clock.
/// Where the clock could not be read, its failure is handed on unchanged and
/// there is no record.
pub fn emit_order_event<E>(order_id: [u8; 32], clock: Result<i64, E>) -> (r: Result<
    OrderCreated,
    E,
>)
    ensures
        r == match clock {
            Ok(timestamp) => Ok::<OrderCreated, E>(OrderCreated { order_id, timestamp }),
            Err(failure) => Err::<OrderCreated, E>(failure),
        },
{
    match clock {
        Ok(timestamp) => Ok(OrderCreated { order_id, timestamp }),
        Err(failure) => Err(failure),
    }
}

} // verus!
