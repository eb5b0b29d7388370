pub mod accounts;
pub mod address;
pub mod invocation;
pub mod ledger;
pub mod order_event;
pub mod pda;
pub mod request;
