use vstd::prelude::*;

pub mod json;
pub mod text;
pub mod bignum;
pub mod clock;
pub mod message;
pub mod presence;
pub mod protocol;
pub mod error_code;
pub mod notification;
pub mod paging;
pub mod table;
pub mod rpc;
pub mod sync_error;
pub mod sequencer;
pub mod ledger;
pub mod commit_log;
pub mod decision;
pub mod coordinator;
pub mod entity_store;

verus! {

/// Version of this library.
pub const VERSION: &'static str = "0.1.0";

/// Protocol revision spoken by this library.
pub const PROTOCOL_VERSION: u8 = 1;

} // verus!
