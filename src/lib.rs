//! The device side of the USB DFU 1.1 class protocol: the control state machine
//! that receives a firmware image in chunks, hands each chunk to storage, and
//! decides when the device must reset to activate it.
//!
//! `machine` holds the verified state machine, `consts` the protocol codes and the
//! mapping of storage failures to status codes, `descriptor` the DFU functional descriptor,
//! and `laws` the protocol's properties, proved over the transition table.
use vstd::prelude::*;

pub mod consts;
pub mod machine;
pub mod descriptor;
pub mod laws;

verus! {

} // verus!
