//! The RS485 bus: relay board and variable-speed pump behind a single Modbus RTU master.
use vstd::prelude::*;

use crate::state::PoolState;

pub mod crc;
pub mod master;
pub mod pump;
pub mod relay;
pub mod rtu;
pub mod service;

verus! {

/// The relays that the divert valve is looked up in: the feedback where there is any, else the
/// commanded ones.
#[must_use]
pub fn divert_relays_for_temp(state: &PoolState) -> (relays: u8)
    ensures
        relays == state.effective_relays(),
{
    match state.measured.relay_status {
        Some(byte) => byte,
        None => state.commanded.relays,
    }
}

} // verus!
