//! Codec for the IM12xx power meter's Modbus RTU register block.
//!
//! The session type [`Im12xx`] owns the pre-encoded "read holding
//! registers" request for the meter's fixed register block (slave address
//! 1, register 0x48, count 8) and checks each raw response frame before
//! decoding its payload into a [`PowerState`] record. The Modbus framing
//! itself (CRC-16, address and function checks) is rmodbus's, bound by the
//! trusted contracts in [`rtu`]; everything around it is verified.

use vstd::prelude::*;

pub mod record;
pub mod rtu;
pub mod session;

pub use record::PowerState;
pub use session::{Error, Im12xx};

verus! {

/// Baud rate of the meter's serial link.
pub const BAUT: u32 = 4800;

} // verus!
