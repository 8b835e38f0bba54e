//! Trusted bindings to rmodbus's client layer: the RTU request generator and
//! the response check. Everything else in the crate is verified against the
//! contracts stated here.

use vstd::prelude::*;

use rmodbus::client::ModbusRequest;
use rmodbus::consts::ModbusFunction;
use rmodbus::{ErrorKind, ModbusProto};

verus! {

#[verifier::external_type_specification]
pub struct ExModbusRequest(ModbusRequest);

#[verifier::external_type_specification]
pub struct ExErrorKind(ErrorKind);

#[verifier::external_type_specification]
pub struct ExModbusProto(ModbusProto);

#[verifier::external_type_specification]
pub struct ExModbusFunction(ModbusFunction);

/// The CRC-16 that rmodbus's `calc_crc16` computes over a byte sequence
/// (polynomial 0xA001, initial value 0xFFFF). It depends on the bytes alone.
pub uninterp spec fn crc16_of(data: Seq<u8>) -> u16;

/// The body of a "read holding registers" RTU request: address, function
/// code 3, start register and register count, both big-endian.
pub open spec fn request_prefix(unit_id: u8, reg: u16, count: u16) -> Seq<u8> {
    seq![
        unit_id,
        3u8,
        (reg >> 8) as u8,
        (reg & 0xff) as u8,
        (count >> 8) as u8,
        (count & 0xff) as u8,
    ]
}

/// The complete request frame: the body followed by its CRC-16,
/// low byte first.
pub open spec fn request_frame(unit_id: u8, reg: u16, count: u16) -> Seq<u8> {
    let crc = crc16_of(request_prefix(unit_id, reg, count));
    request_prefix(unit_id, reg, count) + seq![(crc & 0xff) as u8, (crc >> 8) as u8]
}

/// Whether rmodbus accepts `d` as the response to a "read holdings" RTU
/// request sent by `req`: plausible length, CRC-16 over everything but the
/// trailing two bytes (stored low byte first), matching address, function
/// code 3, and a register byte count that covers the payload.
pub open spec fn read_response_accepted(req: ModbusRequest, d: Seq<u8>) -> bool {
    &&& 5 <= d.len() <= 257
    &&& crc16_of(d.take(d.len() - 2)) == d[d.len() - 2] + d[d.len() - 1] * 0x100
    &&& d[0] == req.unit_id
    &&& d[1] == 3
    &&& 2 * d[2] >= d.len() - 5
}

/// Relies on `ModbusRequest::new`: it fills the fields from its arguments
/// and defaults (transaction id 1, function "get coils", register and
/// count 0).
#[verifier::external_body]
pub(crate) fn new_rtu_request(unit_id: u8) -> (r: ModbusRequest)
    ensures
        r.unit_id == unit_id,
        r.proto == ModbusProto::Rtu,
        r.func == ModbusFunction::GetCoils,
        r.tr_id == 1,
        r.reg == 0,
        r.count == 0,
{
    ModbusRequest::new(unit_id, ModbusProto::Rtu)
}

/// Relies on `ModbusRequest::generate_get_holdings`: it records register
/// and count, sets the function to "get holdings", and writes the RTU frame
/// (address, function 3, register, count, CRC-16 low byte first) into the
/// buffer. Into a `Vec` every write succeeds, and an RTU request frame for
/// a read is 8 bytes, so no length limit is reached.
#[verifier::external_body]
pub(crate) fn generate_get_holdings(
    req: &mut ModbusRequest,
    reg: u16,
    count: u16,
    out: &mut Vec<u8>,
) -> (r: Result<(), ErrorKind>)
    requires
        old(req).proto == ModbusProto::Rtu,
    ensures
        r is Ok,
        final(req).unit_id == old(req).unit_id,
        final(req).proto == old(req).proto,
        final(req).tr_id == old(req).tr_id,
        final(req).func == ModbusFunction::GetHoldings,
        final(req).reg == reg,
        final(req).count == count,
        final(out)@ == request_frame(old(req).unit_id, reg, count),
{
    req.generate_get_holdings(reg, count, out)
}

/// Relies on `ModbusRequest::parse_ok` for an RTU "read holdings" request:
/// it accepts the buffer exactly when the frame checks of
/// [`read_response_accepted`] all pass, and otherwise reports the failure.
#[verifier::external_body]
pub(crate) fn parse_ok(req: &ModbusRequest, data: &[u8]) -> (r: Result<(), ErrorKind>)
    requires
        req.proto == ModbusProto::Rtu,
        req.func == ModbusFunction::GetHoldings,
    ensures
        r is Ok <==> read_response_accepted(*req, data@),
        r is Ok ==> crc16_of(data@.take(data@.len() - 2)) == data@[data@.len() - 2] + data@[data@.len()
            - 1] * 0x100,
{
    req.parse_ok(data)
}

} // verus!
