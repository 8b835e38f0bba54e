//! The device session: owns the pre-built read request and checks each
//! response frame before handing its payload to the record decoder.

use vstd::prelude::*;

use rmodbus::client::ModbusRequest;
use rmodbus::consts::ModbusFunction;
use rmodbus::ModbusProto;

use crate::record::{record_from_be, PowerState};
use crate::rtu;
use crate::rtu::{crc16_of, request_frame};

verus! {

/// What a call on the codec can fail with.
#[derive(Debug)]
pub enum Error {
    /// The Modbus layer rejected a frame; carries the underlying cause.
    ModbusErr(rmodbus::ErrorKind),
    /// The session holds no request.
    NoRequest,
    /// A buffer had the wrong overall or payload length.
    ResponseParseErr,
}

/// Whether `r` reports a Modbus-layer failure.
pub open spec fn is_modbus_err(r: Result<PowerState, Error>) -> bool {
    match r {
        Err(Error::ModbusErr(_)) => true,
        _ => false,
    }
}

/// The request frame the session sends: read 8 holding registers from
/// register 0x48 of slave 1.
pub open spec fn meter_request() -> Seq<u8> {
    request_frame(1, 0x48, 8)
}

/// The fixed request frame is 8 bytes and opens with address 1, function
/// code 3, register 0x48 and count 8, both big-endian; its two CRC-16
/// bytes follow.
pub proof fn lemma_meter_request_prefix()
    ensures
        meter_request().len() == 8,
        meter_request().take(6) == seq![1u8, 3u8, 0u8, 72u8, 0u8, 8u8],
{
    assert((0x48u16 >> 8) as u8 == 0u8) by (bit_vector);
    assert((0x48u16 & 0xff) as u8 == 72u8) by (bit_vector);
    assert((8u16 >> 8) as u8 == 0u8) by (bit_vector);
    assert((8u16 & 0xff) as u8 == 8u8) by (bit_vector);
    assert(meter_request().take(6) =~= seq![1u8, 3u8, 0u8, 72u8, 0u8, 8u8]);
}

/// Whether the Modbus layer accepts `d` as this session's response frame:
/// the CRC-16 over all but the trailing two bytes matches them (low byte
/// first), the frame comes from slave 1 with function code 3, and its
/// register byte count covers the payload.
pub open spec fn response_accepted(d: Seq<u8>) -> bool {
    &&& 5 <= d.len() <= 257
    &&& crc16_of(d.take(d.len() - 2)) == d[d.len() - 2] + d[d.len() - 1] * 0x100
    &&& d[0] == 1
    &&& d[1] == 3
    &&& 2 * d[2] >= d.len() - 5
}

/// A session with the meter: the encoded request frame and the state the
/// Modbus layer needs to validate a matching response.
pub struct Im12xx {
    req_bytes: Vec<u8>,
    req: ModbusRequest,
}

const MODBUS_ADDR: u8 = 1;

const REG_ADDR: u16 = 0x48;

const REG_COUNT: u16 = 8;

impl Im12xx {
    #[verifier::type_invariant]
    spec fn inv(self) -> bool {
        &&& self.req.unit_id == MODBUS_ADDR
        &&& self.req.proto == ModbusProto::Rtu
        &&& self.req.func == ModbusFunction::GetHoldings
        &&& self.req_bytes@ == meter_request()
    }

    /// Builds the session, encoding the request frame once into the given
    /// transport buffer. The frame is fixed, so this is the only point at
    /// which request encoding can be reported to fail; with a buffer of the
    /// required size it never does.
    pub fn new(buffer: Vec<u8>) -> (r: Result<Im12xx, Error>)
        requires
            buffer@.len() >= 256,
        ensures
            r is Ok,
    {
        let mut req = rtu::new_rtu_request(MODBUS_ADDR);
        let mut request = buffer;
        match rtu::generate_get_holdings(&mut req, REG_ADDR, REG_COUNT, &mut request) {
            Ok(()) => Ok(Im12xx { req_bytes: request, req }),
            Err(e) => Err(Error::ModbusErr(e)),
        }
    }

    /// The request bytes to send to the meter. The same frame every time:
    /// address 1, function 3, register 0x48, count 8, CRC-16.
    pub fn request(&mut self) -> (r: &[u8])
        ensures
            r@ == meter_request(),
            *final(self) == *old(self),
    {
        proof {
            use_type_invariant(&*self);
        }
        self.req_bytes.as_slice()
    }

    /// Decodes the meter's raw response. A buffer of any length other than
    /// 37 bytes is rejected outright; a 37-byte frame is handed to the
    /// Modbus layer, whose verdict decides: if it accepts the frame, the
    /// 32-byte payload between the 3-byte header and the 2-byte CRC decodes
    /// into the record, and otherwise the underlying failure is returned.
    pub fn response(&mut self, data: &[u8]) -> (r: Result<PowerState, Error>)
        ensures
            data@.len() != 37 ==> r == Err::<PowerState, Error>(Error::ResponseParseErr),
            data@.len() == 37 && response_accepted(data@) ==> r == Ok::<PowerState, Error>(
                record_from_be(data@.subrange(3, 35)),
            ),
            data@.len() == 37 && !response_accepted(data@) ==> is_modbus_err(r),
            *final(self) == *old(self),
    {
        proof {
            use_type_invariant(&*self);
        }
        let len = data.len();
        if len != 37 {
            return Err(Error::ResponseParseErr);
        }
        match rtu::parse_ok(&self.req, data) {
            Ok(()) => {},
            Err(e) => {
                return Err(Error::ModbusErr(e));
            },
        }
        PowerState::from(vstd::slice::slice_subrange(data, 3, len - 2))
    }
}

} // verus!
