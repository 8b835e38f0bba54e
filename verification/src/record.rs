//! The measurement record read from the meter, and its two byte encodings:
//! the wire payload (eight big-endian 32-bit registers) and the storage
//! image (the same eight words, big-endian, unscaled).

use vstd::prelude::*;

use crate::session::Error;

verus! {

/// One reading of the meter's register block.
///
/// Each field holds the raw 32-bit register value; the physical quantity is
/// the raw value times the field's fixed-point scale:
///
/// | field           | scale  | unit |
/// |-----------------|--------|------|
/// | `voltage`       | 0.0001 | V    |
/// | `current`       | 0.0001 | A    |
/// | `active_power`  | 0.0001 | kW   |
/// | `active_energy` | 0.0001 | kWh  |
/// | `power_factor`  | 0.001  |      |
/// | `co2_emissions` | 0.0001 | kg   |
/// | `temperature`   | 0.01   | °C   |
/// | `frequency`     | 0.01   | Hz   |
///
/// The spec functions [`voltage_e4`] and friends give each field's physical
/// value exactly, in ten-thousandths of its unit.
#[derive(Clone, Copy, Debug, PartialEq, Eq, Structural)]
pub struct PowerState {
    pub voltage: u32,
    pub current: u32,
    pub active_power: u32,
    pub active_energy: u32,
    pub power_factor: u32,
    pub co2_emissions: u32,
    pub temperature: u32,
    pub frequency: u32,
}

/// The 32-bit word that four big-endian bytes spell.
pub open spec fn be32(b0: u8, b1: u8, b2: u8, b3: u8) -> u32 {
    ((b0 as u32) << 24) | ((b1 as u32) << 16) | ((b2 as u32) << 8) | (b3 as u32)
}

/// The record that a 32-byte image spells: eight big-endian 32-bit words in
/// field order.
pub open spec fn record_from_be(s: Seq<u8>) -> PowerState
    recommends
        s.len() == 32,
{
    PowerState {
        voltage: be32(s[0], s[1], s[2], s[3]),
        current: be32(s[4], s[5], s[6], s[7]),
        active_power: be32(s[8], s[9], s[10], s[11]),
        active_energy: be32(s[12], s[13], s[14], s[15]),
        power_factor: be32(s[16], s[17], s[18], s[19]),
        co2_emissions: be32(s[20], s[21], s[22], s[23]),
        temperature: be32(s[24], s[25], s[26], s[27]),
        frequency: be32(s[28], s[29], s[30], s[31]),
    }
}

/// Reads the big-endian 32-bit word at byte offset `i`.
fn read_be32(buf: &[u8], i: usize) -> (x: u32)
    requires
        i + 4 <= buf@.len(),
    ensures
        x == be32(buf@[i as int], buf@[i as int + 1], buf@[i as int + 2], buf@[i as int + 3]),
{
    ((buf[i] as u32) << 24) | ((buf[i + 1] as u32) << 16) | ((buf[i + 2] as u32) << 8) | (buf[i
        + 3] as u32)
}

/// The 32-byte storage image of a record: each field in turn as four
/// big-endian bytes, unscaled.
pub open spec fn storage_bytes(r: PowerState) -> Seq<u8> {
    seq![
        (r.voltage >> 24) as u8,
        ((r.voltage >> 16) & 0xff) as u8,
        ((r.voltage >> 8) & 0xff) as u8,
        (r.voltage & 0xff) as u8,
        (r.current >> 24) as u8,
        ((r.current >> 16) & 0xff) as u8,
        ((r.current >> 8) & 0xff) as u8,
        (r.current & 0xff) as u8,
        (r.active_power >> 24) as u8,
        ((r.active_power >> 16) & 0xff) as u8,
        ((r.active_power >> 8) & 0xff) as u8,
        (r.active_power & 0xff) as u8,
        (r.active_energy >> 24) as u8,
        ((r.active_energy >> 16) & 0xff) as u8,
        ((r.active_energy >> 8) & 0xff) as u8,
        (r.active_energy & 0xff) as u8,
        (r.power_factor >> 24) as u8,
        ((r.power_factor >> 16) & 0xff) as u8,
        ((r.power_factor >> 8) & 0xff) as u8,
        (r.power_factor & 0xff) as u8,
        (r.co2_emissions >> 24) as u8,
        ((r.co2_emissions >> 16) & 0xff) as u8,
        ((r.co2_emissions >> 8) & 0xff) as u8,
        (r.co2_emissions & 0xff) as u8,
        (r.temperature >> 24) as u8,
        ((r.temperature >> 16) & 0xff) as u8,
        ((r.temperature >> 8) & 0xff) as u8,
        (r.temperature & 0xff) as u8,
        (r.frequency >> 24) as u8,
        ((r.frequency >> 16) & 0xff) as u8,
        ((r.frequency >> 8) & 0xff) as u8,
        (r.frequency & 0xff) as u8,
    ]
}

/// Splitting a 32-bit word into its four big-endian bytes and reassembling
/// them gives the word back.
proof fn lemma_be32_ident(x: u32)
    ensures
        be32((x >> 24) as u8, ((x >> 16) & 0xff) as u8, ((x >> 8) & 0xff) as u8, (x & 0xff) as u8)
            == x,
{
    assert(be32(
        (x >> 24) as u8,
        ((x >> 16) & 0xff) as u8,
        ((x >> 8) & 0xff) as u8,
        (x & 0xff) as u8,
    ) == x) by (bit_vector);
}

/// Round-trip law for the storage image: decoding what [`storage_bytes`]
/// wrote gives back the record, bit for bit in every field.
pub proof fn lemma_storage_round_trip(r: PowerState)
    ensures
        record_from_be(storage_bytes(r)) == r,
{
    lemma_be32_ident(r.voltage);
    lemma_be32_ident(r.current);
    lemma_be32_ident(r.active_power);
    lemma_be32_ident(r.active_energy);
    lemma_be32_ident(r.power_factor);
    lemma_be32_ident(r.co2_emissions);
    lemma_be32_ident(r.temperature);
    lemma_be32_ident(r.frequency);
}

impl PowerState {
    /// Decodes the 32-byte wire payload: eight big-endian 32-bit raw
    /// register values, in field order. Any other payload length is
    /// rejected; nothing is read past the slice.
    pub fn from(buf: &[u8]) -> (r: Result<PowerState, Error>)
        ensures
            buf@.len() == 32 ==> r == Ok::<PowerState, Error>(record_from_be(buf@)),
            buf@.len() != 32 ==> r == Err::<PowerState, Error>(Error::ResponseParseErr),
    {
        if buf.len() != 32 {
            return Err(Error::ResponseParseErr);
        }
        Ok(
            PowerState {
                voltage: read_be32(buf, 0),
                current: read_be32(buf, 4),
                active_power: read_be32(buf, 8),
                active_energy: read_be32(buf, 12),
                power_factor: read_be32(buf, 16),
                co2_emissions: read_be32(buf, 20),
                temperature: read_be32(buf, 24),
                frequency: read_be32(buf, 28),
            },
        )
    }

    /// Writes the record's storage image: each field in turn as four
    /// big-endian bytes, unscaled. Distinct from the wire payload, whose
    /// words carry fixed-point register values fresh from the meter; this
    /// image persists an already-decoded record as it stands.
    pub fn to_be_bytes(&self) -> (r: [u8; 32])
        ensures
            r@ == storage_bytes(*self),
    {
        let r: [u8; 32] = [
            (self.voltage >> 24) as u8,
            ((self.voltage >> 16) & 0xff) as u8,
            ((self.voltage >> 8) & 0xff) as u8,
            (self.voltage & 0xff) as u8,
            (self.current >> 24) as u8,
            ((self.current >> 16) & 0xff) as u8,
            ((self.current >> 8) & 0xff) as u8,
            (self.current & 0xff) as u8,
            (self.active_power >> 24) as u8,
            ((self.active_power >> 16) & 0xff) as u8,
            ((self.active_power >> 8) & 0xff) as u8,
            (self.active_power & 0xff) as u8,
            (self.active_energy >> 24) as u8,
            ((self.active_energy >> 16) & 0xff) as u8,
            ((self.active_energy >> 8) & 0xff) as u8,
            (self.active_energy & 0xff) as u8,
            (self.power_factor >> 24) as u8,
            ((self.power_factor >> 16) & 0xff) as u8,
            ((self.power_factor >> 8) & 0xff) as u8,
            (self.power_factor & 0xff) as u8,
            (self.co2_emissions >> 24) as u8,
            ((self.co2_emissions >> 16) & 0xff) as u8,
            ((self.co2_emissions >> 8) & 0xff) as u8,
            (self.co2_emissions & 0xff) as u8,
            (self.temperature >> 24) as u8,
            ((self.temperature >> 16) & 0xff) as u8,
            ((self.temperature >> 8) & 0xff) as u8,
            (self.temperature & 0xff) as u8,
            (self.frequency >> 24) as u8,
            ((self.frequency >> 16) & 0xff) as u8,
            ((self.frequency >> 8) & 0xff) as u8,
            (self.frequency & 0xff) as u8,
        ];
        proof {
            assert(r@ =~= storage_bytes(*self));
        }
        r
    }

    /// Reads a record back from its 32-byte storage image: eight big-endian
    /// 32-bit words, in field order, unscaled.
    pub fn from_be_bytes(bytes: [u8; 32]) -> (r: PowerState)
        ensures
            r == record_from_be(bytes@),
    {
        let buf: &[u8] = vstd::array::array_as_slice(&bytes);
        PowerState {
            voltage: read_be32(buf, 0),
            current: read_be32(buf, 4),
            active_power: read_be32(buf, 8),
            active_energy: read_be32(buf, 12),
            power_factor: read_be32(buf, 16),
            co2_emissions: read_be32(buf, 20),
            temperature: read_be32(buf, 24),
            frequency: read_be32(buf, 28),
        }
    }
}

/// A field's exact physical value, in ten-thousandths of its unit: the raw
/// register value times its scale 0.0001.
pub open spec fn voltage_e4(r: PowerState) -> int {
    r.voltage as int
}

/// See [`voltage_e4`]; the scale of `current` is 0.0001.
pub open spec fn current_e4(r: PowerState) -> int {
    r.current as int
}

/// See [`voltage_e4`]; the scale of `active_power` is 0.0001.
pub open spec fn active_power_e4(r: PowerState) -> int {
    r.active_power as int
}

/// See [`voltage_e4`]; the scale of `active_energy` is 0.0001.
pub open spec fn active_energy_e4(r: PowerState) -> int {
    r.active_energy as int
}

/// See [`voltage_e4`]; the scale of `power_factor` is 0.001, ten
/// ten-thousandths.
pub open spec fn power_factor_e4(r: PowerState) -> int {
    r.power_factor * 10
}

/// See [`voltage_e4`]; the scale of `co2_emissions` is 0.0001.
pub open spec fn co2_emissions_e4(r: PowerState) -> int {
    r.co2_emissions as int
}

/// See [`voltage_e4`]; the scale of `temperature` is 0.01, a hundred
/// ten-thousandths.
pub open spec fn temperature_e4(r: PowerState) -> int {
    r.temperature * 100
}

/// See [`voltage_e4`]; the scale of `frequency` is 0.01, a hundred
/// ten-thousandths.
pub open spec fn frequency_e4(r: PowerState) -> int {
    r.frequency * 100
}

/// The fixed-point decode is strictly monotone in each raw register: a
/// larger raw value means a larger physical value for that field, since
/// every scale factor is positive.
pub proof fn lemma_decode_monotonic(a: PowerState, b: PowerState)
    ensures
        a.voltage < b.voltage ==> voltage_e4(a) < voltage_e4(b),
        a.current < b.current ==> current_e4(a) < current_e4(b),
        a.active_power < b.active_power ==> active_power_e4(a) < active_power_e4(b),
        a.active_energy < b.active_energy ==> active_energy_e4(a) < active_energy_e4(b),
        a.power_factor < b.power_factor ==> power_factor_e4(a) < power_factor_e4(b),
        a.co2_emissions < b.co2_emissions ==> co2_emissions_e4(a) < co2_emissions_e4(b),
        a.temperature < b.temperature ==> temperature_e4(a) < temperature_e4(b),
        a.frequency < b.frequency ==> frequency_e4(a) < frequency_e4(b),
{
}

} // verus!

