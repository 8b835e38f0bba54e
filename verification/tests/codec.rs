use irdopto_im12xx::{Error, Im12xx, PowerState, BAUT};

/// CRC-16/MODBUS (polynomial 0xA001, initial value 0xFFFF), written out
/// independently of the library so the frames it emits and accepts can be
/// checked against a second implementation.
fn crc16(data: &[u8]) -> u16 {
    let mut crc: u16 = 0xffff;
    for b in data {
        crc ^= u16::from(*b);
        for _ in 0..8 {
            if crc & 1 == 0 {
                crc >>= 1;
            } else {
                crc >>= 1;
                crc ^= 0xA001;
            }
        }
    }
    crc
}

const SAMPLE_RESPONSE: [u8; 37] = [
    0x01, 0x03, 0x20, 0x00, 0x00, 0x00, 0x00, 0x00, 0x00, 0x00, 0x00, 0x00, 0x00, 0x00, 0x00,
    0x00, 0x00, 0x00, 0x00, 0x00, 0x00, 0x03, 0xE7, 0x00, 0x00, 0x00, 0x00, 0x00, 0x00, 0x0B,
    0x54, 0x00, 0x00, 0x13, 0x88, 0xD9, 0xBE,
];

#[test]
fn it_works() {
    let buffer = vec![0u8; 256];
    let mut im12xx = Im12xx::new(buffer).unwrap();

    assert_eq!(im12xx.request(), [1, 3, 0, 72, 0, 8, 196, 26]);

    let power_state = im12xx.response(&SAMPLE_RESPONSE).unwrap();
    assert_eq!(
        power_state,
        PowerState {
            voltage: 0,
            current: 0,
            active_power: 0,
            active_energy: 0,
            power_factor: 999,
            co2_emissions: 0,
            temperature: 2900,
            frequency: 5000,
        }
    );

    // The scaled physical readings.
    assert_eq!(power_state.voltage as f32 * 0.0001, 0.0);
    assert_eq!(power_state.current as f32 * 0.0001, 0.0);
    assert_eq!(power_state.power_factor as f32 * 0.001, 0.9990001);
    assert_eq!(power_state.temperature as f32 * 0.01, 29.0);
    assert_eq!(power_state.frequency as f32 * 0.01, 50.0);

    let bytes = power_state.to_be_bytes();
    assert_eq!(PowerState::from_be_bytes(bytes), power_state);
}

#[test]
fn request_is_fixed() {
    assert_eq!(BAUT, 4800);
    let mut im12xx = Im12xx::new(vec![0u8; 256]).unwrap();
    let first: Vec<u8> = im12xx.request().to_vec();
    assert_eq!(first, [1, 3, 0, 72, 0, 8, 196, 26]);
    // Repeated calls hand out the same bytes.
    assert_eq!(im12xx.request(), &first[..]);
    // The trailing CRC is the CRC-16 of the first six bytes, low byte first.
    assert_eq!(crc16(&first[..6]).to_le_bytes(), [196, 26]);
}

#[test]
fn response_rejects_wrong_length() {
    let mut im12xx = Im12xx::new(vec![0u8; 256]).unwrap();
    assert!(matches!(im12xx.response(&[]), Err(Error::ResponseParseErr)));
    assert!(matches!(
        im12xx.response(&SAMPLE_RESPONSE[..36]),
        Err(Error::ResponseParseErr)
    ));
    let mut long = SAMPLE_RESPONSE.to_vec();
    long.push(0x00);
    assert!(matches!(im12xx.response(&long), Err(Error::ResponseParseErr)));
}

#[test]
fn response_rejects_bad_crc() {
    let mut im12xx = Im12xx::new(vec![0u8; 256]).unwrap();
    let mut bad = SAMPLE_RESPONSE;
    bad[5] ^= 0x01;
    assert!(matches!(
        im12xx.response(&bad),
        Err(Error::ModbusErr(rmodbus::ErrorKind::FrameCRCError))
    ));
}

#[test]
fn response_rejects_wrong_slave() {
    let mut im12xx = Im12xx::new(vec![0u8; 256]).unwrap();
    let mut other = SAMPLE_RESPONSE;
    other[0] = 0x02;
    let crc = crc16(&other[..35]).to_le_bytes();
    other[35] = crc[0];
    other[36] = crc[1];
    assert!(matches!(
        im12xx.response(&other),
        Err(Error::ModbusErr(rmodbus::ErrorKind::FrameBroken))
    ));
}

#[test]
fn response_rejects_wrong_function() {
    let mut im12xx = Im12xx::new(vec![0u8; 256]).unwrap();
    let mut other = SAMPLE_RESPONSE;
    other[1] = 0x04;
    let crc = crc16(&other[..35]).to_le_bytes();
    other[35] = crc[0];
    other[36] = crc[1];
    assert!(matches!(im12xx.response(&other), Err(Error::ModbusErr(_))));
}

#[test]
fn payload_must_be_32_bytes() {
    assert!(matches!(
        PowerState::from(&[0u8; 31]),
        Err(Error::ResponseParseErr)
    ));
    assert!(matches!(
        PowerState::from(&[0u8; 33]),
        Err(Error::ResponseParseErr)
    ));
    assert!(matches!(PowerState::from(&[]), Err(Error::ResponseParseErr)));
    assert!(PowerState::from(&[0u8; 32]).is_ok());
}

#[test]
fn payload_fields_are_big_endian_words() {
    let mut payload = [0u8; 32];
    for (i, b) in payload.iter_mut().enumerate() {
        *b = i as u8;
    }
    let r = PowerState::from(&payload).unwrap();
    assert_eq!(r.voltage, 0x00010203);
    assert_eq!(r.current, 0x04050607);
    assert_eq!(r.active_power, 0x08090A0B);
    assert_eq!(r.active_energy, 0x0C0D0E0F);
    assert_eq!(r.power_factor, 0x10111213);
    assert_eq!(r.co2_emissions, 0x14151617);
    assert_eq!(r.temperature, 0x18191A1B);
    assert_eq!(r.frequency, 0x1C1D1E1F);
}

#[test]
fn storage_round_trip() {
    let records = [
        PowerState {
            voltage: 0,
            current: 0,
            active_power: 0,
            active_energy: 0,
            power_factor: 0,
            co2_emissions: 0,
            temperature: 0,
            frequency: 0,
        },
        PowerState {
            voltage: u32::MAX,
            current: u32::MAX,
            active_power: u32::MAX,
            active_energy: u32::MAX,
            power_factor: u32::MAX,
            co2_emissions: u32::MAX,
            temperature: u32::MAX,
            frequency: u32::MAX,
        },
        PowerState {
            voltage: 2304567,
            current: 12,
            active_power: 0x80000000,
            active_energy: 0x7FFFFFFF,
            power_factor: 999,
            co2_emissions: 1,
            temperature: 2900,
            frequency: 5000,
        },
    ];
    for r in records {
        assert_eq!(PowerState::from_be_bytes(r.to_be_bytes()), r);
    }
}

#[test]
fn storage_bytes_are_big_endian_words() {
    let r = PowerState {
        voltage: 0x00010203,
        current: 0x04050607,
        active_power: 0x08090A0B,
        active_energy: 0x0C0D0E0F,
        power_factor: 0x10111213,
        co2_emissions: 0x14151617,
        temperature: 0x18191A1B,
        frequency: 0x1C1D1E1F,
    };
    let bytes = r.to_be_bytes();
    for (i, b) in bytes.iter().enumerate() {
        assert_eq!(*b, i as u8);
    }
}

#[test]
fn decode_grows_with_raw_value() {
    let mut lo = [0u8; 32];
    let mut hi = [0u8; 32];
    // power_factor raw 999 vs 1000, temperature raw 2900 vs 2901.
    lo[18] = 0x03;
    lo[19] = 0xE7;
    hi[18] = 0x03;
    hi[19] = 0xE8;
    lo[26] = 0x0B;
    lo[27] = 0x54;
    hi[26] = 0x0B;
    hi[27] = 0x55;
    let a = PowerState::from(&lo).unwrap();
    let b = PowerState::from(&hi).unwrap();
    assert!(a.power_factor < b.power_factor);
    assert!((a.power_factor as f32 * 0.001) < (b.power_factor as f32 * 0.001));
    assert!((a.temperature as f32 * 0.01) < (b.temperature as f32 * 0.01));
}
