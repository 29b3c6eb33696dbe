use pfly_rust::{decode, encode, PflyIpcData, RECORD_LEN, TEXT_WIDTH};

#[allow(non_snake_case)]
fn record(
    altitude: i32,
    latitude: f64,
    longitude: f64,
    isOnGround: bool,
    fps: i32,
    aircraftType: &str,
) -> PflyIpcData {
    PflyIpcData {
        altitude,
        agl: 0,
        groundspeed: 0,
        ias: 0,
        headingTrue: 0,
        headingMagnetic: 0,
        latitude_bits: latitude.to_bits(),
        longitude_bits: longitude.to_bits(),
        verticalSpeed: 0,
        landingVerticalSpeed: 0,
        gForce: 0,
        fuel: 0,
        transponder: 0,
        bridgeType: 0,
        isOnGround,
        isSlew: false,
        isPaused: false,
        pitch: 0,
        roll: 0,
        time: 0,
        fps,
        aircraftType: aircraftType.as_bytes().to_vec(),
    }
}

fn full_record() -> PflyIpcData {
    PflyIpcData {
        altitude: 569,
        agl: -120,
        groundspeed: 145,
        ias: 138,
        headingTrue: 274,
        headingMagnetic: 271,
        latitude_bits: 43.6772222_f64.to_bits(),
        longitude_bits: (-79.6305556_f64).to_bits(),
        verticalSpeed: -640,
        landingVerticalSpeed: -180,
        gForce: 1043,
        fuel: 20000,
        transponder: 1425,
        bridgeType: 3,
        isOnGround: true,
        isSlew: false,
        isPaused: true,
        pitch: -2,
        roll: 15,
        time: 0,
        fps: 120,
        aircraftType: b"B77W".to_vec(),
    }
}

#[test]
fn it_works() {
    assert_eq!(2 + 2, 4);
}

#[test]
fn encoded_len_is_constant() {
    assert_eq!(encode(&full_record()).len(), RECORD_LEN);
    assert_eq!(encode(&record(0, 0.0, 0.0, false, 0, "")).len(), RECORD_LEN);
    assert_eq!(
        encode(&record(i32::MIN, -90.0, 180.0, true, i32::MAX, "LONGTYPECODE")).len(),
        RECORD_LEN
    );
}

#[test]
fn encode_is_deterministic() {
    let a = encode(&full_record());
    let b = encode(&full_record());
    assert_eq!(a, b);
}

#[test]
fn round_trip_reproduces_fields() {
    let r = full_record();
    let bytes = encode(&r);
    let d = decode(&bytes).expect("a full-length payload must decode");
    assert_eq!(d.altitude, 569);
    assert_eq!(d.agl, -120);
    assert_eq!(d.groundspeed, 145);
    assert_eq!(d.ias, 138);
    assert_eq!(d.headingTrue, 274);
    assert_eq!(d.headingMagnetic, 271);
    assert_eq!(f64::from_bits(d.latitude_bits), 43.6772222);
    assert_eq!(f64::from_bits(d.longitude_bits), -79.6305556);
    assert_eq!(d.verticalSpeed, -640);
    assert_eq!(d.landingVerticalSpeed, -180);
    assert_eq!(d.gForce, 1043);
    assert_eq!(d.fuel, 20000);
    assert_eq!(d.transponder, 1425);
    assert_eq!(d.bridgeType, 3);
    assert!(d.isOnGround);
    assert!(!d.isSlew);
    assert!(d.isPaused);
    assert_eq!(d.pitch, -2);
    assert_eq!(d.roll, 15);
    assert_eq!(d.time, 0);
    assert_eq!(d.fps, 120);
    assert_eq!(d.aircraftType, b"B77W\0\0\0\0".to_vec());
}

#[test]
fn round_trip_extreme_integers() {
    let mut r = full_record();
    r.altitude = i32::MIN;
    r.verticalSpeed = i32::MAX;
    r.agl = -1;
    let d = decode(&encode(&r)).unwrap();
    assert_eq!(d.altitude, i32::MIN);
    assert_eq!(d.verticalSpeed, i32::MAX);
    assert_eq!(d.agl, -1);
}

#[test]
fn boolean_bytes_single_and_consistent() {
    let mut r = full_record();
    r.isOnGround = true;
    r.isSlew = false;
    r.isPaused = true;
    let bytes = encode(&r);
    assert_eq!(bytes[61], 1);
    assert_eq!(bytes[62], 0);
    assert_eq!(bytes[63], 1);
    r.isOnGround = false;
    r.isSlew = true;
    r.isPaused = false;
    let flipped = encode(&r);
    assert_eq!(flipped[61], 0);
    assert_eq!(flipped[62], 1);
    assert_eq!(flipped[63], 0);
}

#[test]
fn fields_at_declared_offsets_little_endian() {
    let r = full_record();
    let bytes = encode(&r);
    assert_eq!(&bytes[0..4], 569_i32.to_le_bytes().as_slice());
    assert_eq!(&bytes[4..8], (-120_i32).to_le_bytes().as_slice());
    assert_eq!(&bytes[8..12], 145_i32.to_le_bytes().as_slice());
    assert_eq!(&bytes[12..16], 138_i32.to_le_bytes().as_slice());
    assert_eq!(&bytes[16..20], 274_i32.to_le_bytes().as_slice());
    assert_eq!(&bytes[20..24], 271_i32.to_le_bytes().as_slice());
    assert_eq!(&bytes[24..32], 43.6772222_f64.to_bits().to_le_bytes().as_slice());
    assert_eq!(&bytes[32..40], (-79.6305556_f64).to_bits().to_le_bytes().as_slice());
    assert_eq!(&bytes[40..44], (-640_i32).to_le_bytes().as_slice());
    assert_eq!(&bytes[44..48], (-180_i32).to_le_bytes().as_slice());
    assert_eq!(&bytes[48..52], 1043_i32.to_le_bytes().as_slice());
    assert_eq!(&bytes[52..56], 20000_i32.to_le_bytes().as_slice());
    assert_eq!(&bytes[56..60], 1425_i32.to_le_bytes().as_slice());
    assert_eq!(bytes[60], 3);
    assert_eq!(&bytes[64..68], (-2_i32).to_le_bytes().as_slice());
    assert_eq!(&bytes[68..72], 15_i32.to_le_bytes().as_slice());
    assert_eq!(&bytes[72..76], 0_i32.to_le_bytes().as_slice());
    assert_eq!(&bytes[76..80], 120_i32.to_le_bytes().as_slice());
    assert_eq!(&bytes[80..88], b"B77W\0\0\0\0".as_slice());
}

#[test]
fn telemetry_scenario_values() {
    let r = record(569, 43.6772222, -79.6305556, true, 120, "B77W");
    let bytes = encode(&r);
    assert_eq!(bytes.len(), RECORD_LEN);
    let d = decode(&bytes).expect("the peer reads the fixed number of bytes");
    assert_eq!(d.altitude, 569);
    assert_eq!(f64::from_bits(d.latitude_bits), 43.6772222);
    assert!(d.isOnGround);
}

#[test]
fn two_records_split_from_stream() {
    let first = record(569, 43.6772222, -79.6305556, true, 120, "B77W");
    let second = record(1200, 51.4700223, -0.4542955, false, 60, "A320");
    let mut stream: Vec<u8> = encode(&first);
    stream.extend_from_slice(&encode(&second));
    assert_eq!(stream.len(), 2 * RECORD_LEN);
    let d1 = decode(&stream[..RECORD_LEN]).unwrap();
    let d2 = decode(&stream[RECORD_LEN..]).unwrap();
    assert_eq!(d1.altitude, 569);
    assert!(d1.isOnGround);
    assert_eq!(d1.aircraftType, b"B77W\0\0\0\0".to_vec());
    assert_eq!(d2.altitude, 1200);
    assert_eq!(d2.fps, 60);
    assert!(!d2.isOnGround);
    assert_eq!(f64::from_bits(d2.latitude_bits), 51.4700223);
}

#[test]
fn decode_rejects_wrong_length() {
    let bytes = encode(&full_record());
    assert!(decode(&[]).is_none());
    assert!(decode(&bytes[..RECORD_LEN - 1]).is_none());
    let mut long = bytes.clone();
    long.push(0);
    assert!(decode(&long).is_none());
    assert!(decode(&bytes).is_some());
}

#[test]
fn text_padded_with_zeros() {
    let bytes = encode(&record(0, 0.0, 0.0, false, 0, "B77W"));
    assert_eq!(&bytes[80..88], b"B77W\0\0\0\0".as_slice());
}

#[test]
fn text_truncated_to_width() {
    let bytes = encode(&record(0, 0.0, 0.0, false, 0, "BOEING77W"));
    assert_eq!(&bytes[80..88], b"BOEING77".as_slice());
    let d = decode(&bytes).unwrap();
    assert_eq!(d.aircraftType.len(), TEXT_WIDTH);
    assert_eq!(d.aircraftType, b"BOEING77".to_vec());
}
