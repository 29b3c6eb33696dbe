//! Fixed-width, little-endian positional encoding of the telemetry record.

use vstd::prelude::*;
use vstd::bytes::*;

use crate::record::PflyIpcData;

verus! {

/// Byte width of the aircraft-type text field on the wire.
pub const TEXT_WIDTH: usize = 8;

/// Total byte length of one encoded record: fifteen 32-bit integers, two
/// 64-bit coordinates, one tag byte, three flag bytes, and the text field.
pub const RECORD_LEN: usize = 88;

/// Byte offset of each field in the encoded record, in declaration order.
pub const OFF_ALTITUDE: usize = 0;
pub const OFF_AGL: usize = 4;
pub const OFF_GROUNDSPEED: usize = 8;
pub const OFF_IAS: usize = 12;
pub const OFF_HEADING_TRUE: usize = 16;
pub const OFF_HEADING_MAGNETIC: usize = 20;
pub const OFF_LATITUDE: usize = 24;
pub const OFF_LONGITUDE: usize = 32;
pub const OFF_VERTICAL_SPEED: usize = 40;
pub const OFF_LANDING_VERTICAL_SPEED: usize = 44;
pub const OFF_G_FORCE: usize = 48;
pub const OFF_FUEL: usize = 52;
pub const OFF_TRANSPONDER: usize = 56;
pub const OFF_BRIDGE_TYPE: usize = 60;
pub const OFF_IS_ON_GROUND: usize = 61;
pub const OFF_IS_SLEW: usize = 62;
pub const OFF_IS_PAUSED: usize = 63;
pub const OFF_PITCH: usize = 64;
pub const OFF_ROLL: usize = 68;
pub const OFF_TIME: usize = 72;
pub const OFF_FPS: usize = 76;
pub const OFF_AIRCRAFT_TYPE: usize = 80;

/// Two's-complement bit pattern of a 32-bit signed integer.
pub open spec fn i32_bits(x: i32) -> u32 {
    if x >= 0 {
        x as u32
    } else {
        (x + 0x1_0000_0000) as u32
    }
}

/// The 32-bit signed integer whose two's-complement bit pattern is `x`.
pub open spec fn bits_as_i32(x: u32) -> i32 {
    if x < 0x8000_0000 {
        x as i32
    } else {
        (x - 0x1_0000_0000) as i32
    }
}

/// Little-endian wire form of a 32-bit signed integer.
pub open spec fn spec_i32_le(x: i32) -> Seq<u8> {
    spec_u32_to_le_bytes(i32_bits(x))
}

fn i32_to_bits(x: i32) -> (r: u32)
    ensures
        r == i32_bits(x),
{
    if x >= 0 {
        x as u32
    } else {
        let wide: i64 = (x as i64) + 0x1_0000_0000;
        wide as u32
    }
}

fn bits_to_i32(x: u32) -> (r: i32)
    ensures
        r == bits_as_i32(x),
{
    if x < 0x8000_0000 {
        x as i32
    } else {
        let wide: i64 = (x as i64) - 0x1_0000_0000;
        wide as i32
    }
}

/// Wire form of a boolean flag: one byte, 1 for true and 0 for false, the
/// same representation for every flag field.
pub open spec fn bool_byte(b: bool) -> u8 {
    if b {
        1u8
    } else {
        0u8
    }
}

/// The flag a wire byte stands for; any non-zero byte reads as true.
pub open spec fn byte_bool(b: u8) -> bool {
    b != 0
}

/// Wire form of the aircraft-type text: the bytes padded with zero bytes up
/// to [`TEXT_WIDTH`], or truncated to the first [`TEXT_WIDTH`] bytes.
pub open spec fn text_field(s: Seq<u8>) -> Seq<u8> {
    if s.len() >= TEXT_WIDTH {
        s.subrange(0, TEXT_WIDTH as int)
    } else {
        s + Seq::new((TEXT_WIDTH - s.len()) as nat, |i: int| 0u8)
    }
}

/// The full wire form of a record: every field in declaration order, each at
/// its fixed width, all multi-byte fields little-endian, with no prefixes,
/// tags or gaps.
pub open spec fn encoded(r: PflyIpcData) -> Seq<u8> {
    spec_i32_le(r.altitude) + spec_i32_le(r.agl) + spec_i32_le(r.groundspeed) + spec_i32_le(
        r.ias,
    ) + spec_i32_le(r.headingTrue) + spec_i32_le(r.headingMagnetic) + spec_u64_to_le_bytes(
        r.latitude_bits,
    ) + spec_u64_to_le_bytes(r.longitude_bits) + spec_i32_le(r.verticalSpeed) + spec_i32_le(
        r.landingVerticalSpeed,
    ) + spec_i32_le(r.gForce) + spec_i32_le(r.fuel) + spec_i32_le(r.transponder) + seq![
        r.bridgeType,
    ] + seq![bool_byte(r.isOnGround)] + seq![bool_byte(r.isSlew)] + seq![
        bool_byte(r.isPaused),
    ] + spec_i32_le(r.pitch) + spec_i32_le(r.roll) + spec_i32_le(r.time) + spec_i32_le(r.fps)
        + text_field(r.aircraftType@)
}

fn push_i32_le(out: &mut Vec<u8>, x: i32)
    ensures
        final(out)@ == old(out)@ + spec_i32_le(x),
{
    let mut bs = u32_to_le_bytes(i32_to_bits(x));
    out.append(&mut bs);
}

fn push_u64_le(out: &mut Vec<u8>, x: u64)
    ensures
        final(out)@ == old(out)@ + spec_u64_to_le_bytes(x),
{
    let mut bs = u64_to_le_bytes(x);
    out.append(&mut bs);
}

fn push_text(out: &mut Vec<u8>, s: &Vec<u8>)
    ensures
        final(out)@ == old(out)@ + text_field(s@),
{
    let n: usize = if s.len() < TEXT_WIDTH {
        s.len()
    } else {
        TEXT_WIDTH
    };
    let mut i: usize = 0;
    while i < n
        invariant
            i <= n,
            n == if s@.len() < TEXT_WIDTH { s@.len() as int } else { TEXT_WIDTH as int },
            out@ == old(out)@ + s@.subrange(0, i as int),
        decreases n - i,
    {
        let b = s[i];
        out.push(b);
        i = i + 1;
        proof {
            assert(out@ =~= old(out)@ + s@.subrange(0, i as int));
        }
    }
    while i < TEXT_WIDTH
        invariant
            n <= i <= TEXT_WIDTH,
            n == if s@.len() < TEXT_WIDTH { s@.len() as int } else { TEXT_WIDTH as int },
            out@ == old(out)@ + s@.subrange(0, n as int) + Seq::new(
                (i - n) as nat,
                |j: int| 0u8,
            ),
        decreases TEXT_WIDTH - i,
    {
        out.push(0u8);
        i = i + 1;
        proof {
            assert(out@ =~= old(out)@ + s@.subrange(0, n as int) + Seq::new(
                (i - n) as nat,
                |j: int| 0u8,
            ));
        }
    }
    proof {
        assert(out@ =~= old(out)@ + text_field(s@));
    }
}

/// Serialize a record into its fixed-width positional wire form.
///
/// The result is exactly [`encoded`] applied to the record: [`RECORD_LEN`]
/// bytes, deterministic, fields in declaration order.
pub fn encode(r: &PflyIpcData) -> (out: Vec<u8>)
    ensures
        out@ == encoded(*r),
        out@.len() == RECORD_LEN,
{
    proof {
        lemma_auto_spec_u32_to_from_le_bytes();
        lemma_auto_spec_u64_to_from_le_bytes();
    }
    let mut out: Vec<u8> = Vec::new();
    push_i32_le(&mut out, r.altitude);
    push_i32_le(&mut out, r.agl);
    push_i32_le(&mut out, r.groundspeed);
    push_i32_le(&mut out, r.ias);
    push_i32_le(&mut out, r.headingTrue);
    push_i32_le(&mut out, r.headingMagnetic);
    push_u64_le(&mut out, r.latitude_bits);
    push_u64_le(&mut out, r.longitude_bits);
    push_i32_le(&mut out, r.verticalSpeed);
    push_i32_le(&mut out, r.landingVerticalSpeed);
    push_i32_le(&mut out, r.gForce);
    push_i32_le(&mut out, r.fuel);
    push_i32_le(&mut out, r.transponder);
    out.push(r.bridgeType);
    out.push(if r.isOnGround { 1u8 } else { 0u8 });
    out.push(if r.isSlew { 1u8 } else { 0u8 });
    out.push(if r.isPaused { 1u8 } else { 0u8 });
    push_i32_le(&mut out, r.pitch);
    push_i32_le(&mut out, r.roll);
    push_i32_le(&mut out, r.time);
    push_i32_le(&mut out, r.fps);
    push_text(&mut out, &r.aircraftType);
    proof {
        assert(out@ =~= encoded(*r));
    }
    out
}

/// The 32-bit signed integer that stands at byte offset `off` of `b`.
pub open spec fn field_i32(b: Seq<u8>, off: int) -> i32 {
    bits_as_i32(spec_u32_from_le_bytes(b.subrange(off, off + 4)))
}

/// The 64-bit value that stands at byte offset `off` of `b`.
pub open spec fn field_u64(b: Seq<u8>, off: int) -> u64 {
    spec_u64_from_le_bytes(b.subrange(off, off + 8))
}

/// What a record read back from the byte sequence `b` holds: each field is
/// the value that stands at its fixed offset of the positional layout.
pub open spec fn is_decoding_of(b: Seq<u8>, d: PflyIpcData) -> bool {
    &&& d.altitude == field_i32(b, OFF_ALTITUDE as int)
    &&& d.agl == field_i32(b, OFF_AGL as int)
    &&& d.groundspeed == field_i32(b, OFF_GROUNDSPEED as int)
    &&& d.ias == field_i32(b, OFF_IAS as int)
    &&& d.headingTrue == field_i32(b, OFF_HEADING_TRUE as int)
    &&& d.headingMagnetic == field_i32(b, OFF_HEADING_MAGNETIC as int)
    &&& d.latitude_bits == field_u64(b, OFF_LATITUDE as int)
    &&& d.longitude_bits == field_u64(b, OFF_LONGITUDE as int)
    &&& d.verticalSpeed == field_i32(b, OFF_VERTICAL_SPEED as int)
    &&& d.landingVerticalSpeed == field_i32(b, OFF_LANDING_VERTICAL_SPEED as int)
    &&& d.gForce == field_i32(b, OFF_G_FORCE as int)
    &&& d.fuel == field_i32(b, OFF_FUEL as int)
    &&& d.transponder == field_i32(b, OFF_TRANSPONDER as int)
    &&& d.bridgeType == b[OFF_BRIDGE_TYPE as int]
    &&& d.isOnGround == byte_bool(b[OFF_IS_ON_GROUND as int])
    &&& d.isSlew == byte_bool(b[OFF_IS_SLEW as int])
    &&& d.isPaused == byte_bool(b[OFF_IS_PAUSED as int])
    &&& d.pitch == field_i32(b, OFF_PITCH as int)
    &&& d.roll == field_i32(b, OFF_ROLL as int)
    &&& d.time == field_i32(b, OFF_TIME as int)
    &&& d.fps == field_i32(b, OFF_FPS as int)
    &&& d.aircraftType@ == b.subrange(OFF_AIRCRAFT_TYPE as int, RECORD_LEN as int)
}

fn read_i32(bytes: &[u8], off: usize) -> (x: i32)
    requires
        off + 4 <= bytes@.len(),
    ensures
        x == field_i32(bytes@, off as int),
{
    // the exec length, a usize, bounds `off + 4` away from overflow
    let _len: usize = bytes.len();
    let s = vstd::slice::slice_subrange(bytes, off, off + 4);
    bits_to_i32(u32_from_le_bytes(s))
}

fn read_u64(bytes: &[u8], off: usize) -> (x: u64)
    requires
        off + 8 <= bytes@.len(),
    ensures
        x == field_u64(bytes@, off as int),
{
    // the exec length, a usize, bounds `off + 8` away from overflow
    let _len: usize = bytes.len();
    let s = vstd::slice::slice_subrange(bytes, off, off + 8);
    u64_from_le_bytes(s)
}

/// Read a record back from its wire form, the positional layout the
/// companion service itself applies.
///
/// Exactly the byte sequences of length [`RECORD_LEN`] decode; every field
/// of the result is the value standing at that field's fixed offset.
pub fn decode(bytes: &[u8]) -> (r: Option<PflyIpcData>)
    ensures
        r is Some <==> bytes@.len() == RECORD_LEN,
        r matches Some(d) ==> is_decoding_of(bytes@, d),
{
    if bytes.len() != RECORD_LEN {
        return None;
    }
    let text_slice = vstd::slice::slice_subrange(bytes, OFF_AIRCRAFT_TYPE, RECORD_LEN);
    let d = PflyIpcData {
        altitude: read_i32(bytes, OFF_ALTITUDE),
        agl: read_i32(bytes, OFF_AGL),
        groundspeed: read_i32(bytes, OFF_GROUNDSPEED),
        ias: read_i32(bytes, OFF_IAS),
        headingTrue: read_i32(bytes, OFF_HEADING_TRUE),
        headingMagnetic: read_i32(bytes, OFF_HEADING_MAGNETIC),
        latitude_bits: read_u64(bytes, OFF_LATITUDE),
        longitude_bits: read_u64(bytes, OFF_LONGITUDE),
        verticalSpeed: read_i32(bytes, OFF_VERTICAL_SPEED),
        landingVerticalSpeed: read_i32(bytes, OFF_LANDING_VERTICAL_SPEED),
        gForce: read_i32(bytes, OFF_G_FORCE),
        fuel: read_i32(bytes, OFF_FUEL),
        transponder: read_i32(bytes, OFF_TRANSPONDER),
        bridgeType: *vstd::slice::slice_index_get(bytes, OFF_BRIDGE_TYPE),
        isOnGround: *vstd::slice::slice_index_get(bytes, OFF_IS_ON_GROUND) != 0,
        isSlew: *vstd::slice::slice_index_get(bytes, OFF_IS_SLEW) != 0,
        isPaused: *vstd::slice::slice_index_get(bytes, OFF_IS_PAUSED) != 0,
        pitch: read_i32(bytes, OFF_PITCH),
        roll: read_i32(bytes, OFF_ROLL),
        time: read_i32(bytes, OFF_TIME),
        fps: read_i32(bytes, OFF_FPS),
        aircraftType: vstd::slice::slice_to_vec(text_slice),
    };
    Some(d)
}


/// The wire format is fixed-width: every record encodes to exactly
/// [`RECORD_LEN`] bytes, whatever its field values.
pub proof fn lemma_encoded_len(r: PflyIpcData)
    ensures
        encoded(r).len() == RECORD_LEN,
{
    lemma_auto_spec_u32_to_from_le_bytes();
    lemma_auto_spec_u64_to_from_le_bytes();
    assert(text_field(r.aircraftType@).len() == TEXT_WIDTH);
}

/// Encoding is deterministic: it reads nothing but the record's fields, so
/// two records that carry the same telemetry encode to the same bytes.
pub proof fn lemma_encode_deterministic(r1: PflyIpcData, r2: PflyIpcData)
    requires
        r1.same_fields(r2),
    ensures
        encoded(r1) == encoded(r2),
{
}

/// Field bytes follow declaration order with no gaps or reordering: each
/// field's wire form stands exactly at its fixed offset, the enumerated tag
/// and the three flags occupy one byte each, and the flags share one
/// true/false byte representation, [`bool_byte`].
#[verifier::rlimit(60)]
#[verifier::spinoff_prover]
pub proof fn lemma_field_offsets(r: PflyIpcData)
    ensures
        encoded(r).len() == RECORD_LEN,
        encoded(r).subrange(OFF_ALTITUDE as int, OFF_ALTITUDE + 4) == spec_i32_le(r.altitude),
        encoded(r).subrange(OFF_AGL as int, OFF_AGL + 4) == spec_i32_le(r.agl),
        encoded(r).subrange(OFF_GROUNDSPEED as int, OFF_GROUNDSPEED + 4) == spec_i32_le(
            r.groundspeed,
        ),
        encoded(r).subrange(OFF_IAS as int, OFF_IAS + 4) == spec_i32_le(r.ias),
        encoded(r).subrange(OFF_HEADING_TRUE as int, OFF_HEADING_TRUE + 4) == spec_i32_le(
            r.headingTrue,
        ),
        encoded(r).subrange(OFF_HEADING_MAGNETIC as int, OFF_HEADING_MAGNETIC + 4) == spec_i32_le(
            r.headingMagnetic,
        ),
        encoded(r).subrange(OFF_LATITUDE as int, OFF_LATITUDE + 8) == spec_u64_to_le_bytes(
            r.latitude_bits,
        ),
        encoded(r).subrange(OFF_LONGITUDE as int, OFF_LONGITUDE + 8) == spec_u64_to_le_bytes(
            r.longitude_bits,
        ),
        encoded(r).subrange(OFF_VERTICAL_SPEED as int, OFF_VERTICAL_SPEED + 4) == spec_i32_le(
            r.verticalSpeed,
        ),
        encoded(r).subrange(OFF_LANDING_VERTICAL_SPEED as int, OFF_LANDING_VERTICAL_SPEED + 4)
            == spec_i32_le(r.landingVerticalSpeed),
        encoded(r).subrange(OFF_G_FORCE as int, OFF_G_FORCE + 4) == spec_i32_le(r.gForce),
        encoded(r).subrange(OFF_FUEL as int, OFF_FUEL + 4) == spec_i32_le(r.fuel),
        encoded(r).subrange(OFF_TRANSPONDER as int, OFF_TRANSPONDER + 4) == spec_i32_le(
            r.transponder,
        ),
        encoded(r)[OFF_BRIDGE_TYPE as int] == r.bridgeType,
        encoded(r)[OFF_IS_ON_GROUND as int] == bool_byte(r.isOnGround),
        encoded(r)[OFF_IS_SLEW as int] == bool_byte(r.isSlew),
        encoded(r)[OFF_IS_PAUSED as int] == bool_byte(r.isPaused),
        encoded(r).subrange(OFF_PITCH as int, OFF_PITCH + 4) == spec_i32_le(r.pitch),
        encoded(r).subrange(OFF_ROLL as int, OFF_ROLL + 4) == spec_i32_le(r.roll),
        encoded(r).subrange(OFF_TIME as int, OFF_TIME + 4) == spec_i32_le(r.time),
        encoded(r).subrange(OFF_FPS as int, OFF_FPS + 4) == spec_i32_le(r.fps),
        encoded(r).subrange(OFF_AIRCRAFT_TYPE as int, RECORD_LEN as int) == text_field(
            r.aircraftType@,
        ),
{
    lemma_auto_spec_u32_to_from_le_bytes();
    lemma_auto_spec_u64_to_from_le_bytes();
    assert(text_field(r.aircraftType@).len() == TEXT_WIDTH);
    assert(encoded(r).subrange(OFF_ALTITUDE as int, OFF_ALTITUDE + 4) =~= spec_i32_le(r.altitude));
    assert(encoded(r).subrange(OFF_AGL as int, OFF_AGL + 4) =~= spec_i32_le(r.agl));
    assert(encoded(r).subrange(OFF_GROUNDSPEED as int, OFF_GROUNDSPEED + 4) =~= spec_i32_le(
        r.groundspeed,
    ));
    assert(encoded(r).subrange(OFF_IAS as int, OFF_IAS + 4) =~= spec_i32_le(r.ias));
    assert(encoded(r).subrange(OFF_HEADING_TRUE as int, OFF_HEADING_TRUE + 4) =~= spec_i32_le(
        r.headingTrue,
    ));
    assert(encoded(r).subrange(OFF_HEADING_MAGNETIC as int, OFF_HEADING_MAGNETIC + 4)
        =~= spec_i32_le(r.headingMagnetic));
    assert(encoded(r).subrange(OFF_LATITUDE as int, OFF_LATITUDE + 8) =~= spec_u64_to_le_bytes(
        r.latitude_bits,
    ));
    assert(encoded(r).subrange(OFF_LONGITUDE as int, OFF_LONGITUDE + 8) =~= spec_u64_to_le_bytes(
        r.longitude_bits,
    ));
    assert(encoded(r).subrange(OFF_VERTICAL_SPEED as int, OFF_VERTICAL_SPEED + 4) =~= spec_i32_le(
        r.verticalSpeed,
    ));
    assert(encoded(r).subrange(OFF_LANDING_VERTICAL_SPEED as int, OFF_LANDING_VERTICAL_SPEED + 4)
        =~= spec_i32_le(r.landingVerticalSpeed));
    assert(encoded(r).subrange(OFF_G_FORCE as int, OFF_G_FORCE + 4) =~= spec_i32_le(r.gForce));
    assert(encoded(r).subrange(OFF_FUEL as int, OFF_FUEL + 4) =~= spec_i32_le(r.fuel));
    assert(encoded(r).subrange(OFF_TRANSPONDER as int, OFF_TRANSPONDER + 4) =~= spec_i32_le(
        r.transponder,
    ));
    assert(encoded(r).subrange(OFF_PITCH as int, OFF_PITCH + 4) =~= spec_i32_le(r.pitch));
    assert(encoded(r).subrange(OFF_ROLL as int, OFF_ROLL + 4) =~= spec_i32_le(r.roll));
    assert(encoded(r).subrange(OFF_TIME as int, OFF_TIME + 4) =~= spec_i32_le(r.time));
    assert(encoded(r).subrange(OFF_FPS as int, OFF_FPS + 4) =~= spec_i32_le(r.fps));
    assert(encoded(r).subrange(OFF_AIRCRAFT_TYPE as int, RECORD_LEN as int) =~= text_field(
        r.aircraftType@,
    ));
}

/// Round trip: reading each field of a record's wire form at its fixed
/// offset reproduces the field's exact value. The text field is reproduced
/// up to its fixed width: its wire form is the padded or truncated
/// [`text_field`], which keeps every byte below [`TEXT_WIDTH`].
#[verifier::spinoff_prover]
pub proof fn lemma_round_trip(r: PflyIpcData)
    ensures
        field_i32(encoded(r), OFF_ALTITUDE as int) == r.altitude,
        field_i32(encoded(r), OFF_AGL as int) == r.agl,
        field_i32(encoded(r), OFF_GROUNDSPEED as int) == r.groundspeed,
        field_i32(encoded(r), OFF_IAS as int) == r.ias,
        field_i32(encoded(r), OFF_HEADING_TRUE as int) == r.headingTrue,
        field_i32(encoded(r), OFF_HEADING_MAGNETIC as int) == r.headingMagnetic,
        field_u64(encoded(r), OFF_LATITUDE as int) == r.latitude_bits,
        field_u64(encoded(r), OFF_LONGITUDE as int) == r.longitude_bits,
        field_i32(encoded(r), OFF_VERTICAL_SPEED as int) == r.verticalSpeed,
        field_i32(encoded(r), OFF_LANDING_VERTICAL_SPEED as int) == r.landingVerticalSpeed,
        field_i32(encoded(r), OFF_G_FORCE as int) == r.gForce,
        field_i32(encoded(r), OFF_FUEL as int) == r.fuel,
        field_i32(encoded(r), OFF_TRANSPONDER as int) == r.transponder,
        encoded(r)[OFF_BRIDGE_TYPE as int] == r.bridgeType,
        byte_bool(encoded(r)[OFF_IS_ON_GROUND as int]) == r.isOnGround,
        byte_bool(encoded(r)[OFF_IS_SLEW as int]) == r.isSlew,
        byte_bool(encoded(r)[OFF_IS_PAUSED as int]) == r.isPaused,
        field_i32(encoded(r), OFF_PITCH as int) == r.pitch,
        field_i32(encoded(r), OFF_ROLL as int) == r.roll,
        field_i32(encoded(r), OFF_TIME as int) == r.time,
        field_i32(encoded(r), OFF_FPS as int) == r.fps,
        encoded(r).subrange(OFF_AIRCRAFT_TYPE as int, RECORD_LEN as int) == text_field(
            r.aircraftType@,
        ),
        forall|i: int|
            0 <= i < r.aircraftType@.len() && i < TEXT_WIDTH ==> text_field(r.aircraftType@)[i]
                == r.aircraftType@[i],
{
    lemma_field_offsets(r);
    lemma_auto_spec_u32_to_from_le_bytes();
    lemma_auto_spec_u64_to_from_le_bytes();
}

/// Encode-then-decode reproduces the record: any record that is a decoding
/// of `encoded(r)` agrees with `r` on every field, the text field up to its
/// fixed truncation width, and exactly when the text already has that width.
pub proof fn lemma_decode_encode(r: PflyIpcData, d: PflyIpcData)
    requires
        is_decoding_of(encoded(r), d),
    ensures
        d.altitude == r.altitude,
        d.agl == r.agl,
        d.groundspeed == r.groundspeed,
        d.ias == r.ias,
        d.headingTrue == r.headingTrue,
        d.headingMagnetic == r.headingMagnetic,
        d.latitude_bits == r.latitude_bits,
        d.longitude_bits == r.longitude_bits,
        d.verticalSpeed == r.verticalSpeed,
        d.landingVerticalSpeed == r.landingVerticalSpeed,
        d.gForce == r.gForce,
        d.fuel == r.fuel,
        d.transponder == r.transponder,
        d.bridgeType == r.bridgeType,
        d.isOnGround == r.isOnGround,
        d.isSlew == r.isSlew,
        d.isPaused == r.isPaused,
        d.pitch == r.pitch,
        d.roll == r.roll,
        d.time == r.time,
        d.fps == r.fps,
        d.aircraftType@ == text_field(r.aircraftType@),
        r.aircraftType@.len() == TEXT_WIDTH ==> d.aircraftType@ == r.aircraftType@,
{
    lemma_round_trip(r);
    if r.aircraftType@.len() == TEXT_WIDTH {
        assert(text_field(r.aircraftType@) =~= r.aircraftType@);
    }
}

} // verus!
