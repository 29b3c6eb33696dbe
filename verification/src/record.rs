//! The telemetry record sent to the companion service.

use vstd::prelude::*;

verus! {

/// One telemetry sample, the sole message shape of the IPC channel.
///
/// Every field is required; the record is built whole by the caller and
/// consumed whole by one send. The serialized form writes the fields in
/// exactly this declaration order, so the order here is part of the wire
/// contract with the companion service.
///
/// The two geographic coordinates travel on the wire as 64-bit IEEE-754
/// values; the record stores their bit patterns (`f64::to_bits`) so that the
/// encoder can speak of them as plain 64-bit integers.
#[allow(non_snake_case)]
pub struct PflyIpcData {
    /// Altitude, feet.
    pub altitude: i32,
    /// Above-ground-level altitude.
    pub agl: i32,
    /// Ground speed.
    pub groundspeed: i32,
    /// Indicated airspeed.
    pub ias: i32,
    /// True heading.
    pub headingTrue: i32,
    /// Magnetic heading.
    pub headingMagnetic: i32,
    /// Latitude in decimal degrees, as an IEEE-754 double bit pattern.
    pub latitude_bits: u64,
    /// Longitude in decimal degrees, as an IEEE-754 double bit pattern.
    pub longitude_bits: u64,
    /// Vertical speed.
    pub verticalSpeed: i32,
    /// Vertical speed at touchdown.
    pub landingVerticalSpeed: i32,
    /// G-force times 1000; the consumer divides.
    pub gForce: i32,
    /// Fuel quantity.
    pub fuel: i32,
    /// Transponder code.
    pub transponder: i32,
    /// Enumerated source-simulator tag.
    pub bridgeType: u8,
    /// Ground-contact flag.
    pub isOnGround: bool,
    /// Slew-mode flag.
    pub isSlew: bool,
    /// Simulation-paused flag.
    pub isPaused: bool,
    /// Pitch attitude.
    pub pitch: i32,
    /// Roll attitude.
    pub roll: i32,
    /// Ignored by the recipient, which computes it itself.
    pub time: i32,
    /// Simulator frame rate.
    pub fps: i32,
    /// Aircraft type code as raw bytes; the encoder pads or truncates it to
    /// its fixed width on the wire.
    pub aircraftType: Vec<u8>,
}

impl PflyIpcData {
    /// Two records carry the same telemetry: every field holds the same
    /// value. The encoder reads nothing but these fields, so records that
    /// agree here encode identically.
    pub open spec fn same_fields(self, other: PflyIpcData) -> bool {
        &&& self.altitude == other.altitude
        &&& self.agl == other.agl
        &&& self.groundspeed == other.groundspeed
        &&& self.ias == other.ias
        &&& self.headingTrue == other.headingTrue
        &&& self.headingMagnetic == other.headingMagnetic
        &&& self.latitude_bits == other.latitude_bits
        &&& self.longitude_bits == other.longitude_bits
        &&& self.verticalSpeed == other.verticalSpeed
        &&& self.landingVerticalSpeed == other.landingVerticalSpeed
        &&& self.gForce == other.gForce
        &&& self.fuel == other.fuel
        &&& self.transponder == other.transponder
        &&& self.bridgeType == other.bridgeType
        &&& self.isOnGround == other.isOnGround
        &&& self.isSlew == other.isSlew
        &&& self.isPaused == other.isPaused
        &&& self.pitch == other.pitch
        &&& self.roll == other.roll
        &&& self.time == other.time
        &&& self.fps == other.fps
        &&& self.aircraftType@ == other.aircraftType@
    }
}

} // verus!
