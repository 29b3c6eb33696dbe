//! Client-side support for the projectFly telemetry IPC channel.
//!
//! The library models the fixed-layout telemetry record that the companion
//! service reads from a local stream socket, and provides a verified encoder
//! that lays the record out as a fixed-width, little-endian byte sequence,
//! together with a reference decoder used to state and check the round-trip
//! behaviour of the wire format. The socket itself — connecting to the
//! well-known path and writing the encoded bytes — is I/O and lives with the
//! embedding application, which hands this library records and takes back
//! payload bytes.

pub mod record;
pub mod codec;

pub use record::PflyIpcData;
pub use codec::decode;
pub use codec::encode;
pub use codec::RECORD_LEN;
pub use codec::TEXT_WIDTH;
