//! Decoding and link management for a wireless GPS/IMU telemetry sensor.
//!
//! `message` holds the binary frame format: the checksum validator, the
//! decoder and the decoded record with its accessors. `connection` holds the
//! decisions of a device session: picking the sensor among the discovered
//! peripherals, locating its notify characteristic and forwarding its
//! notifications.
pub mod connection;
pub mod message;

pub use message::decode_rb_message;
pub use message::rb_checksum;
pub use message::RbMessage;
