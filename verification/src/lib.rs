//! Verified core of a sensor node that reads a DHT11 temperature/humidity
//! sensor and a flame sensor and publishes the readings to an MQTT broker.

pub mod text;
pub mod packet;
pub mod sensor;
pub mod flame;
pub mod wifi;
pub mod uplink;
pub mod laws;
