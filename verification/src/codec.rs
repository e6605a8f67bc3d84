pub mod encoding;
pub mod mqtt_writer;
pub mod write;
pub mod mqtt_reader;
pub mod roundtrip;
pub mod framing;
