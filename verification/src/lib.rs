pub mod client_state;
pub mod client_state_queue;
pub mod codec;
pub mod data;
pub mod error;
pub mod packets;
pub mod message_io;
pub mod mqtt_manager;
pub mod client;
pub mod messages;
pub mod packet_client;
pub mod poll_timing;
pub mod poll_client;
pub mod delay;
