pub mod packet;
pub mod acknowledgement;
pub mod puback;
pub mod pubrec;
pub mod pubrel;
pub mod pubcomp;
pub mod disconnect;
pub mod pingreq;
pub mod pingresp;
pub mod connack;
pub mod publish;
pub mod payload_list;
pub mod suback;
pub mod unsuback;
pub mod unsubscribe;
pub mod subscribe;
pub mod connect;
pub mod auth;
pub mod packet_generic;
pub mod laws;
