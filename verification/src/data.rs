pub mod packet_identifier;
pub mod packet_type;
pub mod quality_of_service;
pub mod reason_code;
pub mod subscription_options;
pub mod string_pair;
pub mod property;
pub mod fixed_header_first_byte;
