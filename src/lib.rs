//! Low-level encoding primitives for an MQTT v5 style wire protocol: the
//! Variable Byte Integer codec, and the packet-type and reason-code tables.

pub mod variable_byte_integer;
pub mod packet_type;
pub mod reason_code;
