//! BACnet objects with verified property access.
pub mod object;
pub mod octet_string;
