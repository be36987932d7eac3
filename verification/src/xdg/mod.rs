pub mod enums;
pub mod ifaces;
