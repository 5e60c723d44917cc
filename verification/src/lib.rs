//! EtherCAT Slave Information (ESI).
//!
//! An ESI document describes an EtherCAT slave device to a master stack: its
//! vendor, the groups it is listed under, its sync managers and the process
//! data objects that each of them exchanges.
//!
//! This crate turns the raw element tree of such a document ([`parser`]) into
//! a validated device description ([`structs`]). Vendors disagree on what the
//! format requires and on how numbers and booleans are written, so every raw
//! field is optional and every rule is applied here, in one place.
pub mod error;
pub mod index;
pub mod literal;
pub mod structs;
pub mod parser;

pub use error::Error;
pub use structs::{
    Description, Device, EtherCatInfo, Group, HexBinary, Image, Mailbox, Module, Names, Pdo,
    PdoEntry, Profile, Sdo, Sm, Vendor,
};
