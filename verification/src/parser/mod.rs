//! The raw document: the element tree of an ESI document, as an XML reader
//! hands it over.
//!
//! Fields are named as the elements and attributes of the ESI schema are.
//! Vendors disagree on what a document has to hold, so nothing is required
//! here: an attribute or a child element that may be missing is an `Option`,
//! one that may repeat is a `Vec`. What a device description cannot do without
//! is decided in [`conversions`].
use vstd::prelude::*;

pub mod conversions;
pub mod image;
pub mod laws;
pub mod model;
pub mod properties;

verus! {

/// The root element.
#[allow(non_snake_case)]
#[derive(Debug, Clone, PartialEq, Default)]
pub struct EtherCATInfo {
    pub Version: Option<String>,
    pub InfoReference: Option<String>,
    pub Vendor: Option<Vendor>,
    pub Descriptions: Option<Descriptions>,
    /// Modules that a looser dialect lists directly under the root.
    pub Modules: Option<Modules>,
}

#[allow(non_snake_case)]
#[derive(Debug, Clone, PartialEq, Default)]
pub struct Vendor {
    pub FileVersion: Option<u32>,
    pub Id: Option<String>,
    pub Name: Vec<Name>,
    pub Comment: Option<String>,
    pub URL: Option<String>,
    pub DescriptionURL: Option<String>,
    pub Image16x14: Option<String>,
    pub ImageFile16x14: Option<String>,
    pub ImageData16x14: Option<String>,
}

#[allow(non_snake_case)]
#[derive(Debug, Clone, PartialEq, Default)]
pub struct Descriptions {
    pub Groups: Option<Groups>,
    pub Devices: Option<Devices>,
    pub Modules: Option<Modules>,
}

#[derive(Debug, Clone, PartialEq, Default)]
pub struct Groups {
    pub items: Option<Vec<Group>>,
}

#[derive(Debug, Clone, PartialEq, Default)]
pub struct Devices {
    pub items: Option<Vec<Device>>,
}

#[derive(Debug, Clone, PartialEq, Default)]
pub struct Modules {
    pub items: Option<Vec<Module>>,
}

/// A group: two attributes and a property bag.
#[allow(non_snake_case)]
#[derive(Debug, Clone, PartialEq, Default)]
pub struct Group {
    pub SortOrder: Option<i32>,
    pub ParentGroup: Option<String>,
    pub items: Vec<GroupProperty>,
}

/// A child element of a group.
#[derive(Debug, Clone, PartialEq)]
pub enum GroupProperty {
    Type(String),
    Name(Name),
    Comment(String),
    Image16x14(String),
    ImageFile16x14(String),
    ImageData16x14(String),
    /// An element that this crate does not know.
    Unknown,
}

/// A device: one attribute and a property bag.
#[allow(non_snake_case)]
#[derive(Debug, Clone, PartialEq, Default)]
pub struct Device {
    pub Physics: Option<String>,
    pub items: Vec<DeviceProperty>,
}

/// A name and the language that it is written in.
#[allow(non_snake_case)]
#[derive(Debug, Clone, PartialEq, Default)]
pub struct Name {
    pub LcId: Option<String>,
    pub value: String,
}

/// A child element of a device. The variants without a value stand for
/// elements that are known by name and not decoded.
#[derive(Debug, Clone, PartialEq)]
pub enum DeviceProperty {
    Type(DeviceType),
    Name(Name),
    RxPdo(RxPdo),
    TxPdo(TxPdo),
    Sm(Sm),
    Info,
    HideType,
    GroupType,
    URL,
    Profile,
    Eeprom,
    Fmmu,
    Image16x14(String),
    ImageFile16x14(String),
    ImageData16x14(String),
    Mailbox,
    Dc,
    Slots,
    /// An element that this crate does not know.
    Unknown,
}

#[allow(non_snake_case)]
#[derive(Debug, Clone, PartialEq, Default)]
pub struct DeviceType {
    pub ModulePdoGroup: Option<String>,
    pub ProductCode: Option<String>,
    pub RevisionNo: Option<String>,
    pub Description: String,
}

#[allow(non_snake_case)]
#[derive(Debug, Clone, PartialEq, Default)]
pub struct Sm {
    pub Enable: Option<u8>,
    pub StartAddress: Option<String>,
    pub ControlByte: Option<String>,
    pub DefaultSize: Option<String>,
    pub Virtual: Option<String>,
}

#[allow(non_snake_case)]
#[derive(Debug, Clone, PartialEq, Default)]
pub struct Entry {
    pub Index: Option<Index>,
    pub SubIndex: Option<String>,
    pub BitLen: Option<usize>,
    pub Name: Vec<Name>,
    pub DataType: Option<String>,
}

/// A PDO that the slave receives.
pub type RxPdo = Pdo;

/// A PDO that the slave transmits.
pub type TxPdo = Pdo;

#[allow(non_snake_case)]
#[derive(Debug, Clone, PartialEq, Default)]
pub struct Pdo {
    pub Sm: Option<u8>,
    pub Fixed: Option<String>,
    pub Mandatory: Option<String>,
    pub Index: Option<Index>,
    pub Name: Vec<Name>,
    pub Entry: Vec<Entry>,
}

#[allow(non_snake_case)]
#[derive(Debug, Clone, PartialEq, Default)]
pub struct Index {
    pub DependOnSlot: Option<usize>,
    pub value: String,
}

#[allow(non_snake_case)]
#[derive(Debug, Clone, PartialEq, Default)]
pub struct Module {
    pub Type: Option<String>,
    pub Name: Vec<Name>,
    pub TxPdo: Vec<Pdo>,
    pub RxPdo: Vec<Pdo>,
    pub Mailbox: Option<Mailbox>,
    pub Profile: Option<Profile>,
}

/// Profile of a module. Not decoded.
#[derive(Debug, Clone, PartialEq, Default)]
pub struct Profile {}

/// Mailbox protocols of a module. Not decoded.
#[derive(Debug, Clone, PartialEq, Default)]
pub struct Mailbox {}

} // verus!
