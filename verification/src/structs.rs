//! The device description: what a document says, validated and typed.
//!
//! Each type has a mathematical value, its `deep_view`, in which a list is a
//! `Seq` and a text a `Seq<char>`. The conversions are stated over these.
pub use ethercat_types::{PdoEntryIdx, PdoIdx, SmIdx, SubIdx};
use vstd::prelude::*;

verus! {

/// Human readable names, each with the language id that it was given, in the
/// order of the document. The first name is the one to show where only one is
/// wanted.
pub type Names = Vec<(String, Option<u16>)>;

/// Mathematical value of [`Names`].
pub type NamesView = Seq<(Seq<char>, Option<u16>)>;

/// A copy of names.
pub(crate) fn clone_names(names: &Names) -> (copy: Names)
    ensures
        copy.deep_view() == names.deep_view(),
{
    let mut copy: Names = Vec::new();
    let mut i: usize = 0;
    while i < names.len()
        invariant
            i <= names.len(),
            copy.deep_view() =~= names.deep_view().take(i as int),
        decreases names.len() - i,
    {
        let ghost before = copy.deep_view();
        let name = (names[i].0.clone(), names[i].1);
        copy.push(name);
        assert(copy.deep_view() =~= before.push(name.deep_view()));
        i += 1;
    }
    assert(names.deep_view().take(names.len() as int) =~= names.deep_view());
    copy
}

/// A copy of a text that may be absent.
pub(crate) fn clone_text(text: &Option<String>) -> (copy: Option<String>)
    ensures
        copy.deep_view() == text.deep_view(),
{
    match text {
        Some(text) => Some(text.clone()),
        None => None,
    }
}

/// EtherCAT Slave Information (ESI).
#[derive(Debug, Clone, PartialEq)]
pub struct EtherCatInfo {
    pub version: Option<String>,
    pub info_reference: Option<String>,
    pub vendor: Vendor,
    pub description: Description,
}

/// Mathematical value of an [`EtherCatInfo`].
pub struct EtherCatInfoView {
    pub version: Option<Seq<char>>,
    pub info_reference: Option<Seq<char>>,
    pub vendor: VendorView,
    pub description: DescriptionView,
}

impl DeepView for EtherCatInfo {
    type V = EtherCatInfoView;

    open spec fn deep_view(&self) -> EtherCatInfoView {
        EtherCatInfoView {
            version: self.version.deep_view(),
            info_reference: self.info_reference.deep_view(),
            vendor: self.vendor.deep_view(),
            description: self.description.deep_view(),
        }
    }
}

/// Vendor information.
#[derive(Debug, Clone, PartialEq)]
pub struct Vendor {
    pub file_version: Option<u32>,
    pub id: u32,
    pub name: Names,
    pub comment: Option<String>,
    pub url: Option<String>,
    pub desc_url: Option<String>,
    pub image: Option<Image>,
}

/// Mathematical value of a [`Vendor`].
pub struct VendorView {
    pub file_version: Option<u32>,
    pub id: u32,
    pub name: NamesView,
    pub comment: Option<Seq<char>>,
    pub url: Option<Seq<char>>,
    pub desc_url: Option<Seq<char>>,
    pub image: Option<ImageView>,
}

impl DeepView for Vendor {
    type V = VendorView;

    open spec fn deep_view(&self) -> VendorView {
        VendorView {
            file_version: self.file_version,
            id: self.id,
            name: self.name.deep_view(),
            comment: self.comment.deep_view(),
            url: self.url.deep_view(),
            desc_url: self.desc_url.deep_view(),
            image: self.image.deep_view(),
        }
    }
}

/// Further slave descriptions.
#[derive(Debug, Clone, PartialEq)]
pub struct Description {
    pub groups: Vec<Group>,
    pub devices: Vec<Device>,
    pub modules: Vec<Module>,
}

/// Mathematical value of a [`Description`].
pub struct DescriptionView {
    pub groups: Seq<GroupView>,
    pub devices: Seq<DeviceView>,
    pub modules: Seq<ModuleView>,
}

impl DescriptionView {
    /// The description without any group, device or module.
    pub open spec fn empty() -> DescriptionView {
        DescriptionView { groups: Seq::empty(), devices: Seq::empty(), modules: Seq::empty() }
    }
}

impl DeepView for Description {
    type V = DescriptionView;

    open spec fn deep_view(&self) -> DescriptionView {
        DescriptionView {
            groups: self.groups.deep_view(),
            devices: self.devices.deep_view(),
            modules: self.modules.deep_view(),
        }
    }
}

impl Default for Description {
    fn default() -> (d: Description)
        ensures
            d.deep_view() == DescriptionView::empty(),
    {
        let d = Description { groups: Vec::new(), devices: Vec::new(), modules: Vec::new() };
        assert(d.groups.deep_view() =~= Seq::empty());
        assert(d.devices.deep_view() =~= Seq::empty());
        assert(d.modules.deep_view() =~= Seq::empty());
        d
    }
}

/// Image data (BMP file format).
#[derive(Debug, Clone, PartialEq)]
pub enum Image {
    /// Obsolete
    Image16x14(String),
    ImageFile16x14(String),
    ImageData16x14(HexBinary),
}

/// Mathematical value of an [`Image`].
pub enum ImageView {
    Image16x14(Seq<char>),
    ImageFile16x14(Seq<char>),
    ImageData16x14(Seq<char>),
}

impl DeepView for Image {
    type V = ImageView;

    open spec fn deep_view(&self) -> ImageView {
        match self {
            Image::Image16x14(bitmap) => ImageView::Image16x14(bitmap@),
            Image::ImageFile16x14(file) => ImageView::ImageFile16x14(file@),
            Image::ImageData16x14(data) => ImageView::ImageData16x14(data.deep_view()),
        }
    }
}

/// A way of sorting slaves into categories.
#[derive(Debug, Clone, PartialEq)]
pub struct Group {
    pub sort_order: Option<i32>,
    pub parent_group: Option<String>,
    pub type_: String,
    pub name: Names,
    pub comment: Option<String>,
    pub image: Option<Image>,
}

/// Mathematical value of a [`Group`].
pub struct GroupView {
    pub sort_order: Option<i32>,
    pub parent_group: Option<Seq<char>>,
    pub type_: Seq<char>,
    pub name: NamesView,
    pub comment: Option<Seq<char>>,
    pub image: Option<ImageView>,
}

impl DeepView for Group {
    type V = GroupView;

    open spec fn deep_view(&self) -> GroupView {
        GroupView {
            sort_order: self.sort_order,
            parent_group: self.parent_group.deep_view(),
            type_: self.type_@,
            name: self.name.deep_view(),
            comment: self.comment.deep_view(),
            image: self.image.deep_view(),
        }
    }
}

/// Profile of a physical slave device.
#[derive(Debug, Clone, PartialEq)]
pub struct Device {
    pub physics: Option<String>,
    pub name: Names,
    pub desc: String,
    pub product_code: Option<u32>,
    pub revision_no: Option<u32>,
    pub sm: Vec<Sm>,
    pub rx_pdo: Vec<Pdo>,
    pub tx_pdo: Vec<Pdo>,
}

/// Mathematical value of a [`Device`].
pub struct DeviceView {
    pub physics: Option<Seq<char>>,
    pub name: NamesView,
    pub desc: Seq<char>,
    pub product_code: Option<u32>,
    pub revision_no: Option<u32>,
    pub sm: Seq<Sm>,
    pub rx_pdo: Seq<PdoView>,
    pub tx_pdo: Seq<PdoView>,
}

impl DeepView for Device {
    type V = DeviceView;

    open spec fn deep_view(&self) -> DeviceView {
        DeviceView {
            physics: self.physics.deep_view(),
            name: self.name.deep_view(),
            desc: self.desc@,
            product_code: self.product_code,
            revision_no: self.revision_no,
            sm: self.sm.deep_view(),
            rx_pdo: self.rx_pdo.deep_view(),
            tx_pdo: self.tx_pdo.deep_view(),
        }
    }
}

/// Sync Manager (SM).
#[derive(Debug, Clone, PartialEq)]
pub struct Sm {
    pub enable: bool,
    pub start_address: u16,
    pub control_byte: Option<u8>,
    pub default_size: Option<usize>,
    pub virtual_: bool,
}

impl DeepView for Sm {
    type V = Sm;

    open spec fn deep_view(&self) -> Sm {
        *self
    }
}

/// Process Data Object (PDO).
#[derive(Debug, PartialEq)]
pub struct Pdo {
    pub sm: Option<SmIdx>,
    pub fixed: bool,
    pub mandatory: bool,
    pub idx: PdoIdx,
    pub name: Names,
    pub entries: Vec<PdoEntry>,
}

/// Mathematical value of a [`Pdo`].
pub struct PdoView {
    pub sm: Option<SmIdx>,
    pub fixed: bool,
    pub mandatory: bool,
    pub idx: PdoIdx,
    pub name: NamesView,
    pub entries: Seq<PdoEntryView>,
}

impl DeepView for Pdo {
    type V = PdoView;

    open spec fn deep_view(&self) -> PdoView {
        PdoView {
            sm: self.sm,
            fixed: self.fixed,
            mandatory: self.mandatory,
            idx: self.idx,
            name: self.name.deep_view(),
            entries: self.entries.deep_view(),
        }
    }
}

impl Clone for Pdo {
    fn clone(&self) -> (copy: Pdo)
        ensures
            copy.deep_view() == self.deep_view(),
    {
        let mut entries: Vec<PdoEntry> = Vec::new();
        let mut i: usize = 0;
        while i < self.entries.len()
            invariant
                i <= self.entries.len(),
                entries.deep_view() =~= self.entries.deep_view().take(i as int),
            decreases self.entries.len() - i,
        {
            let ghost before = entries.deep_view();
            let entry = self.entries[i].clone();
            entries.push(entry);
            assert(entries.deep_view() =~= before.push(entry.deep_view()));
            i += 1;
        }
        assert(self.entries.deep_view().take(self.entries.len() as int)
            =~= self.entries.deep_view());
        Pdo {
            sm: self.sm,
            fixed: self.fixed,
            mandatory: self.mandatory,
            idx: self.idx,
            name: clone_names(&self.name),
            entries,
        }
    }
}

/// Service Data Object (SDO).
#[derive(Debug, Clone, PartialEq)]
pub struct Sdo {}

/// PDO Entry.
#[derive(Debug, PartialEq)]
pub struct PdoEntry {
    pub entry_idx: PdoEntryIdx,
    pub bit_len: usize,
    pub name: Names,
    pub data_type: Option<String>,
}

/// Mathematical value of a [`PdoEntry`].
pub struct PdoEntryView {
    pub entry_idx: PdoEntryIdx,
    pub bit_len: usize,
    pub name: NamesView,
    pub data_type: Option<Seq<char>>,
}

impl DeepView for PdoEntry {
    type V = PdoEntryView;

    open spec fn deep_view(&self) -> PdoEntryView {
        PdoEntryView {
            entry_idx: self.entry_idx,
            bit_len: self.bit_len,
            name: self.name.deep_view(),
            data_type: self.data_type.deep_view(),
        }
    }
}

impl Clone for PdoEntry {
    fn clone(&self) -> (copy: PdoEntry)
        ensures
            copy.deep_view() == self.deep_view(),
    {
        PdoEntry {
            entry_idx: self.entry_idx,
            bit_len: self.bit_len,
            name: clone_names(&self.name),
            data_type: clone_text(&self.data_type),
        }
    }
}

/// Profile of a module, a part that a modular slave is put together from.
#[derive(Debug, Clone, PartialEq)]
pub struct Module {
    pub type_: String,
    pub name: Names,
    pub tx_pdo: Vec<Pdo>,
    pub rx_pdo: Vec<Pdo>,
    pub mailbox: Option<Mailbox>,
    pub profile: Option<Profile>,
}

/// Mathematical value of a [`Module`].
pub struct ModuleView {
    pub type_: Seq<char>,
    pub name: NamesView,
    pub tx_pdo: Seq<PdoView>,
    pub rx_pdo: Seq<PdoView>,
    pub mailbox: Option<Mailbox>,
    pub profile: Option<Profile>,
}

impl DeepView for Module {
    type V = ModuleView;

    open spec fn deep_view(&self) -> ModuleView {
        ModuleView {
            type_: self.type_@,
            name: self.name.deep_view(),
            tx_pdo: self.tx_pdo.deep_view(),
            rx_pdo: self.rx_pdo.deep_view(),
            mailbox: self.mailbox,
            profile: self.profile,
        }
    }
}

/// Mailbox protocols of a module. Not decoded: the value says only that the
/// document has the element.
#[derive(Debug, Clone, PartialEq)]
pub struct Mailbox {}

/// Profile of a module. Not decoded: the value says only that the document
/// has the element.
#[derive(Debug, Clone, PartialEq)]
pub struct Profile {}

/// HexBinary represents arbitrary hex-encoded binary data.
///
/// More info: https://www.w3.org/TR/xmlschema-2/#hexBinary
#[derive(Debug, Clone, PartialEq)]
pub struct HexBinary(pub String);

impl DeepView for HexBinary {
    type V = Seq<char>;

    open spec fn deep_view(&self) -> Seq<char> {
        self.0@
    }
}

} // verus!
