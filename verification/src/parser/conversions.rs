//! Building the device description from the raw document.
//!
//! Every type of the description is built from its raw entity by `from_raw`,
//! which borrows the entity, and by `try_from`, which takes it. What is built
//! is stated in [`crate::parser::model`].
use crate::error::{result_view, Entity, Error, ErrorView, Field};
use crate::literal::{
    bool_from_str, u16_from_hex_dec_value, u32_from_hex_dec_value, u8_from_hex_dec_value,
};
use crate::parser::model::{
    description_model, device_model, entry_model, flag, group_model, info_model, listed_devices,
    listed_groups, listed_modules, module_model, modules_model, name_model, names_model,
    lemma_try_map_error, lemma_try_map_same, optional_u16, optional_u32, optional_u8,
    pdo_model, pdos_model, sm_model, try_map, vendor_model,
};
use crate::parser::properties::{all_with_tag, first_with_tag, require_with_tag, targets, Tag};
use crate::parser::{
    Descriptions, Device, DeviceProperty, DeviceType, Devices, Entry, EtherCATInfo, Group,
    GroupProperty, Groups, Module, Modules, Name, Pdo, Sm, Vendor,
};
use crate::structs;
use crate::structs::{clone_text, Names};
use ethercat_types::{Idx, PdoEntryIdx, PdoIdx, SmIdx, SubIdx};
use vstd::prelude::*;

verus! {

/// A part of the device description that is built from a raw entity.
pub trait FromRaw<Raw>: Sized + DeepView {
    /// What the raw entity stands for: the value of what is built from it, or
    /// of the error that it is turned down with.
    spec fn model(raw: Raw) -> Result<<Self as DeepView>::V, ErrorView>;

    /// Builds the part that the raw entity stands for.
    fn from_raw(raw: &Raw) -> (r: Result<Self, Error>)
        ensures
            result_view(r) == Self::model(*raw),
    ;
}

/// What the raw entities of a list stand for, one by one.
pub open spec fn models<Raw, T: FromRaw<Raw>>(raws: Seq<Raw>) -> Result<
    Seq<<T as DeepView>::V>,
    ErrorView,
> {
    try_map(raws, |raw: Raw| T::model(raw))
}

/// What the raw entities of a list stand for is what a function gives that
/// agrees with the model on every entity.
pub proof fn lemma_models<Raw, T: FromRaw<Raw>>(
    raws: Seq<Raw>,
    f: spec_fn(Raw) -> Result<<T as DeepView>::V, ErrorView>,
)
    requires
        forall|raw: Raw| #[trigger] f(raw) == T::model(raw),
    ensures
        models::<Raw, T>(raws) == try_map(raws, f),
{
    lemma_try_map_same(raws, |raw: Raw| T::model(raw), f);
}

/// References to the elements of a list, in order.
pub fn borrow_all<T>(items: &Vec<T>) -> (refs: Vec<&T>)
    ensures
        targets(refs@) == items@,
{
    let mut refs: Vec<&T> = Vec::new();
    let mut i: usize = 0;
    while i < items.len()
        invariant
            i <= items.len(),
            targets(refs@) =~= items@.take(i as int),
        decreases items.len() - i,
    {
        let ghost before = targets(refs@);
        refs.push(&items[i]);
        assert(targets(refs@) =~= before.push(items@[i as int]));
        i += 1;
    }
    proof {
        assert(items@.take(items.len() as int) =~= items@);
    }
    refs
}

/// Builds the parts that the raw entities stand for, in order. Stops at the
/// first entity that is turned down, and returns its error.
pub fn convert_refs<Raw, T: FromRaw<Raw>>(raws: &Vec<&Raw>) -> (r: Result<Vec<T>, Error>)
    ensures
        result_view(r) == models::<Raw, T>(targets(raws@)),
{
    let mut built: Vec<T> = Vec::new();
    let mut i: usize = 0;
    assert(built.deep_view() =~= Seq::empty());
    while i < raws.len()
        invariant
            i <= raws.len(),
            models::<Raw, T>(targets(raws@).take(i as int)) == Ok::<Seq<T::V>, ErrorView>(
                built.deep_view(),
            ),
        decreases raws.len() - i,
    {
        proof {
            assert(targets(raws@).take(i + 1).drop_last() =~= targets(raws@).take(i as int));
            assert(targets(raws@).take(i + 1).last() == *raws@[i as int]);
        }
        match T::from_raw(raws[i]) {
            Err(e) => {
                proof {
                    lemma_try_map_error(targets(raws@), |raw: Raw| T::model(raw), i + 1);
                }
                return Err(e);
            },
            Ok(part) => {
                let ghost before = built.deep_view();
                built.push(part);
                assert(built.deep_view() =~= before.push(part.deep_view()));
            },
        }
        i += 1;
    }
    proof {
        assert(targets(raws@).take(raws.len() as int) =~= targets(raws@));
    }
    Ok(built)
}

/// Builds the parts that the raw entities stand for, in order. Stops at the
/// first entity that is turned down, and returns its error.
pub fn convert_all<Raw, T: FromRaw<Raw>>(raws: &Vec<Raw>) -> (r: Result<Vec<T>, Error>)
    ensures
        result_view(r) == models::<Raw, T>(raws@),
{
    let refs = borrow_all(raws);
    convert_refs::<Raw, T>(&refs)
}

/// Reads a number that may be absent into a `u8`.
fn read_optional_u8(text: &Option<String>) -> (r: Result<Option<u8>, Error>)
    ensures
        result_view(r) == optional_u8(text.deep_view()),
{
    match text {
        None => Ok(None),
        Some(text) => match u8_from_hex_dec_value(text.as_str()) {
            Ok(n) => Ok(Some(n)),
            Err(e) => Err(e),
        },
    }
}

/// Reads a number that may be absent into a `u16`.
fn read_optional_u16(text: &Option<String>) -> (r: Result<Option<u16>, Error>)
    ensures
        result_view(r) == optional_u16(text.deep_view()),
{
    match text {
        None => Ok(None),
        Some(text) => match u16_from_hex_dec_value(text.as_str()) {
            Ok(n) => Ok(Some(n)),
            Err(e) => Err(e),
        },
    }
}

/// Reads a number that may be absent into a `u32`.
fn read_optional_u32(text: &Option<String>) -> (r: Result<Option<u32>, Error>)
    ensures
        result_view(r) == optional_u32(text.deep_view()),
{
    match text {
        None => Ok(None),
        Some(text) => match u32_from_hex_dec_value(text.as_str()) {
            Ok(n) => Ok(Some(n)),
            Err(e) => Err(e),
        },
    }
}

/// Reads a flag: false where it is absent.
fn read_flag(text: &Option<String>) -> (r: Result<bool, Error>)
    ensures
        result_view(r) == flag(text.deep_view()),
{
    match text {
        None => Ok(false),
        Some(text) => bool_from_str(text.as_str()),
    }
}

impl FromRaw<Name> for (String, Option<u16>) {
    open spec fn model(raw: Name) -> Result<(Seq<char>, Option<u16>), ErrorView> {
        name_model(raw)
    }

    fn from_raw(raw: &Name) -> (r: Result<(String, Option<u16>), Error>) {
        match read_optional_u16(&raw.LcId) {
            Err(e) => Err(e),
            Ok(language) => Ok((raw.value.clone(), language)),
        }
    }
}

/// Builds the names of an entity, in the order of the document.
pub fn convert_names(names: &Vec<&Name>) -> (r: Result<Names, Error>)
    ensures
        result_view(r) == names_model(targets(names@)),
{
    proof {
        lemma_models::<Name, (String, Option<u16>)>(targets(names@), |n: Name| name_model(n));
    }
    convert_refs::<Name, (String, Option<u16>)>(names)
}

/// Builds the PDOs of one direction of a device or module.
pub fn convert_pdos(pdos: &Vec<&Pdo>) -> (r: Result<Vec<structs::Pdo>, Error>)
    ensures
        result_view(r) == pdos_model(targets(pdos@)),
{
    proof {
        lemma_models::<Pdo, structs::Pdo>(targets(pdos@), |pdo: Pdo| pdo_model(pdo));
    }
    convert_refs::<Pdo, structs::Pdo>(pdos)
}

/// Builds the modules of a list that may be absent.
pub fn convert_modules(modules: &Option<Modules>) -> (r: Result<Vec<structs::Module>, Error>)
    ensures
        result_view(r) == modules_model(listed_modules(*modules)),
{
    match modules {
        Some(Modules { items: Some(items) }) => {
            proof {
                lemma_models::<Module, structs::Module>(items@, |m: Module| module_model(m));
            }
            convert_all::<Module, structs::Module>(items)
        },
        _ => {
            let none: Vec<structs::Module> = Vec::new();
            assert(none.deep_view() =~= Seq::empty());
            Ok(none)
        },
    }
}

impl FromRaw<Sm> for structs::Sm {
    open spec fn model(raw: Sm) -> Result<structs::Sm, ErrorView> {
        sm_model(raw)
    }

    fn from_raw(raw: &Sm) -> (r: Result<structs::Sm, Error>) {
        let start_address: u16 = match &raw.StartAddress {
            None => {
                return Err(Error::MissingMandatoryField(Entity::Sm, Field::StartAddress));
            },
            Some(address) => u16_from_hex_dec_value(address.as_str())?,
        };
        let control_byte = read_optional_u8(&raw.ControlByte)?;
        let default_size: Option<usize> = match read_optional_u32(&raw.DefaultSize)? {
            Some(n) => Some(n as usize),
            None => None,
        };
        let virtual_ = read_flag(&raw.Virtual)?;
        let enable = match raw.Enable {
            Some(n) => n == 1,
            None => false,
        };
        Ok(structs::Sm { enable, start_address, control_byte, default_size, virtual_ })
    }
}

impl TryFrom<Sm> for structs::Sm {
    type Error = Error;

    fn try_from(sm: Sm) -> (r: Result<structs::Sm, Error>)
        ensures
            result_view(r) == sm_model(sm),
    {
        structs::Sm::from_raw(&sm)
    }
}

/// What `try_from` returns, a value or an error, may hold lists and texts,
/// which only executable code can build: it is stated by the `ensures` of
/// `try_from`, over views, and not by a function of the raw entity.
impl vstd::std_specs::convert::TryFromSpecImpl<Sm> for structs::Sm {
    open spec fn obeys_try_from_spec() -> bool {
        false
    }

    open spec fn try_from_spec(v: Sm) -> Result<structs::Sm, Error> {
        arbitrary()
    }
}

impl FromRaw<Entry> for structs::PdoEntry {
    open spec fn model(raw: Entry) -> Result<structs::PdoEntryView, ErrorView> {
        entry_model(raw)
    }

    fn from_raw(raw: &Entry) -> (r: Result<structs::PdoEntry, Error>) {
        let idx: u16 = match &raw.Index {
            None => {
                return Err(Error::MissingMandatoryField(Entity::PdoEntry, Field::Index));
            },
            Some(index) => u16_from_hex_dec_value(index.value.as_str())?,
        };
        let sub: u8 = match read_optional_u8(&raw.SubIndex)? {
            Some(sub) => sub,
            None => 0,
        };
        let bit_len: usize = match raw.BitLen {
            None => {
                return Err(Error::MissingMandatoryField(Entity::PdoEntry, Field::BitLen));
            },
            Some(bit_len) => bit_len,
        };
        let name = convert_names(&borrow_all(&raw.Name))?;
        Ok(
            structs::PdoEntry {
                entry_idx: PdoEntryIdx { idx: Idx::from(idx), sub_idx: SubIdx::from(sub) },
                bit_len,
                name,
                data_type: clone_text(&raw.DataType),
            },
        )
    }
}

impl TryFrom<Entry> for structs::PdoEntry {
    type Error = Error;

    fn try_from(e: Entry) -> (r: Result<structs::PdoEntry, Error>)
        ensures
            result_view(r) == entry_model(e),
    {
        structs::PdoEntry::from_raw(&e)
    }
}

/// What `try_from` returns, a value or an error, may hold lists and texts,
/// which only executable code can build: it is stated by the `ensures` of
/// `try_from`, over views, and not by a function of the raw entity.
impl vstd::std_specs::convert::TryFromSpecImpl<Entry> for structs::PdoEntry {
    open spec fn obeys_try_from_spec() -> bool {
        false
    }

    open spec fn try_from_spec(v: Entry) -> Result<structs::PdoEntry, Error> {
        arbitrary()
    }
}

impl FromRaw<Pdo> for structs::Pdo {
    open spec fn model(raw: Pdo) -> Result<structs::PdoView, ErrorView> {
        pdo_model(raw)
    }

    fn from_raw(raw: &Pdo) -> (r: Result<structs::Pdo, Error>) {
        let fixed = read_flag(&raw.Fixed)?;
        let mandatory = read_flag(&raw.Mandatory)?;
        let name = convert_names(&borrow_all(&raw.Name))?;
        let idx: u16 = match &raw.Index {
            None => {
                return Err(Error::MissingMandatoryField(Entity::Pdo, Field::Index));
            },
            Some(index) => u16_from_hex_dec_value(index.value.as_str())?,
        };
        proof {
            lemma_models::<Entry, structs::PdoEntry>(raw.Entry@, |e: Entry| entry_model(e));
        }
        let entries = convert_all::<Entry, structs::PdoEntry>(&raw.Entry)?;
        let sm: Option<SmIdx> = match raw.Sm {
            Some(sm) => Some(SmIdx::from(sm)),
            None => None,
        };
        Ok(structs::Pdo { sm, fixed, mandatory, idx: PdoIdx::from(idx), name, entries })
    }
}

impl TryFrom<Pdo> for structs::Pdo {
    type Error = Error;

    fn try_from(pdo: Pdo) -> (r: Result<structs::Pdo, Error>)
        ensures
            result_view(r) == pdo_model(pdo),
    {
        structs::Pdo::from_raw(&pdo)
    }
}

/// What `try_from` returns, a value or an error, may hold lists and texts,
/// which only executable code can build: it is stated by the `ensures` of
/// `try_from`, over views, and not by a function of the raw entity.
impl vstd::std_specs::convert::TryFromSpecImpl<Pdo> for structs::Pdo {
    open spec fn obeys_try_from_spec() -> bool {
        false
    }

    open spec fn try_from_spec(v: Pdo) -> Result<structs::Pdo, Error> {
        arbitrary()
    }
}

impl FromRaw<Module> for structs::Module {
    open spec fn model(raw: Module) -> Result<structs::ModuleView, ErrorView> {
        module_model(raw)
    }

    fn from_raw(raw: &Module) -> (r: Result<structs::Module, Error>) {
        let type_: String = match &raw.Type {
            None => {
                return Err(Error::MissingMandatoryField(Entity::Module, Field::Type));
            },
            Some(type_) => type_.clone(),
        };
        let name = convert_names(&borrow_all(&raw.Name))?;
        let rx_pdo = convert_pdos(&borrow_all(&raw.RxPdo))?;
        let tx_pdo = convert_pdos(&borrow_all(&raw.TxPdo))?;
        let mailbox: Option<structs::Mailbox> = match &raw.Mailbox {
            Some(_) => Some(structs::Mailbox {  }),
            None => None,
        };
        let profile: Option<structs::Profile> = match &raw.Profile {
            Some(_) => Some(structs::Profile {  }),
            None => None,
        };
        Ok(structs::Module { type_, name, tx_pdo, rx_pdo, mailbox, profile })
    }
}

impl TryFrom<Module> for structs::Module {
    type Error = Error;

    fn try_from(m: Module) -> (r: Result<structs::Module, Error>)
        ensures
            result_view(r) == module_model(m),
    {
        structs::Module::from_raw(&m)
    }
}

/// What `try_from` returns, a value or an error, may hold lists and texts,
/// which only executable code can build: it is stated by the `ensures` of
/// `try_from`, over views, and not by a function of the raw entity.
impl vstd::std_specs::convert::TryFromSpecImpl<Module> for structs::Module {
    open spec fn obeys_try_from_spec() -> bool {
        false
    }

    open spec fn try_from_spec(v: Module) -> Result<structs::Module, Error> {
        arbitrary()
    }
}

impl FromRaw<Group> for structs::Group {
    open spec fn model(raw: Group) -> Result<structs::GroupView, ErrorView> {
        group_model(raw)
    }

    fn from_raw(raw: &Group) -> (r: Result<structs::Group, Error>) {
        let image = raw.image()?;
        let names = all_with_tag::<GroupProperty, Name>(&raw.items, Tag::Name);
        if names.len() == 0 {
            return Err(Error::MissingMandatoryField(Entity::Group, Field::Name));
        }
        let name = convert_names(&names)?;
        let type_: String = require_with_tag::<GroupProperty, String>(
            &raw.items,
            Tag::Type,
            Entity::Group,
            Field::Type,
        )?.clone();
        let comment: Option<String> = match first_with_tag::<GroupProperty, String>(
            &raw.items,
            Tag::Comment,
        ) {
            Some(comment) => Some(comment.clone()),
            None => None,
        };
        Ok(
            structs::Group {
                sort_order: raw.SortOrder,
                parent_group: clone_text(&raw.ParentGroup),
                type_,
                name,
                comment,
                image,
            },
        )
    }
}

impl TryFrom<Group> for structs::Group {
    type Error = Error;

    fn try_from(g: Group) -> (r: Result<structs::Group, Error>)
        ensures
            result_view(r) == group_model(g),
    {
        structs::Group::from_raw(&g)
    }
}

/// What `try_from` returns, a value or an error, may hold lists and texts,
/// which only executable code can build: it is stated by the `ensures` of
/// `try_from`, over views, and not by a function of the raw entity.
impl vstd::std_specs::convert::TryFromSpecImpl<Group> for structs::Group {
    open spec fn obeys_try_from_spec() -> bool {
        false
    }

    open spec fn try_from_spec(v: Group) -> Result<structs::Group, Error> {
        arbitrary()
    }
}

impl FromRaw<Device> for structs::Device {
    open spec fn model(raw: Device) -> Result<structs::DeviceView, ErrorView> {
        device_model(raw)
    }

    fn from_raw(raw: &Device) -> (r: Result<structs::Device, Error>) {
        let names = all_with_tag::<DeviceProperty, Name>(&raw.items, Tag::Name);
        if names.len() == 0 {
            return Err(Error::MissingMandatoryField(Entity::Device, Field::Name));
        }
        let name = convert_names(&names)?;
        let device_type: &DeviceType = require_with_tag::<DeviceProperty, DeviceType>(
            &raw.items,
            Tag::Type,
            Entity::Device,
            Field::Type,
        )?;
        let product_code = read_optional_u32(&device_type.ProductCode)?;
        let revision_no = read_optional_u32(&device_type.RevisionNo)?;
        let desc = device_type.Description.clone();
        let sms = all_with_tag::<DeviceProperty, Sm>(&raw.items, Tag::Sm);
        proof {
            lemma_models::<Sm, structs::Sm>(targets(sms@), |sm: Sm| sm_model(sm));
        }
        let sm = convert_refs::<Sm, structs::Sm>(&sms)?;
        let rx_pdo = convert_pdos(&all_with_tag::<DeviceProperty, Pdo>(&raw.items, Tag::RxPdo))?;
        let tx_pdo = convert_pdos(&all_with_tag::<DeviceProperty, Pdo>(&raw.items, Tag::TxPdo))?;
        Ok(
            structs::Device {
                physics: clone_text(&raw.Physics),
                name,
                desc,
                product_code,
                revision_no,
                sm,
                rx_pdo,
                tx_pdo,
            },
        )
    }
}

impl TryFrom<Device> for structs::Device {
    type Error = Error;

    fn try_from(d: Device) -> (r: Result<structs::Device, Error>)
        ensures
            result_view(r) == device_model(d),
    {
        structs::Device::from_raw(&d)
    }
}

/// What `try_from` returns, a value or an error, may hold lists and texts,
/// which only executable code can build: it is stated by the `ensures` of
/// `try_from`, over views, and not by a function of the raw entity.
impl vstd::std_specs::convert::TryFromSpecImpl<Device> for structs::Device {
    open spec fn obeys_try_from_spec() -> bool {
        false
    }

    open spec fn try_from_spec(v: Device) -> Result<structs::Device, Error> {
        arbitrary()
    }
}

impl FromRaw<Vendor> for structs::Vendor {
    open spec fn model(raw: Vendor) -> Result<structs::VendorView, ErrorView> {
        vendor_model(raw)
    }

    fn from_raw(raw: &Vendor) -> (r: Result<structs::Vendor, Error>) {
        let image = raw.image()?;
        let id: u32 = match &raw.Id {
            None => {
                return Err(Error::MissingMandatoryField(Entity::Vendor, Field::Id));
            },
            Some(id) => u32_from_hex_dec_value(id.as_str())?,
        };
        let name = convert_names(&borrow_all(&raw.Name))?;
        Ok(
            structs::Vendor {
                file_version: raw.FileVersion,
                id,
                name,
                comment: clone_text(&raw.Comment),
                url: clone_text(&raw.URL),
                desc_url: clone_text(&raw.DescriptionURL),
                image,
            },
        )
    }
}

impl TryFrom<Vendor> for structs::Vendor {
    type Error = Error;

    fn try_from(v: Vendor) -> (r: Result<structs::Vendor, Error>)
        ensures
            result_view(r) == vendor_model(v),
    {
        structs::Vendor::from_raw(&v)
    }
}

/// What `try_from` returns, a value or an error, may hold lists and texts,
/// which only executable code can build: it is stated by the `ensures` of
/// `try_from`, over views, and not by a function of the raw entity.
impl vstd::std_specs::convert::TryFromSpecImpl<Vendor> for structs::Vendor {
    open spec fn obeys_try_from_spec() -> bool {
        false
    }

    open spec fn try_from_spec(v: Vendor) -> Result<structs::Vendor, Error> {
        arbitrary()
    }
}

impl FromRaw<Descriptions> for structs::Description {
    open spec fn model(raw: Descriptions) -> Result<structs::DescriptionView, ErrorView> {
        description_model(raw)
    }

    fn from_raw(raw: &Descriptions) -> (r: Result<structs::Description, Error>) {
        let groups: Vec<structs::Group> = match &raw.Groups {
            Some(Groups { items: Some(items) }) => {
                proof {
                    lemma_models::<Group, structs::Group>(items@, |g: Group| group_model(g));
                }
                convert_all::<Group, structs::Group>(items)?
            },
            _ => Vec::new(),
        };
        assert(listed_groups(raw.Groups).len() == 0 ==> groups.deep_view() =~= Seq::empty());
        let devices: Vec<structs::Device> = match &raw.Devices {
            Some(Devices { items: Some(items) }) => {
                proof {
                    lemma_models::<Device, structs::Device>(items@, |d: Device| device_model(d));
                }
                convert_all::<Device, structs::Device>(items)?
            },
            _ => Vec::new(),
        };
        assert(listed_devices(raw.Devices).len() == 0 ==> devices.deep_view() =~= Seq::empty());
        let modules = convert_modules(&raw.Modules)?;
        Ok(structs::Description { groups, devices, modules })
    }
}

impl TryFrom<Descriptions> for structs::Description {
    type Error = Error;

    fn try_from(d: Descriptions) -> (r: Result<structs::Description, Error>)
        ensures
            result_view(r) == description_model(d),
    {
        structs::Description::from_raw(&d)
    }
}

/// What `try_from` returns, a value or an error, may hold lists and texts,
/// which only executable code can build: it is stated by the `ensures` of
/// `try_from`, over views, and not by a function of the raw entity.
impl vstd::std_specs::convert::TryFromSpecImpl<Descriptions> for structs::Description {
    open spec fn obeys_try_from_spec() -> bool {
        false
    }

    open spec fn try_from_spec(v: Descriptions) -> Result<structs::Description, Error> {
        arbitrary()
    }
}

impl FromRaw<EtherCATInfo> for structs::EtherCatInfo {
    open spec fn model(raw: EtherCATInfo) -> Result<structs::EtherCatInfoView, ErrorView> {
        info_model(raw)
    }

    fn from_raw(raw: &EtherCATInfo) -> (r: Result<structs::EtherCatInfo, Error>) {
        let description: structs::Description = match &raw.Descriptions {
            Some(d) => structs::Description::from_raw(d)?,
            None => structs::Description::default(),
        };
        let mut root_modules = convert_modules(&raw.Modules)?;
        let vendor: structs::Vendor = match &raw.Vendor {
            None => {
                return Err(Error::MissingMandatoryField(Entity::EtherCatInfo, Field::Vendor));
            },
            Some(vendor) => structs::Vendor::from_raw(vendor)?,
        };
        let structs::Description { groups, devices, mut modules } = description;
        let ghost nested = modules.deep_view();
        let ghost root = root_modules.deep_view();
        modules.append(&mut root_modules);
        assert(modules.deep_view() =~= nested + root);
        Ok(
            structs::EtherCatInfo {
                version: clone_text(&raw.Version),
                info_reference: clone_text(&raw.InfoReference),
                vendor,
                description: structs::Description { groups, devices, modules },
            },
        )
    }
}

impl TryFrom<EtherCATInfo> for structs::EtherCatInfo {
    type Error = Error;

    fn try_from(x: EtherCATInfo) -> (r: Result<structs::EtherCatInfo, Error>)
        ensures
            result_view(r) == info_model(x),
    {
        structs::EtherCatInfo::from_raw(&x)
    }
}

/// What `try_from` returns, a value or an error, may hold lists and texts,
/// which only executable code can build: it is stated by the `ensures` of
/// `try_from`, over views, and not by a function of the raw entity.
impl vstd::std_specs::convert::TryFromSpecImpl<EtherCATInfo> for structs::EtherCatInfo {
    open spec fn obeys_try_from_spec() -> bool {
        false
    }

    open spec fn try_from_spec(v: EtherCATInfo) -> Result<structs::EtherCatInfo, Error> {
        arbitrary()
    }
}

impl structs::EtherCatInfo {
    /// Builds the device description from what an XML reader made of the text
    /// of a document: the raw document, or the reader's diagnostic where the
    /// text is not well-formed XML of the expected shape.
    pub fn from_read(read: Result<EtherCATInfo, String>) -> (r: Result<
        structs::EtherCatInfo,
        Error,
    >)
        ensures
            result_view(r) == match read {
                Ok(raw) => info_model(raw),
                Err(diagnostic) => Err(ErrorView::MalformedXml(diagnostic@)),
            },
    {
        match read {
            Ok(raw) => structs::EtherCatInfo::from_raw(&raw),
            Err(diagnostic) => Err(Error::MalformedXml(diagnostic)),
        }
    }
}

} // verus!
