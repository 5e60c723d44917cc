//! What a raw document says: for each raw entity, the device description that
//! it stands for, or the error that it is turned down with.
//!
//! The fields of an entity are read in a fixed order, and the first one that
//! is missing though required, or that holds a text which is no literal,
//! decides the error. The entities of a list are read in the order of the
//! list, and the first one that is turned down decides the error.
use crate::error::{Entity, ErrorView, Field};
use crate::index::{idx_of, pdo_idx_of, sm_idx_of, sub_idx_of};
use crate::literal::{parse_boolean, parse_u16, parse_u32, parse_u8};
use crate::parser::image::{group_image_model, vendor_image_model};
use crate::parser::properties::{first, select, Tag};
use crate::parser::{
    Descriptions, Device, DeviceProperty, DeviceType, Devices, Entry, EtherCATInfo, Group,
    GroupProperty, Groups, Module, Modules, Name, Pdo, Sm, Vendor,
};
use crate::structs;
use crate::structs::{
    DescriptionView, DeviceView, EtherCatInfoView, GroupView, ModuleView, NamesView, PdoEntryView,
    PdoView, VendorView,
};
use ethercat_types::PdoEntryIdx;
use vstd::prelude::*;

verus! {

/// The results of `f` on the elements of `items`, in order; or, where `f`
/// fails on one of them, the error of the first on which it fails.
pub open spec fn try_map<A, B>(items: Seq<A>, f: spec_fn(A) -> Result<B, ErrorView>) -> Result<
    Seq<B>,
    ErrorView,
>
    decreases items.len(),
{
    if items.len() == 0 {
        Ok(Seq::empty())
    } else {
        match try_map(items.drop_last(), f) {
            Err(e) => Err(e),
            Ok(front) => match f(items.last()) {
                Err(e) => Err(e),
                Ok(b) => Ok(front.push(b)),
            },
        }
    }
}

/// A list is converted where every element is, and what comes of it holds the
/// results one by one. It is turned down where some element is, with the
/// error of the first such element.
pub proof fn try_map_stops_at_the_first_error<A, B>(
    items: Seq<A>,
    f: spec_fn(A) -> Result<B, ErrorView>,
)
    ensures
        match try_map(items, f) {
            Ok(results) => {
                &&& results.len() == items.len()
                &&& forall|i: int|
                    0 <= i < items.len() ==> #[trigger] f(items[i]) == Ok::<B, ErrorView>(
                        results[i],
                    )
            },
            Err(e) => exists|k: int|
                {
                    &&& 0 <= k < items.len()
                    &&& #[trigger] f(items[k]) == Err::<B, ErrorView>(e)
                    &&& forall|i: int| 0 <= i < k ==> (#[trigger] f(items[i])) is Ok
                },
        },
    decreases items.len(),
{
    if items.len() > 0 {
        let front = items.drop_last();
        try_map_stops_at_the_first_error(front, f);
        assert(forall|i: int| 0 <= i < front.len() ==> front[i] == #[trigger] items[i]);
        match try_map(front, f) {
            Ok(results) => {
                assert forall|i: int| 0 <= i < front.len() implies (#[trigger] f(items[i]))
                    == Ok::<B, ErrorView>(results[i]) by {
                    assert(f(front[i]) == Ok::<B, ErrorView>(results[i]));
                }
                if f(items.last()) is Err {
                    let k = items.len() - 1;
                    assert(f(items[k]) == Err::<B, ErrorView>(try_map(items, f)->Err_0));
                }
            },
            Err(e) => {
                let k = choose|k: int|
                    {
                        &&& 0 <= k < front.len()
                        &&& #[trigger] f(front[k]) == Err::<B, ErrorView>(e)
                        &&& forall|i: int| 0 <= i < k ==> (#[trigger] f(front[i])) is Ok
                    };
                assert(f(items[k]) == Err::<B, ErrorView>(e));
                assert forall|i: int| 0 <= i < k implies (#[trigger] f(items[i])) is Ok by {
                    assert(f(front[i]) is Ok);
                }
            },
        }
    }
}

/// Two functions that agree on every element give the same results on a list.
pub proof fn lemma_try_map_same<A, B>(
    items: Seq<A>,
    f: spec_fn(A) -> Result<B, ErrorView>,
    g: spec_fn(A) -> Result<B, ErrorView>,
)
    requires
        forall|a: A| #[trigger] f(a) == g(a),
    ensures
        try_map(items, f) == try_map(items, g),
    decreases items.len(),
{
    if items.len() > 0 {
        lemma_try_map_same(items.drop_last(), f, g);
    }
}

/// An error among the first `n` elements is the error of the whole list.
pub proof fn lemma_try_map_error<A, B>(
    items: Seq<A>,
    f: spec_fn(A) -> Result<B, ErrorView>,
    n: int,
)
    requires
        0 <= n <= items.len(),
        try_map(items.take(n), f) is Err,
    ensures
        try_map(items, f) == try_map(items.take(n), f),
    decreases items.len(),
{
    if n == items.len() {
        assert(items.take(n) =~= items);
    } else {
        assert(items.drop_last().take(n) =~= items.take(n));
        lemma_try_map_error(items.drop_last(), f, n);
    }
}

/// An error of a list is the error of one of its elements.
pub proof fn lemma_try_map_error_source<A, B>(
    items: Seq<A>,
    f: spec_fn(A) -> Result<B, ErrorView>,
)
    requires
        try_map(items, f) is Err,
    ensures
        exists|i: int|
            0 <= i < items.len() && #[trigger] f(items[i]) == Err::<B, ErrorView>(
                try_map(items, f)->Err_0,
            ),
{
    try_map_stops_at_the_first_error(items, f);
}

/// A number that may be absent, read into a `u8`.
pub open spec fn optional_u8(text: Option<Seq<char>>) -> Result<Option<u8>, ErrorView> {
    match text {
        None => Ok(None),
        Some(text) => match parse_u8(text) {
            Ok(n) => Ok(Some(n)),
            Err(e) => Err(e),
        },
    }
}

/// A number that may be absent, read into a `u16`.
pub open spec fn optional_u16(text: Option<Seq<char>>) -> Result<Option<u16>, ErrorView> {
    match text {
        None => Ok(None),
        Some(text) => match parse_u16(text) {
            Ok(n) => Ok(Some(n)),
            Err(e) => Err(e),
        },
    }
}

/// A number that may be absent, read into a `u32`.
pub open spec fn optional_u32(text: Option<Seq<char>>) -> Result<Option<u32>, ErrorView> {
    match text {
        None => Ok(None),
        Some(text) => match parse_u32(text) {
            Ok(n) => Ok(Some(n)),
            Err(e) => Err(e),
        },
    }
}

/// A flag: false where it is absent.
pub open spec fn flag(text: Option<Seq<char>>) -> Result<bool, ErrorView> {
    match text {
        None => Ok(false),
        Some(text) => parse_boolean(text),
    }
}

/// A name and the number of its language.
pub open spec fn name_model(n: Name) -> Result<(Seq<char>, Option<u16>), ErrorView> {
    match optional_u16(n.LcId.deep_view()) {
        Err(e) => Err(e),
        Ok(language) => Ok((n.value@, language)),
    }
}

/// The names of an entity, in the order of the document.
pub open spec fn names_model(names: Seq<Name>) -> Result<NamesView, ErrorView> {
    try_map(names, |n: Name| name_model(n))
}

/// A sync manager. The start address is required. A sync manager is enabled
/// where the document says `1`.
pub open spec fn sm_model(sm: Sm) -> Result<structs::Sm, ErrorView> {
    match sm.StartAddress {
        None => Err(ErrorView::MissingMandatoryField(Entity::Sm, Field::StartAddress)),
        Some(address) => match parse_u16(address@) {
            Err(e) => Err(e),
            Ok(start_address) => match optional_u8(sm.ControlByte.deep_view()) {
                Err(e) => Err(e),
                Ok(control_byte) => match optional_u32(sm.DefaultSize.deep_view()) {
                    Err(e) => Err(e),
                    Ok(size) => match flag(sm.Virtual.deep_view()) {
                        Err(e) => Err(e),
                        Ok(virtual_) => Ok(
                            structs::Sm {
                                enable: sm.Enable == Some(1u8),
                                start_address,
                                control_byte,
                                default_size: match size {
                                    Some(n) => Some(n as usize),
                                    None => None,
                                },
                                virtual_,
                            },
                        ),
                    },
                },
            },
        },
    }
}

/// The sync managers of a device.
pub open spec fn sms_model(sms: Seq<Sm>) -> Result<Seq<structs::Sm>, ErrorView> {
    try_map(sms, |sm: Sm| sm_model(sm))
}

/// An entry of a PDO. Index and bit length are required; the sub-index is 0
/// where it is absent.
pub open spec fn entry_model(e: Entry) -> Result<PdoEntryView, ErrorView> {
    match e.Index {
        None => Err(ErrorView::MissingMandatoryField(Entity::PdoEntry, Field::Index)),
        Some(index) => match parse_u16(index.value@) {
            Err(e) => Err(e),
            Ok(idx) => match optional_u8(e.SubIndex.deep_view()) {
                Err(e) => Err(e),
                Ok(sub) => match e.BitLen {
                    None => Err(
                        ErrorView::MissingMandatoryField(Entity::PdoEntry, Field::BitLen),
                    ),
                    Some(bit_len) => match names_model(e.Name@) {
                        Err(e) => Err(e),
                        Ok(name) => Ok(
                            PdoEntryView {
                                entry_idx: PdoEntryIdx {
                                    idx: idx_of(idx),
                                    sub_idx: sub_idx_of(
                                        match sub {
                                            Some(sub) => sub,
                                            None => 0,
                                        },
                                    ),
                                },
                                bit_len,
                                name,
                                data_type: e.DataType.deep_view(),
                            },
                        ),
                    },
                },
            },
        },
    }
}

/// The entries of a PDO.
pub open spec fn entries_model(entries: Seq<Entry>) -> Result<Seq<PdoEntryView>, ErrorView> {
    try_map(entries, |e: Entry| entry_model(e))
}

/// A PDO. The index is required; the flags are false where they are absent.
pub open spec fn pdo_model(pdo: Pdo) -> Result<PdoView, ErrorView> {
    match flag(pdo.Fixed.deep_view()) {
        Err(e) => Err(e),
        Ok(fixed) => match flag(pdo.Mandatory.deep_view()) {
            Err(e) => Err(e),
            Ok(mandatory) => match names_model(pdo.Name@) {
                Err(e) => Err(e),
                Ok(name) => match pdo.Index {
                    None => Err(ErrorView::MissingMandatoryField(Entity::Pdo, Field::Index)),
                    Some(index) => match parse_u16(index.value@) {
                        Err(e) => Err(e),
                        Ok(idx) => match entries_model(pdo.Entry@) {
                            Err(e) => Err(e),
                            Ok(entries) => Ok(
                                PdoView {
                                    sm: match pdo.Sm {
                                        Some(sm) => Some(sm_idx_of(sm)),
                                        None => None,
                                    },
                                    fixed,
                                    mandatory,
                                    idx: pdo_idx_of(idx),
                                    name,
                                    entries,
                                },
                            ),
                        },
                    },
                },
            },
        },
    }
}

/// The PDOs of one direction of a device or module.
pub open spec fn pdos_model(pdos: Seq<Pdo>) -> Result<Seq<PdoView>, ErrorView> {
    try_map(pdos, |pdo: Pdo| pdo_model(pdo))
}

/// A module. The type is required.
pub open spec fn module_model(m: Module) -> Result<ModuleView, ErrorView> {
    match m.Type {
        None => Err(ErrorView::MissingMandatoryField(Entity::Module, Field::Type)),
        Some(type_) => match names_model(m.Name@) {
            Err(e) => Err(e),
            Ok(name) => match pdos_model(m.RxPdo@) {
                Err(e) => Err(e),
                Ok(rx_pdo) => match pdos_model(m.TxPdo@) {
                    Err(e) => Err(e),
                    Ok(tx_pdo) => Ok(
                        ModuleView {
                            type_: type_@,
                            name,
                            tx_pdo,
                            rx_pdo,
                            mailbox: match m.Mailbox {
                                Some(_) => Some(structs::Mailbox {  }),
                                None => None,
                            },
                            profile: match m.Profile {
                                Some(_) => Some(structs::Profile {  }),
                                None => None,
                            },
                        },
                    ),
                },
            },
        },
    }
}

/// The modules of a list.
pub open spec fn modules_model(modules: Seq<Module>) -> Result<Seq<ModuleView>, ErrorView> {
    try_map(modules, |m: Module| module_model(m))
}

/// A group. It has at most one image; a name and the type are required.
pub open spec fn group_model(g: Group) -> Result<GroupView, ErrorView> {
    match group_image_model(g) {
        Err(e) => Err(e),
        Ok(image) => if select::<GroupProperty, Name>(g.items@, Tag::Name).len() == 0 {
            Err(ErrorView::MissingMandatoryField(Entity::Group, Field::Name))
        } else {
            match names_model(select::<GroupProperty, Name>(g.items@, Tag::Name)) {
                Err(e) => Err(e),
                Ok(name) => match first::<GroupProperty, String>(g.items@, Tag::Type) {
                    None => Err(ErrorView::MissingMandatoryField(Entity::Group, Field::Type)),
                    Some(type_) => Ok(
                        GroupView {
                            sort_order: g.SortOrder,
                            parent_group: g.ParentGroup.deep_view(),
                            type_: type_@,
                            name,
                            comment: first::<GroupProperty, String>(
                                g.items@,
                                Tag::Comment,
                            ).deep_view(),
                            image,
                        },
                    ),
                },
            }
        },
    }
}

/// The groups of a list.
pub open spec fn groups_model(groups: Seq<Group>) -> Result<Seq<GroupView>, ErrorView> {
    try_map(groups, |g: Group| group_model(g))
}

/// A device. A name and the type are required; product code and revision
/// number may be absent from the type.
pub open spec fn device_model(d: Device) -> Result<DeviceView, ErrorView> {
    if select::<DeviceProperty, Name>(d.items@, Tag::Name).len() == 0 {
        Err(ErrorView::MissingMandatoryField(Entity::Device, Field::Name))
    } else {
        match names_model(select::<DeviceProperty, Name>(d.items@, Tag::Name)) {
            Err(e) => Err(e),
            Ok(name) => match first::<DeviceProperty, DeviceType>(d.items@, Tag::Type) {
                None => Err(ErrorView::MissingMandatoryField(Entity::Device, Field::Type)),
                Some(device_type) => match optional_u32(device_type.ProductCode.deep_view()) {
                    Err(e) => Err(e),
                    Ok(product_code) => match optional_u32(device_type.RevisionNo.deep_view()) {
                        Err(e) => Err(e),
                        Ok(revision_no) => match sms_model(
                            select::<DeviceProperty, Sm>(d.items@, Tag::Sm),
                        ) {
                            Err(e) => Err(e),
                            Ok(sm) => match pdos_model(
                                select::<DeviceProperty, Pdo>(d.items@, Tag::RxPdo),
                            ) {
                                Err(e) => Err(e),
                                Ok(rx_pdo) => match pdos_model(
                                    select::<DeviceProperty, Pdo>(d.items@, Tag::TxPdo),
                                ) {
                                    Err(e) => Err(e),
                                    Ok(tx_pdo) => Ok(
                                        DeviceView {
                                            physics: d.Physics.deep_view(),
                                            name,
                                            desc: device_type.Description@,
                                            product_code,
                                            revision_no,
                                            sm,
                                            rx_pdo,
                                            tx_pdo,
                                        },
                                    ),
                                },
                            },
                        },
                    },
                },
            },
        }
    }
}

/// The devices of a list.
pub open spec fn devices_model(devices: Seq<Device>) -> Result<Seq<DeviceView>, ErrorView> {
    try_map(devices, |d: Device| device_model(d))
}

/// A vendor. It has at most one image; the id is required.
pub open spec fn vendor_model(v: Vendor) -> Result<VendorView, ErrorView> {
    match vendor_image_model(v) {
        Err(e) => Err(e),
        Ok(image) => match v.Id {
            None => Err(ErrorView::MissingMandatoryField(Entity::Vendor, Field::Id)),
            Some(id) => match parse_u32(id@) {
                Err(e) => Err(e),
                Ok(id) => match names_model(v.Name@) {
                    Err(e) => Err(e),
                    Ok(name) => Ok(
                        VendorView {
                            file_version: v.FileVersion,
                            id,
                            name,
                            comment: v.Comment.deep_view(),
                            url: v.URL.deep_view(),
                            desc_url: v.DescriptionURL.deep_view(),
                            image,
                        },
                    ),
                },
            },
        },
    }
}

/// The groups that a document lists: none where the list, or what is in it,
/// is absent.
pub open spec fn listed_groups(groups: Option<Groups>) -> Seq<Group> {
    match groups {
        Some(Groups { items: Some(items) }) => items@,
        _ => Seq::empty(),
    }
}

/// The devices that a document lists: none where the list, or what is in it,
/// is absent.
pub open spec fn listed_devices(devices: Option<Devices>) -> Seq<Device> {
    match devices {
        Some(Devices { items: Some(items) }) => items@,
        _ => Seq::empty(),
    }
}

/// The modules that a document lists: none where the list, or what is in it,
/// is absent.
pub open spec fn listed_modules(modules: Option<Modules>) -> Seq<Module> {
    match modules {
        Some(Modules { items: Some(items) }) => items@,
        _ => Seq::empty(),
    }
}

/// The descriptions.
pub open spec fn description_model(d: Descriptions) -> Result<DescriptionView, ErrorView> {
    match groups_model(listed_groups(d.Groups)) {
        Err(e) => Err(e),
        Ok(groups) => match devices_model(listed_devices(d.Devices)) {
            Err(e) => Err(e),
            Ok(devices) => match modules_model(listed_modules(d.Modules)) {
                Err(e) => Err(e),
                Ok(modules) => Ok(DescriptionView { groups, devices, modules }),
            },
        },
    }
}

/// The descriptions of a document: empty where it has none.
pub open spec fn descriptions_model(d: Option<Descriptions>) -> Result<
    DescriptionView,
    ErrorView,
> {
    match d {
        Some(d) => description_model(d),
        None => Ok(DescriptionView::empty()),
    }
}

/// The whole document. The vendor is required. The modules that stand
/// directly under the root follow those of the descriptions.
pub open spec fn info_model(x: EtherCATInfo) -> Result<EtherCatInfoView, ErrorView> {
    match descriptions_model(x.Descriptions) {
        Err(e) => Err(e),
        Ok(description) => match modules_model(listed_modules(x.Modules)) {
            Err(e) => Err(e),
            Ok(root_modules) => match x.Vendor {
                None => Err(
                    ErrorView::MissingMandatoryField(Entity::EtherCatInfo, Field::Vendor),
                ),
                Some(vendor) => match vendor_model(vendor) {
                    Err(e) => Err(e),
                    Ok(vendor) => Ok(
                        EtherCatInfoView {
                            version: x.Version.deep_view(),
                            info_reference: x.InfoReference.deep_view(),
                            vendor,
                            description: DescriptionView {
                                groups: description.groups,
                                devices: description.devices,
                                modules: description.modules + root_modules,
                            },
                        },
                    ),
                },
            },
        },
    }
}

} // verus!
