//! What holds of every conversion, whatever the document.
use crate::error::{Entity, ErrorView, Field};
use crate::literal::parse_u16;
use crate::parser::image::{
    group_image_model, image_count, one_group_image_at_most, one_image_at_most,
    variants_present, vendor_image_model,
};
use crate::parser::model::{
    description_model, descriptions_model, device_model, devices_model, entries_model,
    entry_model, flag, group_model, groups_model, info_model, listed_devices, listed_groups,
    listed_modules, module_model, modules_model, name_model, names_model, optional_u8,
    lemma_try_map_error_source, pdo_model, pdos_model, sm_model, sms_model, vendor_model,
};
use crate::parser::properties::{first, select, Tag};
use crate::parser::{
    Descriptions, Device, DeviceProperty, DeviceType, Entry, EtherCATInfo, Group, GroupProperty,
    Module, Name, Pdo, Sm, Vendor,
};
use crate::structs;
use crate::structs::{
    DescriptionView, DeviceView, EtherCatInfoView, GroupView, ImageView, ModuleView,
    PdoEntryView, PdoView, VendorView,
};
use vstd::prelude::*;

verus! {

/// The error that names a field which an entity lacks.
pub open spec fn missing<T>(entity: Entity, field: Field) -> Result<T, ErrorView> {
    Err(ErrorView::MissingMandatoryField(entity, field))
}

/// A sync manager without a start address is turned down, and the error names
/// the start address.
pub proof fn sm_requires_start_address(sm: Sm)
    requires
        sm.StartAddress is None,
    ensures
        sm_model(sm) == missing::<structs::Sm>(Entity::Sm, Field::StartAddress),
{
}

/// An entry without an index is turned down, and the error names the index.
/// An entry without a bit length is turned down; the error names the bit
/// length unless the index is missing too or a number before it cannot be
/// read.
pub proof fn entry_requires_index_and_bit_length(e: Entry)
    ensures
        e.Index is None ==> entry_model(e) == missing::<PdoEntryView>(
            Entity::PdoEntry,
            Field::Index,
        ),
        e.BitLen is None ==> entry_model(e) is Err,
        e.BitLen is None && e.Index is Some && parse_u16(e.Index->0.value@) is Ok && optional_u8(
            e.SubIndex.deep_view(),
        ) is Ok ==> entry_model(e) == missing::<PdoEntryView>(Entity::PdoEntry, Field::BitLen),
{
}

/// A PDO without an index is turned down; the error names the index unless a
/// flag or the language of a name cannot be read.
pub proof fn pdo_requires_index(pdo: Pdo)
    requires
        pdo.Index is None,
    ensures
        pdo_model(pdo) is Err,
        flag(pdo.Fixed.deep_view()) is Ok && flag(pdo.Mandatory.deep_view()) is Ok && names_model(
            pdo.Name@,
        ) is Ok ==> pdo_model(pdo) == missing::<PdoView>(Entity::Pdo, Field::Index),
{
}

/// A module without a type is turned down, and the error names the type.
pub proof fn module_requires_type(m: Module)
    requires
        m.Type is None,
    ensures
        module_model(m) == missing::<ModuleView>(Entity::Module, Field::Type),
{
}

/// A group without a name is turned down; the error names the name unless the
/// group has more than one image.
pub proof fn group_requires_name(g: Group)
    requires
        select::<GroupProperty, Name>(g.items@, Tag::Name).len() == 0,
    ensures
        group_model(g) is Err,
        image_count(g.items@) <= 1 ==> group_model(g) == missing::<GroupView>(
            Entity::Group,
            Field::Name,
        ),
{
    one_group_image_at_most(g);
}

/// A group without a type is turned down; the error names the type unless the
/// group has more than one image, has no name, or gives a name a language that
/// cannot be read.
pub proof fn group_requires_type(g: Group)
    requires
        first::<GroupProperty, String>(g.items@, Tag::Type) is None,
    ensures
        group_model(g) is Err,
        image_count(g.items@) <= 1 && select::<GroupProperty, Name>(g.items@, Tag::Name).len() > 0
            && names_model(select::<GroupProperty, Name>(g.items@, Tag::Name)) is Ok
            ==> group_model(g) == missing::<GroupView>(Entity::Group, Field::Type),
{
    one_group_image_at_most(g);
}

/// A device without a name is turned down, and the error names the name.
pub proof fn device_requires_name(d: Device)
    requires
        select::<DeviceProperty, Name>(d.items@, Tag::Name).len() == 0,
    ensures
        device_model(d) == missing::<DeviceView>(Entity::Device, Field::Name),
{
}

/// A device without a type is turned down; the error names the type unless the
/// device has no name, or gives a name a language that cannot be read.
pub proof fn device_requires_type(d: Device)
    requires
        first::<DeviceProperty, DeviceType>(d.items@, Tag::Type) is None,
    ensures
        device_model(d) is Err,
        select::<DeviceProperty, Name>(d.items@, Tag::Name).len() > 0 && names_model(
            select::<DeviceProperty, Name>(d.items@, Tag::Name),
        ) is Ok ==> device_model(d) == missing::<DeviceView>(Entity::Device, Field::Type),
{
}

/// A vendor without an id is turned down; the error names the id unless the
/// vendor has more than one image.
pub proof fn vendor_requires_id(v: Vendor)
    requires
        v.Id is None,
    ensures
        vendor_model(v) is Err,
        vendor_image_model(v) is Ok ==> vendor_model(v) == missing::<VendorView>(
            Entity::Vendor,
            Field::Id,
        ),
{
}

/// A document without a vendor is turned down; the error names the vendor
/// unless a group, a device or a module is turned down first.
pub proof fn document_requires_vendor(x: EtherCATInfo)
    requires
        x.Vendor is None,
    ensures
        info_model(x) is Err,
        descriptions_model(x.Descriptions) is Ok && modules_model(listed_modules(x.Modules)) is Ok
            ==> info_model(x) == missing::<EtherCatInfoView>(
            Entity::EtherCatInfo,
            Field::Vendor,
        ),
{
}

/// A vendor with two or three forms of image is turned down as ambiguous. A
/// vendor that is converted has no image where the document gives none, and
/// the one that the document gives where it gives one.
pub proof fn vendor_has_one_image_at_most(v: Vendor)
    ensures
        variants_present(
            v.Image16x14.deep_view(),
            v.ImageFile16x14.deep_view(),
            v.ImageData16x14.deep_view(),
        ) >= 2 ==> vendor_model(v) == Err::<VendorView, ErrorView>(
            ErrorView::AmbiguousImageVariant(Entity::Vendor),
        ),
        vendor_model(v) matches Ok(vendor) ==> vendor.image == (if v.Image16x14 is Some {
            Some(ImageView::Image16x14(v.Image16x14->0@))
        } else if v.ImageFile16x14 is Some {
            Some(ImageView::ImageFile16x14(v.ImageFile16x14->0@))
        } else if v.ImageData16x14 is Some {
            Some(ImageView::ImageData16x14(v.ImageData16x14->0@))
        } else {
            None
        }),
{
    one_image_at_most(
        v.Image16x14.deep_view(),
        v.ImageFile16x14.deep_view(),
        v.ImageData16x14.deep_view(),
        Entity::Vendor,
    );
}

/// A group with two or more image elements is turned down as ambiguous. A
/// group that is converted has no image where the document gives none, and
/// the one that the document gives where it gives one.
pub proof fn group_has_one_image_at_most(g: Group)
    ensures
        image_count(g.items@) >= 2 ==> group_model(g) == Err::<GroupView, ErrorView>(
            ErrorView::AmbiguousImageVariant(Entity::Group),
        ),
        group_model(g) matches Ok(group) ==> image_count(g.items@) <= 1 && Ok::<
            Option<ImageView>,
            ErrorView,
        >(group.image) == group_image_model(g),
{
    one_group_image_at_most(g);
}

/// Descriptions without groups, devices or modules are converted, and what
/// comes of it has none. This holds whether the list itself is absent, or
/// what is in it.
pub proof fn absent_lists_are_empty(d: Descriptions)
    requires
        d.Groups is None || d.Groups->0.items is None,
        d.Devices is None || d.Devices->0.items is None,
        d.Modules is None || d.Modules->0.items is None,
    ensures
        description_model(d) == Ok::<DescriptionView, ErrorView>(DescriptionView::empty()),
{
    assert(listed_groups(d.Groups) =~= Seq::empty());
    assert(listed_devices(d.Devices) =~= Seq::empty());
    assert(listed_modules(d.Modules) =~= Seq::empty());
}

/// A list that is absent from the descriptions stands in no other list's way:
/// where the descriptions are converted, the list is empty, and where they are
/// turned down, it is for an entity of another list.
pub proof fn an_absent_list_is_empty(d: Descriptions)
    ensures
        d.Groups is None || d.Groups->0.items is None ==> groups_model(listed_groups(d.Groups))
            == Ok::<Seq<GroupView>, ErrorView>(Seq::empty()),
        d.Devices is None || d.Devices->0.items is None ==> devices_model(
            listed_devices(d.Devices),
        ) == Ok::<Seq<DeviceView>, ErrorView>(Seq::empty()),
        d.Modules is None || d.Modules->0.items is None ==> modules_model(
            listed_modules(d.Modules),
        ) == Ok::<Seq<ModuleView>, ErrorView>(Seq::empty()),
        (d.Groups is None || d.Groups->0.items is None) ==> (description_model(d) matches Ok(
            description,
        ) ==> description.groups == Seq::<GroupView>::empty()),
        (d.Devices is None || d.Devices->0.items is None) ==> (description_model(d) matches Ok(
            description,
        ) ==> description.devices == Seq::<DeviceView>::empty()),
        (d.Modules is None || d.Modules->0.items is None) ==> (description_model(d) matches Ok(
            description,
        ) ==> description.modules == Seq::<ModuleView>::empty()),
{
    if d.Groups is None || d.Groups->0.items is None {
        assert(listed_groups(d.Groups) =~= Seq::empty());
    }
    if d.Devices is None || d.Devices->0.items is None {
        assert(listed_devices(d.Devices) =~= Seq::empty());
    }
    if d.Modules is None || d.Modules->0.items is None {
        assert(listed_modules(d.Modules) =~= Seq::empty());
    }
}

/// A document without descriptions and without modules under the root is
/// converted where its vendor is, and what comes of it has no group, no
/// device and no module.
pub proof fn document_without_descriptions(x: EtherCATInfo)
    requires
        x.Descriptions is None,
        x.Modules is None || x.Modules->0.items is None,
        x.Vendor is Some,
    ensures
        match vendor_model(x.Vendor->0) {
            Ok(vendor) => info_model(x) == Ok::<EtherCatInfoView, ErrorView>(
                EtherCatInfoView {
                    version: x.Version.deep_view(),
                    info_reference: x.InfoReference.deep_view(),
                    vendor,
                    description: DescriptionView::empty(),
                },
            ),
            Err(e) => info_model(x) == Err::<EtherCatInfoView, ErrorView>(e),
        },
{
    assert(listed_modules(x.Modules) =~= Seq::empty());
    assert(Seq::<ModuleView>::empty() + Seq::<ModuleView>::empty() =~= Seq::empty());
}

/// `r` is the error that names `field` of `entity` as missing.
pub open spec fn names_missing<T>(r: Result<T, ErrorView>, entity: Entity, field: Field) -> bool {
    r == missing::<T>(entity, field)
}

/// Names are never turned down for a missing field.
pub proof fn names_lack_nothing(names: Seq<Name>)
    ensures
        !(names_model(names) matches Err(ErrorView::MissingMandatoryField(_, _))),
{
    if names_model(names) is Err {
        lemma_try_map_error_source(names, |n: Name| name_model(n));
    }
}

/// Where a sync manager is turned down for a missing field, it is the start
/// address, and the document does not give it.
pub proof fn sm_lacks_what_the_error_names(sm: Sm, entity: Entity, field: Field)
    requires
        names_missing(sm_model(sm), entity, field),
    ensures
        entity == Entity::Sm,
        field == Field::StartAddress,
        sm.StartAddress is None,
{
}

/// Where an entry is turned down for a missing field, it is the index or the
/// bit length, and the document does not give it.
pub proof fn entry_lacks_what_the_error_names(e: Entry, entity: Entity, field: Field)
    requires
        names_missing(entry_model(e), entity, field),
    ensures
        entity == Entity::PdoEntry,
        field == Field::Index || field == Field::BitLen,
        field == Field::Index ==> e.Index is None,
        field == Field::BitLen ==> e.BitLen is None,
{
    names_lack_nothing(e.Name@);
}

/// Where a PDO is turned down for a missing field of its own, it is the
/// index, and the document does not give it. Any other missing field is
/// that of an entry.
pub proof fn pdo_lacks_what_the_error_names(pdo: Pdo, entity: Entity, field: Field)
    requires
        names_missing(pdo_model(pdo), entity, field),
    ensures
        entity == Entity::Pdo || entity == Entity::PdoEntry,
        entity == Entity::Pdo ==> field == Field::Index && pdo.Index is None,
{
    names_lack_nothing(pdo.Name@);
    if entries_model(pdo.Entry@) is Err {
        lemma_try_map_error_source(pdo.Entry@, |e: Entry| entry_model(e));
        let i = choose|i: int|
            0 <= i < pdo.Entry@.len() && entry_model(#[trigger] pdo.Entry@[i]) == Err::<
                PdoEntryView,
                ErrorView,
            >(entries_model(pdo.Entry@)->Err_0);
        if entries_model(pdo.Entry@)->Err_0 == ErrorView::MissingMandatoryField(entity, field) {
            entry_lacks_what_the_error_names(pdo.Entry@[i], entity, field);
        }
    }
}

/// Where the PDOs of a list are turned down for a missing field, it is a
/// field of a PDO or of an entry.
pub proof fn pdos_lack_what_the_error_names(pdos: Seq<Pdo>, entity: Entity, field: Field)
    requires
        names_missing(pdos_model(pdos), entity, field),
    ensures
        entity == Entity::Pdo || entity == Entity::PdoEntry,
{
    lemma_try_map_error_source(pdos, |pdo: Pdo| pdo_model(pdo));
    let i = choose|i: int|
        0 <= i < pdos.len() && pdo_model(#[trigger] pdos[i]) == Err::<PdoView, ErrorView>(
            pdos_model(pdos)->Err_0,
        );
    pdo_lacks_what_the_error_names(pdos[i], entity, field);
}

/// Where a module is turned down for a missing field of its own, it is the
/// type, and the document does not give it. Any other missing field is that
/// of a PDO or of an entry.
pub proof fn module_lacks_what_the_error_names(m: Module, entity: Entity, field: Field)
    requires
        names_missing(module_model(m), entity, field),
    ensures
        entity == Entity::Module || entity == Entity::Pdo || entity == Entity::PdoEntry,
        entity == Entity::Module ==> field == Field::Type && m.Type is None,
{
    names_lack_nothing(m.Name@);
    if m.Type is Some && names_model(m.Name@) is Ok {
        if pdos_model(m.RxPdo@) is Err {
            pdos_lack_what_the_error_names(m.RxPdo@, entity, field);
        } else {
            pdos_lack_what_the_error_names(m.TxPdo@, entity, field);
        }
    }
}

/// Where a group is turned down for a missing field, it is the name or the
/// type, and the document does not give it.
pub proof fn group_lacks_what_the_error_names(g: Group, entity: Entity, field: Field)
    requires
        names_missing(group_model(g), entity, field),
    ensures
        entity == Entity::Group,
        field == Field::Name || field == Field::Type,
        field == Field::Name ==> select::<GroupProperty, Name>(g.items@, Tag::Name).len() == 0,
        field == Field::Type ==> first::<GroupProperty, String>(g.items@, Tag::Type) is None,
{
    one_group_image_at_most(g);
    names_lack_nothing(select::<GroupProperty, Name>(g.items@, Tag::Name));
}

/// Where a device is turned down for a missing field of its own, it is the
/// name or the type, and the document does not give it. Any other missing
/// field is that of a sync manager, of a PDO or of an entry.
pub proof fn device_lacks_what_the_error_names(d: Device, entity: Entity, field: Field)
    requires
        names_missing(device_model(d), entity, field),
    ensures
        entity == Entity::Device || entity == Entity::Sm || entity == Entity::Pdo || entity
            == Entity::PdoEntry,
        entity == Entity::Device ==> field == Field::Name || field == Field::Type,
        entity == Entity::Device && field == Field::Name ==> select::<DeviceProperty, Name>(
            d.items@,
            Tag::Name,
        ).len() == 0,
        entity == Entity::Device && field == Field::Type ==> first::<DeviceProperty, DeviceType>(
            d.items@,
            Tag::Type,
        ) is None,
{
    let names = select::<DeviceProperty, Name>(d.items@, Tag::Name);
    let device_type = first::<DeviceProperty, DeviceType>(d.items@, Tag::Type);
    names_lack_nothing(names);
    if names.len() > 0 && names_model(names) is Ok && device_type is Some {
        let sms = select::<DeviceProperty, Sm>(d.items@, Tag::Sm);
        let rx = select::<DeviceProperty, Pdo>(d.items@, Tag::RxPdo);
        let tx = select::<DeviceProperty, Pdo>(d.items@, Tag::TxPdo);
        if sms_model(sms) is Err {
            lemma_try_map_error_source(sms, |sm: Sm| sm_model(sm));
            let i = choose|i: int|
                0 <= i < sms.len() && sm_model(#[trigger] sms[i]) == Err::<
                    structs::Sm,
                    ErrorView,
                >(sms_model(sms)->Err_0);
            if sms_model(sms)->Err_0 == ErrorView::MissingMandatoryField(entity, field) {
                sm_lacks_what_the_error_names(sms[i], entity, field);
            }
        } else if pdos_model(rx) is Err {
            if pdos_model(rx)->Err_0 == ErrorView::MissingMandatoryField(entity, field) {
                pdos_lack_what_the_error_names(rx, entity, field);
            }
        } else if pdos_model(tx) is Err {
            if pdos_model(tx)->Err_0 == ErrorView::MissingMandatoryField(entity, field) {
                pdos_lack_what_the_error_names(tx, entity, field);
            }
        }
    }
}

/// Where a vendor is turned down for a missing field, it is the id, and the
/// document does not give it.
pub proof fn vendor_lacks_what_the_error_names(v: Vendor, entity: Entity, field: Field)
    requires
        names_missing(vendor_model(v), entity, field),
    ensures
        entity == Entity::Vendor,
        field == Field::Id,
        v.Id is None,
{
    names_lack_nothing(v.Name@);
}

/// Where the modules of a list are turned down for a missing field, it is a
/// field of a module, of a PDO or of an entry.
pub proof fn modules_lack_what_the_error_names(
    modules: Seq<Module>,
    entity: Entity,
    field: Field,
)
    requires
        names_missing(modules_model(modules), entity, field),
    ensures
        entity == Entity::Module || entity == Entity::Pdo || entity == Entity::PdoEntry,
{
    lemma_try_map_error_source(modules, |m: Module| module_model(m));
    let i = choose|i: int|
        0 <= i < modules.len() && module_model(#[trigger] modules[i]) == Err::<
            ModuleView,
            ErrorView,
        >(modules_model(modules)->Err_0);
    module_lacks_what_the_error_names(modules[i], entity, field);
}

/// Where descriptions are turned down for a missing field, it is a field of
/// one of the entities in them, never of the document or of the vendor.
pub proof fn descriptions_lack_what_the_error_names(
    d: Descriptions,
    entity: Entity,
    field: Field,
)
    requires
        names_missing(description_model(d), entity, field),
    ensures
        entity != Entity::EtherCatInfo,
        entity != Entity::Vendor,
{
    let groups = listed_groups(d.Groups);
    let devices = listed_devices(d.Devices);
    let modules = listed_modules(d.Modules);
    if groups_model(groups) is Err {
        lemma_try_map_error_source(groups, |g: Group| group_model(g));
        let i = choose|i: int|
            0 <= i < groups.len() && group_model(#[trigger] groups[i]) == Err::<
                GroupView,
                ErrorView,
            >(groups_model(groups)->Err_0);
        group_lacks_what_the_error_names(groups[i], entity, field);
    } else if devices_model(devices) is Err {
        lemma_try_map_error_source(devices, |d: Device| device_model(d));
        let i = choose|i: int|
            0 <= i < devices.len() && device_model(#[trigger] devices[i]) == Err::<
                DeviceView,
                ErrorView,
            >(devices_model(devices)->Err_0);
        device_lacks_what_the_error_names(devices[i], entity, field);
    } else {
        modules_lack_what_the_error_names(modules, entity, field);
    }
}

/// Where a document is turned down for a missing field of its own, it is the
/// vendor, and the document does not give it.
pub proof fn document_lacks_what_the_error_names(x: EtherCATInfo, field: Field)
    requires
        names_missing(info_model(x), Entity::EtherCatInfo, field),
    ensures
        field == Field::Vendor,
        x.Vendor is None,
{
    if descriptions_model(x.Descriptions) is Err {
        descriptions_lack_what_the_error_names(x.Descriptions->0, Entity::EtherCatInfo, field);
    } else if modules_model(listed_modules(x.Modules)) is Err {
        modules_lack_what_the_error_names(
            listed_modules(x.Modules),
            Entity::EtherCatInfo,
            field,
        );
    } else if x.Vendor is Some {
        vendor_lacks_what_the_error_names(x.Vendor->0, Entity::EtherCatInfo, field);
    }
}

} // verus!
