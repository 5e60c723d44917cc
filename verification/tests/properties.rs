use ethercat_esi::error::{Entity, Error, Field};
use ethercat_esi::parser::properties::{
    all_with_tag, first_with_tag, require_with_tag, Holds, Tag, Tagged,
};
use ethercat_esi::parser::{DeviceProperty, DeviceType, GroupProperty, Name, Pdo, Sm};

fn name(text: &str) -> Name {
    Name { LcId: None, value: text.to_string() }
}

fn sm(address: &str) -> Sm {
    Sm { StartAddress: Some(address.to_string()), ..Default::default() }
}

fn bag() -> Vec<GroupProperty> {
    vec![
        GroupProperty::Unknown,
        GroupProperty::Name(name("first")),
        GroupProperty::Comment("a".to_string()),
        GroupProperty::Type("Coupler".to_string()),
        GroupProperty::Unknown,
        GroupProperty::Name(name("second")),
        GroupProperty::Comment("b".to_string()),
        GroupProperty::Name(name("third")),
    ]
}

#[test]
fn every_group_property_has_its_tag() {
    assert_eq!(GroupProperty::Type(String::new()).tag(), Tag::Type);
    assert_eq!(GroupProperty::Name(name("")).tag(), Tag::Name);
    assert_eq!(GroupProperty::Comment(String::new()).tag(), Tag::Comment);
    assert_eq!(GroupProperty::Image16x14(String::new()).tag(), Tag::Image16x14);
    assert_eq!(GroupProperty::ImageFile16x14(String::new()).tag(), Tag::ImageFile16x14);
    assert_eq!(GroupProperty::ImageData16x14(String::new()).tag(), Tag::ImageData16x14);
    assert_eq!(GroupProperty::Unknown.tag(), Tag::Unknown);
}

#[test]
fn every_device_property_has_its_tag() {
    assert_eq!(DeviceProperty::Type(DeviceType::default()).tag(), Tag::Type);
    assert_eq!(DeviceProperty::Name(name("")).tag(), Tag::Name);
    assert_eq!(DeviceProperty::RxPdo(Pdo::default()).tag(), Tag::RxPdo);
    assert_eq!(DeviceProperty::TxPdo(Pdo::default()).tag(), Tag::TxPdo);
    assert_eq!(DeviceProperty::Sm(Sm::default()).tag(), Tag::Sm);
    assert_eq!(DeviceProperty::Info.tag(), Tag::Info);
    assert_eq!(DeviceProperty::HideType.tag(), Tag::HideType);
    assert_eq!(DeviceProperty::GroupType.tag(), Tag::GroupType);
    assert_eq!(DeviceProperty::URL.tag(), Tag::Url);
    assert_eq!(DeviceProperty::Profile.tag(), Tag::Profile);
    assert_eq!(DeviceProperty::Eeprom.tag(), Tag::Eeprom);
    assert_eq!(DeviceProperty::Fmmu.tag(), Tag::Fmmu);
    assert_eq!(DeviceProperty::Image16x14(String::new()).tag(), Tag::Image16x14);
    assert_eq!(DeviceProperty::ImageFile16x14(String::new()).tag(), Tag::ImageFile16x14);
    assert_eq!(DeviceProperty::ImageData16x14(String::new()).tag(), Tag::ImageData16x14);
    assert_eq!(DeviceProperty::Mailbox.tag(), Tag::Mailbox);
    assert_eq!(DeviceProperty::Dc.tag(), Tag::Dc);
    assert_eq!(DeviceProperty::Slots.tag(), Tag::Slots);
    assert_eq!(DeviceProperty::Unknown.tag(), Tag::Unknown);
}

#[test]
fn a_property_gives_the_value_of_its_type_only() {
    let text = GroupProperty::Comment("c".to_string());
    assert_eq!(Holds::<String>::value(&text), Some(&"c".to_string()));
    assert_eq!(Holds::<Name>::value(&text), None);
    let named = GroupProperty::Name(name("n"));
    assert_eq!(Holds::<Name>::value(&named), Some(&name("n")));
    assert_eq!(Holds::<String>::value(&named), None);
    assert_eq!(Holds::<String>::value(&GroupProperty::Unknown), None);
    let rx = DeviceProperty::RxPdo(Pdo::default());
    assert_eq!(Holds::<Pdo>::value(&rx), Some(&Pdo::default()));
    assert_eq!(Holds::<Sm>::value(&rx), None);
    assert_eq!(Holds::<Name>::value(&rx), None);
    assert_eq!(Holds::<DeviceType>::value(&rx), None);
    assert_eq!(Holds::<Sm>::value(&DeviceProperty::Sm(sm("1"))), Some(&sm("1")));
    assert_eq!(Holds::<Sm>::value(&DeviceProperty::Slots), None);
}

#[test]
fn all_with_tag_keeps_the_order_of_the_bag() {
    let items = bag();
    let names: Vec<&Name> = all_with_tag(&items, Tag::Name);
    assert_eq!(names, vec![&name("first"), &name("second"), &name("third")]);
    let comments: Vec<&String> = all_with_tag(&items, Tag::Comment);
    assert_eq!(comments, vec!["a", "b"]);
}

#[test]
fn all_with_tag_is_empty_where_nothing_matches() {
    let items = bag();
    let images: Vec<&String> = all_with_tag(&items, Tag::ImageData16x14);
    assert!(images.is_empty());
    let none: Vec<GroupProperty> = Vec::new();
    let names: Vec<&Name> = all_with_tag(&none, Tag::Name);
    assert!(names.is_empty());
}

#[test]
fn first_with_tag_takes_the_first_match() {
    let items = bag();
    let first_name: Option<&Name> = first_with_tag(&items, Tag::Name);
    assert_eq!(first_name, Some(&name("first")));
    let comment: Option<&String> = first_with_tag(&items, Tag::Comment);
    assert_eq!(comment, Some(&"a".to_string()));
    let image: Option<&String> = first_with_tag(&items, Tag::Image16x14);
    assert_eq!(image, None);
}

#[test]
fn require_with_tag_names_what_is_missing() {
    let items = bag();
    let found: Result<&String, Error> =
        require_with_tag(&items, Tag::Type, Entity::Group, Field::Type);
    assert_eq!(found, Ok(&"Coupler".to_string()));
    let missing: Result<&String, Error> =
        require_with_tag(&items, Tag::ImageFile16x14, Entity::Group, Field::Name);
    assert_eq!(missing, Err(Error::MissingMandatoryField(Entity::Group, Field::Name)));
}

#[test]
fn a_tag_selects_within_one_type_of_value() {
    let items = vec![
        DeviceProperty::Sm(sm("#x1000")),
        DeviceProperty::TxPdo(Pdo { Sm: Some(3), ..Default::default() }),
        DeviceProperty::Fmmu,
        DeviceProperty::RxPdo(Pdo { Sm: Some(2), ..Default::default() }),
        DeviceProperty::Sm(sm("#x1400")),
        DeviceProperty::TxPdo(Pdo { Sm: Some(4), ..Default::default() }),
    ];
    let tx: Vec<&Pdo> = all_with_tag(&items, Tag::TxPdo);
    assert_eq!(tx.iter().map(|p| p.Sm).collect::<Vec<_>>(), vec![Some(3), Some(4)]);
    let rx: Vec<&Pdo> = all_with_tag(&items, Tag::RxPdo);
    assert_eq!(rx.iter().map(|p| p.Sm).collect::<Vec<_>>(), vec![Some(2)]);
    let sms: Vec<&Sm> = all_with_tag(&items, Tag::Sm);
    assert_eq!(sms, vec![&sm("#x1000"), &sm("#x1400")]);
    let wrong_type: Vec<&Sm> = all_with_tag(&items, Tag::TxPdo);
    assert!(wrong_type.is_empty());
}
