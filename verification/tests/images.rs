use ethercat_esi::error::{Entity, Error};
use ethercat_esi::parser::image::resolve_image;
use ethercat_esi::parser::{Group, GroupProperty, Name, Vendor};
use ethercat_esi::structs::{HexBinary, Image};

fn text(s: &str) -> Option<String> {
    Some(s.to_string())
}

fn vendor(bitmap: Option<&str>, file: Option<&str>, data: Option<&str>) -> Vendor {
    Vendor {
        Id: text("1"),
        Image16x14: bitmap.map(str::to_string),
        ImageFile16x14: file.map(str::to_string),
        ImageData16x14: data.map(str::to_string),
        ..Default::default()
    }
}

fn group(images: Vec<GroupProperty>) -> Group {
    let mut items = vec![
        GroupProperty::Type("Coupler".to_string()),
        GroupProperty::Name(Name { LcId: None, value: "Coupler".to_string() }),
    ];
    items.extend(images);
    Group { items, ..Default::default() }
}

#[test]
fn no_form_is_no_image() {
    assert_eq!(resolve_image(None, None, None, Entity::Vendor), Ok(None));
    assert_eq!(vendor(None, None, None).image(), Ok(None));
    assert_eq!(group(vec![]).image(), Ok(None));
}

#[test]
fn one_form_is_the_image() {
    let s = "7D".to_string();
    assert_eq!(
        resolve_image(Some(&s), None, None, Entity::Vendor),
        Ok(Some(Image::Image16x14("7D".to_string())))
    );
    assert_eq!(
        resolve_image(None, Some(&s), None, Entity::Vendor),
        Ok(Some(Image::ImageFile16x14("7D".to_string())))
    );
    assert_eq!(
        resolve_image(None, None, Some(&s), Entity::Vendor),
        Ok(Some(Image::ImageData16x14(HexBinary("7D".to_string()))))
    );
}

#[test]
fn a_vendor_has_the_image_that_is_present() {
    assert_eq!(
        vendor(Some("bmp"), None, None).image(),
        Ok(Some(Image::Image16x14("bmp".to_string())))
    );
    assert_eq!(
        vendor(None, Some("logo.bmp"), None).image(),
        Ok(Some(Image::ImageFile16x14("logo.bmp".to_string())))
    );
    assert_eq!(
        vendor(None, None, Some("7D7D7D7")).image(),
        Ok(Some(Image::ImageData16x14(HexBinary("7D7D7D7".to_string()))))
    );
}

#[test]
fn two_or_three_forms_are_ambiguous() {
    let ambiguous = Err(Error::AmbiguousImageVariant(Entity::Vendor));
    assert_eq!(vendor(Some("a"), Some("b"), None).image(), ambiguous);
    assert_eq!(vendor(Some("a"), None, Some("c")).image(), ambiguous);
    assert_eq!(vendor(None, Some("b"), Some("c")).image(), ambiguous);
    assert_eq!(vendor(Some("a"), Some("b"), Some("c")).image(), ambiguous);
    let s = String::new();
    assert_eq!(
        resolve_image(Some(&s), Some(&s), None, Entity::Group),
        Err(Error::AmbiguousImageVariant(Entity::Group))
    );
}

#[test]
fn a_group_has_the_image_of_its_one_image_element() {
    assert_eq!(
        group(vec![GroupProperty::Image16x14("bmp".to_string())]).image(),
        Ok(Some(Image::Image16x14("bmp".to_string())))
    );
    assert_eq!(
        group(vec![GroupProperty::ImageFile16x14("g.bmp".to_string())]).image(),
        Ok(Some(Image::ImageFile16x14("g.bmp".to_string())))
    );
    assert_eq!(
        group(vec![GroupProperty::ImageData16x14("44".to_string())]).image(),
        Ok(Some(Image::ImageData16x14(HexBinary("44".to_string()))))
    );
}

#[test]
fn a_group_with_two_image_elements_is_ambiguous() {
    let ambiguous = Err(Error::AmbiguousImageVariant(Entity::Group));
    assert_eq!(
        group(vec![
            GroupProperty::Image16x14("a".to_string()),
            GroupProperty::ImageData16x14("b".to_string()),
        ])
        .image(),
        ambiguous
    );
    assert_eq!(
        group(vec![
            GroupProperty::ImageFile16x14("a".to_string()),
            GroupProperty::Image16x14("b".to_string()),
        ])
        .image(),
        ambiguous
    );
    assert_eq!(
        group(vec![
            GroupProperty::ImageData16x14("a".to_string()),
            GroupProperty::ImageData16x14("b".to_string()),
        ])
        .image(),
        ambiguous
    );
    assert_eq!(
        group(vec![
            GroupProperty::Image16x14("a".to_string()),
            GroupProperty::ImageFile16x14("b".to_string()),
            GroupProperty::ImageData16x14("c".to_string()),
        ])
        .image(),
        ambiguous
    );
}
