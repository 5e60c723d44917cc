//! Images.
//!
//! A document may give the image of a vendor or of a group in one of three
//! forms: a bitmap (obsolete), the name of a file, or the data in hexadecimal
//! digits. An entity has at most one image. The rule is applied here, once,
//! for every entity that has an image.
use crate::error::{result_view, Entity, Error, ErrorView};
use crate::parser::properties::{all_with_tag, first, select, Tag};
use crate::parser::{Group, GroupProperty, Vendor};
use crate::structs::{HexBinary, Image, ImageView};
use vstd::prelude::*;

verus! {

/// The image of an entity that gives the three forms as stated: none where
/// all are absent, the one that is present where it is alone, and an error
/// where two or three are present.
pub open spec fn image_model(
    bitmap: Option<Seq<char>>,
    file: Option<Seq<char>>,
    data: Option<Seq<char>>,
    owner: Entity,
) -> Result<Option<ImageView>, ErrorView> {
    match (bitmap, file, data) {
        (None, None, None) => Ok(None),
        (Some(bitmap), None, None) => Ok(Some(ImageView::Image16x14(bitmap))),
        (None, Some(file), None) => Ok(Some(ImageView::ImageFile16x14(file))),
        (None, None, Some(data)) => Ok(Some(ImageView::ImageData16x14(data))),
        _ => Err(ErrorView::AmbiguousImageVariant(owner)),
    }
}

/// How many of the three forms are present.
pub open spec fn variants_present(
    bitmap: Option<Seq<char>>,
    file: Option<Seq<char>>,
    data: Option<Seq<char>>,
) -> nat {
    let b: nat = if bitmap is Some {
        1
    } else {
        0
    };
    let f: nat = if file is Some {
        1
    } else {
        0
    };
    let d: nat = if data is Some {
        1
    } else {
        0
    };
    b + f + d
}

/// The image of a vendor.
pub open spec fn vendor_image_model(v: Vendor) -> Result<Option<ImageView>, ErrorView> {
    image_model(
        v.Image16x14.deep_view(),
        v.ImageFile16x14.deep_view(),
        v.ImageData16x14.deep_view(),
        Entity::Vendor,
    )
}

/// Number of image elements in the property bag of a group, of whatever form.
pub open spec fn image_count(items: Seq<GroupProperty>) -> nat {
    select::<GroupProperty, String>(items, Tag::Image16x14).len() + select::<
        GroupProperty,
        String,
    >(items, Tag::ImageFile16x14).len() + select::<GroupProperty, String>(
        items,
        Tag::ImageData16x14,
    ).len()
}

/// The image of a group: an error where its property bag holds more than one
/// image element, else what the one element gives, or none.
pub open spec fn group_image_model(g: Group) -> Result<Option<ImageView>, ErrorView> {
    if image_count(g.items@) > 1 {
        Err(ErrorView::AmbiguousImageVariant(Entity::Group))
    } else {
        image_model(
            first::<GroupProperty, String>(g.items@, Tag::Image16x14).deep_view(),
            first::<GroupProperty, String>(g.items@, Tag::ImageFile16x14).deep_view(),
            first::<GroupProperty, String>(g.items@, Tag::ImageData16x14).deep_view(),
            Entity::Group,
        )
    }
}

/// With no form present there is no image, with one form present the image is
/// that one, and with two or three present there is an error that names the
/// owner.
pub proof fn one_image_at_most(
    bitmap: Option<Seq<char>>,
    file: Option<Seq<char>>,
    data: Option<Seq<char>>,
    owner: Entity,
)
    ensures
        variants_present(bitmap, file, data) == 0 ==> image_model(bitmap, file, data, owner)
            == Ok::<Option<ImageView>, ErrorView>(None),
        variants_present(bitmap, file, data) == 1 ==> image_model(bitmap, file, data, owner)
            == Ok::<Option<ImageView>, ErrorView>(
            Some(
                if bitmap is Some {
                    ImageView::Image16x14(bitmap->0)
                } else if file is Some {
                    ImageView::ImageFile16x14(file->0)
                } else {
                    ImageView::ImageData16x14(data->0)
                },
            ),
        ),
        variants_present(bitmap, file, data) >= 2 ==> image_model(bitmap, file, data, owner)
            == Err::<Option<ImageView>, ErrorView>(ErrorView::AmbiguousImageVariant(owner)),
{
}

/// A group with no image element has no image, a group with one image element
/// has the image that the element gives, and a group with two or more image
/// elements is turned down.
pub proof fn one_group_image_at_most(g: Group)
    ensures
        image_count(g.items@) == 0 ==> group_image_model(g) == Ok::<
            Option<ImageView>,
            ErrorView,
        >(None),
        image_count(g.items@) == 1 ==> group_image_model(g) == Ok::<
            Option<ImageView>,
            ErrorView,
        >(
            Some(
                if first::<GroupProperty, String>(g.items@, Tag::Image16x14) is Some {
                    ImageView::Image16x14(
                        first::<GroupProperty, String>(g.items@, Tag::Image16x14)->0@,
                    )
                } else if first::<GroupProperty, String>(g.items@, Tag::ImageFile16x14) is Some {
                    ImageView::ImageFile16x14(
                        first::<GroupProperty, String>(g.items@, Tag::ImageFile16x14)->0@,
                    )
                } else {
                    ImageView::ImageData16x14(
                        first::<GroupProperty, String>(g.items@, Tag::ImageData16x14)->0@,
                    )
                },
            ),
        ),
        image_count(g.items@) >= 2 ==> group_image_model(g) == Err::<
            Option<ImageView>,
            ErrorView,
        >(ErrorView::AmbiguousImageVariant(Entity::Group)),
{
}

/// The image that the three forms give together. Each argument is the form as
/// it stands in the document, if it does.
pub fn resolve_image(
    bitmap: Option<&String>,
    file: Option<&String>,
    data: Option<&String>,
    owner: Entity,
) -> (r: Result<Option<Image>, Error>)
    ensures
        result_view(r) == image_model(
            bitmap.deep_view(),
            file.deep_view(),
            data.deep_view(),
            owner,
        ),
{
    match (bitmap, file, data) {
        (None, None, None) => Ok(None),
        (Some(bitmap), None, None) => Ok(Some(Image::Image16x14(bitmap.clone()))),
        (None, Some(file), None) => Ok(Some(Image::ImageFile16x14(file.clone()))),
        (None, None, Some(data)) => Ok(Some(Image::ImageData16x14(HexBinary(data.clone())))),
        _ => Err(Error::AmbiguousImageVariant(owner)),
    }
}

impl Vendor {
    /// The image of the vendor, if it has one.
    pub fn image(&self) -> (r: Result<Option<Image>, Error>)
        ensures
            result_view(r) == vendor_image_model(*self),
    {
        resolve_image(
            self.Image16x14.as_ref(),
            self.ImageFile16x14.as_ref(),
            self.ImageData16x14.as_ref(),
            Entity::Vendor,
        )
    }
}

impl Group {
    /// The image of the group, if it has one.
    pub fn image(&self) -> (r: Result<Option<Image>, Error>)
        ensures
            result_view(r) == group_image_model(*self),
    {
        let bitmaps = all_with_tag::<GroupProperty, String>(&self.items, Tag::Image16x14);
        let files = all_with_tag::<GroupProperty, String>(&self.items, Tag::ImageFile16x14);
        let data = all_with_tag::<GroupProperty, String>(&self.items, Tag::ImageData16x14);
        if bitmaps.len() > 1 || files.len() > 1 || data.len() > 1 {
            return Err(Error::AmbiguousImageVariant(Entity::Group));
        }
        let bitmap: Option<&String> = if bitmaps.len() == 1 {
            Some(bitmaps[0])
        } else {
            None
        };
        let file: Option<&String> = if files.len() == 1 {
            Some(files[0])
        } else {
            None
        };
        let data: Option<&String> = if data.len() == 1 {
            Some(data[0])
        } else {
            None
        };
        resolve_image(bitmap, file, data, Entity::Group)
    }
}

} // verus!
