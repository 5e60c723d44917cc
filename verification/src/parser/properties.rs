//! Property bags.
//!
//! A group and a device hold their child elements in the order of the
//! document, some of them required, some repeated, some unknown. A field is
//! taken out of such a bag by its tag: the first element with the tag, or all
//! of them in order. Elements with other tags are passed over, so an element
//! that this crate does not know never stands in the way of those it knows.
use crate::error::{Entity, Error, Field};
use crate::parser::{DeviceProperty, DeviceType, GroupProperty, Name, Pdo, Sm};
use vstd::prelude::*;

verus! {

/// Name of a child element.
#[derive(Debug, Clone, Copy, PartialEq, Eq, Hash, Structural)]
pub enum Tag {
    Type,
    Name,
    Comment,
    Image16x14,
    ImageFile16x14,
    ImageData16x14,
    RxPdo,
    TxPdo,
    Sm,
    Info,
    HideType,
    GroupType,
    Url,
    Profile,
    Eeprom,
    Fmmu,
    Mailbox,
    Dc,
    Slots,
    Unknown,
}

/// An element of a property bag.
pub trait Tagged {
    /// The tag of the element.
    spec fn tag_of(&self) -> Tag;

    /// The tag of the element.
    fn tag(&self) -> (t: Tag)
        ensures
            t == self.tag_of(),
    ;
}

/// An element of a property bag that may hold a value of type `T`.
pub trait Holds<T>: Tagged {
    /// The value that the element holds, where it holds one of this type.
    spec fn held(&self) -> Option<T>;

    /// The value that the element holds, where it holds one of this type.
    fn value(&self) -> (v: Option<&T>)
        ensures
            match v {
                Some(t) => self.held() == Some(*t),
                None => self.held() is None,
            },
    ;
}

impl Tagged for GroupProperty {
    open spec fn tag_of(&self) -> Tag {
        match self {
            GroupProperty::Type(_) => Tag::Type,
            GroupProperty::Name(_) => Tag::Name,
            GroupProperty::Comment(_) => Tag::Comment,
            GroupProperty::Image16x14(_) => Tag::Image16x14,
            GroupProperty::ImageFile16x14(_) => Tag::ImageFile16x14,
            GroupProperty::ImageData16x14(_) => Tag::ImageData16x14,
            GroupProperty::Unknown => Tag::Unknown,
        }
    }

    fn tag(&self) -> Tag {
        match self {
            GroupProperty::Type(_) => Tag::Type,
            GroupProperty::Name(_) => Tag::Name,
            GroupProperty::Comment(_) => Tag::Comment,
            GroupProperty::Image16x14(_) => Tag::Image16x14,
            GroupProperty::ImageFile16x14(_) => Tag::ImageFile16x14,
            GroupProperty::ImageData16x14(_) => Tag::ImageData16x14,
            GroupProperty::Unknown => Tag::Unknown,
        }
    }
}

impl Holds<String> for GroupProperty {
    open spec fn held(&self) -> Option<String> {
        match self {
            GroupProperty::Type(text) => Some(*text),
            GroupProperty::Comment(text) => Some(*text),
            GroupProperty::Image16x14(text) => Some(*text),
            GroupProperty::ImageFile16x14(text) => Some(*text),
            GroupProperty::ImageData16x14(text) => Some(*text),
            _ => None,
        }
    }

    fn value(&self) -> Option<&String> {
        match self {
            GroupProperty::Type(text) => Some(text),
            GroupProperty::Comment(text) => Some(text),
            GroupProperty::Image16x14(text) => Some(text),
            GroupProperty::ImageFile16x14(text) => Some(text),
            GroupProperty::ImageData16x14(text) => Some(text),
            _ => None,
        }
    }
}

impl Holds<Name> for GroupProperty {
    open spec fn held(&self) -> Option<Name> {
        match self {
            GroupProperty::Name(name) => Some(*name),
            _ => None,
        }
    }

    fn value(&self) -> Option<&Name> {
        match self {
            GroupProperty::Name(name) => Some(name),
            _ => None,
        }
    }
}

impl Tagged for DeviceProperty {
    open spec fn tag_of(&self) -> Tag {
        match self {
            DeviceProperty::Type(_) => Tag::Type,
            DeviceProperty::Name(_) => Tag::Name,
            DeviceProperty::RxPdo(_) => Tag::RxPdo,
            DeviceProperty::TxPdo(_) => Tag::TxPdo,
            DeviceProperty::Sm(_) => Tag::Sm,
            DeviceProperty::Info => Tag::Info,
            DeviceProperty::HideType => Tag::HideType,
            DeviceProperty::GroupType => Tag::GroupType,
            DeviceProperty::URL => Tag::Url,
            DeviceProperty::Profile => Tag::Profile,
            DeviceProperty::Eeprom => Tag::Eeprom,
            DeviceProperty::Fmmu => Tag::Fmmu,
            DeviceProperty::Image16x14(_) => Tag::Image16x14,
            DeviceProperty::ImageFile16x14(_) => Tag::ImageFile16x14,
            DeviceProperty::ImageData16x14(_) => Tag::ImageData16x14,
            DeviceProperty::Mailbox => Tag::Mailbox,
            DeviceProperty::Dc => Tag::Dc,
            DeviceProperty::Slots => Tag::Slots,
            DeviceProperty::Unknown => Tag::Unknown,
        }
    }

    fn tag(&self) -> Tag {
        match self {
            DeviceProperty::Type(_) => Tag::Type,
            DeviceProperty::Name(_) => Tag::Name,
            DeviceProperty::RxPdo(_) => Tag::RxPdo,
            DeviceProperty::TxPdo(_) => Tag::TxPdo,
            DeviceProperty::Sm(_) => Tag::Sm,
            DeviceProperty::Info => Tag::Info,
            DeviceProperty::HideType => Tag::HideType,
            DeviceProperty::GroupType => Tag::GroupType,
            DeviceProperty::URL => Tag::Url,
            DeviceProperty::Profile => Tag::Profile,
            DeviceProperty::Eeprom => Tag::Eeprom,
            DeviceProperty::Fmmu => Tag::Fmmu,
            DeviceProperty::Image16x14(_) => Tag::Image16x14,
            DeviceProperty::ImageFile16x14(_) => Tag::ImageFile16x14,
            DeviceProperty::ImageData16x14(_) => Tag::ImageData16x14,
            DeviceProperty::Mailbox => Tag::Mailbox,
            DeviceProperty::Dc => Tag::Dc,
            DeviceProperty::Slots => Tag::Slots,
            DeviceProperty::Unknown => Tag::Unknown,
        }
    }
}

impl Holds<DeviceType> for DeviceProperty {
    open spec fn held(&self) -> Option<DeviceType> {
        match self {
            DeviceProperty::Type(device_type) => Some(*device_type),
            _ => None,
        }
    }

    fn value(&self) -> Option<&DeviceType> {
        match self {
            DeviceProperty::Type(device_type) => Some(device_type),
            _ => None,
        }
    }
}

impl Holds<Name> for DeviceProperty {
    open spec fn held(&self) -> Option<Name> {
        match self {
            DeviceProperty::Name(name) => Some(*name),
            _ => None,
        }
    }

    fn value(&self) -> Option<&Name> {
        match self {
            DeviceProperty::Name(name) => Some(name),
            _ => None,
        }
    }
}

impl Holds<Sm> for DeviceProperty {
    open spec fn held(&self) -> Option<Sm> {
        match self {
            DeviceProperty::Sm(sm) => Some(*sm),
            _ => None,
        }
    }

    fn value(&self) -> Option<&Sm> {
        match self {
            DeviceProperty::Sm(sm) => Some(sm),
            _ => None,
        }
    }
}

impl Holds<Pdo> for DeviceProperty {
    open spec fn held(&self) -> Option<Pdo> {
        match self {
            DeviceProperty::RxPdo(pdo) => Some(*pdo),
            DeviceProperty::TxPdo(pdo) => Some(*pdo),
            _ => None,
        }
    }

    fn value(&self) -> Option<&Pdo> {
        match self {
            DeviceProperty::RxPdo(pdo) => Some(pdo),
            DeviceProperty::TxPdo(pdo) => Some(pdo),
            _ => None,
        }
    }
}

/// The values that references point to, in order.
pub open spec fn targets<T>(refs: Seq<&T>) -> Seq<T> {
    refs.map_values(|r: &T| *r)
}

/// The values of type `T` that the elements of `items` with the given tag
/// hold, in the order of `items`.
pub open spec fn select<P: Holds<T>, T>(items: Seq<P>, tag: Tag) -> Seq<T>
    decreases items.len(),
{
    if items.len() == 0 {
        Seq::empty()
    } else {
        let front = select::<P, T>(items.drop_last(), tag);
        let last = items.last();
        if last.tag_of() == tag && last.held() is Some {
            front.push(last.held()->0)
        } else {
            front
        }
    }
}

/// The value of type `T` that the first element of `items` with the given
/// tag holds.
pub open spec fn first<P: Holds<T>, T>(items: Seq<P>, tag: Tag) -> Option<T> {
    let found = select::<P, T>(items, tag);
    if found.len() > 0 {
        Some(found[0])
    } else {
        None
    }
}

/// What is selected from the first `n` elements stands at the front of what
/// is selected from all of them.
pub proof fn lemma_select_prefix<P: Holds<T>, T>(items: Seq<P>, tag: Tag, n: int)
    requires
        0 <= n <= items.len(),
    ensures
        select::<P, T>(items.take(n), tag).len() <= select::<P, T>(items, tag).len(),
        select::<P, T>(items.take(n), tag) == select::<P, T>(items, tag).take(
            select::<P, T>(items.take(n), tag).len() as int,
        ),
    decreases items.len(),
{
    if n == items.len() {
        assert(items.take(n) =~= items);
        assert(select::<P, T>(items, tag).take(select::<P, T>(items, tag).len() as int)
            =~= select::<P, T>(items, tag));
    } else {
        lemma_select_prefix::<P, T>(items.drop_last(), tag, n);
        assert(items.drop_last().take(n) =~= items.take(n));
        let front = select::<P, T>(items.drop_last(), tag);
        let part = select::<P, T>(items.take(n), tag);
        assert(part =~= select::<P, T>(items, tag).take(part.len() as int));
    }
}

/// What is selected from two bags put together is what is selected from the
/// first, followed by what is selected from the second.
pub proof fn select_keeps_the_order<P: Holds<T>, T>(a: Seq<P>, b: Seq<P>, tag: Tag)
    ensures
        select::<P, T>(a + b, tag) == select::<P, T>(a, tag) + select::<P, T>(b, tag),
    decreases b.len(),
{
    if b.len() == 0 {
        assert(a + b =~= a);
        assert(select::<P, T>(a, tag) + select::<P, T>(b, tag) =~= select::<P, T>(a, tag));
    } else {
        select_keeps_the_order::<P, T>(a, b.drop_last(), tag);
        assert((a + b).drop_last() =~= a + b.drop_last());
        assert((a + b).last() == b.last());
        assert(select::<P, T>(a + b, tag) =~= select::<P, T>(a, tag) + select::<P, T>(b, tag));
    }
}

/// One element alone gives its value where it has the tag and holds a value
/// of the type, and nothing else.
pub proof fn select_of_one<P: Holds<T>, T>(p: P, tag: Tag)
    ensures
        select::<P, T>(seq![p], tag) == if p.tag_of() == tag && p.held() is Some {
            seq![p.held()->0]
        } else {
            Seq::<T>::empty()
        },
{
    assert(seq![p].drop_last() =~= Seq::<P>::empty());
    assert(seq![p].last() == p);
    assert(select::<P, T>(Seq::<P>::empty(), tag) =~= Seq::<T>::empty());
    assert(select::<P, T>(seq![p], tag) =~= if p.tag_of() == tag && p.held() is Some {
        seq![p.held()->0]
    } else {
        Seq::<T>::empty()
    });
}

/// An element with another tag, wherever it stands in the bag, changes
/// nothing of what is selected.
pub proof fn other_tags_are_passed_over<P: Holds<T>, T>(
    before: Seq<P>,
    other: P,
    after: Seq<P>,
    tag: Tag,
)
    requires
        other.tag_of() != tag,
    ensures
        select::<P, T>(before + seq![other] + after, tag) == select::<P, T>(before + after, tag),
        first::<P, T>(before + seq![other] + after, tag) == first::<P, T>(before + after, tag),
{
    select_keeps_the_order::<P, T>(before + seq![other], after, tag);
    select_keeps_the_order::<P, T>(before, seq![other], tag);
    select_keeps_the_order::<P, T>(before, after, tag);
    select_of_one::<P, T>(other, tag);
    assert(select::<P, T>(before, tag) + Seq::<T>::empty() =~= select::<P, T>(before, tag));
}

/// Nothing is selected exactly where no element with the tag holds a value
/// of the type.
pub proof fn nothing_selected_where_nothing_matches<P: Holds<T>, T>(items: Seq<P>, tag: Tag)
    ensures
        select::<P, T>(items, tag).len() == 0 <==> forall|i: int|
            0 <= i < items.len() ==> !((#[trigger] items[i]).tag_of() == tag
                && items[i].held() is Some),
    decreases items.len(),
{
    if items.len() > 0 {
        nothing_selected_where_nothing_matches::<P, T>(items.drop_last(), tag);
        assert(forall|i: int|
            0 <= i < items.len() - 1 ==> items.drop_last()[i] == #[trigger] items[i]);
        if select::<P, T>(items, tag).len() == 0 {
            assert forall|i: int| 0 <= i < items.len() implies !((#[trigger] items[i]).tag_of()
                == tag && items[i].held() is Some) by {
                if i < items.len() - 1 {
                    assert(items.drop_last()[i] == items[i]);
                }
            }
        }
    }
}

/// All values of type `T` that elements with the given tag hold, in the order
/// of the bag. Empty where there is none.
pub fn all_with_tag<'a, P: Holds<T>, T>(items: &'a Vec<P>, tag: Tag) -> (found: Vec<&'a T>)
    ensures
        targets(found@) == select::<P, T>(items@, tag),
{
    let mut found: Vec<&'a T> = Vec::new();
    let mut i: usize = 0;
    while i < items.len()
        invariant
            i <= items.len(),
            targets(found@) =~= select::<P, T>(items@.take(i as int), tag),
        decreases items.len() - i,
    {
        proof {
            assert(items@.take(i + 1).drop_last() =~= items@.take(i as int));
        }
        if items[i].tag() == tag {
            match items[i].value() {
                Some(value) => {
                    found.push(value);
                },
                None => {},
            }
        }
        i += 1;
    }
    proof {
        assert(items@.take(items.len() as int) =~= items@);
    }
    found
}

/// The value of type `T` that the first element with the given tag holds, or
/// `None` where there is no such element.
pub fn first_with_tag<'a, P: Holds<T>, T>(items: &'a Vec<P>, tag: Tag) -> (found: Option<&'a T>)
    ensures
        match found {
            Some(value) => first::<P, T>(items@, tag) == Some(*value),
            None => first::<P, T>(items@, tag) is None,
        },
{
    let mut i: usize = 0;
    while i < items.len()
        invariant
            i <= items.len(),
            select::<P, T>(items@.take(i as int), tag).len() == 0,
        decreases items.len() - i,
    {
        proof {
            assert(items@.take(i + 1).drop_last() =~= items@.take(i as int));
        }
        if items[i].tag() == tag {
            match items[i].value() {
                Some(value) => {
                    proof {
                        lemma_select_prefix::<P, T>(items@, tag, i + 1);
                        let part = select::<P, T>(items@.take(i + 1), tag);
                        assert(items@.take(i + 1).last() == items@[i as int]);
                        assert(part.len() == 1 && part[0] == *value);
                        assert(select::<P, T>(items@, tag).take(1)[0] == *value);
                    }
                    return Some(value);
                },
                None => {},
            }
        }
        i += 1;
    }
    proof {
        assert(items@.take(items.len() as int) =~= items@);
    }
    None
}

/// The value of type `T` that the first element with the given tag holds. The
/// field is required: where there is no such element, the error names the
/// field and the entity that lacks it.
pub fn require_with_tag<'a, P: Holds<T>, T>(
    items: &'a Vec<P>,
    tag: Tag,
    entity: Entity,
    field: Field,
) -> (found: Result<&'a T, Error>)
    ensures
        match found {
            Ok(value) => first::<P, T>(items@, tag) == Some(*value),
            Err(e) => first::<P, T>(items@, tag) is None && e == Error::MissingMandatoryField(
                entity,
                field,
            ),
        },
{
    match first_with_tag::<P, T>(items, tag) {
        Some(value) => Ok(value),
        None => Err(Error::MissingMandatoryField(entity, field)),
    }
}

} // verus!
