//! The index types of `ethercat_types` that a device description holds.
//!
//! `Idx`, `SubIdx`, `PdoIdx` and `SmIdx` each wrap one number in a private
//! field, so nothing here can look into them. What this crate states about
//! such a value is which number it was made from.
use ethercat_types::{Idx, PdoEntryIdx, PdoIdx, SmIdx, SubIdx};
use vstd::prelude::*;

verus! {

/// `ethercat_types::Idx`: index of an object in the object dictionary.
#[verifier::external_type_specification]
#[verifier::external_body]
pub struct ExIdx(Idx);

/// `ethercat_types::SubIdx`: sub-index of an entry within an object.
#[verifier::external_type_specification]
#[verifier::external_body]
pub struct ExSubIdx(SubIdx);

/// `ethercat_types::PdoIdx`: index of a process data object.
#[verifier::external_type_specification]
#[verifier::external_body]
pub struct ExPdoIdx(PdoIdx);

/// `ethercat_types::SmIdx`: index of a sync manager.
#[verifier::external_type_specification]
#[verifier::external_body]
pub struct ExSmIdx(SmIdx);

/// `ethercat_types::PdoEntryIdx`: an index and a sub-index, both in public
/// fields.
#[verifier::external_type_specification]
pub struct ExPdoEntryIdx(PdoEntryIdx);

/// The `Idx` that `Idx::from` makes of `v`.
pub uninterp spec fn idx_of(v: u16) -> Idx;

/// The `SubIdx` that `SubIdx::from` makes of `v`.
pub uninterp spec fn sub_idx_of(v: u8) -> SubIdx;

/// The `PdoIdx` that `PdoIdx::from` makes of `v`.
pub uninterp spec fn pdo_idx_of(v: u16) -> PdoIdx;

/// The `SmIdx` that `SmIdx::from` makes of `v`.
pub uninterp spec fn sm_idx_of(v: u8) -> SmIdx;

/// `<Idx as From<u16>>::from` stores its argument in a new `Idx` and does
/// nothing else, so the result depends on the argument alone: it is the value
/// that [`idx_of`] names. Not proved.
pub assume_specification[ <Idx as From<u16>>::from ](idx: u16) -> (r: Idx)
    ensures
        r == idx_of(idx),
;

/// `<SubIdx as From<u8>>::from` stores its argument in a new `SubIdx` and does
/// nothing else, so the result depends on the argument alone: it is the value
/// that [`sub_idx_of`] names. Not proved.
pub assume_specification[ <SubIdx as From<u8>>::from ](sub: u8) -> (r: SubIdx)
    ensures
        r == sub_idx_of(sub),
;

/// `<PdoIdx as From<u16>>::from` stores its argument in a new `PdoIdx` and
/// does nothing else, so the result depends on the argument alone: it is the
/// value that [`pdo_idx_of`] names. Not proved.
pub assume_specification[ <PdoIdx as From<u16>>::from ](idx: u16) -> (r: PdoIdx)
    ensures
        r == pdo_idx_of(idx),
;

/// `<SmIdx as From<u8>>::from` stores its argument in a new `SmIdx` and does
/// nothing else, so the result depends on the argument alone: it is the value
/// that [`sm_idx_of`] names. Not proved.
pub assume_specification[ <SmIdx as From<u8>>::from ](idx: u8) -> (r: SmIdx)
    ensures
        r == sm_idx_of(idx),
;

} // verus!
