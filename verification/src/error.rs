//! Errors reported when a raw document cannot be turned into a device
//! description.
use vstd::prelude::*;

verus! {

/// The raw entity that an error is about.
#[derive(Debug, Clone, Copy, PartialEq, Eq, Hash, Structural)]
pub enum Entity {
    EtherCatInfo,
    Vendor,
    Group,
    Device,
    Sm,
    Pdo,
    PdoEntry,
    Module,
}

/// A field that an entity cannot do without.
#[derive(Debug, Clone, Copy, PartialEq, Eq, Hash, Structural)]
pub enum Field {
    Vendor,
    Id,
    Type,
    Name,
    StartAddress,
    Index,
    BitLen,
}

/// Size of the unsigned integer that a numeric literal is read into.
#[derive(Debug, Clone, Copy, PartialEq, Eq, Hash, Structural)]
pub enum Width {
    W8,
    W16,
    W32,
}

impl Width {
    /// Largest value that fits into an unsigned integer of this width.
    pub open spec fn max_value(self) -> nat {
        match self {
            Width::W8 => 0xff,
            Width::W16 => 0xffff,
            Width::W32 => 0xffff_ffff,
        }
    }

    /// Largest value that fits into an unsigned integer of this width.
    pub fn limit(self) -> (m: u32)
        ensures
            m == self.max_value(),
    {
        match self {
            Width::W8 => 0xff,
            Width::W16 => 0xffff,
            Width::W32 => 0xffff_ffff,
        }
    }

    /// Number of bits of an unsigned integer of this width.
    pub fn bits(self) -> (b: u32)
        ensures
            b == 8 || b == 16 || b == 32,
            (b == 8) == (self == Width::W8),
            (b == 16) == (self == Width::W16),
            (b == 32) == (self == Width::W32),
    {
        match self {
            Width::W8 => 8,
            Width::W16 => 16,
            Width::W32 => 32,
        }
    }
}

/// Why a numeric literal was turned down.
#[derive(Debug, Clone, Copy, PartialEq, Eq, Hash, Structural)]
pub enum LiteralFault {
    /// The text is neither a prefixed hexadecimal number nor a plain decimal
    /// number.
    Malformed,
    /// The text is a number, but one that is too large for the target width.
    Overflow,
}

/// Reason why a document was not understood.
#[derive(Debug, Clone, PartialEq, Eq)]
pub enum Error {
    /// The document text is not well-formed XML of the expected shape. Holds
    /// the diagnostic of the XML reader.
    MalformedXml(String),
    /// A field that the entity requires is absent.
    MissingMandatoryField(Entity, Field),
    /// A numeric literal could not be read into an integer of the given width.
    InvalidNumericLiteral(String, Width, LiteralFault),
    /// A boolean literal is none of the known tokens.
    InvalidBooleanLiteral(String),
    /// An entity carries more than one image.
    AmbiguousImageVariant(Entity),
}

/// Mathematical value of an [`Error`].
pub enum ErrorView {
    MalformedXml(Seq<char>),
    MissingMandatoryField(Entity, Field),
    InvalidNumericLiteral(Seq<char>, Width, LiteralFault),
    InvalidBooleanLiteral(Seq<char>),
    AmbiguousImageVariant(Entity),
}

impl DeepView for Error {
    type V = ErrorView;

    open spec fn deep_view(&self) -> ErrorView {
        match self {
            Error::MalformedXml(text) => ErrorView::MalformedXml(text@),
            Error::MissingMandatoryField(entity, field) => ErrorView::MissingMandatoryField(
                *entity,
                *field,
            ),
            Error::InvalidNumericLiteral(text, width, fault) => ErrorView::InvalidNumericLiteral(
                text@,
                *width,
                *fault,
            ),
            Error::InvalidBooleanLiteral(text) => ErrorView::InvalidBooleanLiteral(text@),
            Error::AmbiguousImageVariant(entity) => ErrorView::AmbiguousImageVariant(*entity),
        }
    }
}

/// Mathematical value of the result of a conversion: the view of what was
/// built, or the view of the error.
pub open spec fn result_view<T: DeepView>(r: Result<T, Error>) -> Result<T::V, ErrorView> {
    match r {
        Ok(value) => Ok(value.deep_view()),
        Err(error) => Err(error.deep_view()),
    }
}

} // verus!
