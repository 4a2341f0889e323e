//! Error taxonomy of the marshaling layer.
//!
//! `ValidationError` is raised when a value is rejected at construction time,
//! before any encode is attempted.  `ConfigurationError` is raised at attach
//! time for an illegal command/extension pairing.  `ParseError` is raised when
//! a decode could not match any expected shape, or a required field was absent
//! in a form not covered by the element-aliasing rule.

use vstd::prelude::*;

verus! {

/// A value was rejected at construction time.
#[derive(Debug, Clone, Copy, PartialEq, Eq, Structural)]
pub enum ValidationError {
    /// The month of a partial date lies outside `[1, 12]`.
    MonthOutOfRange,
    /// The day of a partial date lies outside `[1, 31]`.
    DayOutOfRange,
    /// The day of a partial date exceeds the fixed per-month bound.
    DayTooLongForMonth,
    /// An offset was given with hours above 23 or minutes above 59.
    OffsetOutOfRange,
}

/// An extension was attached to a base command it is not declared
/// compatible with.
#[derive(Debug, Clone, Copy, PartialEq, Eq, Structural)]
pub enum ConfigurationError {
    IncompatibleExtension,
}

/// A document fragment could not be decoded.
#[derive(Debug, Clone, PartialEq, Eq)]
pub enum ParseError {
    /// None of the candidate root element names of a multi-shape response
    /// was present.
    UnrecognizedShape,
    /// The named element was expected and absent, in both its prefixed and
    /// its bare form.
    MissingElement(String),
    /// The named attribute was expected and absent.
    MissingAttribute(String),
    /// An element carried an unexpected name; the offending name is kept.
    UnexpectedElement(String),
    /// An element that must carry character content carried none.
    MissingText(String),
    /// A text field that must hold a value of a closed set or a number held
    /// something else; the offending text is kept.
    InvalidText(String),
}

} // verus!
