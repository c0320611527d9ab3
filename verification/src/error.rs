//! Errors of the materialisation engine.

use vstd::prelude::*;

verus! {

/// What went wrong while a value was decoded or a field was dispatched.
#[derive(Clone, Copy, Debug, PartialEq, Eq, Structural)]
pub enum ErrorKind {
    /// The value is not the primitive the decoder expected.
    TypeMismatch,
    /// A timestamp could not be read or lies outside the calendar.
    DateDecodeError,
    /// The raw option identifier is not among the field's declared options.
    UnknownOption,
    /// The option is declared, but the engine has no variant for it.
    UnmappedVariant,
    /// The field identifier has no handler for the report kind.
    UnknownField,
    /// An identifier of an enumerable field had to be resolved, and the
    /// field arrived without an option list.
    MissingOptionList,
    /// Schema and report do not hold the same number of fields.
    SchemaMismatch,
}

/// The families of records the engine can build.
#[derive(Clone, Copy, Debug, PartialEq, Eq, Structural)]
pub enum ReportKind {
    Absence,
    Roster,
    Station,
    FireOperation,
}

/// A failed materialisation, with enough context to locate the failing field.
///
/// `field_id` and `field_name` are empty when the error is not about one
/// field (a `SchemaMismatch`).
#[derive(Clone, Debug, PartialEq, Eq)]
pub struct ReportError {
    pub kind: ErrorKind,
    pub report_kind: ReportKind,
    pub report_id: i64,
    pub field_id: String,
    pub field_name: String,
}

/// The mathematical content of a [`ReportError`].
pub struct ReportErrorView {
    pub kind: ErrorKind,
    pub report_kind: ReportKind,
    pub report_id: i64,
    pub field_id: Seq<char>,
    pub field_name: Seq<char>,
}

impl View for ReportError {
    type V = ReportErrorView;

    open spec fn view(&self) -> ReportErrorView {
        ReportErrorView {
            kind: self.kind,
            report_kind: self.report_kind,
            report_id: self.report_id,
            field_id: self.field_id@,
            field_name: self.field_name@,
        }
    }
}

} // verus!
