//! Suggestions for the fire station.

use crate::divera::schema::response::{Consumer, Report, ReportTypesItem, ReportTypesItemFields};
use crate::error::{ErrorKind, ReportError, ReportKind};
use crate::reports::decode::{decode_string, decoded_text};
use crate::reports::options::{find_tag, keyed, select_required, selected, tag_of, Tagged};
use crate::reports::{materialize, materialized, outcome, ReportRecord};
use crate::value::Value;
use vstd::prelude::*;

verus! {

pub const NOTE_ID: &'static str = "383b1c3c-4470-440a-bf03-27b315778576";

pub const TYPE_ID: &'static str = "35e2d05a-1368-43b5-8611-4afc319c95da";

pub const TYPE_CLARIFICATION_ID: &'static str = "97d63a1a-f497-4e2c-bfa4-666038553b7a";

pub const TYPE_DESIGN_ID: &'static str = "e499b1dd-5977-47d1-a554-bff91f7e3ef0";

pub const TYPE_IMPROVEMENT_ID: &'static str = "afcb458f-635b-43c9-afbb-55280f8fd2f1";

pub const TYPE_PROBLEM_ID: &'static str = "ff6b3ae9-9378-4f92-bd4f-b1203c48aff3";

/// One suggestion for the fire station.
#[derive(Clone, Debug, PartialEq, Eq)]
pub struct StationReport {
    pub id: i64,
    pub user: String,
    pub kind: Type,
    pub note: String,
}

/// What a suggestion is about.
#[derive(Clone, Copy, Debug, PartialEq, Eq, Structural)]
pub enum Type {
    Clarification,
    Design,
    Improvement,
    Problem,
}

/// The fields of a station report.
#[derive(Clone, Copy, Debug, PartialEq, Eq, Structural)]
pub enum StationField {
    Type,
    Note,
}

/// The mathematical content of a [`StationReport`].
pub struct StationReportView {
    pub id: i64,
    pub user: Seq<char>,
    pub kind: Type,
    pub note: Seq<char>,
}

impl View for StationReport {
    type V = StationReportView;

    open spec fn view(&self) -> StationReportView {
        StationReportView { id: self.id, user: self.user@, kind: self.kind, note: self.note@ }
    }
}

impl Tagged for Type {
    open spec fn bindings() -> Seq<(Seq<char>, Type)> {
        seq![
            (TYPE_CLARIFICATION_ID@, Type::Clarification),
            (TYPE_DESIGN_ID@, Type::Design),
            (TYPE_IMPROVEMENT_ID@, Type::Improvement),
            (TYPE_PROBLEM_ID@, Type::Problem),
        ]
    }

    proof fn lemma_identifiers_distinct() {
        reveal_strlit("97d63a1a-f497-4e2c-bfa4-666038553b7a");
        reveal_strlit("e499b1dd-5977-47d1-a554-bff91f7e3ef0");
        reveal_strlit("afcb458f-635b-43c9-afbb-55280f8fd2f1");
        reveal_strlit("ff6b3ae9-9378-4f92-bd4f-b1203c48aff3");
        assert(TYPE_CLARIFICATION_ID@[0] == '9' && TYPE_CLARIFICATION_ID@[1] == '7');
        assert(TYPE_DESIGN_ID@[0] == 'e' && TYPE_DESIGN_ID@[1] == '4');
        assert(TYPE_IMPROVEMENT_ID@[0] == 'a' && TYPE_IMPROVEMENT_ID@[1] == 'f');
        assert(TYPE_PROBLEM_ID@[0] == 'f' && TYPE_PROBLEM_ID@[1] == 'f');
    }

    proof fn lemma_tags_distinct() {
    }

    fn table() -> (t: Vec<(&'static str, Type)>) {
        let t = vec![
            (TYPE_CLARIFICATION_ID, Type::Clarification),
            (TYPE_DESIGN_ID, Type::Design),
            (TYPE_IMPROVEMENT_ID, Type::Improvement),
            (TYPE_PROBLEM_ID, Type::Problem),
        ];
        assert(keyed(t@) =~= Self::bindings());
        t
    }
}

impl Tagged for StationField {
    open spec fn bindings() -> Seq<(Seq<char>, StationField)> {
        seq![(TYPE_ID@, StationField::Type), (NOTE_ID@, StationField::Note)]
    }

    proof fn lemma_identifiers_distinct() {
        reveal_strlit("35e2d05a-1368-43b5-8611-4afc319c95da");
        reveal_strlit("383b1c3c-4470-440a-bf03-27b315778576");
        assert(TYPE_ID@[0] == '3' && TYPE_ID@[1] == '5');
        assert(NOTE_ID@[0] == '3' && NOTE_ID@[1] == '8');
    }

    proof fn lemma_tags_distinct() {
    }

    fn table() -> (t: Vec<(&'static str, StationField)>) {
        let t = vec![(TYPE_ID, StationField::Type), (NOTE_ID, StationField::Note)];
        assert(keyed(t@) =~= Self::bindings());
        t
    }
}

impl Default for Type {
    fn default() -> (kind: Type)
        ensures
            kind == Type::Improvement,
    {
        Type::Improvement
    }
}

impl Type {
    /// The type that the option identifier `id` stands for. Fails with
    /// `UnmappedVariant` on an identifier outside the table.
    pub fn new(id: &str) -> (res: Result<Type, ErrorKind>)
        ensures
            res == match tag_of::<Type>(id@) {
                Some(kind) => Ok::<Type, ErrorKind>(kind),
                None => Err(ErrorKind::UnmappedVariant),
            },
    {
        match find_tag::<Type>(id) {
            Some(kind) => Ok(kind),
            None => Err(ErrorKind::UnmappedVariant),
        }
    }

    /// The name of the type as the unit writes it.
    pub open spec fn label_text(self) -> Seq<char> {
        match self {
            Type::Clarification => "Klärungsbedarf"@,
            Type::Design => "Ausgestaltung"@,
            Type::Improvement => "Verbesserung"@,
            Type::Problem => "Problem"@,
        }
    }

    /// The name of the type as the unit writes it.
    pub fn label(&self) -> (text: &'static str)
        ensures
            text@ == self.label_text(),
    {
        match self {
            Type::Clarification => "Klärungsbedarf",
            Type::Design => "Ausgestaltung",
            Type::Improvement => "Verbesserung",
            Type::Problem => "Problem",
        }
    }
}

impl Default for StationReport {
    /// The blank record of report 0 with no user.
    fn default() -> (record: StationReport)
        ensures
            record@ == StationReport::blank(0, Seq::empty()),
    {
        let nobody = Consumer {
            firstname: String::new(),
            lastname: String::new(),
            stdformat_name: String::new(),
        };
        StationReport::start(0, &nobody)
    }
}

impl ReportRecord for StationReport {
    type Handler = StationField;

    open spec fn kind() -> ReportKind {
        ReportKind::Station
    }

    open spec fn blank(id: i64, user: Seq<char>) -> StationReportView {
        StationReportView { id, user, kind: Type::Improvement, note: Seq::empty() }
    }

    open spec fn identity(record: StationReportView) -> (i64, Seq<char>) {
        (record.id, record.user)
    }

    open spec fn well_formed(record: StationReportView) -> bool {
        true
    }

    open spec fn assigned(
        record: StationReportView,
        handler: StationField,
        field: ReportTypesItemFields,
        value: Value,
    ) -> Result<StationReportView, ErrorKind> {
        match handler {
            StationField::Type => match selected::<Type>(field, value) {
                Ok(kind) => Ok(StationReportView { kind, ..record }),
                Err(kind) => Err(kind),
            },
            StationField::Note => match decoded_text(value) {
                Ok(note) => Ok(StationReportView { note, ..record }),
                Err(kind) => Err(kind),
            },
        }
    }

    proof fn lemma_blank_identity(id: i64, user: Seq<char>) {
    }

    proof fn lemma_assigned_identity(
        record: StationReportView,
        handler: StationField,
        field: ReportTypesItemFields,
        value: Value,
    ) {
    }

    fn report_kind() -> (kind: ReportKind) {
        ReportKind::Station
    }

    fn start(id: i64, user: &Consumer) -> (record: StationReport) {
        StationReport {
            id,
            user: user.stdformat_name.clone(),
            kind: Type::default(),
            note: String::new(),
        }
    }

    fn assign(self, handler: StationField, field: &ReportTypesItemFields, value: &Value) -> (res:
        Result<StationReport, ErrorKind>) {
        let mut record = self;
        match handler {
            StationField::Type => {
                record.kind = select_required::<Type>(field, value)?;
            },
            StationField::Note => {
                record.note = decode_string(value)?;
            },
        }
        Ok(record)
    }
}

impl StationReport {
    /// Builds the station record of one raw report.
    pub fn new_from_report(report_type: &ReportTypesItem, report: &Report, user: &Consumer) -> (res:
        Result<StationReport, ReportError>)
        ensures
            outcome(res) == materialized::<StationReport>(
                *report_type,
                *report,
                user.stdformat_name@,
            ),
    {
        materialize::<StationReport>(report_type, report, user)
    }
}

} // verus!
