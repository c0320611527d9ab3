//! Absence reports.

use crate::calendar::CalendarDate;
use crate::divera::schema::response::{Consumer, Report, ReportTypesItem, ReportTypesItemFields};
use crate::error::{ErrorKind, ReportError, ReportKind};
use crate::reports::decode::{decode_date, decode_string, decoded_date, decoded_text};
use crate::reports::options::{find_tag, keyed, select_required, selected, tag_of, Tagged};
use crate::reports::{materialize, materialized, outcome, ReportRecord};
use crate::value::Value;
use vstd::prelude::*;

verus! {

pub const BEGIN_ID: &'static str = "10f05309-e584-4470-a0db-ce6bb15ade34";

pub const END_ID: &'static str = "a9246571-63fd-4cdf-b6f1-77d93173b362";

pub const NOTE_ID: &'static str = "29091ead-0dca-4546-830a-c4143e0886ec";

pub const REASON_ID: &'static str = "f75a352a-0b9c-4c7e-bf7a-e67e6048f1f1";

pub const REASON_ILLNESS_ID: &'static str = "cddd7081-d6a9-4869-a3f7-f821ab7a4e2f";

pub const REASON_PROFESSIONALLY_ID: &'static str = "1ad668bf-5a17-4f5d-b762-5ce9bb20c0d9";

pub const REASON_TRAINING_ID: &'static str = "f4913db8-0112-40d8-8efa-dad361d8829b";

pub const REASON_VACATION_ID: &'static str = "5c66e8a3-bb3b-455a-aeb9-a4982f774dd8";

/// One absence of a member.
#[derive(Clone, Debug, PartialEq, Eq)]
pub struct AbsentReport {
    pub id: i64,
    pub user: String,
    pub begin: CalendarDate,
    pub end: CalendarDate,
    pub reason: Reason,
    pub note: String,
}

/// Why a member is absent.
#[derive(Clone, Copy, Debug, PartialEq, Eq, Structural)]
pub enum Reason {
    Illness,
    Professionally,
    Training,
    Vacation,
}

/// The fields of an absence report.
#[derive(Clone, Copy, Debug, PartialEq, Eq, Structural)]
pub enum AbsentField {
    Begin,
    End,
    Reason,
    Note,
}

/// The mathematical content of an [`AbsentReport`].
pub struct AbsentReportView {
    pub id: i64,
    pub user: Seq<char>,
    pub begin: CalendarDate,
    pub end: CalendarDate,
    pub reason: Reason,
    pub note: Seq<char>,
}

impl View for AbsentReport {
    type V = AbsentReportView;

    open spec fn view(&self) -> AbsentReportView {
        AbsentReportView {
            id: self.id,
            user: self.user@,
            begin: self.begin,
            end: self.end,
            reason: self.reason,
            note: self.note@,
        }
    }
}

impl Tagged for Reason {
    open spec fn bindings() -> Seq<(Seq<char>, Reason)> {
        seq![
            (REASON_TRAINING_ID@, Reason::Training),
            (REASON_PROFESSIONALLY_ID@, Reason::Professionally),
            (REASON_ILLNESS_ID@, Reason::Illness),
            (REASON_VACATION_ID@, Reason::Vacation),
        ]
    }

    proof fn lemma_identifiers_distinct() {
        reveal_strlit("f4913db8-0112-40d8-8efa-dad361d8829b");
        reveal_strlit("1ad668bf-5a17-4f5d-b762-5ce9bb20c0d9");
        reveal_strlit("cddd7081-d6a9-4869-a3f7-f821ab7a4e2f");
        reveal_strlit("5c66e8a3-bb3b-455a-aeb9-a4982f774dd8");
        assert(REASON_TRAINING_ID@[0] == 'f' && REASON_TRAINING_ID@[1] == '4');
        assert(REASON_PROFESSIONALLY_ID@[0] == '1' && REASON_PROFESSIONALLY_ID@[1] == 'a');
        assert(REASON_ILLNESS_ID@[0] == 'c' && REASON_ILLNESS_ID@[1] == 'd');
        assert(REASON_VACATION_ID@[0] == '5' && REASON_VACATION_ID@[1] == 'c');
    }

    proof fn lemma_tags_distinct() {
    }

    fn table() -> (t: Vec<(&'static str, Reason)>) {
        let t = vec![
            (REASON_TRAINING_ID, Reason::Training),
            (REASON_PROFESSIONALLY_ID, Reason::Professionally),
            (REASON_ILLNESS_ID, Reason::Illness),
            (REASON_VACATION_ID, Reason::Vacation),
        ];
        assert(keyed(t@) =~= Self::bindings());
        t
    }
}

impl Tagged for AbsentField {
    open spec fn bindings() -> Seq<(Seq<char>, AbsentField)> {
        seq![
            (BEGIN_ID@, AbsentField::Begin),
            (END_ID@, AbsentField::End),
            (REASON_ID@, AbsentField::Reason),
            (NOTE_ID@, AbsentField::Note),
        ]
    }

    proof fn lemma_identifiers_distinct() {
        reveal_strlit("10f05309-e584-4470-a0db-ce6bb15ade34");
        reveal_strlit("a9246571-63fd-4cdf-b6f1-77d93173b362");
        reveal_strlit("f75a352a-0b9c-4c7e-bf7a-e67e6048f1f1");
        reveal_strlit("29091ead-0dca-4546-830a-c4143e0886ec");
        assert(BEGIN_ID@[0] == '1' && BEGIN_ID@[1] == '0');
        assert(END_ID@[0] == 'a' && END_ID@[1] == '9');
        assert(REASON_ID@[0] == 'f' && REASON_ID@[1] == '7');
        assert(NOTE_ID@[0] == '2' && NOTE_ID@[1] == '9');
    }

    proof fn lemma_tags_distinct() {
    }

    fn table() -> (t: Vec<(&'static str, AbsentField)>) {
        let t = vec![
            (BEGIN_ID, AbsentField::Begin),
            (END_ID, AbsentField::End),
            (REASON_ID, AbsentField::Reason),
            (NOTE_ID, AbsentField::Note),
        ];
        assert(keyed(t@) =~= Self::bindings());
        t
    }
}

impl Default for Reason {
    fn default() -> (reason: Reason)
        ensures
            reason == Reason::Vacation,
    {
        Reason::Vacation
    }
}

impl Reason {
    /// The reason that the option identifier `id` stands for. Fails with
    /// `UnmappedVariant` on an identifier outside the table.
    pub fn new(id: &str) -> (res: Result<Reason, ErrorKind>)
        ensures
            res == match tag_of::<Reason>(id@) {
                Some(reason) => Ok::<Reason, ErrorKind>(reason),
                None => Err(ErrorKind::UnmappedVariant),
            },
    {
        match find_tag::<Reason>(id) {
            Some(reason) => Ok(reason),
            None => Err(ErrorKind::UnmappedVariant),
        }
    }

    /// The name of the reason as the unit writes it.
    pub open spec fn label_text(self) -> Seq<char> {
        match self {
            Reason::Illness => "Krankheit / Dienstunfähigkeit"@,
            Reason::Professionally => "Beruflich"@,
            Reason::Training => "Aus- / Fortbildung"@,
            Reason::Vacation => "Urlaub"@,
        }
    }

    /// The name of the reason as the unit writes it.
    pub fn label(&self) -> (text: &'static str)
        ensures
            text@ == self.label_text(),
    {
        match self {
            Reason::Illness => "Krankheit / Dienstunfähigkeit",
            Reason::Professionally => "Beruflich",
            Reason::Training => "Aus- / Fortbildung",
            Reason::Vacation => "Urlaub",
        }
    }
}

impl Default for AbsentReport {
    /// The blank record of report 0 with no user.
    fn default() -> (record: AbsentReport)
        ensures
            record@ == AbsentReport::blank(0, Seq::empty()),
    {
        let nobody = Consumer {
            firstname: String::new(),
            lastname: String::new(),
            stdformat_name: String::new(),
        };
        AbsentReport::start(0, &nobody)
    }
}

impl ReportRecord for AbsentReport {
    type Handler = AbsentField;

    open spec fn kind() -> ReportKind {
        ReportKind::Absence
    }

    open spec fn blank(id: i64, user: Seq<char>) -> AbsentReportView {
        AbsentReportView {
            id,
            user,
            begin: CalendarDate::epoch(),
            end: CalendarDate::epoch(),
            reason: Reason::Vacation,
            note: Seq::empty(),
        }
    }

    open spec fn identity(record: AbsentReportView) -> (i64, Seq<char>) {
        (record.id, record.user)
    }

    open spec fn well_formed(record: AbsentReportView) -> bool {
        record.begin.well_formed() && record.end.well_formed()
    }

    open spec fn assigned(
        record: AbsentReportView,
        handler: AbsentField,
        field: ReportTypesItemFields,
        value: Value,
    ) -> Result<AbsentReportView, ErrorKind> {
        match handler {
            AbsentField::Begin => match decoded_date(value) {
                Ok(begin) => Ok(AbsentReportView { begin, ..record }),
                Err(kind) => Err(kind),
            },
            AbsentField::End => match decoded_date(value) {
                Ok(end) => Ok(AbsentReportView { end, ..record }),
                Err(kind) => Err(kind),
            },
            AbsentField::Reason => match selected::<Reason>(field, value) {
                Ok(reason) => Ok(AbsentReportView { reason, ..record }),
                Err(kind) => Err(kind),
            },
            AbsentField::Note => match decoded_text(value) {
                Ok(note) => Ok(AbsentReportView { note, ..record }),
                Err(kind) => Err(kind),
            },
        }
    }

    proof fn lemma_blank_identity(id: i64, user: Seq<char>) {
    }

    proof fn lemma_assigned_identity(
        record: AbsentReportView,
        handler: AbsentField,
        field: ReportTypesItemFields,
        value: Value,
    ) {
    }

    fn report_kind() -> (kind: ReportKind) {
        ReportKind::Absence
    }

    fn start(id: i64, user: &Consumer) -> (record: AbsentReport) {
        AbsentReport {
            id,
            user: user.stdformat_name.clone(),
            begin: CalendarDate::default(),
            end: CalendarDate::default(),
            reason: Reason::default(),
            note: String::new(),
        }
    }

    fn assign(self, handler: AbsentField, field: &ReportTypesItemFields, value: &Value) -> (res:
        Result<AbsentReport, ErrorKind>) {
        let mut record = self;
        match handler {
            AbsentField::Begin => {
                record.begin = decode_date(value)?;
            },
            AbsentField::End => {
                record.end = decode_date(value)?;
            },
            AbsentField::Reason => {
                record.reason = select_required::<Reason>(field, value)?;
            },
            AbsentField::Note => {
                record.note = decode_string(value)?;
            },
        }
        Ok(record)
    }
}

impl AbsentReport {
    /// Builds the absence record of one raw report.
    pub fn new_from_report(report_type: &ReportTypesItem, report: &Report, user: &Consumer) -> (res:
        Result<AbsentReport, ReportError>)
        ensures
            outcome(res) == materialized::<AbsentReport>(
                *report_type,
                *report,
                user.stdformat_name@,
            ),
            res matches Ok(record) ==> AbsentReport::well_formed(record@),
    {
        materialize::<AbsentReport>(report_type, report, user)
    }
}

} // verus!
