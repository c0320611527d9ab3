//! Suggestions for the duty roster.

use crate::divera::schema::response::{Consumer, Report, ReportTypesItem, ReportTypesItemFields};
use crate::error::{ErrorKind, ReportError, ReportKind};
use crate::reports::decode::{decode_string, decoded_text};
use crate::reports::options::{
    find_tag, keyed, select_optional, select_required, selected, selected_or_none, tag_of, Tagged,
};
use crate::reports::{materialize, materialized, outcome, ReportRecord};
use crate::value::Value;
use vstd::prelude::*;

verus! {

pub const DESCRIPTION_ID: &'static str = "2cefd98b-9ea5-4329-b657-7a2a74483c51";

pub const PARTICIPATION_ID: &'static str = "d8049a3a-407c-480f-93f8-6736a27e9d6e";

pub const PARTICIPATION_HELPING_ID: &'static str = "57e60afd-be43-48b2-ba73-d092f999b91c";

pub const PARTICIPATION_RESPONSIBLE_ID: &'static str = "bbe4ffb2-142e-40da-b812-298004be4bdc";

pub const POTENTIAL_DATE_ID: &'static str = "d6370fa1-64e4-4108-aa73-6ee528aa7210";

pub const TIMESCOPE_ID: &'static str = "2fa25c9d-8ed2-4a05-ab19-7464a4098572";

pub const TIMESCOPE_BOTH_ID: &'static str = "b90fa9df-ee7e-48fd-b356-6d5c4146e9c7";

pub const TIMESCOPE_FULL_ID: &'static str = "5323ebf6-bfa9-426c-8c5b-84f25a30e7d7";

pub const TIMESCOPE_HALF_ID: &'static str = "84f61e5c-8584-4e25-86bf-40caf973290f";

pub const TIMESCOPE_OTHER_ID: &'static str = "27e014a4-c455-4108-80e7-5fe8640283bb";

pub const TOPIC_ID: &'static str = "24868bfa-c903-437f-9959-f7ea888e0145";

pub const TYPE_ID: &'static str = "ab71921a-70b5-46de-b198-e342c50fe262";

pub const TYPE_EVENT_ID: &'static str = "36f1d684-4e00-4fbf-8e3a-ff5a9bf2e931";

pub const TYPE_TRAINING_ID: &'static str = "1cfa8920-be7b-4e2b-be6b-4ba16bde6aa5";

/// One suggestion for the duty roster.
#[derive(Clone, Debug, PartialEq, Eq)]
pub struct RosterReport {
    pub id: i64,
    pub user: String,
    pub kind: Type,
    pub topic: String,
    /// How the member would take part, where they said so.
    pub participation: Option<Participation>,
    /// How much time the suggestion takes, where the member said so.
    pub time_scope: Option<TimeScope>,
    pub description: String,
    pub potential_date: String,
}

/// What is suggested.
#[derive(Clone, Copy, Debug, PartialEq, Eq, Structural)]
pub enum Type {
    Training,
    Event,
}

/// How the member would take part.
#[derive(Clone, Copy, Debug, PartialEq, Eq, Structural)]
pub enum Participation {
    Responsible,
    Helping,
}

/// How much time the suggestion takes.
#[derive(Clone, Copy, Debug, PartialEq, Eq, Structural)]
pub enum TimeScope {
    Half,
    Full,
    Both,
    Other,
}

/// The fields of a roster report.
#[derive(Clone, Copy, Debug, PartialEq, Eq, Structural)]
pub enum RosterField {
    Description,
    Participation,
    PotentialDate,
    TimeScope,
    Topic,
    Type,
}

/// The mathematical content of a [`RosterReport`].
pub struct RosterReportView {
    pub id: i64,
    pub user: Seq<char>,
    pub kind: Type,
    pub topic: Seq<char>,
    pub participation: Option<Participation>,
    pub time_scope: Option<TimeScope>,
    pub description: Seq<char>,
    pub potential_date: Seq<char>,
}

impl View for RosterReport {
    type V = RosterReportView;

    open spec fn view(&self) -> RosterReportView {
        RosterReportView {
            id: self.id,
            user: self.user@,
            kind: self.kind,
            topic: self.topic@,
            participation: self.participation,
            time_scope: self.time_scope,
            description: self.description@,
            potential_date: self.potential_date@,
        }
    }
}

impl Tagged for Type {
    open spec fn bindings() -> Seq<(Seq<char>, Type)> {
        seq![(TYPE_EVENT_ID@, Type::Event), (TYPE_TRAINING_ID@, Type::Training)]
    }

    proof fn lemma_identifiers_distinct() {
        reveal_strlit("36f1d684-4e00-4fbf-8e3a-ff5a9bf2e931");
        reveal_strlit("1cfa8920-be7b-4e2b-be6b-4ba16bde6aa5");
        assert(TYPE_EVENT_ID@[0] == '3' && TYPE_EVENT_ID@[1] == '6');
        assert(TYPE_TRAINING_ID@[0] == '1' && TYPE_TRAINING_ID@[1] == 'c');
    }

    proof fn lemma_tags_distinct() {
    }

    fn table() -> (t: Vec<(&'static str, Type)>) {
        let t = vec![(TYPE_EVENT_ID, Type::Event), (TYPE_TRAINING_ID, Type::Training)];
        assert(keyed(t@) =~= Self::bindings());
        t
    }
}

impl Tagged for Participation {
    open spec fn bindings() -> Seq<(Seq<char>, Participation)> {
        seq![
            (PARTICIPATION_HELPING_ID@, Participation::Helping),
            (PARTICIPATION_RESPONSIBLE_ID@, Participation::Responsible),
        ]
    }

    proof fn lemma_identifiers_distinct() {
        reveal_strlit("57e60afd-be43-48b2-ba73-d092f999b91c");
        reveal_strlit("bbe4ffb2-142e-40da-b812-298004be4bdc");
        assert(PARTICIPATION_HELPING_ID@[0] == '5' && PARTICIPATION_HELPING_ID@[1] == '7');
        assert(PARTICIPATION_RESPONSIBLE_ID@[0] == 'b' && PARTICIPATION_RESPONSIBLE_ID@[1] == 'b');
    }

    proof fn lemma_tags_distinct() {
    }

    fn table() -> (t: Vec<(&'static str, Participation)>) {
        let t = vec![
            (PARTICIPATION_HELPING_ID, Participation::Helping),
            (PARTICIPATION_RESPONSIBLE_ID, Participation::Responsible),
        ];
        assert(keyed(t@) =~= Self::bindings());
        t
    }
}

impl Tagged for TimeScope {
    open spec fn bindings() -> Seq<(Seq<char>, TimeScope)> {
        seq![
            (TIMESCOPE_BOTH_ID@, TimeScope::Both),
            (TIMESCOPE_FULL_ID@, TimeScope::Full),
            (TIMESCOPE_HALF_ID@, TimeScope::Half),
            (TIMESCOPE_OTHER_ID@, TimeScope::Other),
        ]
    }

    proof fn lemma_identifiers_distinct() {
        reveal_strlit("b90fa9df-ee7e-48fd-b356-6d5c4146e9c7");
        reveal_strlit("5323ebf6-bfa9-426c-8c5b-84f25a30e7d7");
        reveal_strlit("84f61e5c-8584-4e25-86bf-40caf973290f");
        reveal_strlit("27e014a4-c455-4108-80e7-5fe8640283bb");
        assert(TIMESCOPE_BOTH_ID@[0] == 'b' && TIMESCOPE_BOTH_ID@[1] == '9');
        assert(TIMESCOPE_FULL_ID@[0] == '5' && TIMESCOPE_FULL_ID@[1] == '3');
        assert(TIMESCOPE_HALF_ID@[0] == '8' && TIMESCOPE_HALF_ID@[1] == '4');
        assert(TIMESCOPE_OTHER_ID@[0] == '2' && TIMESCOPE_OTHER_ID@[1] == '7');
    }

    proof fn lemma_tags_distinct() {
    }

    fn table() -> (t: Vec<(&'static str, TimeScope)>) {
        let t = vec![
            (TIMESCOPE_BOTH_ID, TimeScope::Both),
            (TIMESCOPE_FULL_ID, TimeScope::Full),
            (TIMESCOPE_HALF_ID, TimeScope::Half),
            (TIMESCOPE_OTHER_ID, TimeScope::Other),
        ];
        assert(keyed(t@) =~= Self::bindings());
        t
    }
}

impl Tagged for RosterField {
    open spec fn bindings() -> Seq<(Seq<char>, RosterField)> {
        seq![
            (DESCRIPTION_ID@, RosterField::Description),
            (PARTICIPATION_ID@, RosterField::Participation),
            (POTENTIAL_DATE_ID@, RosterField::PotentialDate),
            (TIMESCOPE_ID@, RosterField::TimeScope),
            (TOPIC_ID@, RosterField::Topic),
            (TYPE_ID@, RosterField::Type),
        ]
    }

    proof fn lemma_identifiers_distinct() {
        reveal_strlit("2cefd98b-9ea5-4329-b657-7a2a74483c51");
        reveal_strlit("d8049a3a-407c-480f-93f8-6736a27e9d6e");
        reveal_strlit("d6370fa1-64e4-4108-aa73-6ee528aa7210");
        reveal_strlit("2fa25c9d-8ed2-4a05-ab19-7464a4098572");
        reveal_strlit("24868bfa-c903-437f-9959-f7ea888e0145");
        reveal_strlit("ab71921a-70b5-46de-b198-e342c50fe262");
        assert(DESCRIPTION_ID@[0] == '2' && DESCRIPTION_ID@[1] == 'c');
        assert(PARTICIPATION_ID@[0] == 'd' && PARTICIPATION_ID@[1] == '8');
        assert(POTENTIAL_DATE_ID@[0] == 'd' && POTENTIAL_DATE_ID@[1] == '6');
        assert(TIMESCOPE_ID@[0] == '2' && TIMESCOPE_ID@[1] == 'f');
        assert(TOPIC_ID@[0] == '2' && TOPIC_ID@[1] == '4');
        assert(TYPE_ID@[0] == 'a' && TYPE_ID@[1] == 'b');
    }

    proof fn lemma_tags_distinct() {
    }

    fn table() -> (t: Vec<(&'static str, RosterField)>) {
        let t = vec![
            (DESCRIPTION_ID, RosterField::Description),
            (PARTICIPATION_ID, RosterField::Participation),
            (POTENTIAL_DATE_ID, RosterField::PotentialDate),
            (TIMESCOPE_ID, RosterField::TimeScope),
            (TOPIC_ID, RosterField::Topic),
            (TYPE_ID, RosterField::Type),
        ];
        assert(keyed(t@) =~= Self::bindings());
        t
    }
}

impl Default for Type {
    fn default() -> (kind: Type)
        ensures
            kind == Type::Training,
    {
        Type::Training
    }
}

impl Default for Participation {
    fn default() -> (participation: Participation)
        ensures
            participation == Participation::Responsible,
    {
        Participation::Responsible
    }
}

impl Default for TimeScope {
    fn default() -> (scope: TimeScope)
        ensures
            scope == TimeScope::Half,
    {
        TimeScope::Half
    }
}

impl Type {
    /// The type that the option identifier `id` stands for. Fails with
    /// `UnmappedVariant` on an identifier outside the table.
    pub fn new(id: &str) -> (res: Result<Type, ErrorKind>)
        ensures
            res == match tag_of::<Type>(id@) {
                Some(kind) => Ok::<Type, ErrorKind>(kind),
                None => Err(ErrorKind::UnmappedVariant),
            },
    {
        match find_tag::<Type>(id) {
            Some(kind) => Ok(kind),
            None => Err(ErrorKind::UnmappedVariant),
        }
    }

    /// The name of the type as the unit writes it.
    pub open spec fn label_text(self) -> Seq<char> {
        match self {
            Type::Training => "Übungsdienst"@,
            Type::Event => "Veranstaltung"@,
        }
    }

    /// The name of the type as the unit writes it.
    pub fn label(&self) -> (text: &'static str)
        ensures
            text@ == self.label_text(),
    {
        match self {
            Type::Training => "Übungsdienst",
            Type::Event => "Veranstaltung",
        }
    }
}

impl Participation {
    /// The participation that the option identifier `id` stands for. Fails
    /// with `UnmappedVariant` on an identifier outside the table.
    pub fn new(id: &str) -> (res: Result<Participation, ErrorKind>)
        ensures
            res == match tag_of::<Participation>(id@) {
                Some(participation) => Ok::<Participation, ErrorKind>(participation),
                None => Err(ErrorKind::UnmappedVariant),
            },
    {
        match find_tag::<Participation>(id) {
            Some(participation) => Ok(participation),
            None => Err(ErrorKind::UnmappedVariant),
        }
    }

    /// The name of the participation as the unit writes it.
    pub open spec fn label_text(self) -> Seq<char> {
        match self {
            Participation::Responsible => "Verantwortlich"@,
            Participation::Helping => "Helfend"@,
        }
    }

    /// The name of the participation as the unit writes it.
    pub fn label(&self) -> (text: &'static str)
        ensures
            text@ == self.label_text(),
    {
        match self {
            Participation::Responsible => "Verantwortlich",
            Participation::Helping => "Helfend",
        }
    }
}

impl TimeScope {
    /// The time scope that the option identifier `id` stands for. Fails with
    /// `UnmappedVariant` on an identifier outside the table.
    pub fn new(id: &str) -> (res: Result<TimeScope, ErrorKind>)
        ensures
            res == match tag_of::<TimeScope>(id@) {
                Some(scope) => Ok::<TimeScope, ErrorKind>(scope),
                None => Err(ErrorKind::UnmappedVariant),
            },
    {
        match find_tag::<TimeScope>(id) {
            Some(scope) => Ok(scope),
            None => Err(ErrorKind::UnmappedVariant),
        }
    }

    /// The name of the time scope as the unit writes it.
    pub open spec fn label_text(self) -> Seq<char> {
        match self {
            TimeScope::Half => "Mittwoch abend"@,
            TimeScope::Full => "Samstag"@,
            TimeScope::Both => "Kombi (Mi+Sa)"@,
            TimeScope::Other => "Außer der Reihe"@,
        }
    }

    /// The name of the time scope as the unit writes it.
    pub fn label(&self) -> (text: &'static str)
        ensures
            text@ == self.label_text(),
    {
        match self {
            TimeScope::Half => "Mittwoch abend",
            TimeScope::Full => "Samstag",
            TimeScope::Both => "Kombi (Mi+Sa)",
            TimeScope::Other => "Außer der Reihe",
        }
    }
}

impl Default for RosterReport {
    /// The blank record of report 0 with no user.
    fn default() -> (record: RosterReport)
        ensures
            record@ == RosterReport::blank(0, Seq::empty()),
    {
        let nobody = Consumer {
            firstname: String::new(),
            lastname: String::new(),
            stdformat_name: String::new(),
        };
        RosterReport::start(0, &nobody)
    }
}

impl ReportRecord for RosterReport {
    type Handler = RosterField;

    open spec fn kind() -> ReportKind {
        ReportKind::Roster
    }

    open spec fn blank(id: i64, user: Seq<char>) -> RosterReportView {
        RosterReportView {
            id,
            user,
            kind: Type::Training,
            topic: Seq::empty(),
            participation: None,
            time_scope: None,
            description: Seq::empty(),
            potential_date: Seq::empty(),
        }
    }

    open spec fn identity(record: RosterReportView) -> (i64, Seq<char>) {
        (record.id, record.user)
    }

    open spec fn well_formed(record: RosterReportView) -> bool {
        true
    }

    open spec fn assigned(
        record: RosterReportView,
        handler: RosterField,
        field: ReportTypesItemFields,
        value: Value,
    ) -> Result<RosterReportView, ErrorKind> {
        match handler {
            RosterField::Description => match decoded_text(value) {
                Ok(description) => Ok(RosterReportView { description, ..record }),
                Err(kind) => Err(kind),
            },
            RosterField::Participation => match selected_or_none::<Participation>(field, value) {
                Ok(participation) => Ok(RosterReportView { participation, ..record }),
                Err(kind) => Err(kind),
            },
            RosterField::PotentialDate => match decoded_text(value) {
                Ok(potential_date) => Ok(RosterReportView { potential_date, ..record }),
                Err(kind) => Err(kind),
            },
            RosterField::TimeScope => match selected_or_none::<TimeScope>(field, value) {
                Ok(time_scope) => Ok(RosterReportView { time_scope, ..record }),
                Err(kind) => Err(kind),
            },
            RosterField::Topic => match decoded_text(value) {
                Ok(topic) => Ok(RosterReportView { topic, ..record }),
                Err(kind) => Err(kind),
            },
            RosterField::Type => match selected::<Type>(field, value) {
                Ok(kind) => Ok(RosterReportView { kind, ..record }),
                Err(kind) => Err(kind),
            },
        }
    }

    proof fn lemma_blank_identity(id: i64, user: Seq<char>) {
    }

    proof fn lemma_assigned_identity(
        record: RosterReportView,
        handler: RosterField,
        field: ReportTypesItemFields,
        value: Value,
    ) {
    }

    fn report_kind() -> (kind: ReportKind) {
        ReportKind::Roster
    }

    fn start(id: i64, user: &Consumer) -> (record: RosterReport) {
        RosterReport {
            id,
            user: user.stdformat_name.clone(),
            kind: Type::default(),
            topic: String::new(),
            participation: None,
            time_scope: None,
            description: String::new(),
            potential_date: String::new(),
        }
    }

    fn assign(self, handler: RosterField, field: &ReportTypesItemFields, value: &Value) -> (res:
        Result<RosterReport, ErrorKind>) {
        let mut record = self;
        match handler {
            RosterField::Description => {
                record.description = decode_string(value)?;
            },
            RosterField::Participation => {
                record.participation = select_optional::<Participation>(field, value)?;
            },
            RosterField::PotentialDate => {
                record.potential_date = decode_string(value)?;
            },
            RosterField::TimeScope => {
                record.time_scope = select_optional::<TimeScope>(field, value)?;
            },
            RosterField::Topic => {
                record.topic = decode_string(value)?;
            },
            RosterField::Type => {
                record.kind = select_required::<Type>(field, value)?;
            },
        }
        Ok(record)
    }
}

impl RosterReport {
    /// Builds the roster record of one raw report.
    pub fn new_from_report(report_type: &ReportTypesItem, report: &Report, user: &Consumer) -> (res:
        Result<RosterReport, ReportError>)
        ensures
            outcome(res) == materialized::<RosterReport>(
                *report_type,
                *report,
                user.stdformat_name@,
            ),
    {
        materialize::<RosterReport>(report_type, report, user)
    }
}

/// An empty value on the participation field or the time scope field
/// leaves the record without that selection, whatever option list the
/// descriptor holds, and also where it holds none.
pub proof fn lemma_empty_choice_is_no_selection(
    record: RosterReportView,
    field: ReportTypesItemFields,
    value: Value,
)
    requires
        value.text() == Some(Seq::<char>::empty()),
    ensures
        RosterReport::assigned(record, RosterField::Participation, field, value) == Ok::<
            RosterReportView,
            ErrorKind,
        >(RosterReportView { participation: None, ..record }),
        RosterReport::assigned(record, RosterField::TimeScope, field, value) == Ok::<
            RosterReportView,
            ErrorKind,
        >(RosterReportView { time_scope: None, ..record }),
{
}

} // verus!
