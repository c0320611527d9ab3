//! Short reports on the use of breathing apparatus.

use crate::calendar::CalendarDate;
use crate::divera::schema::response::{Consumer, Report, ReportTypesItem, ReportTypesItemFields};
use crate::error::{ErrorKind, ReportError, ReportKind};
use crate::reports::decode::{
    decode_date, decode_integer, decode_string, decoded_date, decoded_integer, decoded_text,
};
use crate::reports::options::{
    find_tag, keyed, select_each, select_required, selected, selected_each, tag_of, Tagged,
};
use crate::reports::{materialize, materialized, outcome, ReportRecord};
use crate::value::Value;
use vstd::prelude::*;

verus! {

pub const ACTIVITIES_ID: &'static str = "0fb3a9ca-cf80-47ef-bb60-3a365b1877dc";

pub const ACTIVITY_COBRA_ID: &'static str = "c5667814-1820-4a82-9272-3364c136a902";

pub const ACTIVITY_FIRE_FIGHTING_ID: &'static str = "e3fdc401-8a3b-4e83-aef8-a2c75abab7a0";

pub const ACTIVITY_LEADING_ID: &'static str = "f1a5b65d-eb05-41b6-aac4-7339da09e3e4";

pub const ACTIVITY_RESCUING_ID: &'static str = "397ced39-22f6-4996-85a2-ef36ac240c7e";

pub const ACTIVITY_ROOF_OPENING_ID: &'static str = "5fbc96e9-4e62-4595-ade3-95cba510f032";

pub const ACTIVITY_VENTILATION_ID: &'static str = "9affc34f-b981-4cb2-b187-a0b87ea85157";

pub const DATE_ID: &'static str = "a4651554-4f5a-472a-bdbb-a051862a2c9c";

pub const DOUBLE_BOTTLES_ID: &'static str = "ddf8e441-d849-44ee-bee1-97bd5d340b1b";

pub const DURATION_ID: &'static str = "baa7c1b9-af31-4c25-9d84-ae281188ca7c";

pub const ISSUES_ID: &'static str = "3c293ad3-632e-42a9-85bf-9d7fcd0e12ad";

pub const OPERATION_TYPE_ID: &'static str = "30b19a39-caf7-40ed-ba08-5edcd9e03698";

pub const SINGLE_BOTTLES_ID: &'static str = "5e5de223-101e-422c-bc0d-510a6501073b";

pub const TYPE_ID: &'static str = "2ef454dc-336a-4af7-89f3-cd985998360b";

pub const TYPE_OPERATION_ID: &'static str = "6481edc4-4754-4b28-a9b6-220154740fb7";

pub const TYPE_TRAINING_ID: &'static str = "05d6be2c-9286-42e3-89e7-5c37cd418ffb";

/// One use of breathing apparatus, in an operation or in training.
#[derive(Clone, Debug, PartialEq, Eq)]
pub struct FireOperationReport {
    pub id: i64,
    pub user: String,
    pub activities: Activities,
    pub date: CalendarDate,
    pub double_bottles: i64,
    /// Total time in minutes.
    pub duration: i64,
    pub issues: String,
    pub operation_type: String,
    pub kind: Type,
    pub single_bottles: i64,
}

/// Whether the apparatus was used in an operation or in training.
#[derive(Clone, Copy, Debug, PartialEq, Eq, Structural)]
pub enum Type {
    Operation,
    Training,
}

/// What the member did under breathing apparatus, in the order reported.
#[derive(Clone, Debug, PartialEq, Eq)]
pub struct Activities(pub Vec<Activity>);

/// One thing done under breathing apparatus.
#[derive(Clone, Copy, Debug, PartialEq, Eq, Structural)]
pub enum Activity {
    Cobra,
    FireFighting,
    Leading,
    Rescuing,
    RoofOpening,
    Ventilation,
}

/// The fields of a fire operation report.
#[derive(Clone, Copy, Debug, PartialEq, Eq, Structural)]
pub enum FireOperationField {
    Activities,
    Date,
    DoubleBottles,
    Duration,
    Issues,
    OperationType,
    Type,
    SingleBottles,
}

/// The mathematical content of a [`FireOperationReport`].
pub struct FireOperationReportView {
    pub id: i64,
    pub user: Seq<char>,
    pub activities: Seq<Activity>,
    pub date: CalendarDate,
    pub double_bottles: i64,
    pub duration: i64,
    pub issues: Seq<char>,
    pub operation_type: Seq<char>,
    pub kind: Type,
    pub single_bottles: i64,
}

impl View for Activities {
    type V = Seq<Activity>;

    open spec fn view(&self) -> Seq<Activity> {
        self.0@
    }
}

impl View for FireOperationReport {
    type V = FireOperationReportView;

    open spec fn view(&self) -> FireOperationReportView {
        FireOperationReportView {
            id: self.id,
            user: self.user@,
            activities: self.activities@,
            date: self.date,
            double_bottles: self.double_bottles,
            duration: self.duration,
            issues: self.issues@,
            operation_type: self.operation_type@,
            kind: self.kind,
            single_bottles: self.single_bottles,
        }
    }
}

impl Tagged for Type {
    open spec fn bindings() -> Seq<(Seq<char>, Type)> {
        seq![(TYPE_OPERATION_ID@, Type::Operation), (TYPE_TRAINING_ID@, Type::Training)]
    }

    proof fn lemma_identifiers_distinct() {
        reveal_strlit("6481edc4-4754-4b28-a9b6-220154740fb7");
        reveal_strlit("05d6be2c-9286-42e3-89e7-5c37cd418ffb");
        assert(TYPE_OPERATION_ID@[0] == '6' && TYPE_OPERATION_ID@[1] == '4');
        assert(TYPE_TRAINING_ID@[0] == '0' && TYPE_TRAINING_ID@[1] == '5');
    }

    proof fn lemma_tags_distinct() {
    }

    fn table() -> (t: Vec<(&'static str, Type)>) {
        let t = vec![(TYPE_OPERATION_ID, Type::Operation), (TYPE_TRAINING_ID, Type::Training)];
        assert(keyed(t@) =~= Self::bindings());
        t
    }
}

impl Tagged for Activity {
    open spec fn bindings() -> Seq<(Seq<char>, Activity)> {
        seq![
            (ACTIVITY_COBRA_ID@, Activity::Cobra),
            (ACTIVITY_FIRE_FIGHTING_ID@, Activity::FireFighting),
            (ACTIVITY_LEADING_ID@, Activity::Leading),
            (ACTIVITY_RESCUING_ID@, Activity::Rescuing),
            (ACTIVITY_ROOF_OPENING_ID@, Activity::RoofOpening),
            (ACTIVITY_VENTILATION_ID@, Activity::Ventilation),
        ]
    }

    proof fn lemma_identifiers_distinct() {
        reveal_strlit("c5667814-1820-4a82-9272-3364c136a902");
        reveal_strlit("e3fdc401-8a3b-4e83-aef8-a2c75abab7a0");
        reveal_strlit("f1a5b65d-eb05-41b6-aac4-7339da09e3e4");
        reveal_strlit("397ced39-22f6-4996-85a2-ef36ac240c7e");
        reveal_strlit("5fbc96e9-4e62-4595-ade3-95cba510f032");
        reveal_strlit("9affc34f-b981-4cb2-b187-a0b87ea85157");
        assert(ACTIVITY_COBRA_ID@[0] == 'c' && ACTIVITY_COBRA_ID@[1] == '5');
        assert(ACTIVITY_FIRE_FIGHTING_ID@[0] == 'e' && ACTIVITY_FIRE_FIGHTING_ID@[1] == '3');
        assert(ACTIVITY_LEADING_ID@[0] == 'f' && ACTIVITY_LEADING_ID@[1] == '1');
        assert(ACTIVITY_RESCUING_ID@[0] == '3' && ACTIVITY_RESCUING_ID@[1] == '9');
        assert(ACTIVITY_ROOF_OPENING_ID@[0] == '5' && ACTIVITY_ROOF_OPENING_ID@[1] == 'f');
        assert(ACTIVITY_VENTILATION_ID@[0] == '9' && ACTIVITY_VENTILATION_ID@[1] == 'a');
    }

    proof fn lemma_tags_distinct() {
    }

    fn table() -> (t: Vec<(&'static str, Activity)>) {
        let t = vec![
            (ACTIVITY_COBRA_ID, Activity::Cobra),
            (ACTIVITY_FIRE_FIGHTING_ID, Activity::FireFighting),
            (ACTIVITY_LEADING_ID, Activity::Leading),
            (ACTIVITY_RESCUING_ID, Activity::Rescuing),
            (ACTIVITY_ROOF_OPENING_ID, Activity::RoofOpening),
            (ACTIVITY_VENTILATION_ID, Activity::Ventilation),
        ];
        assert(keyed(t@) =~= Self::bindings());
        t
    }
}

impl Tagged for FireOperationField {
    open spec fn bindings() -> Seq<(Seq<char>, FireOperationField)> {
        seq![
            (ACTIVITIES_ID@, FireOperationField::Activities),
            (DATE_ID@, FireOperationField::Date),
            (DOUBLE_BOTTLES_ID@, FireOperationField::DoubleBottles),
            (DURATION_ID@, FireOperationField::Duration),
            (ISSUES_ID@, FireOperationField::Issues),
            (OPERATION_TYPE_ID@, FireOperationField::OperationType),
            (TYPE_ID@, FireOperationField::Type),
            (SINGLE_BOTTLES_ID@, FireOperationField::SingleBottles),
        ]
    }

    proof fn lemma_identifiers_distinct() {
        reveal_strlit("0fb3a9ca-cf80-47ef-bb60-3a365b1877dc");
        reveal_strlit("a4651554-4f5a-472a-bdbb-a051862a2c9c");
        reveal_strlit("ddf8e441-d849-44ee-bee1-97bd5d340b1b");
        reveal_strlit("baa7c1b9-af31-4c25-9d84-ae281188ca7c");
        reveal_strlit("3c293ad3-632e-42a9-85bf-9d7fcd0e12ad");
        reveal_strlit("30b19a39-caf7-40ed-ba08-5edcd9e03698");
        reveal_strlit("2ef454dc-336a-4af7-89f3-cd985998360b");
        reveal_strlit("5e5de223-101e-422c-bc0d-510a6501073b");
        assert(ACTIVITIES_ID@[0] == '0' && ACTIVITIES_ID@[1] == 'f');
        assert(DATE_ID@[0] == 'a' && DATE_ID@[1] == '4');
        assert(DOUBLE_BOTTLES_ID@[0] == 'd' && DOUBLE_BOTTLES_ID@[1] == 'd');
        assert(DURATION_ID@[0] == 'b' && DURATION_ID@[1] == 'a');
        assert(ISSUES_ID@[0] == '3' && ISSUES_ID@[1] == 'c');
        assert(OPERATION_TYPE_ID@[0] == '3' && OPERATION_TYPE_ID@[1] == '0');
        assert(TYPE_ID@[0] == '2' && TYPE_ID@[1] == 'e');
        assert(SINGLE_BOTTLES_ID@[0] == '5' && SINGLE_BOTTLES_ID@[1] == 'e');
    }

    proof fn lemma_tags_distinct() {
    }

    fn table() -> (t: Vec<(&'static str, FireOperationField)>) {
        let t = vec![
            (ACTIVITIES_ID, FireOperationField::Activities),
            (DATE_ID, FireOperationField::Date),
            (DOUBLE_BOTTLES_ID, FireOperationField::DoubleBottles),
            (DURATION_ID, FireOperationField::Duration),
            (ISSUES_ID, FireOperationField::Issues),
            (OPERATION_TYPE_ID, FireOperationField::OperationType),
            (TYPE_ID, FireOperationField::Type),
            (SINGLE_BOTTLES_ID, FireOperationField::SingleBottles),
        ];
        assert(keyed(t@) =~= Self::bindings());
        t
    }
}

impl Default for Type {
    fn default() -> (kind: Type)
        ensures
            kind == Type::Operation,
    {
        Type::Operation
    }
}

impl Default for Activity {
    fn default() -> (activity: Activity)
        ensures
            activity == Activity::Cobra,
    {
        Activity::Cobra
    }
}

impl Default for Activities {
    fn default() -> (activities: Activities)
        ensures
            activities@ == Seq::<Activity>::empty(),
    {
        Activities(Vec::new())
    }
}

impl Type {
    /// The type that the option identifier `id` stands for. Fails with
    /// `UnmappedVariant` on an identifier outside the table.
    pub fn new(id: &str) -> (res: Result<Type, ErrorKind>)
        ensures
            res == match tag_of::<Type>(id@) {
                Some(kind) => Ok::<Type, ErrorKind>(kind),
                None => Err(ErrorKind::UnmappedVariant),
            },
    {
        match find_tag::<Type>(id) {
            Some(kind) => Ok(kind),
            None => Err(ErrorKind::UnmappedVariant),
        }
    }

    /// The name of the type as the unit writes it.
    pub open spec fn label_text(self) -> Seq<char> {
        match self {
            Type::Operation => "Einsatz"@,
            Type::Training => "Übung"@,
        }
    }

    /// The name of the type as the unit writes it.
    pub fn label(&self) -> (text: &'static str)
        ensures
            text@ == self.label_text(),
    {
        match self {
            Type::Operation => "Einsatz",
            Type::Training => "Übung",
        }
    }
}

impl Activity {
    /// The activity that the option identifier `id` stands for. Fails with
    /// `UnmappedVariant` on an identifier outside the table.
    pub fn new(id: &str) -> (res: Result<Activity, ErrorKind>)
        ensures
            res == match tag_of::<Activity>(id@) {
                Some(activity) => Ok::<Activity, ErrorKind>(activity),
                None => Err(ErrorKind::UnmappedVariant),
            },
    {
        match find_tag::<Activity>(id) {
            Some(activity) => Ok(activity),
            None => Err(ErrorKind::UnmappedVariant),
        }
    }

    /// The name of the activity as the unit writes it.
    pub open spec fn label_text(self) -> Seq<char> {
        match self {
            Activity::Cobra => "Cobra Cold Cut"@,
            Activity::FireFighting => "Brandbekämpfung"@,
            Activity::Leading => "Führung (als GF/ZF)"@,
            Activity::Rescuing => "Menschenrettung"@,
            Activity::RoofOpening => "Dachhautöffnung/Zugangsöffnung"@,
            Activity::Ventilation => "Be- und Entlüftungsgerät"@,
        }
    }

    /// The name of the activity as the unit writes it.
    pub fn label(&self) -> (text: &'static str)
        ensures
            text@ == self.label_text(),
    {
        match self {
            Activity::Cobra => "Cobra Cold Cut",
            Activity::FireFighting => "Brandbekämpfung",
            Activity::Leading => "Führung (als GF/ZF)",
            Activity::Rescuing => "Menschenrettung",
            Activity::RoofOpening => "Dachhautöffnung/Zugangsöffnung",
            Activity::Ventilation => "Be- und Entlüftungsgerät",
        }
    }
}

/// The names of the first `n` activities, separated by a comma and a space.
pub open spec fn joined_labels(activities: Seq<Activity>, n: nat) -> Seq<char>
    decreases n,
{
    if n == 0 {
        Seq::empty()
    } else if n == 1 {
        activities[0].label_text()
    } else {
        joined_labels(activities, (n - 1) as nat) + ", "@ + activities[n - 1].label_text()
    }
}

/// A list of activities by its elements.
pub open spec fn activities_result(res: Result<Activities, ErrorKind>) -> Result<
    Seq<Activity>,
    ErrorKind,
> {
    match res {
        Ok(activities) => Ok(activities@),
        Err(kind) => Err(kind),
    }
}

impl Activities {
    /// Reads the activities of a multiple-choice field: `value` must be a
    /// list of option identifiers, each declared by the field and known to
    /// the table of [`Activity`].
    pub fn new(field: &ReportTypesItemFields, value: &Value) -> (res: Result<Activities, ErrorKind>)
        ensures
            activities_result(res) == selected_each::<Activity>(*field, *value),
    {
        match select_each::<Activity>(field, value) {
            Ok(chosen) => Ok(Activities(chosen)),
            Err(kind) => Err(kind),
        }
    }

    /// The names of the activities, separated by a comma and a space.
    pub fn label(&self) -> (text: String)
        ensures
            text@ == joined_labels(self@, self@.len()),
    {
        let mut text = String::new();
        let mut i: usize = 0;
        while i < self.0.len()
            invariant
                i <= self.0@.len(),
                text@ == joined_labels(self@, i as nat),
            decreases self.0@.len() - i,
        {
            if i > 0 {
                text.append(", ");
            }
            text.append(self.0[i].label());
            i = i + 1;
        }
        text
    }
}

impl Default for FireOperationReport {
    /// The blank record of report 0 with no user.
    fn default() -> (record: FireOperationReport)
        ensures
            record@ == FireOperationReport::blank(0, Seq::empty()),
    {
        let nobody = Consumer {
            firstname: String::new(),
            lastname: String::new(),
            stdformat_name: String::new(),
        };
        FireOperationReport::start(0, &nobody)
    }
}

impl ReportRecord for FireOperationReport {
    type Handler = FireOperationField;

    open spec fn kind() -> ReportKind {
        ReportKind::FireOperation
    }

    open spec fn blank(id: i64, user: Seq<char>) -> FireOperationReportView {
        FireOperationReportView {
            id,
            user,
            activities: Seq::empty(),
            date: CalendarDate::epoch(),
            double_bottles: 0,
            duration: 0,
            issues: Seq::empty(),
            operation_type: Seq::empty(),
            kind: Type::Operation,
            single_bottles: 0,
        }
    }

    open spec fn identity(record: FireOperationReportView) -> (i64, Seq<char>) {
        (record.id, record.user)
    }

    open spec fn well_formed(record: FireOperationReportView) -> bool {
        record.date.well_formed()
    }

    open spec fn assigned(
        record: FireOperationReportView,
        handler: FireOperationField,
        field: ReportTypesItemFields,
        value: Value,
    ) -> Result<FireOperationReportView, ErrorKind> {
        match handler {
            FireOperationField::Activities => match selected_each::<Activity>(field, value) {
                Ok(activities) => Ok(FireOperationReportView { activities, ..record }),
                Err(kind) => Err(kind),
            },
            FireOperationField::Date => match decoded_date(value) {
                Ok(date) => Ok(FireOperationReportView { date, ..record }),
                Err(kind) => Err(kind),
            },
            FireOperationField::DoubleBottles => match decoded_integer(value) {
                Ok(double_bottles) => Ok(FireOperationReportView { double_bottles, ..record }),
                Err(kind) => Err(kind),
            },
            FireOperationField::Duration => match decoded_integer(value) {
                Ok(duration) => Ok(FireOperationReportView { duration, ..record }),
                Err(kind) => Err(kind),
            },
            FireOperationField::Issues => match decoded_text(value) {
                Ok(issues) => Ok(FireOperationReportView { issues, ..record }),
                Err(kind) => Err(kind),
            },
            FireOperationField::OperationType => match decoded_text(value) {
                Ok(operation_type) => Ok(FireOperationReportView { operation_type, ..record }),
                Err(kind) => Err(kind),
            },
            FireOperationField::Type => match selected::<Type>(field, value) {
                Ok(kind) => Ok(FireOperationReportView { kind, ..record }),
                Err(kind) => Err(kind),
            },
            FireOperationField::SingleBottles => match decoded_integer(value) {
                Ok(single_bottles) => Ok(FireOperationReportView { single_bottles, ..record }),
                Err(kind) => Err(kind),
            },
        }
    }

    proof fn lemma_blank_identity(id: i64, user: Seq<char>) {
    }

    proof fn lemma_assigned_identity(
        record: FireOperationReportView,
        handler: FireOperationField,
        field: ReportTypesItemFields,
        value: Value,
    ) {
    }

    fn report_kind() -> (kind: ReportKind) {
        ReportKind::FireOperation
    }

    fn start(id: i64, user: &Consumer) -> (record: FireOperationReport) {
        FireOperationReport {
            id,
            user: user.stdformat_name.clone(),
            activities: Activities::default(),
            date: CalendarDate::default(),
            double_bottles: 0,
            duration: 0,
            issues: String::new(),
            operation_type: String::new(),
            kind: Type::default(),
            single_bottles: 0,
        }
    }

    fn assign(
        self,
        handler: FireOperationField,
        field: &ReportTypesItemFields,
        value: &Value,
    ) -> (res: Result<FireOperationReport, ErrorKind>) {
        let mut record = self;
        match handler {
            FireOperationField::Activities => {
                record.activities = Activities::new(field, value)?;
            },
            FireOperationField::Date => {
                record.date = decode_date(value)?;
            },
            FireOperationField::DoubleBottles => {
                record.double_bottles = decode_integer(value)?;
            },
            FireOperationField::Duration => {
                record.duration = decode_integer(value)?;
            },
            FireOperationField::Issues => {
                record.issues = decode_string(value)?;
            },
            FireOperationField::OperationType => {
                record.operation_type = decode_string(value)?;
            },
            FireOperationField::Type => {
                record.kind = select_required::<Type>(field, value)?;
            },
            FireOperationField::SingleBottles => {
                record.single_bottles = decode_integer(value)?;
            },
        }
        Ok(record)
    }
}

impl FireOperationReport {
    /// Builds the fire operation record of one raw report.
    pub fn new_from_report(report_type: &ReportTypesItem, report: &Report, user: &Consumer) -> (res:
        Result<FireOperationReport, ReportError>)
        ensures
            outcome(res) == materialized::<FireOperationReport>(
                *report_type,
                *report,
                user.stdformat_name@,
            ),
            res matches Ok(record) ==> FireOperationReport::well_formed(record@),
    {
        materialize::<FireOperationReport>(report_type, report, user)
    }
}

} // verus!
