use divera_reports::calendar::CalendarDate;
use divera_reports::divera::schema::response::{
    Consumer, Report, ReportTypesItem, ReportTypesItemFieldOption, ReportTypesItemFields,
    ReportTypesItemFieldsType,
};
use divera_reports::error::{ErrorKind, ReportError, ReportKind};
use divera_reports::reports::fire_operation::{
    Activities, Activity, FireOperationReport, Type, ACTIVITIES_ID, ACTIVITY_COBRA_ID,
    ACTIVITY_FIRE_FIGHTING_ID, ACTIVITY_LEADING_ID, ACTIVITY_RESCUING_ID,
    ACTIVITY_ROOF_OPENING_ID, ACTIVITY_VENTILATION_ID, DATE_ID, DOUBLE_BOTTLES_ID, DURATION_ID,
    ISSUES_ID, OPERATION_TYPE_ID, SINGLE_BOTTLES_ID, TYPE_ID, TYPE_OPERATION_ID,
    TYPE_TRAINING_ID,
};
use divera_reports::value::Value;

fn option(id: &str, name: &str) -> ReportTypesItemFieldOption {
    ReportTypesItemFieldOption { id: id.to_string(), name: name.to_string() }
}

fn field(
    id: &str,
    name: &str,
    kind: ReportTypesItemFieldsType,
    options: Option<Vec<ReportTypesItemFieldOption>>,
) -> ReportTypesItemFields {
    ReportTypesItemFields { id: id.to_string(), name: name.to_string(), kind, options }
}

fn activities_field() -> ReportTypesItemFields {
    field(
        ACTIVITIES_ID,
        "Tätigkeit",
        ReportTypesItemFieldsType::Checkbox,
        Some(vec![
            option(ACTIVITY_COBRA_ID, "Cobra Cold Cut"),
            option(ACTIVITY_FIRE_FIGHTING_ID, "Brandbekämpfung"),
            option(ACTIVITY_LEADING_ID, "Führung (als GF/ZF)"),
            option(ACTIVITY_RESCUING_ID, "Menschenrettung"),
            option(ACTIVITY_ROOF_OPENING_ID, "Dachhautöffnung/Zugangsöffnung"),
            option(ACTIVITY_VENTILATION_ID, "Be- und Entlüftungsgerät"),
            option("drone", "Drohne"),
        ]),
    )
}

fn fire_schema() -> ReportTypesItem {
    ReportTypesItem {
        id: 11146,
        name: "Atemschutz Kurzbericht".to_string(),
        description: String::new(),
        fields: vec![
            field(DATE_ID, "Datum", ReportTypesItemFieldsType::Date, None),
            field(
                TYPE_ID,
                "Art",
                ReportTypesItemFieldsType::Radio,
                Some(vec![
                    option(TYPE_OPERATION_ID, "Einsatz"),
                    option(TYPE_TRAINING_ID, "Übung"),
                ]),
            ),
            field(OPERATION_TYPE_ID, "Alarmart", ReportTypesItemFieldsType::TextInput, None),
            activities_field(),
            field(DURATION_ID, "Gesamtzeit (Min)", ReportTypesItemFieldsType::Number, None),
            field(ISSUES_ID, "Probleme", ReportTypesItemFieldsType::TextArea, None),
            field(SINGLE_BOTTLES_ID, "Einflaschengerät(e)", ReportTypesItemFieldsType::Number, None),
            field(DOUBLE_BOTTLES_ID, "Zweiflaschengerät(e)", ReportTypesItemFieldsType::Number, None),
        ],
    }
}

fn fire_report(id: i64, fields: Vec<Value>) -> Report {
    Report {
        id,
        cluster_id: 77,
        user_cluster_relation_id: 12,
        status: 1,
        lat: 0,
        lng: 0,
        address: String::new(),
        fields,
    }
}

fn text(s: &str) -> Value {
    Value::Text(s.to_string())
}

fn paul() -> Consumer {
    Consumer {
        firstname: "Paul".to_string(),
        lastname: "Meier".to_string(),
        stdformat_name: "Paul M.".to_string(),
    }
}

fn values(activities: Value, duration: Value) -> Vec<Value> {
    vec![
        text("1700000000"),
        text(TYPE_TRAINING_ID),
        text("B3"),
        activities,
        duration,
        text("keine"),
        Value::Integer(2),
        Value::Integer(1),
    ]
}

fn failure(kind: ErrorKind, field_id: &str, field_name: &str) -> ReportError {
    ReportError {
        kind,
        report_kind: ReportKind::FireOperation,
        report_id: 21,
        field_id: field_id.to_string(),
        field_name: field_name.to_string(),
    }
}

#[test]
fn fire_type_new_maps_every_identifier_of_the_table() {
    assert_eq!(Type::new(TYPE_OPERATION_ID), Ok(Type::Operation));
    assert_eq!(Type::new(TYPE_TRAINING_ID), Ok(Type::Training));
    assert_eq!(Type::new(TYPE_ID), Err(ErrorKind::UnmappedVariant));
}

#[test]
fn activity_new_maps_every_identifier_of_the_table() {
    assert_eq!(Activity::new(ACTIVITY_COBRA_ID), Ok(Activity::Cobra));
    assert_eq!(Activity::new(ACTIVITY_FIRE_FIGHTING_ID), Ok(Activity::FireFighting));
    assert_eq!(Activity::new(ACTIVITY_LEADING_ID), Ok(Activity::Leading));
    assert_eq!(Activity::new(ACTIVITY_RESCUING_ID), Ok(Activity::Rescuing));
    assert_eq!(Activity::new(ACTIVITY_ROOF_OPENING_ID), Ok(Activity::RoofOpening));
    assert_eq!(Activity::new(ACTIVITY_VENTILATION_ID), Ok(Activity::Ventilation));
    assert_eq!(Activity::new("drone"), Err(ErrorKind::UnmappedVariant));
}

#[test]
fn fire_labels() {
    assert_eq!(Type::Operation.label(), "Einsatz");
    assert_eq!(Type::Training.label(), "Übung");
    assert_eq!(Activity::Cobra.label(), "Cobra Cold Cut");
    assert_eq!(Activity::FireFighting.label(), "Brandbekämpfung");
    assert_eq!(Activity::Leading.label(), "Führung (als GF/ZF)");
    assert_eq!(Activity::Rescuing.label(), "Menschenrettung");
    assert_eq!(Activity::RoofOpening.label(), "Dachhautöffnung/Zugangsöffnung");
    assert_eq!(Activity::Ventilation.label(), "Be- und Entlüftungsgerät");
}

#[test]
fn fire_defaults() {
    assert_eq!(Type::default(), Type::Operation);
    assert_eq!(Activity::default(), Activity::Cobra);
    assert_eq!(Activities::default(), Activities(vec![]));
}

#[test]
fn activities_label_joins_the_names() {
    assert_eq!(Activities(vec![]).label(), "");
    assert_eq!(Activities(vec![Activity::Leading]).label(), "Führung (als GF/ZF)");
    assert_eq!(
        Activities(vec![Activity::Cobra, Activity::Rescuing, Activity::Cobra]).label(),
        "Cobra Cold Cut, Menschenrettung, Cobra Cold Cut"
    );
}

#[test]
fn activities_new_reads_a_list_of_identifiers() {
    let list = Value::List(vec![text(ACTIVITY_RESCUING_ID), text(ACTIVITY_COBRA_ID)]);
    assert_eq!(
        Activities::new(&activities_field(), &list),
        Ok(Activities(vec![Activity::Rescuing, Activity::Cobra]))
    );
    assert_eq!(Activities::new(&activities_field(), &Value::List(vec![])), Ok(Activities(vec![])));
}

#[test]
fn activities_new_fails_on_a_bad_element() {
    let field = activities_field();
    let undeclared = Value::List(vec![text(ACTIVITY_COBRA_ID), text("UNKNOWN_ID")]);
    assert_eq!(Activities::new(&field, &undeclared), Err(ErrorKind::UnknownOption));
    let unmapped = Value::List(vec![text("drone")]);
    assert_eq!(Activities::new(&field, &unmapped), Err(ErrorKind::UnmappedVariant));
    let number = Value::List(vec![Value::Integer(3)]);
    assert_eq!(Activities::new(&field, &number), Err(ErrorKind::TypeMismatch));
    assert_eq!(Activities::new(&field, &text(ACTIVITY_COBRA_ID)), Err(ErrorKind::TypeMismatch));
}

#[test]
fn fire_operation_full_record() {
    let list = Value::List(vec![text(ACTIVITY_FIRE_FIGHTING_ID), text(ACTIVITY_VENTILATION_ID)]);
    let raw = fire_report(21, values(list, Value::Integer(35)));
    assert_eq!(
        FireOperationReport::new_from_report(&fire_schema(), &raw, &paul()),
        Ok(FireOperationReport {
            id: 21,
            user: "Paul M.".to_string(),
            activities: Activities(vec![Activity::FireFighting, Activity::Ventilation]),
            date: CalendarDate { year: 2023, month: 11, day: 14 },
            double_bottles: 1,
            duration: 35,
            issues: "keine".to_string(),
            operation_type: "B3".to_string(),
            kind: Type::Training,
            single_bottles: 2,
        })
    );
}

#[test]
fn fire_operation_counts_must_be_integers() {
    let raw = fire_report(21, values(Value::List(vec![]), Value::Fraction(35)));
    assert_eq!(
        FireOperationReport::new_from_report(&fire_schema(), &raw, &paul()),
        Err(failure(ErrorKind::TypeMismatch, DURATION_ID, "Gesamtzeit (Min)"))
    );
    let raw = fire_report(21, values(Value::List(vec![]), text("35")));
    assert_eq!(
        FireOperationReport::new_from_report(&fire_schema(), &raw, &paul()),
        Err(failure(ErrorKind::TypeMismatch, DURATION_ID, "Gesamtzeit (Min)"))
    );
}

#[test]
fn fire_operation_fails_on_an_undeclared_activity() {
    let list = Value::List(vec![text(ACTIVITY_FIRE_FIGHTING_ID), text("UNKNOWN_ID")]);
    let raw = fire_report(21, values(list, Value::Integer(35)));
    assert_eq!(
        FireOperationReport::new_from_report(&fire_schema(), &raw, &paul()),
        Err(failure(ErrorKind::UnknownOption, ACTIVITIES_ID, "Tätigkeit"))
    );
}

#[test]
fn fire_operation_fails_when_activities_are_no_list() {
    let raw = fire_report(21, values(text(ACTIVITY_COBRA_ID), Value::Integer(35)));
    assert_eq!(
        FireOperationReport::new_from_report(&fire_schema(), &raw, &paul()),
        Err(failure(ErrorKind::TypeMismatch, ACTIVITIES_ID, "Tätigkeit"))
    );
}

#[test]
fn activities_new_takes_an_empty_list_without_an_option_list() {
    let bare = field(ACTIVITIES_ID, "Tätigkeit", ReportTypesItemFieldsType::Checkbox, None);
    assert_eq!(Activities::new(&bare, &Value::List(vec![])), Ok(Activities(vec![])));
    assert_eq!(
        Activities::new(&bare, &Value::List(vec![text(ACTIVITY_COBRA_ID)])),
        Err(ErrorKind::MissingOptionList)
    );
}

#[test]
fn fire_operation_default_is_the_blank_record() {
    assert_eq!(
        FireOperationReport::default(),
        FireOperationReport {
            id: 0,
            user: String::new(),
            activities: Activities(vec![]),
            date: CalendarDate { year: 1970, month: 1, day: 1 },
            double_bottles: 0,
            duration: 0,
            issues: String::new(),
            operation_type: String::new(),
            kind: Type::Operation,
            single_bottles: 0,
        }
    );
}
