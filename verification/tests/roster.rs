use divera_reports::divera::schema::response::{
    Consumer, Report, ReportTypesItem, ReportTypesItemFieldOption, ReportTypesItemFields,
    ReportTypesItemFieldsType,
};
use divera_reports::error::{ErrorKind, ReportError, ReportKind};
use divera_reports::reports::roster::{
    Participation, RosterReport, TimeScope, Type, DESCRIPTION_ID, PARTICIPATION_HELPING_ID,
    PARTICIPATION_ID, PARTICIPATION_RESPONSIBLE_ID, POTENTIAL_DATE_ID, TIMESCOPE_BOTH_ID,
    TIMESCOPE_FULL_ID, TIMESCOPE_HALF_ID, TIMESCOPE_ID, TIMESCOPE_OTHER_ID, TOPIC_ID,
    TYPE_EVENT_ID, TYPE_ID, TYPE_TRAINING_ID,
};
use divera_reports::value::Value;

fn option(id: &str, name: &str) -> ReportTypesItemFieldOption {
    ReportTypesItemFieldOption { id: id.to_string(), name: name.to_string() }
}

fn field(
    id: &str,
    name: &str,
    kind: ReportTypesItemFieldsType,
    options: Option<Vec<ReportTypesItemFieldOption>>,
) -> ReportTypesItemFields {
    ReportTypesItemFields { id: id.to_string(), name: name.to_string(), kind, options }
}

fn roster_schema() -> ReportTypesItem {
    ReportTypesItem {
        id: 12112,
        name: "Vorschläge Dienstplan".to_string(),
        description: String::new(),
        fields: vec![
            field(
                TYPE_ID,
                "Art",
                ReportTypesItemFieldsType::Radio,
                Some(vec![
                    option(TYPE_TRAINING_ID, "Übungsdienst"),
                    option(TYPE_EVENT_ID, "Veranstaltung"),
                ]),
            ),
            field(TOPIC_ID, "Thema", ReportTypesItemFieldsType::TextInput, None),
            field(DESCRIPTION_ID, "Beschreibung", ReportTypesItemFieldsType::TextArea, None),
            field(
                PARTICIPATION_ID,
                "Mitgestaltung",
                ReportTypesItemFieldsType::Radio,
                Some(vec![
                    option(PARTICIPATION_RESPONSIBLE_ID, "Verantwortlich"),
                    option(PARTICIPATION_HELPING_ID, "Helfend"),
                    option("watching", "Zuschauend"),
                ]),
            ),
            field(
                TIMESCOPE_ID,
                "Zeitumfang",
                ReportTypesItemFieldsType::SelectBox,
                Some(vec![
                    option(TIMESCOPE_HALF_ID, "Mittwoch abend"),
                    option(TIMESCOPE_FULL_ID, "Samstag"),
                    option(TIMESCOPE_BOTH_ID, "Kombi (Mi+Sa)"),
                ]),
            ),
            field(
                POTENTIAL_DATE_ID,
                "Mögliches Datum/Monat",
                ReportTypesItemFieldsType::String,
                None,
            ),
        ],
    }
}

fn roster_report(id: i64, fields: Vec<Value>) -> Report {
    Report {
        id,
        cluster_id: 77,
        user_cluster_relation_id: 12,
        status: 1,
        lat: 0,
        lng: 0,
        address: String::new(),
        fields,
    }
}

fn text(s: &str) -> Value {
    Value::Text(s.to_string())
}

fn paul() -> Consumer {
    Consumer {
        firstname: "Paul".to_string(),
        lastname: "Meier".to_string(),
        stdformat_name: "Paul M.".to_string(),
    }
}

fn values(participation: &str, time_scope: &str) -> Vec<Value> {
    vec![
        text(TYPE_EVENT_ID),
        text("Tag der offenen Tür"),
        text("Mit Vorführung"),
        text(participation),
        text(time_scope),
        text("Mai"),
    ]
}

#[test]
fn roster_type_new_maps_every_identifier_of_the_table() {
    assert_eq!(Type::new(TYPE_EVENT_ID), Ok(Type::Event));
    assert_eq!(Type::new(TYPE_TRAINING_ID), Ok(Type::Training));
    assert_eq!(Type::new(TYPE_ID), Err(ErrorKind::UnmappedVariant));
}

#[test]
fn participation_new_maps_every_identifier_of_the_table() {
    assert_eq!(Participation::new(PARTICIPATION_HELPING_ID), Ok(Participation::Helping));
    assert_eq!(Participation::new(PARTICIPATION_RESPONSIBLE_ID), Ok(Participation::Responsible));
    assert_eq!(Participation::new(""), Err(ErrorKind::UnmappedVariant));
    assert_eq!(Participation::new("watching"), Err(ErrorKind::UnmappedVariant));
}

#[test]
fn time_scope_new_maps_every_identifier_of_the_table() {
    assert_eq!(TimeScope::new(TIMESCOPE_BOTH_ID), Ok(TimeScope::Both));
    assert_eq!(TimeScope::new(TIMESCOPE_FULL_ID), Ok(TimeScope::Full));
    assert_eq!(TimeScope::new(TIMESCOPE_HALF_ID), Ok(TimeScope::Half));
    assert_eq!(TimeScope::new(TIMESCOPE_OTHER_ID), Ok(TimeScope::Other));
    assert_eq!(TimeScope::new(TIMESCOPE_ID), Err(ErrorKind::UnmappedVariant));
}

#[test]
fn roster_labels() {
    assert_eq!(Type::Training.label(), "Übungsdienst");
    assert_eq!(Type::Event.label(), "Veranstaltung");
    assert_eq!(Participation::Responsible.label(), "Verantwortlich");
    assert_eq!(Participation::Helping.label(), "Helfend");
    assert_eq!(TimeScope::Half.label(), "Mittwoch abend");
    assert_eq!(TimeScope::Full.label(), "Samstag");
    assert_eq!(TimeScope::Both.label(), "Kombi (Mi+Sa)");
    assert_eq!(TimeScope::Other.label(), "Außer der Reihe");
}

#[test]
fn roster_defaults() {
    assert_eq!(Type::default(), Type::Training);
    assert_eq!(Participation::default(), Participation::Responsible);
    assert_eq!(TimeScope::default(), TimeScope::Half);
}

#[test]
fn roster_full_record() {
    let raw = roster_report(11, values(PARTICIPATION_HELPING_ID, TIMESCOPE_FULL_ID));
    assert_eq!(
        RosterReport::new_from_report(&roster_schema(), &raw, &paul()),
        Ok(RosterReport {
            id: 11,
            user: "Paul M.".to_string(),
            kind: Type::Event,
            topic: "Tag der offenen Tür".to_string(),
            participation: Some(Participation::Helping),
            time_scope: Some(TimeScope::Full),
            description: "Mit Vorführung".to_string(),
            potential_date: "Mai".to_string(),
        })
    );
}

#[test]
fn roster_empty_choice_is_no_selection() {
    let raw = roster_report(11, values("", ""));
    let record = RosterReport::new_from_report(&roster_schema(), &raw, &paul()).unwrap();
    assert_eq!(record.participation, None);
    assert_eq!(record.time_scope, None);
    assert_eq!(record.kind, Type::Event);
}

#[test]
fn roster_choice_outside_the_option_list_is_no_selection() {
    let raw = roster_report(11, values("UNKNOWN_ID", TIMESCOPE_OTHER_ID));
    let record = RosterReport::new_from_report(&roster_schema(), &raw, &paul()).unwrap();
    assert_eq!(record.participation, None);
    assert_eq!(record.time_scope, None);
}

#[test]
fn roster_declared_choice_without_a_variant_fails() {
    let raw = roster_report(11, values("watching", ""));
    assert_eq!(
        RosterReport::new_from_report(&roster_schema(), &raw, &paul()),
        Err(ReportError {
            kind: ErrorKind::UnmappedVariant,
            report_kind: ReportKind::Roster,
            report_id: 11,
            field_id: PARTICIPATION_ID.to_string(),
            field_name: "Mitgestaltung".to_string(),
        })
    );
}

#[test]
fn roster_required_type_does_not_take_an_empty_choice() {
    let mut fields = values("", "");
    fields[0] = text("");
    let raw = roster_report(11, fields);
    assert_eq!(
        RosterReport::new_from_report(&roster_schema(), &raw, &paul()),
        Err(ReportError {
            kind: ErrorKind::UnknownOption,
            report_kind: ReportKind::Roster,
            report_id: 11,
            field_id: TYPE_ID.to_string(),
            field_name: "Art".to_string(),
        })
    );
}

#[test]
fn roster_optional_choice_must_still_be_text() {
    let mut fields = values("", "");
    fields[4] = Value::Null;
    let raw = roster_report(11, fields);
    assert_eq!(
        RosterReport::new_from_report(&roster_schema(), &raw, &paul()),
        Err(ReportError {
            kind: ErrorKind::TypeMismatch,
            report_kind: ReportKind::Roster,
            report_id: 11,
            field_id: TIMESCOPE_ID.to_string(),
            field_name: "Zeitumfang".to_string(),
        })
    );
}

fn one_field_schema(id: &str, options: Option<Vec<ReportTypesItemFieldOption>>) -> ReportTypesItem {
    ReportTypesItem {
        id: 12112,
        name: "Vorschläge Dienstplan".to_string(),
        description: String::new(),
        fields: vec![field(id, "Auswahl", ReportTypesItemFieldsType::Radio, options)],
    }
}

#[test]
fn roster_empty_choice_is_no_selection_whatever_the_option_list() {
    let lists = [
        None,
        Some(vec![]),
        Some(vec![option("", "leer")]),
        Some(vec![option(PARTICIPATION_HELPING_ID, "Helfend"), option(TIMESCOPE_FULL_ID, "Samstag")]),
    ];
    for options in lists {
        for id in [PARTICIPATION_ID, TIMESCOPE_ID] {
            let schema = one_field_schema(id, options.clone());
            let raw = roster_report(11, vec![text("")]);
            let record = RosterReport::new_from_report(&schema, &raw, &paul()).unwrap();
            assert_eq!(record.participation, None);
            assert_eq!(record.time_scope, None);
            assert_eq!(record.id, 11);
        }
    }
}

#[test]
fn roster_choice_on_a_field_without_option_list_fails() {
    let schema = one_field_schema(PARTICIPATION_ID, None);
    let raw = roster_report(11, vec![text(PARTICIPATION_HELPING_ID)]);
    assert_eq!(
        RosterReport::new_from_report(&schema, &raw, &paul()),
        Err(ReportError {
            kind: ErrorKind::MissingOptionList,
            report_kind: ReportKind::Roster,
            report_id: 11,
            field_id: PARTICIPATION_ID.to_string(),
            field_name: "Auswahl".to_string(),
        })
    );
}

#[test]
fn roster_default_is_the_blank_record() {
    assert_eq!(
        RosterReport::default(),
        RosterReport {
            id: 0,
            user: String::new(),
            kind: Type::Training,
            topic: String::new(),
            participation: None,
            time_scope: None,
            description: String::new(),
            potential_date: String::new(),
        }
    );
}
