//! The materialisation engine and its report kinds.
//!
//! A report kind is a record type with a table of handlers. The engine walks
//! the schema's field descriptors and the report's values in lockstep, finds
//! each descriptor's handler by its identifier and lets the handler assign
//! the decoded value to the record under construction. The first field that
//! has no handler, or whose value does not decode, ends the construction.

pub mod absent;
pub mod decode;
pub mod directory;
pub mod fire_operation;
pub mod options;
pub mod roster;
pub mod station;

use crate::divera::schema::response;
use crate::divera::schema::response::{Consumer, Report, ReportTypesItem, ReportTypesItemFields};
use crate::error::{ErrorKind, ReportError, ReportErrorView, ReportKind};
use crate::reports::directory::{resolve_user, resolved_user, UserDirectory};
use crate::reports::options::{
    find_in, keyed, lemma_one_identifier_per_tag, tag_of, Tagged,
};
use crate::text::decimal;
use crate::value::Value;
use vstd::prelude::*;

verus! {

/// A typed record that the engine can build field by field.
pub trait ReportRecord: Sized + View {
    /// The handlers of this kind: one tag per field the kind knows.
    type Handler: Tagged;

    /// The kind of report this record stands for.
    spec fn kind() -> ReportKind;

    /// The record before any field is assigned: identifier and user set,
    /// every other field at its default.
    spec fn blank(id: i64, user: Seq<char>) -> Self::V;

    /// The report identifier and the user's display name of a record.
    spec fn identity(record: Self::V) -> (i64, Seq<char>);

    /// The invariant of the record's fields.
    spec fn well_formed(record: Self::V) -> bool;

    /// The record after `handler` has decoded `value` and assigned it, or
    /// the reason why the value does not decode.
    spec fn assigned(
        record: Self::V,
        handler: Self::Handler,
        field: ReportTypesItemFields,
        value: Value,
    ) -> Result<Self::V, ErrorKind>;

    /// A blank record carries the identity it was made with.
    proof fn lemma_blank_identity(id: i64, user: Seq<char>)
        ensures
            Self::identity(Self::blank(id, user)) == (id, user),
    ;

    /// No handler touches the identity of a record.
    proof fn lemma_assigned_identity(
        record: Self::V,
        handler: Self::Handler,
        field: ReportTypesItemFields,
        value: Value,
    )
        ensures
            Self::assigned(record, handler, field, value) matches Ok(next) ==> Self::identity(next)
                == Self::identity(record),
    ;

    /// The kind of report this record stands for.
    fn report_kind() -> (kind: ReportKind)
        ensures
            kind == Self::kind(),
    ;

    /// Makes the blank record of a report.
    fn start(id: i64, user: &Consumer) -> (record: Self)
        ensures
            record@ == Self::blank(id, user.stdformat_name@),
            Self::well_formed(record@),
    ;

    /// Lets `handler` decode `value` and assign it.
    fn assign(self, handler: Self::Handler, field: &ReportTypesItemFields, value: &Value) -> (res:
        Result<Self, ErrorKind>)
        ensures
            record_result(res) == Self::assigned(self@, handler, *field, *value),
            Self::well_formed(self@) ==> (res matches Ok(next) ==> Self::well_formed(next@)),
    ;
}

/// The outcome of an assignment by the view of its record.
pub open spec fn record_result<R: View>(res: Result<R, ErrorKind>) -> Result<R::V, ErrorKind> {
    match res {
        Ok(record) => Ok(record@),
        Err(kind) => Err(kind),
    }
}

/// The outcome of a materialisation by the views of record and error.
pub open spec fn outcome<R: View>(res: Result<R, ReportError>) -> Result<R::V, ReportErrorView> {
    match res {
        Ok(record) => Ok(record@),
        Err(error) => Err(error@),
    }
}

/// One step of the dispatcher: the field's identifier picks the handler, the
/// handler assigns the value. An identifier without a handler is an
/// `UnknownField`.
pub open spec fn dispatched<R: ReportRecord>(
    record: R::V,
    field: ReportTypesItemFields,
    value: Value,
) -> Result<R::V, ErrorKind> {
    match tag_of::<R::Handler>(field.id@) {
        Some(handler) => R::assigned(record, handler, field, value),
        None => Err(ErrorKind::UnknownField),
    }
}

/// The record after the first `n` pairs of field and value were dispatched
/// in order, or the position and the kind of the first failure among them.
pub open spec fn applied<R: ReportRecord>(
    start: R::V,
    fields: Seq<ReportTypesItemFields>,
    values: Seq<Value>,
    n: nat,
) -> Result<R::V, (int, ErrorKind)>
    decreases n,
{
    if n == 0 {
        Ok(start)
    } else {
        match applied::<R>(start, fields, values, (n - 1) as nat) {
            Ok(record) => match dispatched::<R>(record, fields[n - 1], values[n - 1]) {
                Ok(next) => Ok(next),
                Err(kind) => Err((n - 1, kind)),
            },
            Err(failure) => Err(failure),
        }
    }
}

/// The error of a report whose value list is not as long as its schema.
pub open spec fn mismatch<R: ReportRecord>(report: Report) -> ReportErrorView {
    ReportErrorView {
        kind: ErrorKind::SchemaMismatch,
        report_kind: R::kind(),
        report_id: report.id,
        field_id: Seq::empty(),
        field_name: Seq::empty(),
    }
}

/// The error of a report whose field `field` failed with `kind`.
pub open spec fn field_failure<R: ReportRecord>(
    report: Report,
    field: ReportTypesItemFields,
    kind: ErrorKind,
) -> ReportErrorView {
    ReportErrorView {
        kind,
        report_kind: R::kind(),
        report_id: report.id,
        field_id: field.id@,
        field_name: field.name@,
    }
}

/// What one raw report materialises to under a schema, for a submitter with
/// display name `user`.
///
/// Schema and report must hold the same number of fields. Then every pair is
/// dispatched in order, starting from the blank record; the first failure
/// becomes the error, with the report's identifier and the field that broke.
pub open spec fn materialized<R: ReportRecord>(
    report_type: ReportTypesItem,
    report: Report,
    user: Seq<char>,
) -> Result<R::V, ReportErrorView> {
    let fields = report_type.fields@;
    if report.fields@.len() != fields.len() {
        Err(mismatch::<R>(report))
    } else {
        match applied::<R>(R::blank(report.id, user), fields, report.fields@, fields.len()) {
            Ok(record) => Ok(record),
            Err((at, kind)) => Err(field_failure::<R>(report, fields[at], kind)),
        }
    }
}

/// The handler of the field at position `i` of a schema.
pub open spec fn handler_at<R: ReportRecord>(report_type: ReportTypesItem, i: int) -> Option<
    R::Handler,
> {
    tag_of::<R::Handler>(report_type.fields@[i].id@)
}

/// Builds the typed record of one raw report.
///
/// Fails with `SchemaMismatch` where schema and report differ in length,
/// with `UnknownField` at the first field whose identifier has no handler,
/// and with the decoder's error at the first value that does not decode.
pub fn materialize<R: ReportRecord>(
    report_type: &ReportTypesItem,
    report: &Report,
    user: &Consumer,
) -> (res: Result<R, ReportError>)
    ensures
        outcome(res) == materialized::<R>(*report_type, *report, user.stdformat_name@),
        res matches Ok(record) ==> R::well_formed(record@),
{
    let count = report_type.fields.len();
    if report.fields.len() != count {
        return Err(
            ReportError {
                kind: ErrorKind::SchemaMismatch,
                report_kind: R::report_kind(),
                report_id: report.id,
                field_id: String::new(),
                field_name: String::new(),
            },
        );
    }
    let handlers = R::Handler::table();
    let mut record = R::start(report.id, user);
    let ghost blank = record@;
    let mut i: usize = 0;
    while i < count
        invariant
            i <= count,
            keyed(handlers@) == R::Handler::bindings(),
            count == report_type.fields@.len(),
            count == report.fields@.len(),
            blank == R::blank(report.id, user.stdformat_name@),
            applied::<R>(blank, report_type.fields@, report.fields@, i as nat) == Ok::<
                R::V,
                (int, ErrorKind),
            >(record@),
            R::well_formed(record@),
        decreases count - i,
    {
        let field = &report_type.fields[i];
        let value = &report.fields[i];
        let step = match find_in(&handlers, field.id.as_str()) {
            Some(handler) => record.assign(handler, field, value),
            None => Err(ErrorKind::UnknownField),
        };
        match step {
            Ok(next) => {
                record = next;
            },
            Err(kind) => {
                proof {
                    lemma_failure_stays::<R>(
                        blank,
                        report_type.fields@,
                        report.fields@,
                        (i + 1) as nat,
                        count as nat,
                    );
                }
                return Err(
                    ReportError {
                        kind,
                        report_kind: R::report_kind(),
                        report_id: report.id,
                        field_id: field.id.clone(),
                        field_name: field.name.clone(),
                    },
                );
            },
        }
        i = i + 1;
    }
    Ok(record)
}

/// What the report at position `i` of a batch materialises to: its submitter
/// is resolved through the directory first.
pub open spec fn materialized_at<R: ReportRecord>(
    report_type: ReportTypesItem,
    reports: Seq<Report>,
    users: Map<Seq<char>, Consumer>,
    i: int,
) -> Result<R::V, ReportErrorView> {
    materialized::<R>(
        report_type,
        reports[i],
        resolved_user(users, reports[i].user_cluster_relation_id).stdformat_name,
    )
}

/// What a batch materialises to: the records of all its reports in order,
/// or the error of the first report that fails.
pub open spec fn batch_outcome<R: ReportRecord>(
    res: Result<Vec<R>, ReportError>,
    report_type: ReportTypesItem,
    reports: Seq<Report>,
    users: Map<Seq<char>, Consumer>,
) -> bool {
    match res {
        Ok(records) => {
            &&& records@.len() == reports.len()
            &&& forall|i: int|
                0 <= i < reports.len() ==> #[trigger] materialized_at::<R>(
                    report_type,
                    reports,
                    users,
                    i,
                ) == Ok::<R::V, ReportErrorView>(records@[i]@)
            &&& forall|i: int| 0 <= i < records@.len() ==> R::well_formed(#[trigger] records@[i]@)
        },
        Err(error) => exists|first: int|
            {
                &&& 0 <= first < reports.len()
                &&& #[trigger] materialized_at::<R>(report_type, reports, users, first) == Err::<
                    R::V,
                    ReportErrorView,
                >(error@)
                &&& forall|i: int|
                    0 <= i < first ==> (#[trigger] materialized_at::<R>(
                        report_type,
                        reports,
                        users,
                        i,
                    )) is Ok
            },
    }
}

/// A collection of typed records of one kind, built from a batch of raw
/// reports.
pub trait Reports: Sized {
    /// Whether `res` is what the batch materialises to.
    spec fn built(
        res: Result<Self, ReportError>,
        report_type: ReportTypesItem,
        reports: Seq<Report>,
        users: Map<Seq<char>, Consumer>,
    ) -> bool;

    /// Materialises every report of the batch, each with its submitter
    /// resolved through `users`. One failing report fails the batch.
    fn new_from_reports(
        report_type: &ReportTypesItem,
        reports: response::Reports,
        users: &UserDirectory,
    ) -> (res: Result<Self, ReportError>)
        ensures
            Self::built(res, *report_type, reports.items@, users@),
    ;
}

impl<R: ReportRecord> Reports for Vec<R> {
    open spec fn built(
        res: Result<Vec<R>, ReportError>,
        report_type: ReportTypesItem,
        reports: Seq<Report>,
        users: Map<Seq<char>, Consumer>,
    ) -> bool {
        batch_outcome::<R>(res, report_type, reports, users)
    }

    fn new_from_reports(
        report_type: &ReportTypesItem,
        reports: response::Reports,
        users: &UserDirectory,
    ) -> (res: Result<Vec<R>, ReportError>) {
        let mut records: Vec<R> = Vec::new();
        let mut i: usize = 0;
        while i < reports.items.len()
            invariant
                i <= reports.items@.len(),
                records@.len() == i,
                forall|j: int|
                    0 <= j < i ==> #[trigger] materialized_at::<R>(
                        *report_type,
                        reports.items@,
                        users@,
                        j,
                    ) == Ok::<R::V, ReportErrorView>(records@[j]@),
                forall|j: int| 0 <= j < i ==> R::well_formed(#[trigger] records@[j]@),
            decreases reports.items@.len() - i,
        {
            let report = &reports.items[i];
            let user = resolve_user(users, report.user_cluster_relation_id);
            match materialize::<R>(report_type, report, &user) {
                Ok(record) => {
                    records.push(record);
                },
                Err(error) => {
                    assert(materialized_at::<R>(*report_type, reports.items@, users@, i as int)
                        == Err::<R::V, ReportErrorView>(error@));
                    return Err(error);
                },
            }
            i = i + 1;
        }
        Ok(records)
    }
}

/// A failure among the first `n` pairs is the failure among any more.
pub proof fn lemma_failure_stays<R: ReportRecord>(
    start: R::V,
    fields: Seq<ReportTypesItemFields>,
    values: Seq<Value>,
    n: nat,
    m: nat,
)
    requires
        n <= m,
        applied::<R>(start, fields, values, n) is Err,
    ensures
        applied::<R>(start, fields, values, m) == applied::<R>(start, fields, values, n),
    decreases m,
{
    if n < m {
        lemma_failure_stays::<R>(start, fields, values, n, (m - 1) as nat);
    }
}

/// A failure among the first `n` pairs lies at one of them.
pub proof fn lemma_failure_position<R: ReportRecord>(
    start: R::V,
    fields: Seq<ReportTypesItemFields>,
    values: Seq<Value>,
    n: nat,
)
    ensures
        applied::<R>(start, fields, values, n) matches Err((at, kind)) ==> 0 <= at < n,
    decreases n,
{
    if n > 0 {
        lemma_failure_position::<R>(start, fields, values, (n - 1) as nat);
    }
}

/// What was applied without failure keeps the identity it started with, and
/// every field among it has a handler.
pub proof fn lemma_applied_covers<R: ReportRecord>(
    start: R::V,
    fields: Seq<ReportTypesItemFields>,
    values: Seq<Value>,
    n: nat,
)
    ensures
        applied::<R>(start, fields, values, n) matches Ok(record) ==> {
            &&& R::identity(record) == R::identity(start)
            &&& forall|i: int|
                0 <= i < n ==> (#[trigger] tag_of::<R::Handler>(fields[i].id@)) is Some
        },
    decreases n,
{
    if n > 0 {
        lemma_applied_covers::<R>(start, fields, values, (n - 1) as nat);
        if let Ok(record) = applied::<R>(start, fields, values, (n - 1) as nat) {
            if let Some(handler) = tag_of::<R::Handler>(fields[n - 1].id@) {
                R::lemma_assigned_identity(record, handler, fields[n - 1], values[n - 1]);
            }
        }
    }
}

/// Where a schema and a report of the same length give a record, every
/// field of the schema was assigned through a handler of its own, so as many
/// fields were consumed as the schema holds, and the record carries the
/// report's identifier and the user's display name.
pub proof fn lemma_record_covers_schema<R: ReportRecord>(
    report_type: ReportTypesItem,
    report: Report,
    user: Seq<char>,
)
    requires
        report.fields@.len() == report_type.fields@.len(),
    ensures
        materialized::<R>(report_type, report, user) matches Ok(record) ==> {
            &&& R::identity(record) == (report.id, user)
            &&& forall|i: int|
                0 <= i < report_type.fields@.len() ==> (#[trigger] tag_of::<R::Handler>(
                    report_type.fields@[i].id@,
                )) is Some
            &&& applied::<R>(
                R::blank(report.id, user),
                report_type.fields@,
                report.fields@,
                report_type.fields@.len(),
            ) == Ok::<R::V, (int, ErrorKind)>(record)
        },
        materialized::<R>(report_type, report, user) matches Err(error) ==> {
            &&& error.report_id == report.id
            &&& error.report_kind == R::kind()
            &&& exists|at: int|
                0 <= at < report_type.fields@.len() && error.field_id
                    == (#[trigger] report_type.fields@[at]).id@ && error.field_name
                    == report_type.fields@[at].name@
        },
{
    let fields = report_type.fields@;
    let start = R::blank(report.id, user);
    R::lemma_blank_identity(report.id, user);
    lemma_applied_covers::<R>(start, fields, report.fields@, fields.len());
    lemma_failure_position::<R>(start, fields, report.fields@, fields.len());
}

/// Where the identifiers of a schema differ pairwise, a record is built by
/// handlers that differ pairwise: each field of the schema fills a field of
/// its own in the record, so the record has as many assigned fields as the
/// schema has fields.
pub proof fn lemma_fields_fill_distinct_slots<R: ReportRecord>(
    report_type: ReportTypesItem,
    report: Report,
    user: Seq<char>,
)
    requires
        report.fields@.len() == report_type.fields@.len(),
        forall|i: int, j: int|
            0 <= i < j < report_type.fields@.len() ==> (#[trigger] report_type.fields@[i]).id@
                != (#[trigger] report_type.fields@[j]).id@,
    ensures
        materialized::<R>(report_type, report, user) is Ok ==> forall|i: int, j: int|
            0 <= i < j < report_type.fields@.len() ==> handler_at::<R>(report_type, i)
                != handler_at::<R>(report_type, j),
{
    if materialized::<R>(report_type, report, user) is Ok {
        lemma_record_covers_schema::<R>(report_type, report, user);
        let fields = report_type.fields@;
        assert forall|i: int, j: int| 0 <= i < j < fields.len() implies handler_at::<R>(
            report_type,
            i,
        ) != handler_at::<R>(report_type, j) by {
            assert(tag_of::<R::Handler>(fields[i].id@) is Some);
            if handler_at::<R>(report_type, i) == handler_at::<R>(report_type, j) {
                lemma_one_identifier_per_tag::<R::Handler>(fields[i].id@, fields[j].id@);
            }
        }
    }
}

/// A report whose submitter the directory does not hold materialises as it
/// does for the placeholder identity: the missing entry is no failure, and a
/// record that results names the placeholder as its user.
pub proof fn lemma_unknown_submitter<R: ReportRecord>(
    report_type: ReportTypesItem,
    reports: Seq<Report>,
    users: Map<Seq<char>, Consumer>,
    i: int,
)
    requires
        0 <= i < reports.len(),
        !users.contains_key(decimal(reports[i].user_cluster_relation_id as int)),
    ensures
        materialized_at::<R>(report_type, reports, users, i) == materialized::<R>(
            report_type,
            reports[i],
            "Unknown U."@,
        ),
        materialized_at::<R>(report_type, reports, users, i) matches Ok(record) ==> R::identity(
            record,
        ) == (reports[i].id, "Unknown U."@),
{
    if reports[i].fields@.len() == report_type.fields@.len() {
        R::lemma_blank_identity(reports[i].id, "Unknown U."@);
        lemma_applied_covers::<R>(
            R::blank(reports[i].id, "Unknown U."@),
            report_type.fields@,
            reports[i].fields@,
            report_type.fields@.len(),
        );
    }
}

} // verus!
