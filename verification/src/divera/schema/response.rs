//! Report types, raw reports and directory entries.

use crate::value::Value;
use vstd::prelude::*;

verus! {

/// One entry of the user directory.
#[derive(Debug, PartialEq, Eq)]
pub struct Consumer {
    pub firstname: String,
    pub lastname: String,
    /// The pre-formatted display name.
    pub stdformat_name: String,
}

/// The mathematical content of a [`Consumer`].
pub struct ConsumerView {
    pub firstname: Seq<char>,
    pub lastname: Seq<char>,
    pub stdformat_name: Seq<char>,
}

impl View for Consumer {
    type V = ConsumerView;

    open spec fn view(&self) -> ConsumerView {
        ConsumerView {
            firstname: self.firstname@,
            lastname: self.lastname@,
            stdformat_name: self.stdformat_name@,
        }
    }
}

impl Consumer {
    /// The identity that stands in for a submitter the directory does not
    /// know.
    pub open spec fn placeholder() -> ConsumerView {
        ConsumerView {
            firstname: "Unbekannt"@,
            lastname: "Unbekannt"@,
            stdformat_name: "Unknown U."@,
        }
    }
}

impl Clone for Consumer {
    fn clone(&self) -> (copy: Consumer)
        ensures
            copy == *self,
    {
        Consumer {
            firstname: self.firstname.clone(),
            lastname: self.lastname.clone(),
            stdformat_name: self.stdformat_name.clone(),
        }
    }
}

impl Default for Consumer {
    fn default() -> (user: Consumer)
        ensures
            user@ == Consumer::placeholder(),
    {
        Consumer {
            firstname: "Unbekannt".to_owned(),
            lastname: "Unbekannt".to_owned(),
            stdformat_name: "Unknown U.".to_owned(),
        }
    }
}

/// The schema of one report type: an ordered list of field descriptors.
///
/// The order is significant: field `i` describes value `i` of every raw
/// report of this type.
#[derive(Clone, Debug, PartialEq, Eq)]
pub struct ReportTypesItem {
    pub id: i64,
    pub name: String,
    pub description: String,
    pub fields: Vec<ReportTypesItemFields>,
}

/// One field descriptor of a schema.
///
/// The engine dispatches on `id` alone; `kind` is what the service declares
/// for display and validation on its side.
#[derive(Clone, Debug, PartialEq, Eq)]
pub struct ReportTypesItemFields {
    pub id: String,
    pub name: String,
    pub kind: ReportTypesItemFieldsType,
    /// The permissible choices of an enumerable field.
    pub options: Option<Vec<ReportTypesItemFieldOption>>,
}

/// The kinds of field that the service declares.
#[derive(Clone, Copy, Debug, PartialEq, Eq, Structural)]
pub enum ReportTypesItemFieldsType {
    Checkbox,
    Date,
    Number,
    Radio,
    SelectBox,
    String,
    TextArea,
    TextInput,
}

/// One permissible choice of an enumerable field.
#[derive(Clone, Debug, PartialEq, Eq)]
pub struct ReportTypesItemFieldOption {
    pub id: String,
    pub name: String,
}

/// The raw reports of one type, as fetched.
#[derive(Clone, Debug, PartialEq, Eq)]
pub struct Reports {
    pub items: Vec<Report>,
    pub itemcount: u64,
}

/// One submitted report: who sent it, and its untyped values in schema order.
#[derive(Clone, Debug, PartialEq, Eq)]
pub struct Report {
    pub id: i64,
    pub cluster_id: i64,
    /// The relation identifier of the submitter, which keys the directory.
    pub user_cluster_relation_id: i64,
    pub status: i64,
    pub lat: i64,
    pub lng: i64,
    pub address: String,
    pub fields: Vec<Value>,
}

} // verus!
