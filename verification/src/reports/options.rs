//! Identifier tables and the option resolver.
//!
//! The remote service names fields and options by opaque identifiers. Each
//! closed set of tags of the engine (the variants of an enumerable field, the
//! handlers of a report kind) comes with one table from identifier to tag.
//! The table is data: looking an identifier up is the same code for all of
//! them.

use crate::divera::schema::response::{ReportTypesItemFieldOption, ReportTypesItemFields};
use crate::error::ErrorKind;
use crate::text::str_eq;
use crate::value::Value;
use vstd::prelude::*;

verus! {

/// A closed set of tags with a fixed table from external identifier to tag.
pub trait Tagged: Copy {
    /// The table, in the order in which it is searched.
    spec fn bindings() -> Seq<(Seq<char>, Self)>;

    /// No identifier stands twice in the table: the table is a mapping, and
    /// the order of its bindings does not matter.
    proof fn lemma_identifiers_distinct()
        ensures
            distinct_identifiers(Self::bindings()),
    ;

    /// No tag stands twice in the table: every tag has one identifier.
    proof fn lemma_tags_distinct()
        ensures
            distinct_tags(Self::bindings()),
    ;

    /// The table as a value.
    fn table() -> (t: Vec<(&'static str, Self)>)
        ensures
            keyed(t@) == Self::bindings(),
    ;
}

/// A table of string slices as a table of character sequences.
pub open spec fn keyed<T>(t: Seq<(&'static str, T)>) -> Seq<(Seq<char>, T)> {
    t.map_values(|entry: (&'static str, T)| (entry.0@, entry.1))
}

/// The tag of the first binding at or after `from` whose identifier is `id`.
pub open spec fn lookup<T>(bindings: Seq<(Seq<char>, T)>, id: Seq<char>, from: int) -> Option<T>
    decreases bindings.len() - from,
{
    if from < 0 || from >= bindings.len() {
        None
    } else if bindings[from].0 == id {
        Some(bindings[from].1)
    } else {
        lookup(bindings, id, from + 1)
    }
}

/// The tag that the table of `T` gives to `id`.
pub open spec fn tag_of<T: Tagged>(id: Seq<char>) -> Option<T> {
    lookup(T::bindings(), id, 0)
}

/// Whether no identifier stands twice in a table.
pub open spec fn distinct_identifiers<T>(bindings: Seq<(Seq<char>, T)>) -> bool {
    forall|p: int, q: int|
        0 <= p < q < bindings.len() ==> (#[trigger] bindings[p]).0 != (#[trigger] bindings[q]).0
}

/// Whether no tag stands twice in a table.
pub open spec fn distinct_tags<T>(bindings: Seq<(Seq<char>, T)>) -> bool {
    forall|p: int, q: int|
        0 <= p < q < bindings.len() ==> (#[trigger] bindings[p]).1 != (#[trigger] bindings[q]).1
}

/// A tag that a lookup finds stands in the table beside the identifier.
pub proof fn lemma_lookup_found<T>(bindings: Seq<(Seq<char>, T)>, id: Seq<char>, from: int)
    requires
        0 <= from,
    ensures
        lookup(bindings, id, from) matches Some(tag) ==> exists|p: int|
            from <= p < bindings.len() && #[trigger] bindings[p] == (id, tag),
    decreases bindings.len() - from,
{
    if from < bindings.len() && bindings[from].0 != id {
        lemma_lookup_found(bindings, id, from + 1);
    }
}

/// Two identifiers with the same tag are the same identifier.
pub proof fn lemma_one_identifier_per_tag<T: Tagged>(a: Seq<char>, b: Seq<char>)
    requires
        tag_of::<T>(a) is Some,
        tag_of::<T>(a) == tag_of::<T>(b),
    ensures
        a == b,
{
    T::lemma_tags_distinct();
    lemma_lookup_found(T::bindings(), a, 0);
    lemma_lookup_found(T::bindings(), b, 0);
}

/// A lookup finds the binding of an identifier that no binding before it
/// holds.
pub proof fn lemma_lookup_finds<T>(bindings: Seq<(Seq<char>, T)>, from: int, p: int)
    requires
        0 <= from <= p < bindings.len(),
        forall|q: int| from <= q < p ==> (#[trigger] bindings[q]).0 != bindings[p].0,
    ensures
        lookup(bindings, bindings[p].0, from) == Some(bindings[p].1),
    decreases p - from,
{
    if from < p {
        lemma_lookup_finds(bindings, from + 1, p);
    }
}

/// An identifier has the tag that stands beside it in the table, wherever
/// in the table the two stand.
pub proof fn lemma_table_is_a_mapping<T: Tagged>(id: Seq<char>, tag: T)
    ensures
        tag_of::<T>(id) == Some(tag) <==> exists|p: int|
            0 <= p < T::bindings().len() && #[trigger] T::bindings()[p] == (id, tag),
{
    let bindings = T::bindings();
    T::lemma_identifiers_distinct();
    lemma_lookup_found(bindings, id, 0);
    if exists|p: int| 0 <= p < bindings.len() && #[trigger] bindings[p] == (id, tag) {
        let p = choose|p: int| 0 <= p < bindings.len() && #[trigger] bindings[p] == (id, tag);
        lemma_lookup_finds(bindings, 0, p);
    }
}

/// Looks `id` up in a table that was built before.
pub fn find_in<T: Copy>(table: &Vec<(&'static str, T)>, id: &str) -> (tag: Option<T>)
    ensures
        tag == lookup(keyed(table@), id@, 0),
{
    let mut i: usize = 0;
    while i < table.len()
        invariant
            i <= table.len(),
            lookup(keyed(table@), id@, 0) == lookup(keyed(table@), id@, i as int),
        decreases table.len() - i,
    {
        assert(keyed(table@)[i as int] == (table@[i as int].0@, table@[i as int].1));
        if str_eq(table[i].0, id) {
            return Some(table[i].1);
        }
        i = i + 1;
    }
    None
}

/// Looks `id` up in the table of `T`.
pub fn find_tag<T: Tagged>(id: &str) -> (tag: Option<T>)
    ensures
        tag == tag_of::<T>(id@),
{
    let table = T::table();
    find_in(&table, id)
}

/// Whether the option list declares an option with identifier `id`.
pub open spec fn declares(options: Seq<ReportTypesItemFieldOption>, id: Seq<char>) -> bool {
    exists|i: int| 0 <= i < options.len() && (#[trigger] options[i]).id@ == id
}

/// Whether the option list declares an option with identifier `id`.
pub fn is_declared(options: &Vec<ReportTypesItemFieldOption>, id: &str) -> (found: bool)
    ensures
        found == declares(options@, id@),
{
    let mut i: usize = 0;
    while i < options.len()
        invariant
            i <= options.len(),
            forall|j: int| 0 <= j < i ==> (#[trigger] options@[j]).id@ != id@,
        decreases options.len() - i,
    {
        if str_eq(options[i].id.as_str(), id) {
            return true;
        }
        i = i + 1;
    }
    false
}

/// What a required enumerable field resolves to: the variant of the declared
/// option with identifier `id`.
pub open spec fn required<T: Tagged>(options: Seq<ReportTypesItemFieldOption>, id: Seq<char>)
    -> Result<T, ErrorKind> {
    if !declares(options, id) {
        Err(ErrorKind::UnknownOption)
    } else {
        match tag_of::<T>(id) {
            Some(variant) => Ok(variant),
            None => Err(ErrorKind::UnmappedVariant),
        }
    }
}

/// What an optional enumerable field resolves to: no selection for an empty
/// identifier or one that the options do not declare, else as [`required`].
pub open spec fn optional<T: Tagged>(options: Seq<ReportTypesItemFieldOption>, id: Seq<char>)
    -> Result<Option<T>, ErrorKind> {
    if id.len() == 0 || !declares(options, id) {
        Ok(None)
    } else {
        match tag_of::<T>(id) {
            Some(variant) => Ok(Some(variant)),
            None => Err(ErrorKind::UnmappedVariant),
        }
    }
}

/// Resolves the raw identifier of a required enumerable field.
///
/// Fails with `UnknownOption` where no declared option has that identifier,
/// and with `UnmappedVariant` where one has and the table of `T` does not.
pub fn resolve_required<T: Tagged>(options: &Vec<ReportTypesItemFieldOption>, raw_id: &str) -> (res:
    Result<T, ErrorKind>)
    ensures
        res == required::<T>(options@, raw_id@),
{
    if !is_declared(options, raw_id) {
        return Err(ErrorKind::UnknownOption);
    }
    match find_tag::<T>(raw_id) {
        Some(variant) => Ok(variant),
        None => Err(ErrorKind::UnmappedVariant),
    }
}

/// Resolves the raw identifier of an optional enumerable field.
///
/// An empty identifier, or one that no declared option has, is no selection.
pub fn resolve_optional<T: Tagged>(options: &Vec<ReportTypesItemFieldOption>, raw_id: &str) -> (res:
    Result<Option<T>, ErrorKind>)
    ensures
        res == optional::<T>(options@, raw_id@),
{
    if raw_id.is_empty() || !is_declared(options, raw_id) {
        return Ok(None);
    }
    match find_tag::<T>(raw_id) {
        Some(variant) => Ok(Some(variant)),
        None => Err(ErrorKind::UnmappedVariant),
    }
}

/// What a required enumerable field holds, given its descriptor and its raw
/// value: the value must be text and the descriptor must list options.
pub open spec fn selected<T: Tagged>(field: ReportTypesItemFields, value: Value) -> Result<
    T,
    ErrorKind,
> {
    match value.text() {
        None => Err(ErrorKind::TypeMismatch),
        Some(id) => match field.options {
            None => Err(ErrorKind::MissingOptionList),
            Some(options) => required::<T>(options@, id),
        },
    }
}

/// What an optional enumerable field holds, given its descriptor and its raw
/// value.
///
/// The value must be text. Empty text is no selection, whatever the
/// descriptor holds: the option list is asked for only where an identifier
/// has to be resolved.
pub open spec fn selected_or_none<T: Tagged>(field: ReportTypesItemFields, value: Value) -> Result<
    Option<T>,
    ErrorKind,
> {
    match value.text() {
        None => Err(ErrorKind::TypeMismatch),
        Some(id) => if id.len() == 0 {
            Ok(None)
        } else {
            match field.options {
                None => Err(ErrorKind::MissingOptionList),
                Some(options) => optional::<T>(options@, id),
            }
        },
    }
}

/// What the first `n` elements of a multiple choice resolve to, in order, or
/// the error of the first among them that does not resolve. Each element is
/// a required choice of the field.
pub open spec fn selected_first<T: Tagged>(
    field: ReportTypesItemFields,
    elements: Seq<Value>,
    n: nat,
) -> Result<Seq<T>, ErrorKind>
    decreases n,
{
    if n == 0 {
        Ok(Seq::empty())
    } else {
        match selected_first::<T>(field, elements, (n - 1) as nat) {
            Ok(chosen) => match selected::<T>(field, elements[n - 1]) {
                Ok(variant) => Ok(chosen.push(variant)),
                Err(kind) => Err(kind),
            },
            Err(kind) => Err(kind),
        }
    }
}

/// What a multiple-choice field holds, given its descriptor and its raw
/// value.
///
/// The value must be a list, and each of its elements a required choice of
/// the field. An empty list is an empty choice, whatever the descriptor
/// holds: the option list is asked for only where an identifier has to be
/// resolved.
pub open spec fn selected_each<T: Tagged>(field: ReportTypesItemFields, value: Value) -> Result<
    Seq<T>,
    ErrorKind,
> {
    match value.list() {
        None => Err(ErrorKind::TypeMismatch),
        Some(elements) => selected_first::<T>(field, elements, elements.len()),
    }
}

/// An element that does not resolve among the first `n` fails any more.
pub proof fn lemma_selected_failure_stays<T: Tagged>(
    field: ReportTypesItemFields,
    elements: Seq<Value>,
    n: nat,
    m: nat,
)
    requires
        n <= m,
        selected_first::<T>(field, elements, n) is Err,
    ensures
        selected_first::<T>(field, elements, m) == selected_first::<T>(field, elements, n),
    decreases m,
{
    if n < m {
        lemma_selected_failure_stays::<T>(field, elements, n, (m - 1) as nat);
    }
}

/// A list of variants by its elements.
pub open spec fn variants_result<T>(res: Result<Vec<T>, ErrorKind>) -> Result<Seq<T>, ErrorKind> {
    match res {
        Ok(chosen) => Ok(chosen@),
        Err(kind) => Err(kind),
    }
}

/// Reads the value of a required enumerable field.
pub fn select_required<T: Tagged>(field: &ReportTypesItemFields, value: &Value) -> (res: Result<
    T,
    ErrorKind,
>)
    ensures
        res == selected::<T>(*field, *value),
{
    match value {
        Value::Text(id) => match &field.options {
            None => Err(ErrorKind::MissingOptionList),
            Some(options) => resolve_required::<T>(options, id.as_str()),
        },
        _ => Err(ErrorKind::TypeMismatch),
    }
}

/// Reads the value of an optional enumerable field. Empty text is no
/// selection, also on a field without an option list.
pub fn select_optional<T: Tagged>(field: &ReportTypesItemFields, value: &Value) -> (res: Result<
    Option<T>,
    ErrorKind,
>)
    ensures
        res == selected_or_none::<T>(*field, *value),
{
    match value {
        Value::Text(id) => {
            if id.as_str().is_empty() {
                return Ok(None);
            }
            match &field.options {
                None => Err(ErrorKind::MissingOptionList),
                Some(options) => resolve_optional::<T>(options, id.as_str()),
            }
        },
        _ => Err(ErrorKind::TypeMismatch),
    }
}

/// Reads the value of a multiple-choice field: every element of the list is
/// resolved as a required choice of the field, in order. An empty list is an
/// empty choice, also on a field without an option list.
pub fn select_each<T: Tagged>(field: &ReportTypesItemFields, value: &Value) -> (res: Result<
    Vec<T>,
    ErrorKind,
>)
    ensures
        variants_result(res) == selected_each::<T>(*field, *value),
{
    match value {
        Value::List(elements) => {
            let mut chosen: Vec<T> = Vec::new();
            let mut i: usize = 0;
            while i < elements.len()
                invariant
                    i <= elements@.len(),
                    value.list() == Some(elements@),
                    selected_first::<T>(*field, elements@, i as nat) == Ok::<Seq<T>, ErrorKind>(
                        chosen@,
                    ),
                decreases elements@.len() - i,
            {
                match select_required::<T>(field, &elements[i]) {
                    Ok(variant) => {
                        chosen.push(variant);
                    },
                    Err(kind) => {
                        proof {
                            lemma_selected_failure_stays::<T>(
                                *field,
                                elements@,
                                (i + 1) as nat,
                                elements@.len(),
                            );
                        }
                        return Err(kind);
                    },
                }
                i = i + 1;
            }
            Ok(chosen)
        },
        _ => Err(ErrorKind::TypeMismatch),
    }
}

/// An empty raw identifier is no selection, whatever the options hold.
pub proof fn lemma_empty_is_no_selection<T: Tagged>(options: Seq<ReportTypesItemFieldOption>)
    ensures
        optional::<T>(options, Seq::empty()) == Ok::<Option<T>, ErrorKind>(None),
{
}

/// A required choice fails with `UnknownOption` exactly where the options
/// do not declare the identifier, and with `UnmappedVariant` exactly where
/// they do and the table of `T` has no variant for it.
pub proof fn lemma_required_failures<T: Tagged>(
    options: Seq<ReportTypesItemFieldOption>,
    id: Seq<char>,
)
    ensures
        required::<T>(options, id) == Err::<T, ErrorKind>(ErrorKind::UnknownOption) <==> !declares(
            options,
            id,
        ),
        required::<T>(options, id) == Err::<T, ErrorKind>(ErrorKind::UnmappedVariant) <==> declares(
            options,
            id,
        ) && tag_of::<T>(id) is None,
        required::<T>(options, id) is Ok <==> declares(options, id) && tag_of::<T>(id) is Some,
{
}

/// Empty text on an optional field is no selection, whatever option list
/// the descriptor holds, and also where it holds none.
pub proof fn lemma_empty_value_is_no_selection<T: Tagged>(
    field: ReportTypesItemFields,
    value: Value,
)
    requires
        value.text() == Some(Seq::<char>::empty()),
    ensures
        selected_or_none::<T>(field, value) == Ok::<Option<T>, ErrorKind>(None),
{
}

/// An empty list on a multiple-choice field is an empty choice, whatever
/// option list the descriptor holds, and also where it holds none.
pub proof fn lemma_empty_list_is_empty_choice<T: Tagged>(
    field: ReportTypesItemFields,
    value: Value,
)
    requires
        value.list() == Some(Seq::<Value>::empty()),
    ensures
        selected_each::<T>(field, value) == Ok::<Seq<T>, ErrorKind>(Seq::empty()),
{
}

} // verus!
