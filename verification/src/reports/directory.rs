//! The user directory, and the join of a report with its submitter.

use crate::divera::schema::response::{Consumer, ConsumerView};
use crate::text::{decimal, decimal_string};
use vstd::hash_map::StringHashMap;
use vstd::prelude::*;

verus! {

/// The users of the unit, keyed by relation identifier in decimal.
pub struct UserDirectory {
    entries: StringHashMap<Consumer>,
}

impl View for UserDirectory {
    type V = Map<Seq<char>, Consumer>;

    closed spec fn view(&self) -> Map<Seq<char>, Consumer> {
        self.entries@
    }
}

impl UserDirectory {
    /// An empty directory.
    pub fn new() -> (directory: UserDirectory)
        ensures
            directory@ == Map::<Seq<char>, Consumer>::empty(),
    {
        UserDirectory { entries: StringHashMap::new() }
    }

    /// Enters `user` under `relation`, in place of any entry it had.
    pub fn insert(&mut self, relation: String, user: Consumer)
        ensures
            final(self)@ == old(self)@.insert(relation@, user),
    {
        self.entries.insert(relation, user);
    }

    /// The entry under `relation`.
    pub fn get(&self, relation: &str) -> (found: Option<&Consumer>)
        ensures
            match found {
                Some(user) => self@.contains_key(relation@) && *user == self@[relation@],
                None => !self@.contains_key(relation@),
            },
    {
        self.entries.get(relation)
    }

    /// The number of entries.
    pub fn len(&self) -> (n: usize)
        ensures
            n == self@.len(),
    {
        self.entries.len()
    }
}

/// The identity of the submitter with relation identifier `relation_id`: the
/// directory's entry under its decimal rendering, or the placeholder.
pub open spec fn resolved_user(directory: Map<Seq<char>, Consumer>, relation_id: i64)
    -> ConsumerView {
    let key = decimal(relation_id as int);
    if directory.contains_key(key) {
        directory[key]@
    } else {
        Consumer::placeholder()
    }
}

/// Resolves the submitter of a report. A relation identifier that the
/// directory does not hold resolves to the placeholder identity, never to a
/// failure.
pub fn resolve_user(directory: &UserDirectory, relation_id: i64) -> (user: Consumer)
    ensures
        user@ == resolved_user(directory@, relation_id),
{
    let key = decimal_string(relation_id);
    match directory.get(key.as_str()) {
        Some(found) => found.clone(),
        None => Consumer::default(),
    }
}

/// A relation identifier without an entry resolves to the placeholder
/// identity.
pub proof fn lemma_unknown_relation_is_placeholder(
    directory: Map<Seq<char>, Consumer>,
    relation_id: i64,
)
    requires
        !directory.contains_key(decimal(relation_id as int)),
    ensures
        resolved_user(directory, relation_id) == Consumer::placeholder(),
        resolved_user(directory, relation_id).stdformat_name == "Unknown U."@,
        resolved_user(directory, relation_id).firstname == "Unbekannt"@,
        resolved_user(directory, relation_id).lastname == "Unbekannt"@,
{
}

} // verus!
