use vstd::prelude::*;

use crate::topology::DatabaseType;

verus! {

/// The catalog lookup of a replication slot by name; its one parameter is the slot's name.
pub const SLOT_LOOKUP: &'static str = "SELECT slot_name FROM pg_replication_slots WHERE slot_name = $1";

/// The catalog lookup of a publication by name; its one parameter is the publication's name.
pub const PUBLICATION_LOOKUP: &'static str = "SELECT pubname FROM pg_publication WHERE pubname = $1";

/// The name under which the cache servers create their replication slot and publication.
pub const DEFAULT_ARTIFACT_NAME: &'static str = "readyset";

/// A failed SQL statement, with the description the connection gave.
#[derive(Clone, Debug)]
pub struct QueryError {
    pub message: String,
}

/// What one catalog lookup tells of a replication artifact.
///
/// A failed lookup is kept apart from an absent artifact here; [`slot_exists`] and
/// [`publication_exists`] then read it as absent, and a caller that must tell the two apart
/// uses [`artifact_presence`] itself.
#[derive(Clone, Copy, Debug, PartialEq, Eq, Structural)]
pub enum Presence {
    Present,
    Absent,
    /// The lookup failed, so nothing is known.
    Unknown,
}

/// The presence of an artifact named `name`, given the dialect of the connection and the first
/// column of each row that the lookup returned. Only PostgreSQL has replication artifacts, so
/// on any other dialect they are absent by construction; the lookup names one artifact, so it
/// is present exactly when a single row came back and holds that name.
pub open spec fn presence_of(
    database_type: DatabaseType,
    lookup: Result<Seq<Seq<char>>, ()>,
    name: Seq<char>,
) -> Presence {
    match database_type {
        DatabaseType::MySQL => Presence::Absent,
        DatabaseType::PostgreSQL => match lookup {
            Err(_) => Presence::Unknown,
            Ok(rows) => if rows.len() == 1 && rows[0] == name {
                Presence::Present
            } else {
                Presence::Absent
            },
        },
    }
}

/// The rows of a lookup, each by its first column, and whether it failed.
pub open spec fn lookup_view(lookup: &Result<Vec<String>, QueryError>) -> Result<Seq<Seq<char>>, ()> {
    match lookup {
        Ok(rows) => Ok(rows@.map_values(|t: String| t@)),
        Err(_) => Err(()),
    }
}

/// Interprets the result of [`SLOT_LOOKUP`] or [`PUBLICATION_LOOKUP`] for the artifact `name`.
pub fn artifact_presence(
    database_type: DatabaseType,
    lookup: &Result<Vec<String>, QueryError>,
    name: &String,
) -> (r: Presence)
    ensures
        r == presence_of(database_type, lookup_view(lookup), name@),
{
    match database_type {
        DatabaseType::MySQL => Presence::Absent,
        DatabaseType::PostgreSQL => match lookup {
            Err(_) => Presence::Unknown,
            Ok(rows) => {
                if rows.len() == 1 && rows[0] == *name {
                    Presence::Present
                } else {
                    Presence::Absent
                }
            },
        },
    }
}

/// Whether the replication slot `name` exists, from the result of [`SLOT_LOOKUP`]. A failed
/// lookup reads as absent.
pub fn replication_slot_exists(
    database_type: DatabaseType,
    lookup: &Result<Vec<String>, QueryError>,
    name: &String,
) -> (r: bool)
    ensures
        r == (presence_of(database_type, lookup_view(lookup), name@) == Presence::Present),
{
    artifact_presence(database_type, lookup, name) == Presence::Present
}

/// Whether the publication `name` exists, from the result of [`PUBLICATION_LOOKUP`]. A failed
/// lookup reads as absent.
pub fn publication_exists(
    database_type: DatabaseType,
    lookup: &Result<Vec<String>, QueryError>,
    name: &String,
) -> (r: bool)
    ensures
        r == (presence_of(database_type, lookup_view(lookup), name@) == Presence::Present),
{
    artifact_presence(database_type, lookup, name) == Presence::Present
}

/// The replication artifacts of one name, as observed at one point in time.
#[derive(Clone, Copy, Debug, PartialEq, Eq, Structural)]
pub struct ReplicationArtifactState {
    pub slot_exists: bool,
    pub publication_exists: bool,
}

impl ReplicationArtifactState {
    /// Neither the slot nor the publication is there.
    pub fn is_clean(&self) -> (r: bool)
        ensures
            r == (!self.slot_exists && !self.publication_exists),
    {
        !self.slot_exists && !self.publication_exists
    }

    /// Both the slot and the publication are there.
    pub fn is_complete(&self) -> (r: bool)
        ensures
            r == (self.slot_exists && self.publication_exists),
    {
        self.slot_exists && self.publication_exists
    }
}

/// The artifact state of `name` from the results of the two catalog lookups.
pub fn artifact_state(
    database_type: DatabaseType,
    slot_lookup: &Result<Vec<String>, QueryError>,
    publication_lookup: &Result<Vec<String>, QueryError>,
    name: &String,
) -> (r: ReplicationArtifactState)
    ensures
        r.slot_exists == (presence_of(database_type, lookup_view(slot_lookup), name@) == Presence::Present),
        r.publication_exists == (presence_of(database_type, lookup_view(publication_lookup), name@)
            == Presence::Present),
{
    ReplicationArtifactState {
        slot_exists: replication_slot_exists(database_type, slot_lookup, name),
        publication_exists: publication_exists(database_type, publication_lookup, name),
    }
}

} // verus!
