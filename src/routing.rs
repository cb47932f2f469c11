use vstd::prelude::*;

verus! {

/// Where the adapter reports that the most recently executed statement was served.
#[derive(Clone, Copy, Debug, PartialEq, Eq, Structural)]
pub enum RoutingResult {
    ServedByCache,
    ServedByUpstream,
}

/// Why a diagnostic result could not be decoded.
#[derive(Clone, Copy, Debug, PartialEq, Eq, Structural)]
pub enum DecodeError {
    /// The result set came from a MySQL connection where a PostgreSQL one was required.
    WrongDialect,
    /// The result set had no row.
    NoRows,
    /// The first row had no non-null value in the destination column.
    MissingDestination,
    /// The destination column held a value that names no destination.
    UnknownDestination,
}

/// One column of a row of a simple (text) query result.
pub struct Field {
    pub name: String,
    /// `None` for SQL NULL.
    pub value: Option<String>,
}

/// A row of a simple query result, its columns in order.
pub struct SimpleRow {
    pub fields: Vec<Field>,
}

/// A raw result set of a simple query, tagged with the dialect of the connection it came from.
pub enum SimpleQueryResults {
    MySql(Vec<SimpleRow>),
    Postgres(Vec<SimpleRow>),
}

/// The diagnostic statement that reports where the previous statement was served.
pub const EXPLAIN_LAST_STATEMENT: &'static str = "EXPLAIN LAST STATEMENT";

/// The column of the diagnostic result that names the destination.
pub const DESTINATION_COLUMN: &'static str = "Query_destination";

/// The text by which the adapter names a cache hit.
pub const CACHE_DESTINATION: &'static str = "readyset";

/// The text by which the adapter names a query sent to the upstream database.
pub const UPSTREAM_DESTINATION: &'static str = "upstream";

/// The destination that a textual value names, if any.
pub open spec fn destination_of(text: Seq<char>) -> Option<RoutingResult> {
    if text == CACHE_DESTINATION@ {
        Some(RoutingResult::ServedByCache)
    } else if text == UPSTREAM_DESTINATION@ {
        Some(RoutingResult::ServedByUpstream)
    } else {
        None
    }
}

/// The textual value by which the adapter names a destination.
pub open spec fn destination_text(r: RoutingResult) -> Seq<char> {
    match r {
        RoutingResult::ServedByCache => CACHE_DESTINATION@,
        RoutingResult::ServedByUpstream => UPSTREAM_DESTINATION@,
    }
}

/// The characters of a value that may be SQL NULL.
pub open spec fn optional_text(v: Option<String>) -> Option<Seq<char>> {
    match v {
        Some(t) => Some(t@),
        None => None,
    }
}

/// The value of the first column named `name`: `None` if there is no such column.
pub open spec fn column_value(fields: Seq<Field>, name: Seq<char>) -> Option<Option<Seq<char>>>
    decreases fields.len(),
{
    if fields.len() == 0 {
        None
    } else if fields[0].name@ == name {
        Some(optional_text(fields[0].value))
    } else {
        column_value(fields.drop_first(), name)
    }
}

/// What the diagnostic result `res` says of the destination of the previous statement.
pub open spec fn decoded_destination(res: SimpleQueryResults) -> Result<RoutingResult, DecodeError> {
    match res {
        SimpleQueryResults::MySql(_) => Err(DecodeError::WrongDialect),
        SimpleQueryResults::Postgres(rows) => {
            if rows@.len() == 0 {
                Err(DecodeError::NoRows)
            } else {
                match column_value(rows@[0].fields@, DESTINATION_COLUMN@) {
                    Some(Some(text)) => match destination_of(text) {
                        Some(r) => Ok(r),
                        None => Err(DecodeError::UnknownDestination),
                    },
                    _ => Err(DecodeError::MissingDestination),
                }
            }
        },
    }
}

/// Whether two strings hold the same characters.
fn same_text(a: &String, b: &str) -> (r: bool)
    ensures
        r == (a@ == b@),
{
    let b = String::from_str(b);
    *a == b
}

/// Maps the textual value of the destination column to a destination.
pub fn parse_destination(text: &String) -> (r: Option<RoutingResult>)
    ensures
        r == destination_of(text@),
{
    if same_text(text, CACHE_DESTINATION) {
        Some(RoutingResult::ServedByCache)
    } else if same_text(text, UPSTREAM_DESTINATION) {
        Some(RoutingResult::ServedByUpstream)
    } else {
        None
    }
}

/// The value of the first column of `row` named `name`: `None` if there is no such column.
pub fn field_value<'a>(row: &'a SimpleRow, name: &str) -> (r: Option<&'a Option<String>>)
    ensures
        match r {
            Some(v) => column_value(row.fields@, name@) == Some(optional_text(*v)),
            None => column_value(row.fields@, name@).is_none(),
        },
{
    let mut i: usize = 0;
    assert(row.fields@.subrange(0, row.fields@.len() as int) =~= row.fields@);
    while i < row.fields.len()
        invariant
            i <= row.fields@.len(),
            column_value(row.fields@, name@) == column_value(row.fields@.subrange(i as int, row.fields@.len() as int), name@),
        decreases row.fields@.len() - i,
    {
        let ghost rest = row.fields@.subrange(i as int, row.fields@.len() as int);
        assert(rest.drop_first() =~= row.fields@.subrange(i + 1, row.fields@.len() as int));
        if same_text(&row.fields[i].name, name) {
            return Some(&row.fields[i].value);
        }
        i = i + 1;
    }
    None
}

/// Decodes the result of [`EXPLAIN_LAST_STATEMENT`] into the destination of the previous
/// statement. A result from a MySQL connection is refused, never read as a default.
pub fn last_statement_destination(res: &SimpleQueryResults) -> (r: Result<RoutingResult, DecodeError>)
    ensures
        r == decoded_destination(*res),
{
    match res {
        SimpleQueryResults::MySql(_) => Err(DecodeError::WrongDialect),
        SimpleQueryResults::Postgres(rows) => {
            if rows.len() == 0 {
                return Err(DecodeError::NoRows);
            }
            match field_value(&rows[0], DESTINATION_COLUMN) {
                Some(Some(text)) => match parse_destination(text) {
                    Some(r) => Ok(r),
                    None => Err(DecodeError::UnknownDestination),
                },
                _ => Err(DecodeError::MissingDestination),
            }
        },
    }
}

/// Decoding the text by which the adapter names a destination gives that destination back, and
/// the two destinations have different names: a cache hit never reads as an upstream query,
/// nor the reverse.
pub proof fn lemma_destination_round_trip(r: RoutingResult)
    ensures
        destination_of(destination_text(r)) == Some(r),
        destination_text(RoutingResult::ServedByCache) != destination_text(RoutingResult::ServedByUpstream),
{
    reveal_strlit("readyset");
    reveal_strlit("upstream");
    assert(CACHE_DESTINATION@[0] != UPSTREAM_DESTINATION@[0]);
}

/// The destination that the adapter reports is the one decoded: a result from a PostgreSQL
/// connection whose first row names a destination in the destination column decodes to that
/// destination, and a result from a MySQL connection never decodes to one.
pub proof fn lemma_reported_destination_decodes(res: SimpleQueryResults, r: RoutingResult)
    ensures
        (res matches SimpleQueryResults::Postgres(rows) && rows@.len() > 0
            && column_value(rows@[0].fields@, DESTINATION_COLUMN@) == Some(Some(destination_text(r))))
            ==> decoded_destination(res) == Ok::<RoutingResult, DecodeError>(r),
        res is MySql ==> decoded_destination(res) == Err::<RoutingResult, DecodeError>(DecodeError::WrongDialect),
{
    lemma_destination_round_trip(r);
}

} // verus!
