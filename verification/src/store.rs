//! The paste store: a durable mapping from identifier to contents, kept in
//! a SQLite table and modelled as a map from character sequences to
//! character sequences. The store is the table's only writer.

use vstd::prelude::*;
use rusqlite::Connection;
use rusqlite::OptionalExtension;

verus! {

/// Errors the paste service surfaces to its callers.
#[derive(Clone, Copy, Debug, PartialEq, Eq, Structural)]
pub enum PasteError {
    /// The submitted contents exceed the size ceiling.
    Validation,
    /// An insert collided with an identifier that is already stored.
    UniqueViolation,
    /// A lower-level storage fault (disk, permissions, corruption).
    IoFailure,
}

#[verifier::external_type_specification]
#[verifier::external_body]
pub struct ExConnection(Connection);

/// The contents of the `pastes` table reached through a connection: a map
/// from identifier to stored contents, the empty map while the table does
/// not exist yet. The store owns the table exclusively, so the table seen
/// through a connection changes only through the operations below.
pub uninterp spec fn table_of(conn: Connection) -> Map<Seq<char>, Seq<char>>;

/// Relies on rusqlite::Connection::open: opens the database at `path`,
/// creating the file when it is missing. What the database already holds
/// comes from disk, so nothing is promised of the new connection's table.
#[verifier::external_body]
fn open_db(path: &str) -> (r: Result<Connection, PasteError>)
    ensures
        r matches Err(e) ==> e == PasteError::IoFailure,
{
    match Connection::open(path) {
        Ok(conn) => Ok(conn),
        Err(_) => Err(PasteError::IoFailure),
    }
}

/// Relies on rusqlite::Connection::execute: `CREATE TABLE IF NOT EXISTS`
/// keeps every existing row, and turns an absent table (the empty map) into
/// an empty one, so the table's contents are unchanged either way.
#[verifier::external_body]
fn create_table(conn: &mut Connection) -> (r: Result<(), PasteError>)
    ensures
        table_of(*final(conn)) == table_of(*old(conn)),
        r matches Err(e) ==> e == PasteError::IoFailure,
{
    let res = conn.execute(
        "CREATE TABLE IF NOT EXISTS pastes (
             id STRING PRIMARY KEY UNIQUE,
             contents TEXT NOT NULL
         )",
        [],
    );
    match res {
        Ok(_) => Ok(()),
        Err(_) => Err(PasteError::IoFailure),
    }
}

/// Relies on rusqlite::Connection::execute: `INSERT` adds the row, and the
/// primary-key constraint on `id` makes it fail instead of overwriting when
/// the identifier is already present (surfaced as `UniqueViolation`, told
/// apart by the constraint-violation code of the error); a failed statement
/// leaves the table as it was.
#[verifier::external_body]
fn insert_paste(conn: &mut Connection, id: &str, contents: &str) -> (r: Result<(), PasteError>)
    ensures
        r is Ok ==> !table_of(*old(conn)).contains_key(id@)
            && table_of(*final(conn)) == table_of(*old(conn)).insert(id@, contents@),
        r is Err ==> table_of(*final(conn)) == table_of(*old(conn)),
        r matches Err(e) ==> (e == PasteError::UniqueViolation
            ==> table_of(*old(conn)).contains_key(id@)),
        r matches Err(e) ==> e == PasteError::UniqueViolation
            || e == PasteError::IoFailure,
{
    let res = conn.execute("INSERT INTO pastes (id, contents) VALUES (?1, ?2)", [id, contents]);
    match res {
        Ok(_) => Ok(()),
        Err(rusqlite::Error::SqliteFailure(e, _))
            if e.code == rusqlite::ErrorCode::ConstraintViolation
                => Err(PasteError::UniqueViolation),
        Err(_) => Err(PasteError::IoFailure),
    }
}

/// Relies on rusqlite::Connection::query_row with
/// rusqlite::OptionalExtension::optional (the row read through
/// rusqlite::Row::get): `SELECT` returns the contents stored under `id`, or
/// no row when the identifier is absent.
#[verifier::external_body]
fn fetch_paste(conn: &Connection, id: &str) -> (r: Result<Option<String>, PasteError>)
    ensures
        r matches Ok(Some(c)) ==> table_of(*conn).contains_key(id@)
            && c@ == table_of(*conn)[id@],
        r matches Ok(None) ==> !table_of(*conn).contains_key(id@),
        r matches Err(e) ==> e == PasteError::IoFailure,
{
    let res: rusqlite::Result<String> = conn.query_row(
        "SELECT contents FROM pastes WHERE id=(?1)",
        [id],
        |row| row.get(0),
    );
    match res.optional() {
        Ok(v) => Ok(v),
        Err(_) => Err(PasteError::IoFailure),
    }
}

/// A handle on the durable paste table.
pub struct Store {
    conn: Connection,
}

impl View for Store {
    type V = Map<Seq<char>, Seq<char>>;

    closed spec fn view(&self) -> Map<Seq<char>, Seq<char>> {
        table_of(self.conn)
    }
}

impl Store {
    /// Opens the store at `path`, creating the database file and the paste
    /// table when they are missing; safe to repeat, it never drops a row.
    /// What the table already holds comes from disk, so nothing is known of
    /// a fresh store's contents.
    pub fn open(path: &str) -> (r: Result<Store, PasteError>)
        ensures
            r matches Err(e) ==> e == PasteError::IoFailure,
    {
        let mut conn = match open_db(path) {
            Ok(c) => c,
            Err(e) => {
                return Err(e);
            },
        };
        match create_table(&mut conn) {
            Ok(_) => Ok(Store { conn }),
            Err(e) => Err(e),
        }
    }

    /// Stores a new paste. Success means the identifier was free and the
    /// table now maps it to `contents`; a collision with a stored
    /// identifier fails distinctly with `UniqueViolation` and overwrites
    /// nothing; any failure leaves the table unchanged.
    pub fn insert(&mut self, id: &str, contents: &str) -> (r: Result<(), PasteError>)
        ensures
            r is Ok ==> !old(self)@.contains_key(id@)
                && final(self)@ == old(self)@.insert(id@, contents@),
            r is Err ==> final(self)@ == old(self)@,
            r matches Err(e) ==> (e == PasteError::UniqueViolation
                ==> old(self)@.contains_key(id@)),
            r matches Err(e) ==> e == PasteError::UniqueViolation
                || e == PasteError::IoFailure,
    {
        insert_paste(&mut self.conn, id, contents)
    }

    /// Fetches the contents stored under `id`: exactly the stored bytes
    /// when the identifier is present, and the explicit "not found" outcome
    /// `Ok(None)` — not an error — when it never was written.
    pub fn fetch(&self, id: &str) -> (r: Result<Option<String>, PasteError>)
        ensures
            r matches Ok(Some(c)) ==> self@.contains_key(id@) && c@ == self@[id@],
            r matches Ok(None) ==> !self@.contains_key(id@),
            r matches Err(e) ==> e == PasteError::IoFailure,
    {
        fetch_paste(&self.conn, id)
    }
}

/// Shared application state: the path to the paste database.
#[derive(Clone)]
pub struct State {
    pub db: String,
}

impl State {
    /// Builds the shared state from the configured database path.
    pub fn new(db: String) -> (s: State)
        ensures
            s.db == db,
    {
        State { db }
    }
}

/// Opens a store on the configured database, creating the paste table when
/// it is missing; meant to be called anew for every request.
pub fn get_connection(state: &State) -> (r: Result<Store, PasteError>)
    ensures
        r matches Err(e) ==> e == PasteError::IoFailure,
{
    Store::open(state.db.as_str())
}

/// Round-trip law: after a write of `contents` under an identifier, the
/// table maps that identifier to exactly the original contents.
pub proof fn lemma_write_then_read(
    table: Map<Seq<char>, Seq<char>>,
    id: Seq<char>,
    contents: Seq<char>,
)
    ensures
        table.insert(id, contents)[id] == contents,
{
}

/// Independence law: writes under distinct identifiers do not interfere;
/// after both, each identifier maps to exactly the contents written under
/// it — no lost write, no mixing of contents.
pub proof fn lemma_independent_writes(
    table: Map<Seq<char>, Seq<char>>,
    id1: Seq<char>,
    contents1: Seq<char>,
    id2: Seq<char>,
    contents2: Seq<char>,
)
    requires
        id1 != id2,
    ensures
        table.insert(id1, contents1).insert(id2, contents2)[id1] == contents1,
        table.insert(id1, contents1).insert(id2, contents2)[id2] == contents2,
{
}

} // verus!
