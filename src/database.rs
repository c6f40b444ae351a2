//! Persistence of TODO items in a local SQLite store.
//!
//! Every statement goes through rusqlite. What the store holds lives on disk
//! and is not modelled: the contracts say which error each operation reports
//! when the store is unavailable, which kind of error it reports otherwise,
//! and how loaded rows are put in display order and become items.

use crate::types::{push_char, status_from_name, status_name, text_eq, Status, TODOData};
use vstd::multiset::Multiset;
use vstd::prelude::*;

verus! {

/// Declares rusqlite's connection handle, carried opaquely.
#[verifier::external_type_specification]
#[verifier::external_body]
pub struct ExConnection(rusqlite::Connection);

/// Declares rusqlite's error type, carried opaquely until it is turned into
/// text.
#[verifier::external_type_specification]
#[verifier::external_body]
pub struct ExRusqliteError(rusqlite::Error);

/// Relies on rusqlite's `Connection::last_insert_rowid`: the rowid of the
/// most recent successful insert on this connection.
pub assume_specification[ rusqlite::Connection::last_insert_rowid ](
    conn: &rusqlite::Connection,
) -> i64;

/// Whether chrono's RFC 3339 parser accepts a text; it depends on the text
/// alone.
pub uninterp spec fn rfc3339_valid(s: Seq<char>) -> bool;

/// Relies on rusqlite's `Connection::open`: opens or creates the store at a
/// path (`:memory:` gives a private in-memory store).
#[verifier::external_body]
fn open_connection(path: &str) -> (r: Result<rusqlite::Connection, rusqlite::Error>) {
    rusqlite::Connection::open(path)
}

/// Relies on rusqlite's `Connection::execute`: runs one statement with the
/// given texts bound to its parameters in order.
#[verifier::external_body]
fn execute(conn: &rusqlite::Connection, sql: &str, params: &Vec<String>) -> (r: Result<
    usize,
    rusqlite::Error,
>) {
    conn.execute(sql, rusqlite::params_from_iter(params.iter()))
}

/// Relies on rusqlite's `Connection::prepare` and `Statement::query_map`:
/// runs a query whose five columns are id, title, message, status and date,
/// and reads each result row; fails on the first row that does not read.
#[verifier::external_body]
fn query_rows(conn: &rusqlite::Connection, sql: &str) -> (r: Result<
    Vec<StoredRow>,
    rusqlite::Error,
>) {
    let mut stmt = conn.prepare(sql)?;
    let rows = stmt.query_map([], |row| {
        Ok(StoredRow {
            id: row.get(0)?,
            title: row.get(1)?,
            message: row.get(2)?,
            status: row.get(3)?,
            date: row.get(4)?,
        })
    })?;
    rows.collect()
}

/// Relies on chrono's `DateTime::parse_from_rfc3339`: whether the text
/// parses.
#[verifier::external_body]
fn is_rfc3339(s: &str) -> (r: bool)
    ensures
        r == rfc3339_valid(s@),
{
    chrono::DateTime::parse_from_rfc3339(s).is_ok()
}

/// Relies on chrono's `Local::now` and `DateTime::to_rfc3339`: the current
/// local time as RFC 3339 text.
#[verifier::external_body]
fn now_rfc3339() -> (r: String) {
    chrono::Local::now().to_rfc3339()
}

/// The character of a decimal digit.
pub open spec fn digit_char(d: nat) -> char {
    if d == 0 {
        '0'
    } else if d == 1 {
        '1'
    } else if d == 2 {
        '2'
    } else if d == 3 {
        '3'
    } else if d == 4 {
        '4'
    } else if d == 5 {
        '5'
    } else if d == 6 {
        '6'
    } else if d == 7 {
        '7'
    } else if d == 8 {
        '8'
    } else {
        '9'
    }
}

/// The decimal digits of a natural number, most significant first.
pub open spec fn digits(n: nat) -> Seq<char>
    decreases n,
{
    if n < 10 {
        seq![digit_char(n)]
    } else {
        digits(n / 10).push(digit_char(n % 10))
    }
}

/// An integer in decimal, with a leading minus sign when negative.
pub open spec fn decimal_text(n: int) -> Seq<char> {
    if n < 0 {
        seq!['-'] + digits((-n) as nat)
    } else {
        digits(n as nat)
    }
}

fn digit(d: u64) -> (c: char)
    requires
        d < 10,
    ensures
        c == digit_char(d as nat),
{
    match d {
        0 => '0',
        1 => '1',
        2 => '2',
        3 => '3',
        4 => '4',
        5 => '5',
        6 => '6',
        7 => '7',
        8 => '8',
        _ => '9',
    }
}

/// Appends the decimal digits of `n`.
fn push_digits(s: &mut String, n: u64)
    ensures
        final(s)@ == old(s)@ + digits(n as nat),
    decreases n,
{
    let ghost start = s@;
    if n >= 10 {
        push_digits(s, n / 10);
    }
    let ghost mid = s@;
    push_char(s, digit(n % 10));
    proof {
        if n >= 10 {
            assert(mid == start + digits((n / 10) as nat));
            assert(s@ =~= start + digits((n / 10) as nat).push(digit_char((n % 10) as nat)));
        } else {
            assert(s@ =~= start + seq![digit_char(n as nat)]);
        }
    }
}

/// An integer in decimal, as the store reads integer parameters given as
/// text.
pub fn decimal(n: i64) -> (r: String)
    ensures
        r@ == decimal_text(n as int),
{
    let mut s = String::new();
    if n < 0 {
        push_char(&mut s, '-');
        let magnitude: u64 = (-(n as i128)) as u64;
        push_digits(&mut s, magnitude);
        assert(s@ =~= seq!['-'] + digits((-n) as nat));
    } else {
        push_digits(&mut s, n as u64);
        assert(s@ =~= digits(n as nat));
    }
    s
}

/// Parameters of the insert statement: title, message, stored status text
/// and creation time.
pub fn insert_params(title: &str, message: &str, status: Status, date: String) -> (r: Vec<
    String,
>)
    ensures
        r@.len() == 4,
        r@[0]@ == title@,
        r@[1]@ == message@,
        r@[2]@ == status_name(status),
        r@[3]@ == date@,
{
    let mut params: Vec<String> = Vec::new();
    params.push(String::from_str(title));
    params.push(String::from_str(message));
    params.push(String::from_str(status.name()));
    params.push(date);
    params
}

/// Parameters of the status update: stored status text, then the id.
pub fn update_params(id: i64, status: Status) -> (r: Vec<String>)
    ensures
        r@.len() == 2,
        r@[0]@ == status_name(status),
        r@[1]@ == decimal_text(id as int),
{
    let mut params: Vec<String> = Vec::new();
    params.push(String::from_str(status.name()));
    params.push(decimal(id));
    params
}

/// Parameter of the delete statement: the id.
pub fn delete_params(id: i64) -> (r: Vec<String>)
    ensures
        r@.len() == 1,
        r@[0]@ == decimal_text(id as int),
{
    let mut params: Vec<String> = Vec::new();
    params.push(decimal(id));
    params
}

/// Failure of a store operation, with a description.
#[derive(Debug)]
pub enum DatabaseError {
    /// The store could not be opened or prepared, or is unavailable.
    ConnectionError(String),
    /// A read failed.
    QueryError(String),
    /// A write failed.
    UpdateError(String),
}

/// Description reported when an operation runs without a store.
pub open spec fn unavailable_text() -> Seq<char> {
    "Database connection not available"@
}

/// The outcome of an operation attempted without a store.
pub open spec fn reports_unavailable<T>(r: Result<T, DatabaseError>) -> bool {
    r matches Err(DatabaseError::ConnectionError(m)) && m@ == unavailable_text()
}

/// What a write statement's outcome means: success, or an update error
/// carrying the store's message.
pub fn write_outcome(executed: Result<usize, rusqlite::Error>) -> (r: Result<(), DatabaseError>)
    ensures
        executed is Ok <==> r is Ok,
        r matches Err(e) ==> e is UpdateError,
{
    match executed {
        Ok(_) => Ok(()),
        Err(e) => Err(DatabaseError::UpdateError(e.to_string())),
    }
}

impl DatabaseError {
    /// Human-readable form: a prefix naming the kind, then the description.
    pub fn message(&self) -> (r: String)
        ensures
            r@ == match self {
                DatabaseError::ConnectionError(m) => "Database connection error: "@ + m@,
                DatabaseError::QueryError(m) => "Database query error: "@ + m@,
                DatabaseError::UpdateError(m) => "Database update error: "@ + m@,
            },
    {
        match self {
            DatabaseError::ConnectionError(m) => String::from_str(
                "Database connection error: ",
            ).concat(m.as_str()),
            DatabaseError::QueryError(m) => String::from_str("Database query error: ").concat(
                m.as_str(),
            ),
            DatabaseError::UpdateError(m) => String::from_str("Database update error: ").concat(
                m.as_str(),
            ),
        }
    }
}

/// One row of the `todos` table as read, before interpretation.
#[derive(Debug)]
pub struct StoredRow {
    pub id: i64,
    pub title: String,
    pub message: String,
    pub status: String,
    pub date: String,
}

/// Display priority of a stored status text when items are listed:
/// Active, then Todo, then Cancelled, then Done, then anything else.
pub open spec fn status_rank(name: Seq<char>) -> int {
    if name == "Active"@ {
        1
    } else if name == "Todo"@ {
        2
    } else if name == "Cancelled"@ {
        3
    } else if name == "Done"@ {
        4
    } else {
        5
    }
}

/// Whether row `a` may be listed before row `b`: lower display priority of
/// its status text first, then lower id.
pub open spec fn listed_before(a: StoredRow, b: StoredRow) -> bool {
    ||| status_rank(a.status@) < status_rank(b.status@)
    ||| (status_rank(a.status@) == status_rank(b.status@) && a.id <= b.id)
}

/// Rows in display order.
pub open spec fn in_display_order(rows: Seq<StoredRow>) -> bool {
    forall|i: int, j: int| 0 <= i < j < rows.len() ==> #[trigger] listed_before(rows[i], rows[j])
}

/// Display priority of a stored status text.
fn rank_of(status: &str) -> (r: u8)
    ensures
        r as int == status_rank(status@),
{
    if text_eq(status, "Active") {
        1
    } else if text_eq(status, "Todo") {
        2
    } else if text_eq(status, "Cancelled") {
        3
    } else if text_eq(status, "Done") {
        4
    } else {
        5
    }
}

/// Whether row `a` may be listed before row `b`.
fn precedes(a: &StoredRow, b: &StoredRow) -> (r: bool)
    ensures
        r == listed_before(*a, *b),
{
    let ra = rank_of(a.status.as_str());
    let rb = rank_of(b.status.as_str());
    ra < rb || (ra == rb && a.id <= b.id)
}

/// Orders rows for display: Active, Todo, Cancelled, Done, then unknown
/// statuses, each group by ascending id.
pub fn sort_for_display(rows: Vec<StoredRow>) -> (r: Vec<StoredRow>)
    ensures
        in_display_order(r@),
        r@.to_multiset() == rows@.to_multiset(),
{
    broadcast use vstd::seq_lib::group_to_multiset_ensures;

    let ghost all = rows@;
    let mut rest = rows;
    let mut sorted: Vec<StoredRow> = Vec::new();
    while rest.len() > 0
        invariant
            in_display_order(sorted@),
            sorted@.to_multiset().add(rest@.to_multiset()) == all.to_multiset(),
        decreases rest@.len(),
    {
        let ghost before = rest@;
        let row = rest.pop().unwrap();
        assert(before == rest@.push(row));
        let mut p: usize = 0;
        while p < sorted.len() && precedes(&sorted[p], &row)
            invariant
                p <= sorted@.len(),
                forall|k: int| 0 <= k < p ==> listed_before(#[trigger] sorted@[k], row),
            decreases sorted@.len() - p,
        {
            p = p + 1;
        }
        let ghost old_sorted = sorted@;
        sorted.insert(p, row);
        proof {
            vstd::seq_lib::to_multiset_insert(old_sorted, p as int, row);
            vstd::seq_lib::to_multiset_build(rest@, row);
            assert(sorted@.to_multiset().add(rest@.to_multiset()) =~= old_sorted.to_multiset().add(
                before.to_multiset(),
            ));
        }
        assert forall|i: int, j: int| 0 <= i < j < sorted@.len() implies #[trigger] listed_before(
            sorted@[i],
            sorted@[j],
        ) by {
            if p < old_sorted.len() {
                assert(!listed_before(old_sorted[p as int], row));
            }
            if i < p && j > p {
                assert(listed_before(old_sorted[i], old_sorted[j - 1]));
            } else if i == p && j > p + 1 {
                assert(listed_before(old_sorted[p as int], old_sorted[j - 1]));
            }
        }
    }
    assert(rest@.to_multiset() =~= Multiset::empty());
    assert(sorted@.to_multiset().add(Multiset::empty()) =~= sorted@.to_multiset());
    sorted
}

/// Items read from the store: rows in display order, each interpreted.
pub open spec fn listed_items(items: Seq<TODOData>, rows: Seq<StoredRow>) -> bool {
    in_display_order(rows) && items_from_rows(items, rows)
}

/// What the rows read from the store give: a list of the same rows in
/// display order, each interpreted; a failed read gives a query error.
pub fn load_outcome(read: Result<Vec<StoredRow>, rusqlite::Error>) -> (r: Result<
    Vec<TODOData>,
    DatabaseError,
>)
    ensures
        read is Ok <==> r is Ok,
        r matches Err(e) ==> e is QueryError,
        read matches Ok(rows) ==> (r matches Ok(items) && exists|sorted: Seq<StoredRow>| #[trigger]
            listed_items(items@, sorted) && sorted.to_multiset() == rows@.to_multiset()),
{
    match read {
        Ok(rows) => {
            let ghost read_rows = rows@;
            let sorted = sort_for_display(rows);
            let items = todos_from_rows(&sorted);
            let r: Result<Vec<TODOData>, DatabaseError> = Ok(items);
            assert(r matches Ok(v) && listed_items(v@, sorted@) && sorted@.to_multiset()
                == read_rows.to_multiset());
            r
        },
        Err(e) => Err(DatabaseError::QueryError(e.to_string())),
    }
}

/// How a loaded item relates to the row it was read from: fields carried
/// over, the status interpreted (unknown texts become Todo), and a date
/// kept when it parses.
pub open spec fn item_from_row(item: TODOData, row: StoredRow) -> bool {
    &&& item.id == row.id
    &&& item.title@ == row.title@
    &&& item.message@ == row.message@
    &&& item.status == status_from_name(row.status@)
    &&& rfc3339_valid(row.date@) ==> item.date@ == row.date@
}

/// Items converted one for one, in order, from rows.
pub open spec fn items_from_rows(items: Seq<TODOData>, rows: Seq<StoredRow>) -> bool {
    &&& items.len() == rows.len()
    &&& forall|i: int| 0 <= i < rows.len() ==> #[trigger] item_from_row(items[i], rows[i])
}

impl TODOData {
    /// Interprets a stored row; a date that does not parse is replaced by
    /// the current time.
    pub fn from_row(row: &StoredRow) -> (r: TODOData)
        ensures
            item_from_row(r, *row),
    {
        let status = Status::from_name(row.status.as_str());
        let date = if is_rfc3339(row.date.as_str()) {
            row.date.clone()
        } else {
            now_rfc3339()
        };
        TODOData {
            id: row.id,
            title: row.title.clone(),
            message: row.message.clone(),
            date,
            status,
        }
    }
}

/// Interprets stored rows in order.
pub fn todos_from_rows(rows: &Vec<StoredRow>) -> (r: Vec<TODOData>)
    ensures
        items_from_rows(r@, rows@),
{
    let mut items: Vec<TODOData> = Vec::new();
    let mut i: usize = 0;
    while i < rows.len()
        invariant
            i <= rows@.len(),
            items_from_rows(items@, rows@.subrange(0, i as int)),
        decreases rows@.len() - i,
    {
        let item = TODOData::from_row(&rows[i]);
        assert(rows@.subrange(0, i + 1) =~= rows@.subrange(0, i as int).push(rows@[i as int]));
        items.push(item);
        i = i + 1;
    }
    assert(rows@.subrange(0, rows@.len() as int) =~= rows@);
    items
}

/// Prefixes a description.
fn described(prefix: &str, detail: String) -> (r: String)
    ensures
        r@ == prefix@ + detail@,
{
    String::from_str(prefix).concat(detail.as_str())
}

/// Handle on the store; without a connection every operation fails with a
/// connection error.
pub struct DatabaseManager {
    connection: Option<rusqlite::Connection>,
}

impl DatabaseManager {
    /// Whether a store is open.
    pub closed spec fn connected(&self) -> bool {
        self.connection is Some
    }

    /// Opens the store `data.db` in the working directory, creating its
    /// table when absent.
    pub fn new() -> (r: Result<DatabaseManager, DatabaseError>)
        ensures
            r matches Ok(m) ==> m.connected(),
            r matches Err(e) ==> e is ConnectionError,
    {
        DatabaseManager::open("data.db")
    }

    /// Opens the store at `path`, creating its table when absent.
    pub fn open(path: &str) -> (r: Result<DatabaseManager, DatabaseError>)
        ensures
            r matches Ok(m) ==> m.connected(),
            r matches Err(e) ==> e is ConnectionError,
    {
        match open_connection(path) {
            Ok(conn) => {
                let created = execute(
                    &conn,
                    "CREATE TABLE IF NOT EXISTS todos (
                        id INTEGER PRIMARY KEY AUTOINCREMENT,
                        title TEXT NOT NULL,
                        message TEXT,
                        status TEXT NOT NULL,
                        date TEXT NOT NULL
                    )",
                    &Vec::new(),
                );
                match created {
                    Ok(_) => Ok(DatabaseManager { connection: Some(conn) }),
                    Err(e) => Err(
                        DatabaseError::ConnectionError(
                            described("Error creating table: ", e.to_string()),
                        ),
                    ),
                }
            },
            Err(e) => Err(
                DatabaseError::ConnectionError(
                    described("Error opening database: ", e.to_string()),
                ),
            ),
        }
    }

    /// A handle without a store, standing in when opening failed.
    pub fn unavailable() -> (r: DatabaseManager)
        ensures
            !r.connected(),
    {
        DatabaseManager { connection: None }
    }

    /// The open connection, if any.
    pub fn get_connection(&self) -> (r: Option<&rusqlite::Connection>)
        ensures
            r is Some <==> self.connected(),
    {
        match &self.connection {
            Some(c) => Some(c),
            None => None,
        }
    }

    /// All items, Active first, then Todo, Cancelled, Done and unknown
    /// statuses, each group by ascending id.
    pub fn load_todos(&self) -> (r: Result<Vec<TODOData>, DatabaseError>)
        ensures
            !self.connected() ==> reports_unavailable(r),
            self.connected() ==> (r matches Err(e) ==> e is QueryError),
            r matches Ok(items) ==> exists|rows: Seq<StoredRow>| #[trigger]
                listed_items(items@, rows),
    {
        match &self.connection {
            Some(conn) => {
                load_outcome(query_rows(conn, "SELECT id, title, message, status, date FROM todos"))
            },
            None => Err(DatabaseError::ConnectionError(String::from_str("Database connection not available"))),
        }
    }

    /// Inserts an item stamped with the current local time and returns its
    /// new id.
    pub fn add_todo(&self, title: &str, message: &str, status: Status) -> (r: Result<
        i64,
        DatabaseError,
    >)
        ensures
            !self.connected() ==> reports_unavailable(r),
            self.connected() ==> (r matches Err(e) ==> e is UpdateError),
    {
        match &self.connection {
            Some(conn) => {
                let params = insert_params(title, message, status, now_rfc3339());
                let executed = execute(
                    conn,
                    "INSERT INTO todos (title, message, status, date) VALUES (?1, ?2, ?3, ?4)",
                    &params,
                );
                match write_outcome(executed) {
                    Ok(()) => Ok(conn.last_insert_rowid()),
                    Err(e) => Err(e),
                }
            },
            None => Err(DatabaseError::ConnectionError(String::from_str("Database connection not available"))),
        }
    }

    /// Sets the status of the item with this id; no item with it is no
    /// error.
    pub fn update_todo_status(&self, id: i64, status: Status) -> (r: Result<(), DatabaseError>)
        ensures
            !self.connected() ==> reports_unavailable(r),
            self.connected() ==> (r matches Err(e) ==> e is UpdateError),
    {
        match &self.connection {
            Some(conn) => {
                let params = update_params(id, status);
                write_outcome(execute(conn, "UPDATE todos SET status = ?1 WHERE id = ?2", &params))
            },
            None => Err(DatabaseError::ConnectionError(String::from_str("Database connection not available"))),
        }
    }

    /// Deletes the item with this id; no item with it is no error.
    pub fn delete_todo(&self, id: i64) -> (r: Result<(), DatabaseError>)
        ensures
            !self.connected() ==> reports_unavailable(r),
            self.connected() ==> (r matches Err(e) ==> e is UpdateError),
    {
        match &self.connection {
            Some(conn) => {
                let params = delete_params(id);
                write_outcome(execute(conn, "DELETE FROM todos WHERE id = ?1", &params))
            },
            None => Err(DatabaseError::ConnectionError(String::from_str("Database connection not available"))),
        }
    }
}

} // verus!
