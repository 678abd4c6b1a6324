//! The declared shape of the `notes` table, and the text of the statement
//! that creates it.

use vstd::prelude::*;

verus! {

/// Storage type of a column.
#[derive(Clone, Copy, Debug, PartialEq, Eq)]
pub enum ColumnType {
    Integer,
    Text,
}

/// One column of a table, as the schema declares it.
#[derive(Clone, Copy, Debug, PartialEq, Eq)]
pub struct Column {
    pub name: &'static str,
    pub column_type: ColumnType,
    /// The column is the row's identity: the engine assigns it on insert,
    /// keeps it unique and never hands a value out twice.
    pub auto_assigned: bool,
    /// The column refuses null.
    pub required: bool,
    /// Value of the column in a row that is inserted without one.
    pub default: Option<i64>,
}

/// Mathematical value of a [`Column`]: the same fields, with the name as a
/// sequence of characters.
pub ghost struct ColumnView {
    pub name: Seq<char>,
    pub column_type: ColumnType,
    pub auto_assigned: bool,
    pub required: bool,
    pub default: Option<i64>,
}

impl View for Column {
    type V = ColumnView;

    open spec fn view(&self) -> ColumnView {
        ColumnView {
            name: self.name@,
            column_type: self.column_type,
            auto_assigned: self.auto_assigned,
            required: self.required,
            default: self.default,
        }
    }
}

impl DeepView for Column {
    type V = ColumnView;

    open spec fn deep_view(&self) -> ColumnView {
        self@
    }
}

/// Name of the table that holds the notes.
pub const NOTES_TABLE: &'static str = "notes";

/// The statement that creates the `notes` table in a database that has none.
///
/// The engine keeps a checksum of this text beside the version it belongs
/// to, and refuses a database whose recorded checksum differs. Every
/// character counts, line breaks and indentation included.
pub const CREATE_NOTES_TABLE: &'static str = "CREATE TABLE IF NOT EXISTS notes (
    id INTEGER PRIMARY KEY AUTOINCREMENT,
    title TEXT NOT NULL,
    content TEXT NOT NULL,
    created_at TEXT NOT NULL,
    updated_at TEXT NOT NULL,
    order_index INTEGER NOT NULL DEFAULT 0
)";

/// A text column that refuses null and has no default.
pub open spec fn required_text(name: Seq<char>) -> ColumnView {
    ColumnView {
        name,
        column_type: ColumnType::Text,
        auto_assigned: false,
        required: true,
        default: None,
    }
}

/// The columns of a note, in the order in which the table declares them:
/// the identity `id`, then `title`, `content`, `created_at` and `updated_at`,
/// all required text, then the integer `order_index`, required, 0 by default.
pub open spec fn declared_columns() -> Seq<ColumnView> {
    seq![
        ColumnView {
            name: "id"@,
            column_type: ColumnType::Integer,
            auto_assigned: true,
            required: false,
            default: None,
        },
        required_text("title"@),
        required_text("content"@),
        required_text("created_at"@),
        required_text("updated_at"@),
        ColumnView {
            name: "order_index"@,
            column_type: ColumnType::Integer,
            auto_assigned: false,
            required: true,
            default: Some(0i64),
        },
    ]
}

/// Keyword by which a statement names a storage type.
pub open spec fn type_keyword(column_type: ColumnType) -> Seq<char> {
    match column_type {
        ColumnType::Integer => "INTEGER"@,
        ColumnType::Text => "TEXT"@,
    }
}

/// The character of a decimal digit.
pub open spec fn digit_char(digit: nat) -> char
    recommends
        digit < 10,
{
    ('0' as u8 + digit) as char
}

/// Decimal digits of a natural number, most significant first.
pub open spec fn decimal(value: nat) -> Seq<char>
    decreases value,
{
    if value < 10 {
        seq![digit_char(value)]
    } else {
        decimal(value / 10).push(digit_char(value % 10))
    }
}

/// An integer as a statement writes it: its decimal digits, behind a minus
/// sign where it is negative.
pub open spec fn integer_literal(value: int) -> Seq<char> {
    if value < 0 {
        seq!['-'] + decimal((-value) as nat)
    } else {
        decimal(value as nat)
    }
}

/// Definition of one column inside a `CREATE TABLE` statement: the name, the
/// type, then each constraint that the column carries.
pub open spec fn column_definition(column: ColumnView) -> Seq<char> {
    column.name + " "@ + type_keyword(column.column_type) + (if column.auto_assigned {
        " PRIMARY KEY AUTOINCREMENT"@
    } else {
        Seq::empty()
    }) + (if column.required {
        " NOT NULL"@
    } else {
        Seq::empty()
    }) + (match column.default {
        Some(value) => " DEFAULT "@ + integer_literal(value as int),
        None => Seq::empty(),
    })
}

/// The column definitions of a statement, each on a line of its own behind
/// four spaces, with a comma between one and the next.
pub open spec fn column_lines(columns: Seq<ColumnView>) -> Seq<char>
    decreases columns.len(),
{
    if columns.len() == 0 {
        Seq::empty()
    } else if columns.len() == 1 {
        "\n    "@ + column_definition(columns[0])
    } else {
        column_lines(columns.drop_last()) + ",\n    "@ + column_definition(columns.last())
    }
}

/// The statement that creates a table of the given columns unless a table of
/// that name is already there.
pub open spec fn create_table_statement(table: Seq<char>, columns: Seq<ColumnView>) -> Seq<char> {
    "CREATE TABLE IF NOT EXISTS "@ + table + " ("@ + column_lines(columns) + "\n)"@
}

/// The columns of a note, in the order in which the table declares them.
pub fn notes_columns() -> (columns: Vec<Column>)
    ensures
        columns.deep_view() == declared_columns(),
        columns@.len() == declared_columns().len(),
        forall|i: int|
            0 <= i < columns@.len() ==> (#[trigger] columns@[i])@ == declared_columns()[i],
{
    let mut columns: Vec<Column> = Vec::new();
    columns.push(
        Column {
            name: "id",
            column_type: ColumnType::Integer,
            auto_assigned: true,
            required: false,
            default: None,
        },
    );
    columns.push(required_text_column("title"));
    columns.push(required_text_column("content"));
    columns.push(required_text_column("created_at"));
    columns.push(required_text_column("updated_at"));
    columns.push(
        Column {
            name: "order_index",
            column_type: ColumnType::Integer,
            auto_assigned: false,
            required: true,
            default: Some(0),
        },
    );
    columns
}

fn required_text_column(name: &'static str) -> (column: Column)
    ensures
        column@ == required_text(name@),
{
    Column { name, column_type: ColumnType::Text, auto_assigned: false, required: true, default: None }
}

/// A statement that creates a table only where none of its name exists.
pub open spec fn is_conditional_create(statement: Seq<char>) -> bool {
    "CREATE TABLE IF NOT EXISTS "@.is_prefix_of(statement)
}

/// Each declared column is written in a statement as the fixed text writes
/// it.
proof fn lemma_declared_definitions()
    ensures
        column_definition(declared_columns()[0]) == "id INTEGER PRIMARY KEY AUTOINCREMENT"@,
        column_definition(declared_columns()[1]) == "title TEXT NOT NULL"@,
        column_definition(declared_columns()[2]) == "content TEXT NOT NULL"@,
        column_definition(declared_columns()[3]) == "created_at TEXT NOT NULL"@,
        column_definition(declared_columns()[4]) == "updated_at TEXT NOT NULL"@,
        column_definition(declared_columns()[5]) == "order_index INTEGER NOT NULL DEFAULT 0"@,
{
    reveal_strlit("id");
    reveal_strlit("title");
    reveal_strlit("content");
    reveal_strlit("created_at");
    reveal_strlit("updated_at");
    reveal_strlit("order_index");
    reveal_strlit(" ");
    reveal_strlit("INTEGER");
    reveal_strlit("TEXT");
    reveal_strlit(" PRIMARY KEY AUTOINCREMENT");
    reveal_strlit(" NOT NULL");
    reveal_strlit(" DEFAULT ");
    reveal_strlit("id INTEGER PRIMARY KEY AUTOINCREMENT");
    reveal_strlit("title TEXT NOT NULL");
    reveal_strlit("content TEXT NOT NULL");
    reveal_strlit("created_at TEXT NOT NULL");
    reveal_strlit("updated_at TEXT NOT NULL");
    reveal_strlit("order_index INTEGER NOT NULL DEFAULT 0");
    assert(decimal(0) =~= seq!['0']);
}

/// The fixed text is the statement of the declared schema: character for
/// character what [`create_table_statement`] writes for the table
/// [`NOTES_TABLE`] and the columns of [`declared_columns`].
pub proof fn lemma_statement_matches_declared_columns()
    ensures
        CREATE_NOTES_TABLE@ == create_table_statement(NOTES_TABLE@, declared_columns()),
{
    let columns = declared_columns();
    lemma_declared_definitions();
    reveal_strlit("id INTEGER PRIMARY KEY AUTOINCREMENT");
    reveal_strlit("title TEXT NOT NULL");
    reveal_strlit("content TEXT NOT NULL");
    reveal_strlit("created_at TEXT NOT NULL");
    reveal_strlit("updated_at TEXT NOT NULL");
    reveal_strlit("order_index INTEGER NOT NULL DEFAULT 0");
    reveal_strlit("CREATE TABLE IF NOT EXISTS ");
    reveal_strlit("notes");
    reveal_strlit(" (");
    reveal_strlit("\n    ");
    reveal_strlit(",\n    ");
    reveal_strlit("\n)");
    reveal_strlit(
        "CREATE TABLE IF NOT EXISTS notes (\n    id INTEGER PRIMARY KEY AUTOINCREMENT,\n    title TEXT NOT NULL,\n    content TEXT NOT NULL,\n    created_at TEXT NOT NULL,\n    updated_at TEXT NOT NULL,\n    order_index INTEGER NOT NULL DEFAULT 0\n)",
    );
    reveal_with_fuel(column_lines, 7);
    let five = columns.drop_last();
    let four = five.drop_last();
    let three = four.drop_last();
    let two = three.drop_last();
    assert(five =~= seq![columns[0], columns[1], columns[2], columns[3], columns[4]]);
    assert(four =~= seq![columns[0], columns[1], columns[2], columns[3]]);
    assert(three =~= seq![columns[0], columns[1], columns[2]]);
    assert(two =~= seq![columns[0], columns[1]]);
    assert(two.drop_last() =~= seq![columns[0]]);
    assert(CREATE_NOTES_TABLE@ =~= create_table_statement(NOTES_TABLE@, columns));
}

/// Whatever the table and its columns, the statement that creates it is
/// conditional: it makes the table where there is none and asks nothing of a
/// table that is already there.
pub proof fn lemma_create_is_conditional(table: Seq<char>, columns: Seq<ColumnView>)
    ensures
        is_conditional_create(create_table_statement(table, columns)),
{
    let opening = "CREATE TABLE IF NOT EXISTS "@;
    let statement = create_table_statement(table, columns);
    assert(statement.subrange(0, opening.len() as int) =~= opening);
}

} // verus!
