//! The versioned migrations of the notes store.

use crate::schema::{
    create_table_statement, declared_columns, is_conditional_create, lemma_create_is_conditional,
    lemma_statement_matches_declared_columns, CREATE_NOTES_TABLE, NOTES_TABLE,
};
use vstd::prelude::*;

verus! {

/// Direction of a migration: `Up` brings the schema forward, `Down` takes a
/// change back.
#[derive(Clone, Copy, Debug, PartialEq, Eq)]
pub enum MigrationKind {
    Up,
    Down,
}

/// One versioned change of the schema.
#[derive(Clone, Copy, Debug, PartialEq, Eq)]
pub struct Migration {
    pub version: i64,
    pub description: &'static str,
    pub sql: &'static str,
    pub kind: MigrationKind,
}

/// Mathematical value of a [`Migration`]: the same fields, with the texts as
/// sequences of characters.
pub ghost struct MigrationView {
    pub version: int,
    pub description: Seq<char>,
    pub sql: Seq<char>,
    pub kind: MigrationKind,
}

impl View for Migration {
    type V = MigrationView;

    open spec fn view(&self) -> MigrationView {
        MigrationView {
            version: self.version as int,
            description: self.description@,
            sql: self.sql@,
            kind: self.kind,
        }
    }
}

impl DeepView for Migration {
    type V = MigrationView;

    open spec fn deep_view(&self) -> MigrationView {
        self@
    }
}

/// Connection string of the database that holds the notes.
pub const DATABASE_URL: &'static str = "sqlite:mdnotes.db";

/// Every migration has a higher version than all that stand before it.
pub open spec fn versions_increase(list: Seq<MigrationView>) -> bool {
    forall|i: int, j: int| 0 <= i < j < list.len() ==> list[i].version < list[j].version
}

/// Every migration brings the schema forward.
pub open spec fn forward_only(list: Seq<MigrationView>) -> bool {
    forall|i: int| 0 <= i < list.len() ==> list[i].kind == MigrationKind::Up
}

/// The migrations of the notes store: version 1, which creates the `notes`
/// table.
pub open spec fn declared_migrations() -> Seq<MigrationView> {
    seq![
        MigrationView {
            version: 1,
            description: "create initial schema"@,
            sql: CREATE_NOTES_TABLE@,
            kind: MigrationKind::Up,
        },
    ]
}

/// The migrations of the notes store, in the order in which the engine is to
/// apply those that a database has not seen yet.
pub fn migrations() -> (list: Vec<Migration>)
    ensures
        list.deep_view() == declared_migrations(),
        list@.len() == 1,
        list@[0]@ == declared_migrations()[0],
        versions_increase(list.deep_view()),
        forward_only(list.deep_view()),
        list@[0].sql@ == create_table_statement(NOTES_TABLE@, declared_columns()),
        is_conditional_create(list@[0].sql@),
{
    proof {
        lemma_statement_matches_declared_columns();
        lemma_create_is_conditional(NOTES_TABLE@, declared_columns());
    }
    let mut list: Vec<Migration> = Vec::new();
    list.push(
        Migration {
            version: 1,
            description: "create initial schema",
            sql: CREATE_NOTES_TABLE,
            kind: MigrationKind::Up,
        },
    );
    list
}

} // verus!
