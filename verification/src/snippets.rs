//! The snippet library: short names that expand to statements.

use vstd::prelude::*;

verus! {

/// A statement that can be called up by a short name.
#[derive(Debug, PartialEq, Eq)]
pub struct Snippet {
    pub shortcut: String,
    pub description: String,
    pub query: String,
}

/// What a [`Snippet`] stands for.
pub struct SnippetView {
    pub shortcut: Seq<char>,
    pub description: Seq<char>,
    pub query: Seq<char>,
}

impl DeepView for Snippet {
    type V = SnippetView;

    open spec fn deep_view(&self) -> SnippetView {
        SnippetView { shortcut: self.shortcut@, description: self.description@, query: self.query@ }
    }
}

impl Clone for Snippet {
    fn clone(&self) -> (copy: Self)
        ensures
            copy.deep_view() == self.deep_view(),
    {
        Snippet {
            shortcut: self.shortcut.clone(),
            description: self.description.clone(),
            query: self.query.clone(),
        }
    }
}

pub const SELECT_ROWS_QUERY: &'static str =
    "SELECT * FROM";

pub const INSERT_ROWS_QUERY: &'static str =
    "INSERT INTO";

pub const UPDATE_ROWS_QUERY: &'static str =
    "UPDATE";

pub const DELETE_ROWS_QUERY: &'static str =
    "DELETE FROM";

pub const CREATE_TABLE_QUERY: &'static str =
    "CREATE TABLE";

pub const ALTER_TABLE_QUERY: &'static str =
    "ALTER TABLE";

pub const DROP_TABLE_QUERY: &'static str =
    "DROP TABLE";

pub const TRUNCATE_TABLE_QUERY: &'static str =
    "TRUNCATE TABLE";

pub const CURRENT_QUERIES_QUERY: &'static str =
    "SELECT pid, age(clock_timestamp(), query_start), usename, query, state\nFROM pg_stat_activity\nWHERE state != 'idle' AND query NOT ILIKE '%pg_stat_activity%'\nORDER BY query_start desc;";

pub const DATABASE_SIZES_QUERY: &'static str =
    "SELECT datname, pg_size_pretty(pg_database_size(datname))\nFROM pg_database\nORDER BY pg_database_size(datname) DESC;";

pub const TABLE_SIZES_QUERY: &'static str =
    "SELECT nspname || '.' || relname AS \"relation\",\npg_size_pretty(pg_total_relation_size(C.oid)) AS \"total_size\"\nFROM pg_class C\nLEFT JOIN pg_namespace N ON (N.oid = C.relnamespace)\nWHERE nspname NOT IN ('pg_catalog', 'information_schema')\nAND C.relkind <> 'i'\nAND nspname !~ '^pg_toast'\nORDER BY pg_total_relation_size(C.oid) DESC;";

pub const CURRENT_LOCKS_QUERY: &'static str =
    "SELECT t.relname, l.locktype, page, virtualtransaction, pid, mode, granted \nFROM pg_locks l, pg_stat_all_tables t \nWHERE l.relation = t.relid ORDER BY relation asc;";

/// The snippet with the given texts.
pub open spec fn snippet(shortcut: &str, description: &str, query: &str) -> SnippetView {
    SnippetView { shortcut: shortcut@, description: description@, query: query@ }
}

/// The snippets that come with the program, for PostgreSQL.
pub open spec fn standard_snippets() -> Seq<SnippetView> {
    seq![
        snippet("sel", "SELECT * FROM", SELECT_ROWS_QUERY),
        snippet("ins", "INSERT INTO", INSERT_ROWS_QUERY),
        snippet("upd", "UPDATE", UPDATE_ROWS_QUERY),
        snippet("del", "DELETE FROM", DELETE_ROWS_QUERY),
        snippet("cre", "CREATE TABLE", CREATE_TABLE_QUERY),
        snippet("alt", "ALTER TABLE", ALTER_TABLE_QUERY),
        snippet("dro", "DROP TABLE", DROP_TABLE_QUERY),
        snippet("trun", "TRUNCATE TABLE", TRUNCATE_TABLE_QUERY),
        snippet("cq", "Current queries", CURRENT_QUERIES_QUERY),
        snippet("ds", "Databases sizes", DATABASE_SIZES_QUERY),
        snippet("ts", "Tables sizes", TABLE_SIZES_QUERY),
        snippet("cl", "Current locks", CURRENT_LOCKS_QUERY),
    ]
}

fn make(shortcut: &str, description: &str, query: &str) -> (made: Snippet)
    ensures
        made.deep_view() == snippet(shortcut, description, query),
{
    Snippet {
        shortcut: String::from_str(shortcut),
        description: String::from_str(description),
        query: String::from_str(query),
    }
}

/// The snippets that come with the program, for PostgreSQL.
pub fn standard_postgres_snippets() -> (library: Vec<Snippet>)
    ensures
        library.deep_view() == standard_snippets(),
{
    let mut library: Vec<Snippet> = Vec::new();
    library.push(make("sel", "SELECT * FROM", SELECT_ROWS_QUERY));
    library.push(make("ins", "INSERT INTO", INSERT_ROWS_QUERY));
    library.push(make("upd", "UPDATE", UPDATE_ROWS_QUERY));
    library.push(make("del", "DELETE FROM", DELETE_ROWS_QUERY));
    library.push(make("cre", "CREATE TABLE", CREATE_TABLE_QUERY));
    library.push(make("alt", "ALTER TABLE", ALTER_TABLE_QUERY));
    library.push(make("dro", "DROP TABLE", DROP_TABLE_QUERY));
    library.push(make("trun", "TRUNCATE TABLE", TRUNCATE_TABLE_QUERY));
    library.push(make("cq", "Current queries", CURRENT_QUERIES_QUERY));
    library.push(make("ds", "Databases sizes", DATABASE_SIZES_QUERY));
    library.push(make("ts", "Tables sizes", TABLE_SIZES_QUERY));
    library.push(make("cl", "Current locks", CURRENT_LOCKS_QUERY));
    proof {
        assert(library.deep_view() =~= standard_snippets());
    }
    library
}

/// The place of the first snippet of `library` that `shortcut` names.
pub open spec fn first_named(library: Seq<SnippetView>, shortcut: Seq<char>) -> Option<int>
    decreases library.len(),
{
    if library.len() == 0 {
        None
    } else if library[0].shortcut == shortcut {
        Some(0)
    } else {
        match first_named(library.drop_first(), shortcut) {
            Some(place) => Some(place + 1),
            None => None,
        }
    }
}

/// The place that `first_named` gives holds a snippet with the shortcut,
/// none before it does, and without such a place no snippet has it.
pub proof fn lemma_first_named(library: Seq<SnippetView>, shortcut: Seq<char>)
    ensures
        match first_named(library, shortcut) {
            Some(place) => 0 <= place < library.len() && library[place].shortcut == shortcut
                && forall|i: int| 0 <= i < place ==> (#[trigger] library[i]).shortcut != shortcut,
            None => forall|i: int|
                0 <= i < library.len() ==> (#[trigger] library[i]).shortcut != shortcut,
        },
    decreases library.len(),
{
    if library.len() > 0 && library[0].shortcut != shortcut {
        let rest = library.drop_first();
        lemma_first_named(rest, shortcut);
        assert forall|i: int| 1 <= i < library.len() implies #[trigger] library[i] == rest[i - 1] by {}
    }
}

/// Looks up the snippet that `shortcut` names.
pub fn find_snippet<'a>(library: &'a Vec<Snippet>, shortcut: &str) -> (found: Option<&'a Snippet>)
    ensures
        match first_named(library.deep_view(), shortcut@) {
            Some(place) => found matches Some(hit) && *hit == library@[place],
            None => found is None,
        },
{
    let wanted = String::from_str(shortcut);
    let mut i: usize = 0;
    while i < library.len()
        invariant
            i <= library.len(),
            wanted@ == shortcut@,
            forall|j: int| 0 <= j < i ==> (#[trigger] library@[j]).shortcut@ != shortcut@,
        decreases library.len() - i,
    {
        if library[i].shortcut == wanted {
            proof {
                lemma_first_named(library.deep_view(), shortcut@);
                assert(library.deep_view()[i as int].shortcut == shortcut@);
                assert forall|j: int| 0 <= j < i implies (#[trigger] library.deep_view()[j]).shortcut
                    != shortcut@ by {
                    assert(library@[j].shortcut@ != shortcut@);
                }
            }
            return Some(&library[i]);
        }
        i = i + 1;
    }
    proof {
        lemma_first_named(library.deep_view(), shortcut@);
        if first_named(library.deep_view(), shortcut@) is Some {
            let place = first_named(library.deep_view(), shortcut@).unwrap();
            assert(library@[place].shortcut@ != shortcut@);
        }
    }
    None
}

} // verus!
