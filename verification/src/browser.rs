//! The identifiers of the nodes of the server browser, as they are written
//! into the tree and read back from it.

use crate::ids::{format_uuid, parse_uuid, uuid_parsed, uuid_text};
use crate::text::{lemma_split_joined, split_at_mark, split_once};
use vstd::prelude::*;

verus! {

/// A node of the browser: a server, or something inside one.
#[derive(Debug, PartialEq, Eq)]
pub enum BrowserTreeId {
    Server(u128),
    Database(u128, String),
    Schema(u128, String, String),
    Table(u128, String, String, String),
    Column { server_id: u128, database: String, schema: String, table: String, column: String },
}

/// What a [`BrowserTreeId`] stands for.
pub enum TreeIdView {
    Server(u128),
    Database(u128, Seq<char>),
    Schema(u128, Seq<char>, Seq<char>),
    Table(u128, Seq<char>, Seq<char>, Seq<char>),
    Column {
        server_id: u128,
        database: Seq<char>,
        schema: Seq<char>,
        table: Seq<char>,
        column: Seq<char>,
    },
}

impl View for BrowserTreeId {
    type V = TreeIdView;

    open spec fn view(&self) -> TreeIdView {
        match self {
            BrowserTreeId::Server(id) => TreeIdView::Server(*id),
            BrowserTreeId::Database(id, database) => TreeIdView::Database(*id, database@),
            BrowserTreeId::Schema(id, database, schema) => TreeIdView::Schema(
                *id,
                database@,
                schema@,
            ),
            BrowserTreeId::Table(id, database, schema, table) => TreeIdView::Table(
                *id,
                database@,
                schema@,
                table@,
            ),
            BrowserTreeId::Column { server_id, database, schema, table, column } => TreeIdView::Column {
                server_id: *server_id,
                database: database@,
                schema: schema@,
                table: table@,
                column: column@,
            },
        }
    }
}

/// `head`, a colon, and `tail`.
pub open spec fn colon(head: Seq<char>, tail: Seq<char>) -> Seq<char> {
    head + seq![':'] + tail
}

impl TreeIdView {
    /// The text of the identifier: the kind of node, the server, and the
    /// names on the way down, with colons between them.
    pub open spec fn text(self) -> Seq<char> {
        match self {
            TreeIdView::Server(id) => colon("server"@, uuid_text(id)),
            TreeIdView::Database(id, database) => colon(
                "database"@,
                colon(uuid_text(id), database),
            ),
            TreeIdView::Schema(id, database, schema) => colon(
                "schema"@,
                colon(uuid_text(id), colon(database, schema)),
            ),
            TreeIdView::Table(id, database, schema, table) => colon(
                "table"@,
                colon(uuid_text(id), colon(database, colon(schema, table))),
            ),
            TreeIdView::Column { server_id, database, schema, table, column } => colon(
                "column"@,
                colon(uuid_text(server_id), colon(database, colon(schema, colon(table, column)))),
            ),
        }
    }

    /// Whether the text of the identifier can be read back: the names before
    /// the last one hold no colon, and the node is not a column, which is a
    /// leaf and is never read.
    pub open spec fn reads_back(self) -> bool {
        match self {
            TreeIdView::Server(_) => true,
            TreeIdView::Database(_, _) => true,
            TreeIdView::Schema(_, database, _) => !database.contains(':'),
            TreeIdView::Table(_, database, schema, _) => !database.contains(':')
                && !schema.contains(':'),
            TreeIdView::Column { .. } => false,
        }
    }
}

/// The server at the head of `node`, and what follows its colon.
pub open spec fn server_and_rest(node: Seq<char>) -> Option<(u128, Seq<char>)> {
    match split_once(node, ':') {
        Some((server, rest)) => match uuid_parsed(server) {
            Some(id) => Some((id, rest)),
            None => None,
        },
        None => None,
    }
}

/// The identifier that `text` holds: the kind of node up to the first
/// colon, then the server, then as many names as the kind asks for, the last
/// of them running to the end. Any other text holds none.
pub open spec fn parsed_tree_id(text: Seq<char>) -> Option<TreeIdView> {
    match split_once(text, ':') {
        None => None,
        Some((section, node)) => if section == "server"@ {
            match uuid_parsed(node) {
                Some(id) => Some(TreeIdView::Server(id)),
                None => None,
            }
        } else if section == "database"@ {
            match server_and_rest(node) {
                Some((id, database)) => Some(TreeIdView::Database(id, database)),
                None => None,
            }
        } else if section == "schema"@ {
            match server_and_rest(node) {
                Some((id, names)) => match split_once(names, ':') {
                    Some((database, schema)) => Some(TreeIdView::Schema(id, database, schema)),
                    None => None,
                },
                None => None,
            }
        } else if section == "table"@ {
            match server_and_rest(node) {
                Some((id, names)) => match split_once(names, ':') {
                    Some((database, below)) => match split_once(below, ':') {
                        Some((schema, table)) => Some(
                            TreeIdView::Table(id, database, schema, table),
                        ),
                        None => None,
                    },
                    None => None,
                },
                None => None,
            }
        } else {
            None
        },
    }
}

/// What is written for an identifier that can be read back is read back as
/// the same identifier, given that the server's text holds no colon and
/// reads back as the server.
pub proof fn lemma_reads_back(id: TreeIdView)
    requires
        id.reads_back(),
        match id {
            TreeIdView::Server(server) => uuid_parsed(uuid_text(server)) == Some(server),
            TreeIdView::Database(server, _) => uuid_parsed(uuid_text(server)) == Some(server)
                && !uuid_text(server).contains(':'),
            TreeIdView::Schema(server, _, _) => uuid_parsed(uuid_text(server)) == Some(server)
                && !uuid_text(server).contains(':'),
            TreeIdView::Table(server, _, _, _) => uuid_parsed(uuid_text(server)) == Some(server)
                && !uuid_text(server).contains(':'),
            TreeIdView::Column { .. } => true,
        },
    ensures
        parsed_tree_id(id.text()) == Some(id),
{
    reveal_strlit("server");
    reveal_strlit("database");
    reveal_strlit("schema");
    reveal_strlit("table");
    assert(!"server"@.contains(':'));
    assert(!"database"@.contains(':'));
    assert(!"schema"@.contains(':'));
    assert(!"table"@.contains(':'));
    assert("server"@ != "database"@ && "server"@ != "schema"@ && "server"@ != "table"@) by {
        assert("server"@.len() == 6 && "database"@.len() == 8 && "table"@.len() == 5);
        assert("server"@[1] == 'e' && "schema"@[1] == 'c');
    }
    assert("database"@ != "schema"@ && "database"@ != "table"@ && "schema"@ != "table"@) by {
        assert("schema"@.len() == 6 && "database"@.len() == 8 && "table"@.len() == 5);
    }
    match id {
        TreeIdView::Server(server) => {
            lemma_split_joined("server"@, ':', uuid_text(server));
        },
        TreeIdView::Database(server, database) => {
            lemma_split_joined("database"@, ':', colon(uuid_text(server), database));
            lemma_split_joined(uuid_text(server), ':', database);
        },
        TreeIdView::Schema(server, database, schema) => {
            lemma_split_joined("schema"@, ':', colon(uuid_text(server), colon(database, schema)));
            lemma_split_joined(uuid_text(server), ':', colon(database, schema));
            lemma_split_joined(database, ':', schema);
        },
        TreeIdView::Table(server, database, schema, table) => {
            lemma_split_joined(
                "table"@,
                ':',
                colon(uuid_text(server), colon(database, colon(schema, table))),
            );
            lemma_split_joined(uuid_text(server), ':', colon(database, colon(schema, table)));
            lemma_split_joined(database, ':', colon(schema, table));
            lemma_split_joined(schema, ':', table);
        },
        TreeIdView::Column { .. } => {},
    }
}

fn read_server(node: &str) -> (found: Option<(u128, String)>)
    ensures
        found.deep_view() == server_and_rest(node@),
{
    match split_at_mark(node, ':') {
        Some((server, rest)) => match parse_uuid(server.as_str()) {
            Some(id) => Some((id, rest)),
            None => None,
        },
        None => None,
    }
}

fn push_part(text: &mut String, part: &str)
    ensures
        final(text)@ == colon(old(text)@, part@),
{
    proof {
        reveal_strlit(":");
        assert(":"@ =~= seq![':']);
    }
    text.append(":");
    text.append(part);
}

impl BrowserTreeId {
    /// Reads an identifier.
    pub fn parse_str(s: &str) -> (id: Option<Self>)
        ensures
            match id {
                Some(found) => parsed_tree_id(s@) == Some(found@),
                None => parsed_tree_id(s@) is None,
            },
    {
        let (section, node) = match split_at_mark(s, ':') {
            Some(parts) => parts,
            None => {
                return None;
            },
        };
        if section == String::from_str("server") {
            match parse_uuid(node.as_str()) {
                Some(id) => Some(BrowserTreeId::Server(id)),
                None => None,
            }
        } else if section == String::from_str("database") {
            match read_server(node.as_str()) {
                Some((id, database)) => Some(BrowserTreeId::Database(id, database)),
                None => None,
            }
        } else if section == String::from_str("schema") {
            match read_server(node.as_str()) {
                Some((id, names)) => match split_at_mark(names.as_str(), ':') {
                    Some((database, schema)) => Some(BrowserTreeId::Schema(id, database, schema)),
                    None => None,
                },
                None => None,
            }
        } else if section == String::from_str("table") {
            match read_server(node.as_str()) {
                Some((id, names)) => match split_at_mark(names.as_str(), ':') {
                    Some((database, below)) => match split_at_mark(below.as_str(), ':') {
                        Some((schema, table)) => Some(
                            BrowserTreeId::Table(id, database, schema, table),
                        ),
                        None => None,
                    },
                    None => None,
                },
                None => None,
            }
        } else {
            None
        }
    }

    /// Writes the identifier. What is written for a node that can be read
    /// back is read back as the same node.
    pub fn to_string(&self) -> (text: String)
        ensures
            text@ == self@.text(),
            self@.reads_back() ==> parsed_tree_id(text@) == Some(self@),
    {
        let text = match self {
            BrowserTreeId::Server(id) => {
                let mut text = String::from_str("server");
                let server = format_uuid(*id);
                push_part(&mut text, server.as_str());
                text
            },
            BrowserTreeId::Database(id, database) => {
                let mut tail = format_uuid(*id);
                push_part(&mut tail, database.as_str());
                let mut text = String::from_str("database");
                push_part(&mut text, tail.as_str());
                text
            },
            BrowserTreeId::Schema(id, database, schema) => {
                let mut names = database.clone();
                push_part(&mut names, schema.as_str());
                let mut tail = format_uuid(*id);
                push_part(&mut tail, names.as_str());
                let mut text = String::from_str("schema");
                push_part(&mut text, tail.as_str());
                text
            },
            BrowserTreeId::Table(id, database, schema, table) => {
                let mut below = schema.clone();
                push_part(&mut below, table.as_str());
                let mut names = database.clone();
                push_part(&mut names, below.as_str());
                let mut tail = format_uuid(*id);
                push_part(&mut tail, names.as_str());
                let mut text = String::from_str("table");
                push_part(&mut text, tail.as_str());
                text
            },
            BrowserTreeId::Column { server_id, database, schema, table, column } => {
                let mut leaf = table.clone();
                push_part(&mut leaf, column.as_str());
                let mut below = schema.clone();
                push_part(&mut below, leaf.as_str());
                let mut names = database.clone();
                push_part(&mut names, below.as_str());
                let mut tail = format_uuid(*server_id);
                push_part(&mut tail, names.as_str());
                let mut text = String::from_str("column");
                push_part(&mut text, tail.as_str());
                text
            },
        };
        proof {
            if self@.reads_back() {
                lemma_reads_back(self@);
            }
        }
        text
    }
}

} // verus!
