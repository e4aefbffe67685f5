//! Server identifiers as text, and the identity of an editor.

use crate::text::{lemma_split_joined, lemma_find, find, split_at_mark, split_once};
use vstd::prelude::*;

verus! {

/// The text that `uuid` writes for the identifier `id`: its `Display` form.
pub uninterp spec fn uuid_text(id: u128) -> Seq<char>;

/// The identifier that `uuid` reads from `text`, if it reads one.
pub uninterp spec fn uuid_parsed(text: Seq<char>) -> Option<u128>;

/// Calls `Display` of `uuid::Uuid`, which writes the hyphenated form in
/// lower case: 32 hexadecimal digits in five groups with hyphens between
/// them. The claims: the text is the named one, it holds no colon, and
/// `Uuid::parse_str`, which reads every form that the crate writes, reads
/// the same identifier back from it.
#[verifier::external_body]
pub(crate) fn format_uuid(id: u128) -> (text: String)
    ensures
        text@ == uuid_text(id),
        !text@.contains(':'),
        uuid_parsed(text@) == Some(id),
{
    uuid::Uuid::from_u128(id).to_string()
}

/// Calls `uuid::Uuid::parse_str`; an error becomes `None`. The claim: the
/// result is the named one.
#[verifier::external_body]
pub(crate) fn parse_uuid(text: &str) -> (id: Option<u128>)
    ensures
        id == uuid_parsed(text@),
{
    uuid::Uuid::parse_str(text).ok().map(|parsed| parsed.as_u128())
}

/// The identity of a query editor: a database on a stored server.
#[derive(Debug, PartialEq, Eq, Hash)]
pub struct EditorId {
    pub server_id: u128,
    pub database: String,
}

/// What an [`EditorId`] stands for.
pub struct EditorIdView {
    pub server_id: u128,
    pub database: Seq<char>,
}

impl View for EditorId {
    type V = EditorIdView;

    open spec fn view(&self) -> EditorIdView {
        EditorIdView { server_id: self.server_id, database: self.database@ }
    }
}

impl EditorId {
    pub fn new(server_id: u128, database: String) -> (id: Self)
        ensures
            id@ == (EditorIdView { server_id, database: database@ }),
    {
        EditorId { server_id, database }
    }

    /// Two editors are the same exactly when both fields agree.
    pub fn same_as(&self, other: &EditorId) -> (same: bool)
        ensures
            same == (self@ == other@),
    {
        self.server_id == other.server_id && self.database == other.database
    }
}

impl Clone for EditorId {
    fn clone(&self) -> (copy: Self)
        ensures
            copy@ == self@,
    {
        EditorId { server_id: self.server_id, database: self.database.clone() }
    }
}

/// The key under which an editor's text is stored: the server, a colon, and
/// the database.
#[derive(Debug, PartialEq, Eq)]
pub struct StoredEditorId {
    pub server_id: u128,
    pub database: String,
    pub encoded: String,
}

/// The text of the key of an editor.
pub open spec fn editor_key(server_id: u128, database: Seq<char>) -> Seq<char> {
    uuid_text(server_id) + seq![':'] + database
}

/// The text up to the first colon, or all of it where it holds none.
pub open spec fn first_part(text: Seq<char>) -> Seq<char> {
    match split_once(text, ':') {
        Some((head, _)) => head,
        None => text,
    }
}

/// The editor that a key names: the server before the first colon, and the
/// database after it, up to the next colon if there is one.
pub open spec fn parsed_editor_key(text: Seq<char>) -> Option<EditorIdView> {
    match split_once(text, ':') {
        Some((server, rest)) => match uuid_parsed(server) {
            Some(server_id) => Some(EditorIdView { server_id, database: first_part(rest) }),
            None => None,
        },
        None => None,
    }
}

impl StoredEditorId {
    /// The text of the key.
    pub open spec fn key(&self) -> Seq<char> {
        self.encoded@
    }

    /// The key of the editor of `database` on the server `server_id`. A key
    /// whose database holds no colon reads back as the same editor.
    pub fn new_editor_id(server_id: u128, database: String) -> (id: Self)
        ensures
            id.server_id == server_id,
            id.database@ == database@,
            id.key() == editor_key(server_id, database@),
            !database@.contains(':') ==> parsed_editor_key(id.key()) == Some(
                EditorIdView { server_id, database: database@ },
            ),
    {
        let mut encoded = format_uuid(server_id);
        proof {
            reveal_strlit(":");
            assert(":"@ =~= seq![':']);
            lemma_split_joined(uuid_text(server_id), ':', database@);
            if !database@.contains(':') {
                lemma_find(database@, ':');
                if find(database@, ':') is Some {
                    let place = find(database@, ':').unwrap();
                    assert(database@.contains(database@[place]));
                }
            }
        }
        encoded.append(":");
        encoded.append(database.as_str());
        StoredEditorId { server_id, database, encoded }
    }

    /// Reads a key.
    pub fn from_raw_key(raw: &str) -> (id: Option<Self>)
        ensures
            match id {
                Some(found) => parsed_editor_key(raw@) == Some(
                    EditorIdView { server_id: found.server_id, database: found.database@ },
                ) && found.key() == raw@,
                None => parsed_editor_key(raw@) is None,
            },
    {
        match split_at_mark(raw, ':') {
            Some((server, rest)) => match parse_uuid(server.as_str()) {
                Some(server_id) => {
                    let database = match split_at_mark(rest.as_str(), ':') {
                        Some((head, _)) => head,
                        None => rest,
                    };
                    Some(StoredEditorId { server_id, database, encoded: String::from_str(raw) })
                },
                None => None,
            },
            None => None,
        }
    }
}

} // verus!
