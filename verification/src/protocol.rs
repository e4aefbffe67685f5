//! The messages exchanged with the connection worker, and the key under which
//! a session is registered.

use vstd::prelude::*;

verus! {

/// Name of the database that serves server-level operations.
pub const DEFAULT_MANAGEMENT_DATABASE: &'static str = "postgres";

/// Identity of a session: a database on a stored server.
#[derive(Debug, PartialEq, Eq, Hash)]
pub struct ConnectionKey {
    pub name: String,
    pub server_id: u128,
}

/// What a [`ConnectionKey`] stands for.
pub struct KeyView {
    pub name: Seq<char>,
    pub server_id: u128,
}

impl View for ConnectionKey {
    type V = KeyView;

    open spec fn view(&self) -> KeyView {
        KeyView { name: self.name@, server_id: self.server_id }
    }
}

/// The key of the management database of a server.
pub open spec fn management_key(server_id: u128) -> KeyView {
    KeyView { name: DEFAULT_MANAGEMENT_DATABASE@, server_id }
}

impl ConnectionKey {
    pub fn new(name: String, server_id: u128) -> (key: Self)
        ensures
            key@ == (KeyView { name: name@, server_id }),
    {
        ConnectionKey { name, server_id }
    }

    /// The key of the management database of `server_id`.
    pub fn management(server_id: u128) -> (key: Self)
        ensures
            key@ == management_key(server_id),
    {
        ConnectionKey { name: String::from_str(DEFAULT_MANAGEMENT_DATABASE), server_id }
    }

    /// Two keys are the same exactly when both fields agree.
    pub fn same_as(&self, other: &ConnectionKey) -> (same: bool)
        ensures
            same == (self@ == other@),
    {
        self.server_id == other.server_id && self.name == other.name
    }
}

impl Clone for ConnectionKey {
    fn clone(&self) -> (copy: Self)
        ensures
            copy@ == self@,
    {
        ConnectionKey { name: self.name.clone(), server_id: self.server_id }
    }
}

/// An operation asked of the connection worker.
///
/// The attempt count of a request starts at 0 and grows by one with every
/// automatic retry.
#[derive(Debug, PartialEq, Eq)]
pub enum DbRequest {
    ListSchemas { server_id: u128, database: String, retries: i32 },
    ListTables { server_id: u128, database: String, schema: String, retries: i32 },
    ListDatabases(u128),
    ConnectToServer(u128, String),
    ConnectToDatabase(u128, String, String),
    Execute(u128, String, String, i32),
}

/// What a [`DbRequest`] stands for.
pub enum RequestView {
    ListSchemas { server_id: u128, database: Seq<char>, retries: i32 },
    ListTables { server_id: u128, database: Seq<char>, schema: Seq<char>, retries: i32 },
    ListDatabases(u128),
    ConnectToServer(u128, Seq<char>),
    ConnectToDatabase(u128, Seq<char>, Seq<char>),
    Execute(u128, Seq<char>, Seq<char>, i32),
}

impl View for DbRequest {
    type V = RequestView;

    open spec fn view(&self) -> RequestView {
        match self {
            DbRequest::ListSchemas { server_id, database, retries } => RequestView::ListSchemas {
                server_id: *server_id,
                database: database@,
                retries: *retries,
            },
            DbRequest::ListTables { server_id, database, schema, retries } => RequestView::ListTables {
                server_id: *server_id,
                database: database@,
                schema: schema@,
                retries: *retries,
            },
            DbRequest::ListDatabases(id) => RequestView::ListDatabases(*id),
            DbRequest::ConnectToServer(id, url) => RequestView::ConnectToServer(*id, url@),
            DbRequest::ConnectToDatabase(id, name, url) => RequestView::ConnectToDatabase(
                *id,
                name@,
                url@,
            ),
            DbRequest::Execute(id, name, query, retries) => RequestView::Execute(
                *id,
                name@,
                query@,
                *retries,
            ),
        }
    }
}

impl RequestView {
    /// The server the request is about.
    pub open spec fn server_id(self) -> u128 {
        match self {
            RequestView::ListSchemas { server_id, .. } => server_id,
            RequestView::ListTables { server_id, .. } => server_id,
            RequestView::ListDatabases(id) => id,
            RequestView::ConnectToServer(id, _) => id,
            RequestView::ConnectToDatabase(id, _, _) => id,
            RequestView::Execute(id, _, _, _) => id,
        }
    }

    /// The session the request is served by: server-level requests go to the
    /// management database, the others to the database they name.
    pub open spec fn key(self) -> KeyView {
        match self {
            RequestView::ListSchemas { server_id, database, .. } => KeyView {
                name: database,
                server_id,
            },
            RequestView::ListTables { server_id, database, .. } => KeyView {
                name: database,
                server_id,
            },
            RequestView::ListDatabases(id) => management_key(id),
            RequestView::ConnectToServer(id, _) => management_key(id),
            RequestView::ConnectToDatabase(id, name, _) => KeyView { name, server_id: id },
            RequestView::Execute(id, name, _, _) => KeyView { name, server_id: id },
        }
    }

    /// Whether the request asks for a session to be opened.
    pub open spec fn is_connect(self) -> bool {
        self is ConnectToServer || self is ConnectToDatabase
    }

    /// The attempt count, for the requests that carry one.
    pub open spec fn attempts(self) -> Option<i32> {
        match self {
            RequestView::ListSchemas { retries, .. } => Some(retries),
            RequestView::ListTables { retries, .. } => Some(retries),
            RequestView::Execute(_, _, _, retries) => Some(retries),
            _ => None,
        }
    }

    /// The same request with another attempt count; requests without one are
    /// left as they are.
    pub open spec fn with_attempts(self, retries: i32) -> RequestView {
        match self {
            RequestView::ListSchemas { server_id, database, .. } => RequestView::ListSchemas {
                server_id,
                database,
                retries,
            },
            RequestView::ListTables { server_id, database, schema, .. } => RequestView::ListTables {
                server_id,
                database,
                schema,
                retries,
            },
            RequestView::Execute(id, name, query, _) => RequestView::Execute(
                id,
                name,
                query,
                retries,
            ),
            other => other,
        }
    }
}

impl DbRequest {
    pub fn server_id(&self) -> (id: u128)
        ensures
            id == self@.server_id(),
    {
        match self {
            DbRequest::ListSchemas { server_id, .. } => *server_id,
            DbRequest::ListTables { server_id, .. } => *server_id,
            DbRequest::ListDatabases(id) => *id,
            DbRequest::ConnectToServer(id, _) => *id,
            DbRequest::ConnectToDatabase(id, _, _) => *id,
            DbRequest::Execute(id, _, _, _) => *id,
        }
    }

    /// The key of the session that serves this request.
    pub fn key(&self) -> (key: ConnectionKey)
        ensures
            key@ == self@.key(),
    {
        match self {
            DbRequest::ListSchemas { server_id, database, .. } => ConnectionKey::new(
                database.clone(),
                *server_id,
            ),
            DbRequest::ListTables { server_id, database, .. } => ConnectionKey::new(
                database.clone(),
                *server_id,
            ),
            DbRequest::ListDatabases(id) => ConnectionKey::management(*id),
            DbRequest::ConnectToServer(id, _) => ConnectionKey::management(*id),
            DbRequest::ConnectToDatabase(id, name, _) => ConnectionKey::new(name.clone(), *id),
            DbRequest::Execute(id, name, _, _) => ConnectionKey::new(name.clone(), *id),
        }
    }

    pub fn is_connect(&self) -> (connect: bool)
        ensures
            connect == self@.is_connect(),
    {
        match self {
            DbRequest::ConnectToServer(_, _) => true,
            DbRequest::ConnectToDatabase(_, _, _) => true,
            _ => false,
        }
    }

    pub fn attempts(&self) -> (retries: Option<i32>)
        ensures
            retries == self@.attempts(),
    {
        match self {
            DbRequest::ListSchemas { retries, .. } => Some(*retries),
            DbRequest::ListTables { retries, .. } => Some(*retries),
            DbRequest::Execute(_, _, _, retries) => Some(*retries),
            _ => None,
        }
    }

    /// This request with `retries` as its attempt count.
    pub fn with_attempts(self, retries: i32) -> (request: DbRequest)
        ensures
            request@ == self@.with_attempts(retries),
    {
        match self {
            DbRequest::ListSchemas { server_id, database, .. } => DbRequest::ListSchemas {
                server_id,
                database,
                retries,
            },
            DbRequest::ListTables { server_id, database, schema, .. } => DbRequest::ListTables {
                server_id,
                database,
                schema,
                retries,
            },
            DbRequest::Execute(id, name, query, _) => DbRequest::Execute(id, name, query, retries),
            other => other,
        }
    }
}

impl Clone for DbRequest {
    fn clone(&self) -> (copy: Self)
        ensures
            copy@ == self@,
    {
        match self {
            DbRequest::ListSchemas { server_id, database, retries } => DbRequest::ListSchemas {
                server_id: *server_id,
                database: database.clone(),
                retries: *retries,
            },
            DbRequest::ListTables { server_id, database, schema, retries } => DbRequest::ListTables {
                server_id: *server_id,
                database: database.clone(),
                schema: schema.clone(),
                retries: *retries,
            },
            DbRequest::ListDatabases(id) => DbRequest::ListDatabases(*id),
            DbRequest::ConnectToServer(id, url) => DbRequest::ConnectToServer(*id, url.clone()),
            DbRequest::ConnectToDatabase(id, name, url) => DbRequest::ConnectToDatabase(
                *id,
                name.clone(),
                url.clone(),
            ),
            DbRequest::Execute(id, name, query, retries) => DbRequest::Execute(
                *id,
                name.clone(),
                query.clone(),
                *retries,
            ),
        }
    }
}

/// Why a request could not reach its session.
#[derive(Debug, PartialEq, Eq)]
pub enum DownConnectionReason {
    IoError(String),
    MissingConnection,
}

/// What a [`DownConnectionReason`] stands for.
pub enum ReasonView {
    IoError(Seq<char>),
    MissingConnection,
}

impl View for DownConnectionReason {
    type V = ReasonView;

    open spec fn view(&self) -> ReasonView {
        match self {
            DownConnectionReason::IoError(detail) => ReasonView::IoError(detail@),
            DownConnectionReason::MissingConnection => ReasonView::MissingConnection,
        }
    }
}

/// The worker's answer to one request.
#[derive(Debug, PartialEq, Eq)]
pub enum DbResponse {
    DatabasesListed(u128, Vec<String>),
    SchemasListed { server_id: u128, database: String, schemas: Vec<String> },
    TablesListed { server_id: u128, database: String, schema: String, tables: Vec<String> },
    Connected(u128),
    /// Column names, then the rows; each row is aligned with the column names.
    Executed(u128, Vec<String>, Vec<Vec<String>>),
    /// A failure the user has to see; the request is not retried.
    Error(u128, String),
    /// The session is gone; the request is handed back so that it can be
    /// replayed once the session is there again.
    ConnectionIsDown { original_request: DbRequest, reason: DownConnectionReason },
    /// The operation succeeded and there is nothing to report.
    NoOp,
}

/// What a [`DbResponse`] stands for.
pub enum ResponseView {
    DatabasesListed(u128, Seq<Seq<char>>),
    SchemasListed { server_id: u128, database: Seq<char>, schemas: Seq<Seq<char>> },
    TablesListed {
        server_id: u128,
        database: Seq<char>,
        schema: Seq<char>,
        tables: Seq<Seq<char>>,
    },
    Connected(u128),
    Executed(u128, Seq<Seq<char>>, Seq<Seq<Seq<char>>>),
    Error(u128, Seq<char>),
    ConnectionIsDown { original_request: RequestView, reason: ReasonView },
    NoOp,
}

impl View for DbResponse {
    type V = ResponseView;

    open spec fn view(&self) -> ResponseView {
        match self {
            DbResponse::DatabasesListed(id, names) => ResponseView::DatabasesListed(
                *id,
                names.deep_view(),
            ),
            DbResponse::SchemasListed { server_id, database, schemas } => ResponseView::SchemasListed {
                server_id: *server_id,
                database: database@,
                schemas: schemas.deep_view(),
            },
            DbResponse::TablesListed { server_id, database, schema, tables } => ResponseView::TablesListed {
                server_id: *server_id,
                database: database@,
                schema: schema@,
                tables: tables.deep_view(),
            },
            DbResponse::Connected(id) => ResponseView::Connected(*id),
            DbResponse::Executed(id, headers, rows) => ResponseView::Executed(
                *id,
                headers.deep_view(),
                rows.deep_view(),
            ),
            DbResponse::Error(id, message) => ResponseView::Error(*id, message@),
            DbResponse::ConnectionIsDown { original_request, reason } => ResponseView::ConnectionIsDown {
                original_request: original_request@,
                reason: reason@,
            },
            DbResponse::NoOp => ResponseView::NoOp,
        }
    }
}

} // verus!
