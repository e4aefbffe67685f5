//! The connection worker's decisions. The worker owns the registry and serves
//! one request at a time: it asks [`ConnectionsManager::process_request`] what
//! to do, does the driver call that the answer names, and hands the result to
//! [`ConnectionsManager::complete`], which gives the response and updates the
//! registry.

use crate::failure::{repeat_view, DriverFailure, FailureView};
use crate::protocol::{management_key, ConnectionKey, DbRequest, DbResponse, DownConnectionReason, KeyView, ReasonView, RequestView, ResponseView};
use crate::registry::{Connection, SessionRegistry};
use vstd::prelude::*;

verus! {

/// What the worker has to do for a request.
#[derive(Debug, PartialEq, Eq)]
pub enum Command {
    /// Answer at once, without any driver call.
    Reply(DbResponse),
    /// Open a session to database `key.name` at `url`.
    Connect { key: ConnectionKey, url: String },
    /// List the databases over the session under `key`.
    ListDatabases { key: ConnectionKey },
    /// List the schemas over the session under `key`.
    ListSchemas { key: ConnectionKey },
    /// List the tables of `schema` over the session under `key`.
    ListTables { key: ConnectionKey, schema: String },
    /// Run `query` over the session under `key`.
    Execute { key: ConnectionKey, query: String },
}

/// What a [`Command`] stands for.
pub enum CommandView {
    Reply(ResponseView),
    Connect { key: KeyView, url: Seq<char> },
    ListDatabases { key: KeyView },
    ListSchemas { key: KeyView },
    ListTables { key: KeyView, schema: Seq<char> },
    Execute { key: KeyView, query: Seq<char> },
}

impl View for Command {
    type V = CommandView;

    open spec fn view(&self) -> CommandView {
        match self {
            Command::Reply(response) => CommandView::Reply(response@),
            Command::Connect { key, url } => CommandView::Connect { key: key@, url: url@ },
            Command::ListDatabases { key } => CommandView::ListDatabases { key: key@ },
            Command::ListSchemas { key } => CommandView::ListSchemas { key: key@ },
            Command::ListTables { key, schema } => CommandView::ListTables {
                key: key@,
                schema: schema@,
            },
            Command::Execute { key, query } => CommandView::Execute { key: key@, query: query@ },
        }
    }
}

/// The answer to a request whose session is not registered.
pub open spec fn missing_connection(request: RequestView) -> ResponseView {
    ResponseView::ConnectionIsDown {
        original_request: request,
        reason: ReasonView::MissingConnection,
    }
}

/// What the worker has to do for `request`, given whether the session that
/// serves it is registered.
///
/// A connect request for a registered session is answered at once and opens
/// nothing. Every other request needs its session: without it the request is
/// handed back unchanged, and no driver call is made.
pub open spec fn command_for(registered: bool, request: RequestView) -> CommandView {
    match request {
        RequestView::ConnectToServer(id, url) => if registered {
            CommandView::Reply(ResponseView::Connected(id))
        } else {
            CommandView::Connect { key: request.key(), url }
        },
        RequestView::ConnectToDatabase(_, _, url) => if registered {
            CommandView::Reply(ResponseView::NoOp)
        } else {
            CommandView::Connect { key: request.key(), url }
        },
        _ => if !registered {
            CommandView::Reply(missing_connection(request))
        } else {
            match request {
                RequestView::ListDatabases(_) => CommandView::ListDatabases { key: request.key() },
                RequestView::ListSchemas { .. } => CommandView::ListSchemas { key: request.key() },
                RequestView::ListTables { schema, .. } => CommandView::ListTables {
                    key: request.key(),
                    schema,
                },
                RequestView::Execute(_, _, query, _) => CommandView::Execute {
                    key: request.key(),
                    query,
                },
                _ => CommandView::Reply(missing_connection(request)),
            }
        },
    }
}

/// What a driver call that succeeded came back with.
pub enum Outcome<H> {
    /// A session was opened; holds the driver's handle for it.
    Connected(H),
    /// The names that a listing gave.
    Listed(Vec<String>),
    /// The column names and the rows that a query gave.
    Executed(Vec<String>, Vec<Vec<String>>),
}

/// What an [`Outcome`] stands for.
pub enum OutcomeView<H> {
    Connected(H),
    Listed(Seq<Seq<char>>),
    Executed(Seq<Seq<char>>, Seq<Seq<Seq<char>>>),
}

impl<H> View for Outcome<H> {
    type V = OutcomeView<H>;

    open spec fn view(&self) -> OutcomeView<H> {
        match self {
            Outcome::Connected(handle) => OutcomeView::Connected(*handle),
            Outcome::Listed(names) => OutcomeView::Listed(names.deep_view()),
            Outcome::Executed(headers, rows) => OutcomeView::Executed(
                headers.deep_view(),
                rows.deep_view(),
            ),
        }
    }
}

/// The message for an outcome that does not belong to the request.
pub open spec fn unexpected_outcome() -> Seq<char> {
    "unexpected outcome"@
}

/// The answer to `request` after its driver call succeeded with `outcome`.
/// An outcome of another kind than the request asks for is answered with an
/// error.
pub open spec fn success_response<H>(request: RequestView, outcome: OutcomeView<H>) -> ResponseView {
    match (request, outcome) {
        (RequestView::ConnectToServer(id, _), OutcomeView::Connected(_)) => ResponseView::Connected(
            id,
        ),
        (RequestView::ConnectToDatabase(_, _, _), OutcomeView::Connected(_)) => ResponseView::NoOp,
        (RequestView::ListDatabases(id), OutcomeView::Listed(names)) => ResponseView::DatabasesListed(
            id,
            names,
        ),
        (
            RequestView::ListSchemas { server_id, database, .. },
            OutcomeView::Listed(names),
        ) => ResponseView::SchemasListed { server_id, database, schemas: names },
        (
            RequestView::ListTables { server_id, database, schema, .. },
            OutcomeView::Listed(names),
        ) => ResponseView::TablesListed { server_id, database, schema, tables: names },
        (RequestView::Execute(id, _, _, _), OutcomeView::Executed(headers, rows)) => ResponseView::Executed(
            id,
            headers,
            rows,
        ),
        _ => ResponseView::Error(request.server_id(), unexpected_outcome()),
    }
}

/// The URL that a connect request gives.
pub open spec fn connect_url(request: RequestView) -> Seq<char> {
    match request {
        RequestView::ConnectToServer(_, url) => url,
        RequestView::ConnectToDatabase(_, _, url) => url,
        _ => Seq::empty(),
    }
}

/// Whether `after` is `before` with one more session, under `key`, opened
/// with `url` and holding `handle`; a key that had a session keeps it.
pub open spec fn opened<H>(
    before: Map<KeyView, Connection<H>>,
    after: Map<KeyView, Connection<H>>,
    key: KeyView,
    url: Seq<char>,
    handle: H,
) -> bool {
    if before.contains_key(key) {
        after == before
    } else {
        &&& after.dom() == before.dom().insert(key)
        &&& forall|other: KeyView| #[trigger]
            before.contains_key(other) ==> after[other] == before[other]
        &&& after[key].name@ == key.name
        &&& after[key].url@ == url
        &&& after[key].internal == handle
    }
}

/// The request to hand back when a transport failure costs the session:
/// every request but a connect request can be replayed.
pub open spec fn replay_of(request: RequestView) -> Option<RequestView> {
    if request.is_connect() {
        None
    } else {
        Some(request)
    }
}

/// Whether `response` and the registry `after` are what the end of the
/// driver call for `request` asks for.
pub open spec fn settled<H>(
    before: Map<KeyView, Connection<H>>,
    after: Map<KeyView, Connection<H>>,
    request: RequestView,
    result: Result<Outcome<H>, DriverFailure>,
    response: ResponseView,
) -> bool {
    match result {
        Ok(outcome) => {
            &&& response == success_response(request, outcome@)
            &&& if request.is_connect() && outcome@ is Connected {
                opened(before, after, request.key(), connect_url(request), outcome@->Connected_0)
            } else {
                after == before
            }
        },
        Err(failure) => {
            &&& response == failure@.response(request.server_id(), replay_of(request))
            &&& after == if failure@.evicts(replay_of(request)) {
                before.remove(request.key())
            } else {
                before
            }
        },
    }
}

/// The state of the connection worker: the registry of open sessions.
pub struct ConnectionsManager<H> {
    pub connections: SessionRegistry<H>,
}

impl<H> ConnectionsManager<H> {
    /// The registry is well formed.
    pub open spec fn wf(&self) -> bool {
        self.connections.wf()
    }

    /// A manager without sessions.
    pub fn new() -> (manager: Self)
        ensures
            manager.wf(),
            manager.connections@ == Map::<KeyView, Connection<H>>::empty(),
    {
        ConnectionsManager { connections: SessionRegistry::new() }
    }

    /// Decides what to do for `request`; the registry is only read.
    pub fn process_request(&self, request: &DbRequest) -> (command: Command)
        requires
            self.wf(),
        ensures
            command@ == command_for(self.connections@.contains_key(request@.key()), request@),
    {
        let key = request.key();
        let registered = self.connections.contains_key(&key);
        match request {
            DbRequest::ConnectToServer(id, url) => {
                if registered {
                    Command::Reply(DbResponse::Connected(*id))
                } else {
                    Command::Connect { key, url: url.clone() }
                }
            },
            DbRequest::ConnectToDatabase(_, _, url) => {
                if registered {
                    Command::Reply(DbResponse::NoOp)
                } else {
                    Command::Connect { key, url: url.clone() }
                }
            },
            DbRequest::ListDatabases(_) => {
                if registered {
                    Command::ListDatabases { key }
                } else {
                    Command::Reply(Self::missing(request))
                }
            },
            DbRequest::ListSchemas { .. } => {
                if registered {
                    Command::ListSchemas { key }
                } else {
                    Command::Reply(Self::missing(request))
                }
            },
            DbRequest::ListTables { schema, .. } => {
                if registered {
                    Command::ListTables { key, schema: schema.clone() }
                } else {
                    Command::Reply(Self::missing(request))
                }
            },
            DbRequest::Execute(_, _, query, _) => {
                if registered {
                    Command::Execute { key, query: query.clone() }
                } else {
                    Command::Reply(Self::missing(request))
                }
            },
        }
    }

    /// Answers a failed driver call for the session under `key`.
    ///
    /// A statement that the server rejected leaves the session in place, and
    /// so does an error of no known class. A transport failure of a request
    /// that can be replayed removes the session and hands the request back.
    pub fn process_db_error(
        &mut self,
        key: &ConnectionKey,
        failure: DriverFailure,
        id: u128,
        repeat: Option<DbRequest>,
    ) -> (response: DbResponse)
        requires
            old(self).wf(),
        ensures
            final(self).wf(),
            response@ == failure@.response(id, repeat_view(repeat)),
            final(self).connections@ == if failure@.evicts(repeat_view(repeat)) {
                old(self).connections@.remove(key@)
            } else {
                old(self).connections@
            },
    {
        if failure.evicts(&repeat) {
            let _ = self.connections.evict(key);
        }
        failure.into_response(id, repeat)
    }

    /// Gives the response to `request` once its driver call has ended, and
    /// brings the registry up to date.
    ///
    /// A session that was opened is registered under the request's key. A
    /// failure is answered as [`FailureView::response`] says; a connect
    /// request is never handed back, since it had no session to lose.
    pub fn complete(
        &mut self,
        request: DbRequest,
        result: Result<Outcome<H>, DriverFailure>,
    ) -> (response: DbResponse)
        requires
            old(self).wf(),
        ensures
            final(self).wf(),
            settled(old(self).connections@, final(self).connections@, request@, result, response@),
    {
        let key = request.key();
        let id = request.server_id();
        match result {
            Err(failure) => {
                let repeat = if request.is_connect() {
                    None
                } else {
                    Some(request)
                };
                self.process_db_error(&key, failure, id, repeat)
            },
            Ok(outcome) => match (request, outcome) {
                (DbRequest::ConnectToServer(id, url), Outcome::Connected(handle)) => {
                    self.open(key, url, handle);
                    DbResponse::Connected(id)
                },
                (DbRequest::ConnectToDatabase(_, _, url), Outcome::Connected(handle)) => {
                    self.open(key, url, handle);
                    DbResponse::NoOp
                },
                (DbRequest::ListDatabases(id), Outcome::Listed(names)) => DbResponse::DatabasesListed(
                    id,
                    names,
                ),
                (
                    DbRequest::ListSchemas { server_id, database, .. },
                    Outcome::Listed(names),
                ) => DbResponse::SchemasListed { server_id, database, schemas: names },
                (
                    DbRequest::ListTables { server_id, database, schema, .. },
                    Outcome::Listed(names),
                ) => DbResponse::TablesListed { server_id, database, schema, tables: names },
                (DbRequest::Execute(id, _, _, _), Outcome::Executed(headers, rows)) => DbResponse::Executed(
                    id,
                    headers,
                    rows,
                ),
                _ => DbResponse::Error(id, String::from_str("unexpected outcome")),
            },
        }
    }

    /// Registers a session that the driver opened, unless the key has one.
    fn open(&mut self, key: ConnectionKey, url: String, handle: H)
        requires
            old(self).wf(),
        ensures
            final(self).wf(),
            opened(old(self).connections@, final(self).connections@, key@, url@, handle),
    {
        let session = Connection { name: key.name.clone(), url, internal: handle };
        let _ = self.connections.register(key, session);
    }

    fn missing(request: &DbRequest) -> (response: DbResponse)
        ensures
            response@ == missing_connection(request@),
    {
        DbResponse::ConnectionIsDown {
            original_request: request.clone(),
            reason: DownConnectionReason::MissingConnection,
        }
    }
}

/// Connecting twice is connecting once: after a connect that succeeded, the
/// response is `Connected`, the same request is answered `Connected` at
/// once and opens nothing, and the registry holds what it held before and
/// one session for the key.
pub proof fn law_connect_is_idempotent<H>(
    before: Map<KeyView, Connection<H>>,
    after: Map<KeyView, Connection<H>>,
    id: u128,
    url: Seq<char>,
    handle: H,
    response: ResponseView,
)
    requires
        settled(
            before,
            after,
            RequestView::ConnectToServer(id, url),
            Ok(Outcome::Connected(handle)),
            response,
        ),
    ensures
        response == ResponseView::Connected(id),
        after.dom() == before.dom().insert(management_key(id)),
        command_for(
            after.contains_key(management_key(id)),
            RequestView::ConnectToServer(id, url),
        ) == CommandView::Reply(ResponseView::Connected(id)),
{
    let key = management_key(id);
    if before.contains_key(key) {
        assert(before.dom().insert(key) =~= before.dom());
    }
}

/// Keys are kept apart: settling a request leaves every session under
/// another key than the request's own as it was, present or absent.
pub proof fn law_keys_are_isolated<H>(
    before: Map<KeyView, Connection<H>>,
    after: Map<KeyView, Connection<H>>,
    request: RequestView,
    result: Result<Outcome<H>, DriverFailure>,
    response: ResponseView,
    other: KeyView,
)
    requires
        settled(before, after, request, result, response),
        other != request.key(),
    ensures
        after.contains_key(other) == before.contains_key(other),
        before.contains_key(other) ==> after[other] == before[other],
{
    let key = request.key();
    match result {
        Ok(outcome) => {
            if request.is_connect() && outcome@ is Connected && !before.contains_key(key) {
                assert(after.dom().contains(other) == before.dom().insert(key).contains(other));
            }
        },
        Err(failure) => {},
    }
}

/// A transport failure costs the session: once a request that can be
/// replayed has failed so, the request is handed back with the reason, and
/// the next request for the same session finds it missing, with no driver
/// call made.
pub proof fn law_transport_failure_evicts<H>(
    before: Map<KeyView, Connection<H>>,
    after: Map<KeyView, Connection<H>>,
    request: RequestView,
    failure: DriverFailure,
    response: ResponseView,
    next: RequestView,
)
    requires
        settled(before, after, request, Err(failure), response),
        failure@ is Io,
        !request.is_connect(),
        !next.is_connect(),
        next.key() == request.key(),
    ensures
        response matches ResponseView::ConnectionIsDown { original_request, reason }
            && original_request == request && reason is IoError,
        !after.contains_key(request.key()),
        command_for(after.contains_key(next.key()), next) == CommandView::Reply(
            missing_connection(next),
        ),
{
}

/// A rejected statement costs nothing: the response is an `Error` with the
/// server's message, the registry is as it was, and a query that follows on
/// the same session goes to the driver without a reconnect.
pub proof fn law_rejected_statement_keeps_session<H>(
    before: Map<KeyView, Connection<H>>,
    after: Map<KeyView, Connection<H>>,
    request: RequestView,
    failure: DriverFailure,
    response: ResponseView,
    id: u128,
    database: Seq<char>,
    query: Seq<char>,
    retries: i32,
)
    requires
        settled(before, after, request, Err(failure), response),
        failure@ is Database,
        before.contains_key(request.key()),
        (KeyView { name: database, server_id: id }) == request.key(),
    ensures
        response == ResponseView::Error(request.server_id(), failure@->Database_0),
        after == before,
        command_for(
            after.contains_key(request.key()),
            RequestView::Execute(id, database, query, retries),
        ) == (CommandView::Execute { key: request.key(), query }),
{
}

/// The server that a response is about; only the response that has nothing
/// to report names none.
pub open spec fn answered_server(response: ResponseView) -> Option<u128> {
    match response {
        ResponseView::DatabasesListed(id, _) => Some(id),
        ResponseView::SchemasListed { server_id, .. } => Some(server_id),
        ResponseView::TablesListed { server_id, .. } => Some(server_id),
        ResponseView::Connected(id) => Some(id),
        ResponseView::Executed(id, _, _) => Some(id),
        ResponseView::Error(id, _) => Some(id),
        ResponseView::ConnectionIsDown { original_request, .. } => Some(
            original_request.server_id(),
        ),
        ResponseView::NoOp => None,
    }
}

/// Every response can be matched with its request: a response that names a
/// server names the server of the request, whether it was given at once or
/// after the driver call, and a listing names the database and the schema
/// that the request named.
pub proof fn law_response_is_correlated<H>(
    before: Map<KeyView, Connection<H>>,
    after: Map<KeyView, Connection<H>>,
    request: RequestView,
    result: Result<Outcome<H>, DriverFailure>,
    response: ResponseView,
    registered: bool,
)
    requires
        settled(before, after, request, result, response) || command_for(registered, request)
            == CommandView::Reply(response),
    ensures
        answered_server(response) matches Some(id) ==> id == request.server_id(),
        response matches ResponseView::SchemasListed { database, .. } ==> request
            matches RequestView::ListSchemas { database: asked, .. } && asked == database,
        response matches ResponseView::TablesListed { database, schema, .. } ==> request
            matches RequestView::ListTables { database: asked, schema: below, .. } && asked
            == database && below == schema,
        response matches ResponseView::ConnectionIsDown { original_request, .. }
            ==> original_request == request,
{
}

} // verus!
