use tisq::failure::DriverFailure;
use tisq::manager::{Command, ConnectionsManager, Outcome};
use tisq::protocol::{ConnectionKey, DbRequest, DbResponse, DownConnectionReason};

const SERVER_A: u128 = 0xA;
const SERVER_B: u128 = 0xB;

fn url() -> String {
    "postgres://user@localhost/".to_string()
}

fn connect(manager: &mut ConnectionsManager<u32>, request: DbRequest, handle: u32) -> DbResponse {
    match manager.process_request(&request) {
        Command::Reply(response) => response,
        Command::Connect { .. } => manager.complete(request, Ok(Outcome::Connected(handle))),
        other => panic!("unexpected command {:?}", other),
    }
}

#[test]
fn connect_twice_keeps_one_session() {
    let mut manager: ConnectionsManager<u32> = ConnectionsManager::new();
    let first = connect(&mut manager, DbRequest::ConnectToServer(SERVER_A, url()), 1);
    assert_eq!(first, DbResponse::Connected(SERVER_A));
    let second = connect(&mut manager, DbRequest::ConnectToServer(SERVER_A, url()), 2);
    assert_eq!(second, DbResponse::Connected(SERVER_A));
    let key = ConnectionKey::management(SERVER_A);
    let session = manager.connections.lookup(&key).expect("session is registered");
    assert_eq!(session.internal, 1);
    assert_eq!(session.name, "postgres");
    assert_eq!(session.url, url());
    assert!(manager.connections.evict(&key).is_some());
    assert!(manager.connections.evict(&key).is_none());
}

#[test]
fn second_connect_needs_no_driver_call() {
    let mut manager: ConnectionsManager<u32> = ConnectionsManager::new();
    let request = DbRequest::ConnectToServer(SERVER_A, url());
    assert_eq!(
        manager.process_request(&request),
        Command::Connect { key: ConnectionKey::management(SERVER_A), url: url() }
    );
    manager.complete(request.clone(), Ok(Outcome::Connected(7)));
    assert_eq!(manager.process_request(&request), Command::Reply(DbResponse::Connected(SERVER_A)));
}

#[test]
fn connect_to_database_answers_no_op() {
    let mut manager: ConnectionsManager<u32> = ConnectionsManager::new();
    let request = DbRequest::ConnectToDatabase(SERVER_A, "shop".to_string(), url());
    assert_eq!(
        manager.process_request(&request),
        Command::Connect { key: ConnectionKey::new("shop".to_string(), SERVER_A), url: url() }
    );
    assert_eq!(manager.complete(request.clone(), Ok(Outcome::Connected(3))), DbResponse::NoOp);
    assert_eq!(manager.process_request(&request), Command::Reply(DbResponse::NoOp));
}

#[test]
fn keys_are_isolated() {
    let mut manager: ConnectionsManager<u32> = ConnectionsManager::new();
    connect(&mut manager, DbRequest::ConnectToDatabase(SERVER_A, "x".to_string(), url()), 1);
    assert!(manager.connections.contains_key(&ConnectionKey::new("x".to_string(), SERVER_A)));
    assert!(!manager.connections.contains_key(&ConnectionKey::new("y".to_string(), SERVER_A)));
    assert!(!manager.connections.contains_key(&ConnectionKey::new("x".to_string(), SERVER_B)));
    assert!(!manager.connections.contains_key(&ConnectionKey::management(SERVER_A)));
    let other = DbRequest::Execute(SERVER_B, "x".to_string(), "select 1".to_string(), 0);
    assert_eq!(
        manager.process_request(&other),
        Command::Reply(DbResponse::ConnectionIsDown {
            original_request: other.clone(),
            reason: DownConnectionReason::MissingConnection,
        })
    );
    connect(&mut manager, DbRequest::ConnectToDatabase(SERVER_B, "x".to_string(), url()), 2);
    let a = manager.connections.lookup(&ConnectionKey::new("x".to_string(), SERVER_A)).unwrap();
    assert_eq!(a.internal, 1);
    let b = manager.connections.lookup(&ConnectionKey::new("x".to_string(), SERVER_B)).unwrap();
    assert_eq!(b.internal, 2);
}

#[test]
fn requests_without_session_are_handed_back() {
    let manager: ConnectionsManager<u32> = ConnectionsManager::new();
    let requests = vec![
        DbRequest::ListDatabases(SERVER_A),
        DbRequest::ListSchemas { server_id: SERVER_A, database: "shop".to_string(), retries: 0 },
        DbRequest::ListTables {
            server_id: SERVER_A,
            database: "shop".to_string(),
            schema: "public".to_string(),
            retries: 2,
        },
        DbRequest::Execute(SERVER_A, "shop".to_string(), "select 1".to_string(), 1),
    ];
    for request in requests {
        assert_eq!(
            manager.process_request(&request),
            Command::Reply(DbResponse::ConnectionIsDown {
                original_request: request.clone(),
                reason: DownConnectionReason::MissingConnection,
            })
        );
    }
}

#[test]
fn requests_with_session_go_to_the_driver() {
    let mut manager: ConnectionsManager<u32> = ConnectionsManager::new();
    connect(&mut manager, DbRequest::ConnectToServer(SERVER_A, url()), 1);
    connect(&mut manager, DbRequest::ConnectToDatabase(SERVER_A, "shop".to_string(), url()), 2);
    let shop = ConnectionKey::new("shop".to_string(), SERVER_A);
    assert_eq!(
        manager.process_request(&DbRequest::ListDatabases(SERVER_A)),
        Command::ListDatabases { key: ConnectionKey::management(SERVER_A) }
    );
    assert_eq!(
        manager.process_request(&DbRequest::ListSchemas {
            server_id: SERVER_A,
            database: "shop".to_string(),
            retries: 0
        }),
        Command::ListSchemas { key: shop.clone() }
    );
    assert_eq!(
        manager.process_request(&DbRequest::ListTables {
            server_id: SERVER_A,
            database: "shop".to_string(),
            schema: "public".to_string(),
            retries: 0
        }),
        Command::ListTables { key: shop.clone(), schema: "public".to_string() }
    );
    assert_eq!(
        manager.process_request(&DbRequest::Execute(
            SERVER_A,
            "shop".to_string(),
            "select 1".to_string(),
            0
        )),
        Command::Execute { key: shop, query: "select 1".to_string() }
    );
}

#[test]
fn successful_outcomes_become_responses() {
    let mut manager: ConnectionsManager<u32> = ConnectionsManager::new();
    let names = vec!["a".to_string(), "b".to_string()];
    assert_eq!(
        manager.complete(DbRequest::ListDatabases(SERVER_A), Ok(Outcome::Listed(names.clone()))),
        DbResponse::DatabasesListed(SERVER_A, names.clone())
    );
    assert_eq!(
        manager.complete(
            DbRequest::ListSchemas { server_id: SERVER_A, database: "shop".to_string(), retries: 1 },
            Ok(Outcome::Listed(names.clone()))
        ),
        DbResponse::SchemasListed {
            server_id: SERVER_A,
            database: "shop".to_string(),
            schemas: names.clone()
        }
    );
    assert_eq!(
        manager.complete(
            DbRequest::ListTables {
                server_id: SERVER_A,
                database: "shop".to_string(),
                schema: "public".to_string(),
                retries: 0
            },
            Ok(Outcome::Listed(names.clone()))
        ),
        DbResponse::TablesListed {
            server_id: SERVER_A,
            database: "shop".to_string(),
            schema: "public".to_string(),
            tables: names.clone()
        }
    );
    let rows = vec![vec!["1".to_string(), "x".to_string()]];
    assert_eq!(
        manager.complete(
            DbRequest::Execute(SERVER_A, "shop".to_string(), "select".to_string(), 0),
            Ok(Outcome::Executed(names.clone(), rows.clone()))
        ),
        DbResponse::Executed(SERVER_A, names.clone(), rows)
    );
    assert_eq!(
        manager.complete(DbRequest::ListDatabases(SERVER_A), Ok(Outcome::Connected(9))),
        DbResponse::Error(SERVER_A, "unexpected outcome".to_string())
    );
    assert!(!manager.connections.contains_key(&ConnectionKey::management(SERVER_A)));
}

#[test]
fn transport_failure_evicts_the_session() {
    let mut manager: ConnectionsManager<u32> = ConnectionsManager::new();
    connect(&mut manager, DbRequest::ConnectToDatabase(SERVER_A, "shop".to_string(), url()), 1);
    let request = DbRequest::Execute(SERVER_A, "shop".to_string(), "select 1".to_string(), 2);
    let response =
        manager.complete(request.clone(), Err(DriverFailure::Io {
            detail: "broken pipe".to_string(),
            account: "Io(broken pipe)".to_string(),
        }));
    assert_eq!(
        response,
        DbResponse::ConnectionIsDown {
            original_request: request.clone(),
            reason: DownConnectionReason::IoError("IO Error: broken pipe".to_string()),
        }
    );
    assert!(!manager.connections.contains_key(&ConnectionKey::new("shop".to_string(), SERVER_A)));
    assert_eq!(
        manager.process_request(&request),
        Command::Reply(DbResponse::ConnectionIsDown {
            original_request: request,
            reason: DownConnectionReason::MissingConnection,
        })
    );
}

#[test]
fn rejected_statement_keeps_the_session() {
    let mut manager: ConnectionsManager<u32> = ConnectionsManager::new();
    connect(&mut manager, DbRequest::ConnectToDatabase(SERVER_A, "shop".to_string(), url()), 1);
    let bad = DbRequest::Execute(SERVER_A, "shop".to_string(), "selec 1".to_string(), 0);
    let response = manager
        .complete(bad, Err(DriverFailure::Database("syntax error at or near \"selec\"".to_string())));
    assert_eq!(
        response,
        DbResponse::Error(SERVER_A, "syntax error at or near \"selec\"".to_string())
    );
    let good = DbRequest::Execute(SERVER_A, "shop".to_string(), "select 1".to_string(), 0);
    assert_eq!(
        manager.process_request(&good),
        Command::Execute {
            key: ConnectionKey::new("shop".to_string(), SERVER_A),
            query: "select 1".to_string()
        }
    );
    let done = manager.complete(
        good,
        Ok(Outcome::Executed(vec!["?column?".to_string()], vec![vec!["1".to_string()]])),
    );
    assert_eq!(
        done,
        DbResponse::Executed(SERVER_A, vec!["?column?".to_string()], vec![vec!["1".to_string()]])
    );
}

#[test]
fn unknown_failure_keeps_the_session() {
    let mut manager: ConnectionsManager<u32> = ConnectionsManager::new();
    connect(&mut manager, DbRequest::ConnectToServer(SERVER_A, url()), 1);
    let response = manager
        .complete(DbRequest::ListDatabases(SERVER_A), Err(DriverFailure::Other("RowNotFound".to_string())));
    assert_eq!(response, DbResponse::Error(SERVER_A, "unknown db error: RowNotFound".to_string()));
    assert!(manager.connections.contains_key(&ConnectionKey::management(SERVER_A)));
}

#[test]
fn connect_failure_is_an_error_never_a_lost_session() {
    let mut manager: ConnectionsManager<u32> = ConnectionsManager::new();
    let response = manager.complete(
        DbRequest::ConnectToServer(SERVER_A, url()),
        Err(DriverFailure::Io {
            detail: "refused".to_string(),
            account: "Io(refused)".to_string(),
        }),
    );
    assert_eq!(response, DbResponse::Error(SERVER_A, "unknown db error: Io(refused)".to_string()));
    let response = manager.complete(
        DbRequest::ConnectToDatabase(SERVER_A, "shop".to_string(), url()),
        Err(DriverFailure::Database("database \"shop\" does not exist".to_string())),
    );
    assert_eq!(
        response,
        DbResponse::Error(SERVER_A, "database \"shop\" does not exist".to_string())
    );
    assert!(!manager.connections.contains_key(&ConnectionKey::management(SERVER_A)));
}

#[test]
fn error_answer_follows_the_class_and_the_replay() {
    let mut manager: ConnectionsManager<u32> = ConnectionsManager::new();
    connect(&mut manager, DbRequest::ConnectToServer(SERVER_A, url()), 1);
    let key = ConnectionKey::management(SERVER_A);
    let response = manager.process_db_error(
        &key,
        DriverFailure::Other("RowNotFound".to_string()),
        SERVER_A,
        Some(DbRequest::ListDatabases(SERVER_A)),
    );
    assert_eq!(response, DbResponse::Error(SERVER_A, "unknown db error: RowNotFound".to_string()));
    assert!(manager.connections.contains_key(&key));
    let response = manager.process_db_error(
        &key,
        DriverFailure::Io { detail: "reset".to_string(), account: "Io(reset)".to_string() },
        SERVER_A,
        None,
    );
    assert_eq!(response, DbResponse::Error(SERVER_A, "unknown db error: Io(reset)".to_string()));
    assert!(manager.connections.contains_key(&key));
    let response = manager.process_db_error(
        &key,
        DriverFailure::Database("permission denied".to_string()),
        SERVER_A,
        Some(DbRequest::ListDatabases(SERVER_A)),
    );
    assert_eq!(response, DbResponse::Error(SERVER_A, "permission denied".to_string()));
    assert!(manager.connections.contains_key(&key));
    let response = manager.process_db_error(
        &key,
        DriverFailure::Io { detail: "reset".to_string(), account: "Io(reset)".to_string() },
        SERVER_A,
        Some(DbRequest::ListDatabases(SERVER_A)),
    );
    assert_eq!(
        response,
        DbResponse::ConnectionIsDown {
            original_request: DbRequest::ListDatabases(SERVER_A),
            reason: DownConnectionReason::IoError("IO Error: reset".to_string()),
        }
    );
    assert!(!manager.connections.contains_key(&key));
}
