use tisq::protocol::DbRequest;
use tisq::retry::{gives_up, plan_retry, RetryPlan, RETRY_CEILING};

fn execute(retries: i32) -> DbRequest {
    DbRequest::Execute(5, "shop".to_string(), "select 1".to_string(), retries)
}

fn resubmit(request: DbRequest) -> RetryPlan {
    RetryPlan::Resubmit {
        connect_to_server: DbRequest::ConnectToServer(5, "url".to_string()),
        connect_to_database: DbRequest::ConnectToDatabase(5, "shop".to_string(), "url".to_string()),
        request,
    }
}

#[test]
fn retry_ceiling_is_three() {
    assert_eq!(RETRY_CEILING, 3);
}

#[test]
fn request_with_four_attempts_is_dropped() {
    assert_eq!(plan_retry(execute(4), "url"), RetryPlan::GiveUp);
    assert_eq!(plan_retry(execute(i32::MAX), "url"), RetryPlan::GiveUp);
}

#[test]
fn request_with_three_attempts_is_retried_once_more() {
    let plan = plan_retry(execute(3), "url");
    assert_eq!(plan, resubmit(execute(4)));
    match plan {
        RetryPlan::Resubmit { request, .. } => {
            assert_eq!(plan_retry(request, "url"), RetryPlan::GiveUp)
        }
        RetryPlan::GiveUp => panic!("attempt 3 must be retried"),
    }
}

#[test]
fn first_failure_is_retried_with_attempt_one() {
    assert_eq!(plan_retry(execute(0), "url"), resubmit(execute(1)));
}

#[test]
fn listings_are_retried_too() {
    let schemas = DbRequest::ListSchemas { server_id: 5, database: "shop".to_string(), retries: 1 };
    assert_eq!(
        plan_retry(schemas, "url"),
        resubmit(DbRequest::ListSchemas { server_id: 5, database: "shop".to_string(), retries: 2 })
    );
    let tables = DbRequest::ListTables {
        server_id: 5,
        database: "shop".to_string(),
        schema: "public".to_string(),
        retries: 3,
    };
    assert_eq!(
        plan_retry(tables, "url"),
        resubmit(DbRequest::ListTables {
            server_id: 5,
            database: "shop".to_string(),
            schema: "public".to_string(),
            retries: 4
        })
    );
}

#[test]
fn requests_without_attempt_count_are_dropped() {
    assert_eq!(plan_retry(DbRequest::ListDatabases(5), "url"), RetryPlan::GiveUp);
    assert_eq!(plan_retry(DbRequest::ConnectToServer(5, "u".to_string()), "url"), RetryPlan::GiveUp);
    assert_eq!(
        plan_retry(DbRequest::ConnectToDatabase(5, "d".to_string(), "u".to_string()), "url"),
        RetryPlan::GiveUp
    );
}

#[test]
fn sends_stop_after_the_ceiling() {
    let mut request = execute(0);
    let mut sent = 1;
    loop {
        match plan_retry(request, "url") {
            RetryPlan::Resubmit { request: next, .. } => {
                sent += 1;
                request = next;
            }
            RetryPlan::GiveUp => break,
        }
    }
    assert_eq!(sent, 5);
}

#[test]
fn giving_up_is_known_without_the_url() {
    assert!(gives_up(&execute(4)));
    assert!(!gives_up(&execute(3)));
    assert!(!gives_up(&execute(0)));
    assert!(!gives_up(&execute(-1)));
    assert!(gives_up(&DbRequest::ListDatabases(5)));
    assert!(gives_up(&DbRequest::ConnectToServer(5, "u".to_string())));
    for retries in 0..6 {
        let dropped = gives_up(&execute(retries));
        assert_eq!(dropped, plan_retry(execute(retries), "any") == RetryPlan::GiveUp);
    }
}
