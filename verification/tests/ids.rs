use tisq::browser::BrowserTreeId;
use tisq::ids::{EditorId, StoredEditorId};

const SERVER: u128 = 0x550e8400_e29b_41d4_a716_446655440000;
const SERVER_TEXT: &str = "550e8400-e29b-41d4-a716-446655440000";

fn text(parts: &[&str]) -> String {
    parts.join(":")
}

#[test]
fn tree_ids_are_written_with_colons() {
    assert_eq!(BrowserTreeId::Server(SERVER).to_string(), text(&["server", SERVER_TEXT]));
    assert_eq!(
        BrowserTreeId::Database(SERVER, "shop".to_string()).to_string(),
        text(&["database", SERVER_TEXT, "shop"])
    );
    assert_eq!(
        BrowserTreeId::Schema(SERVER, "shop".to_string(), "public".to_string()).to_string(),
        text(&["schema", SERVER_TEXT, "shop", "public"])
    );
    assert_eq!(
        BrowserTreeId::Table(
            SERVER,
            "shop".to_string(),
            "public".to_string(),
            "orders".to_string()
        )
        .to_string(),
        text(&["table", SERVER_TEXT, "shop", "public", "orders"])
    );
    assert_eq!(
        BrowserTreeId::Column {
            server_id: SERVER,
            database: "shop".to_string(),
            schema: "public".to_string(),
            table: "orders".to_string(),
            column: "id".to_string(),
        }
        .to_string(),
        text(&["column", SERVER_TEXT, "shop", "public", "orders", "id"])
    );
}

#[test]
fn tree_ids_read_back() {
    let ids = vec![
        BrowserTreeId::Server(SERVER),
        BrowserTreeId::Server(0),
        BrowserTreeId::Server(u128::MAX),
        BrowserTreeId::Database(SERVER, "shop".to_string()),
        BrowserTreeId::Database(SERVER, "with:colon".to_string()),
        BrowserTreeId::Database(SERVER, "".to_string()),
        BrowserTreeId::Schema(SERVER, "shop".to_string(), "public".to_string()),
        BrowserTreeId::Schema(SERVER, "shop".to_string(), "a:b".to_string()),
        BrowserTreeId::Table(SERVER, "shop".to_string(), "public".to_string(), "t".to_string()),
        BrowserTreeId::Table(SERVER, "shop".to_string(), "public".to_string(), "t:1".to_string()),
    ];
    for id in ids {
        let written = id.to_string();
        assert_eq!(BrowserTreeId::parse_str(&written), Some(id));
    }
}

#[test]
fn tree_ids_with_a_colon_in_an_inner_name_read_back_otherwise() {
    let id = BrowserTreeId::Schema(SERVER, "a:b".to_string(), "c".to_string());
    assert_eq!(
        BrowserTreeId::parse_str(&id.to_string()),
        Some(BrowserTreeId::Schema(SERVER, "a".to_string(), "b:c".to_string()))
    );
}

#[test]
fn malformed_tree_ids_are_refused() {
    assert_eq!(BrowserTreeId::parse_str(""), None);
    assert_eq!(BrowserTreeId::parse_str("server"), None);
    assert_eq!(BrowserTreeId::parse_str("server:not-a-uuid"), None);
    assert_eq!(BrowserTreeId::parse_str(&text(&["database", SERVER_TEXT])), None);
    assert_eq!(BrowserTreeId::parse_str(&text(&["database", "zz", "shop"])), None);
    assert_eq!(BrowserTreeId::parse_str(&text(&["schema", SERVER_TEXT, "shop"])), None);
    assert_eq!(BrowserTreeId::parse_str(&text(&["table", SERVER_TEXT, "shop", "public"])), None);
    assert_eq!(BrowserTreeId::parse_str(&text(&["dummy", SERVER_TEXT])), None);
    assert_eq!(BrowserTreeId::parse_str("root"), None);
}

#[test]
fn column_ids_are_not_read() {
    assert_eq!(
        BrowserTreeId::parse_str(&text(&["column", SERVER_TEXT, "shop", "public", "orders", "id"])),
        None
    );
}

#[test]
fn server_text_is_read_in_every_form_the_driver_writes() {
    assert_eq!(
        BrowserTreeId::parse_str("server:550E8400E29B41D4A716446655440000"),
        Some(BrowserTreeId::Server(SERVER))
    );
}

#[test]
fn editor_keys_hold_server_and_database() {
    let id = StoredEditorId::new_editor_id(SERVER, "shop".to_string());
    assert_eq!(id.server_id, SERVER);
    assert_eq!(id.database, "shop");
    assert_eq!(id.encoded, text(&[SERVER_TEXT, "shop"]));
    assert_eq!(StoredEditorId::from_raw_key(&id.encoded), Some(id));
}

#[test]
fn editor_keys_are_read_up_to_the_second_colon() {
    let raw = text(&[SERVER_TEXT, "shop", "rest"]);
    let id = StoredEditorId::from_raw_key(&raw).unwrap();
    assert_eq!(id.server_id, SERVER);
    assert_eq!(id.database, "shop");
    assert_eq!(id.encoded, raw);
    assert_eq!(StoredEditorId::from_raw_key(SERVER_TEXT), None);
    assert_eq!(StoredEditorId::from_raw_key("nobody:shop"), None);
    assert_eq!(StoredEditorId::from_raw_key(""), None);
}

#[test]
fn editors_compare_by_both_fields() {
    let a = EditorId::new(1, "shop".to_string());
    assert!(a.same_as(&EditorId::new(1, "shop".to_string())));
    assert!(!a.same_as(&EditorId::new(2, "shop".to_string())));
    assert!(!a.same_as(&EditorId::new(1, "other".to_string())));
    assert_eq!(a.clone(), a);
}
