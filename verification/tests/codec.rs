use tisq::codec::{
    candidates, choose_candidate, plan_cell, plan_element, plan_field, plan_scalar, render_array,
    render_cell, render_value, CellPlan, ColumnType, Decoded, FieldPlan, FieldType, NativeType,
    ScalarPlan, ScalarType,
};
use tisq::session::{plan_row, render_row, statement, QueryOutput, Statement};
use tisq::manager::Command;
use tisq::protocol::{ConnectionKey, DbResponse};

fn scalar(name: &str, accepts: Vec<NativeType>) -> ScalarType {
    ScalarType { name: name.to_string(), accepts }
}

fn some(text: &str) -> Option<String> {
    Some(text.to_string())
}

#[test]
fn candidates_are_tried_in_a_fixed_order() {
    assert_eq!(
        candidates(),
        vec![
            NativeType::Bool,
            NativeType::Text,
            NativeType::Int8,
            NativeType::Int16,
            NativeType::Int32,
            NativeType::Int64,
            NativeType::Float32,
            NativeType::Float64,
            NativeType::Decimal,
            NativeType::Bytes,
            NativeType::Unit,
            NativeType::DateTime,
            NativeType::DateTimeTz,
            NativeType::Date,
            NativeType::Time,
            NativeType::TimeTz,
            NativeType::Uuid,
            NativeType::IpNetwork,
            NativeType::MacAddress,
            NativeType::BitVec,
            NativeType::Json,
        ]
    );
}

#[test]
fn first_accepted_candidate_wins() {
    assert_eq!(choose_candidate(&vec![]), None);
    assert_eq!(choose_candidate(&vec![NativeType::Json]), Some(NativeType::Json));
    assert_eq!(
        choose_candidate(&vec![NativeType::Json, NativeType::Text, NativeType::Uuid]),
        Some(NativeType::Text)
    );
    assert_eq!(
        choose_candidate(&vec![NativeType::Int64, NativeType::Int8]),
        Some(NativeType::Int8)
    );
}

#[test]
fn every_native_type_decodes_null_and_value() {
    for native in candidates() {
        let plan = plan_cell(&ColumnType::Simple(scalar("T", vec![native])));
        assert_eq!(plan, CellPlan::Scalar(ScalarPlan::Decode(native)));
        assert_eq!(render_cell(&plan, &Decoded::Scalar(None)), "null");
        assert_eq!(render_cell(&plan, &Decoded::Scalar(some("42"))), "42");
        assert_eq!(render_cell(&plan, &Decoded::Failed), "null");
    }
}

#[test]
fn unknown_simple_type_is_named_as_not_supported() {
    let plan = plan_cell(&ColumnType::Simple(scalar("INTERVAL", vec![])));
    assert_eq!(plan, CellPlan::Scalar(ScalarPlan::Unsupported("INTERVAL not supported".to_string())));
    assert_eq!(render_cell(&plan, &Decoded::Failed), "INTERVAL not supported");
    assert_eq!(render_cell(&plan, &Decoded::Scalar(some("1 day"))), "INTERVAL not supported");
    assert_eq!(
        plan_scalar(&scalar("MONEY", vec![])),
        ScalarPlan::Unsupported("MONEY not supported".to_string())
    );
}

#[test]
fn array_rendering() {
    assert_eq!(render_array(&vec![some("1"), some("2"), some("3")]), "[1,2,3]");
    assert_eq!(render_array(&vec![]), "[]");
    assert_eq!(render_array(&vec![some("a")]), "[a]");
    assert_eq!(render_array(&vec![some("a"), None]), "[a,null]");
    let plan = plan_cell(&ColumnType::Array(scalar("INT4", vec![NativeType::Int32])));
    assert_eq!(plan, CellPlan::Array(ScalarPlan::Decode(NativeType::Int32)));
    assert_eq!(
        render_cell(&plan, &Decoded::Array(Some(vec![some("1"), some("2"), some("3")]))),
        "[1,2,3]"
    );
    assert_eq!(render_cell(&plan, &Decoded::Array(None)), "null");
    assert_eq!(render_cell(&plan, &Decoded::Array(Some(vec![]))), "[]");
}

#[test]
fn array_of_unknown_elements_is_not_supported() {
    let plan = plan_cell(&ColumnType::Array(scalar("POINT", vec![])));
    assert_eq!(plan, CellPlan::Array(ScalarPlan::Unsupported("not supported".to_string())));
    assert_eq!(render_cell(&plan, &Decoded::Failed), "not supported");
    assert_eq!(
        plan_element(&scalar("POINT", vec![])),
        ScalarPlan::Unsupported("not supported".to_string())
    );
}

#[test]
fn composite_rendering() {
    let ty = ColumnType::Composite(vec![
        FieldType { name: "a".to_string(), simple: Some(scalar("INT4", vec![NativeType::Int32])) },
        FieldType { name: "b".to_string(), simple: Some(scalar("TEXT", vec![NativeType::Text])) },
    ]);
    let plan = plan_cell(&ty);
    assert_eq!(
        plan,
        CellPlan::Record(vec![
            FieldPlan { name: "a".to_string(), plan: ScalarPlan::Decode(NativeType::Int32) },
            FieldPlan { name: "b".to_string(), plan: ScalarPlan::Decode(NativeType::Text) },
        ])
    );
    assert_eq!(render_cell(&plan, &Decoded::Record(Some(vec![some("1"), some("x")]))), "(a:1,b:x)");
    assert_eq!(render_cell(&plan, &Decoded::Record(Some(vec![None, some("x")]))), "(a:null,b:x)");
    assert_eq!(render_cell(&plan, &Decoded::Record(None)), "null");
    assert_eq!(render_cell(&plan, &Decoded::Record(Some(vec![some("1")]))), "not supported");
    assert_eq!(render_cell(&plan, &Decoded::Failed), "not supported");
}

#[test]
fn composite_fields_one_level_deep() {
    let ty = ColumnType::Composite(vec![
        FieldType { name: "inner".to_string(), simple: None },
        FieldType { name: "span".to_string(), simple: Some(scalar("INTERVAL", vec![])) },
    ]);
    let plan = plan_cell(&ty);
    assert_eq!(
        render_cell(&plan, &Decoded::Record(Some(vec![None, None]))),
        "(inner:not supported,span:INTERVAL not supported)"
    );
    assert_eq!(
        plan_field(&FieldType { name: "inner".to_string(), simple: None }),
        FieldPlan {
            name: "inner".to_string(),
            plan: ScalarPlan::Unsupported("not supported".to_string())
        }
    );
    let empty = plan_cell(&ColumnType::Composite(vec![]));
    assert_eq!(render_cell(&empty, &Decoded::Record(Some(vec![]))), "()");
}

#[test]
fn enum_is_raw_text() {
    let plan = plan_cell(&ColumnType::Enum);
    assert_eq!(plan, CellPlan::Enum);
    assert_eq!(render_cell(&plan, &Decoded::Text("happy".to_string())), "happy");
    assert_eq!(render_cell(&plan, &Decoded::Failed), "not supported");
}

#[test]
fn domain_pseudo_and_range_are_not_supported() {
    for ty in vec![ColumnType::Domain, ColumnType::Pseudo, ColumnType::Range] {
        let plan = plan_cell(&ty);
        assert_eq!(plan, CellPlan::Unsupported);
        assert_eq!(render_cell(&plan, &Decoded::Scalar(some("1"))), "not supported");
        assert_eq!(render_cell(&plan, &Decoded::Failed), "not supported");
    }
}

#[test]
fn value_text_is_its_own_form_or_null() {
    assert_eq!(render_value(&None), "null");
    assert_eq!(render_value(&some("true")), "true");
    assert_eq!(render_value(&some("")), "");
}

#[test]
fn rows_are_rendered_cell_by_cell() {
    let types = vec![
        ColumnType::Simple(scalar("INT4", vec![NativeType::Int32])),
        ColumnType::Simple(scalar("LTREE", vec![])),
        ColumnType::Enum,
    ];
    let plans = plan_row(&types);
    assert_eq!(plans.len(), 3);
    let cells = render_row(
        &plans,
        &vec![Decoded::Scalar(some("7")), Decoded::Failed, Decoded::Text("red".to_string())],
    );
    assert_eq!(cells, vec!["7", "LTREE not supported", "red"]);
    let short = render_row(&plans, &vec![Decoded::Scalar(None)]);
    assert_eq!(short, vec!["null", "LTREE not supported", "not supported"]);
}

#[test]
fn headers_come_from_the_first_row() {
    let mut output = QueryOutput::new();
    assert!(output.headers.is_empty());
    assert!(output.rows.is_empty());
    output.absorb(vec!["id".to_string()], vec!["1".to_string()]);
    output.absorb(vec!["other".to_string()], vec!["2".to_string()]);
    assert_eq!(output.headers, vec!["id"]);
    assert_eq!(output.rows, vec![vec!["1"], vec!["2"]]);
}

#[test]
fn commands_map_to_statements() {
    let key = ConnectionKey::new("shop".to_string(), 1);
    assert_eq!(
        statement(&Command::ListDatabases { key: key.clone() }),
        Some(Statement {
            sql: "SELECT datname FROM pg_database WHERE datistemplate = false;".to_string(),
            argument: None
        })
    );
    assert_eq!(
        statement(&Command::ListSchemas { key: key.clone() }),
        Some(Statement {
            sql: "SELECT schema_name FROM information_schema.schemata;".to_string(),
            argument: None
        })
    );
    assert_eq!(
        statement(&Command::ListTables { key: key.clone(), schema: "public".to_string() }),
        Some(Statement {
            sql: "SELECT table_name FROM information_schema.tables where table_schema = $1;"
                .to_string(),
            argument: Some("public".to_string())
        })
    );
    assert_eq!(
        statement(&Command::Execute { key: key.clone(), query: "select 1".to_string() }),
        Some(Statement { sql: "select 1".to_string(), argument: None })
    );
    assert_eq!(statement(&Command::Connect { key, url: "u".to_string() }), None);
    assert_eq!(statement(&Command::Reply(DbResponse::NoOp)), None);
}
