//! What a session runs, and how the rows it streams are gathered: the
//! catalog statements behind the listings, and the result of a query as
//! column names and rows of cell texts.

use crate::codec::{cell_plan, cell_text, plan_cell, render_cell, CellPlan, CellPlanView, ColumnType, ColumnTypeView, Decoded, DecodedView};
use crate::manager::{Command, CommandView};
use vstd::prelude::*;

verus! {

/// Lists the databases that are not templates.
pub const LIST_DATABASES: &'static str =
    "SELECT datname FROM pg_database WHERE datistemplate = false;";

/// Lists the schemas.
pub const LIST_SCHEMAS: &'static str = "SELECT schema_name FROM information_schema.schemata;";

/// Lists the tables of the schema given as the first argument.
pub const LIST_TABLES: &'static str =
    "SELECT table_name FROM information_schema.tables where table_schema = $1;";

/// A statement to run, with the value of its one argument where it has one.
#[derive(Debug, PartialEq, Eq)]
pub struct Statement {
    pub sql: String,
    pub argument: Option<String>,
}

/// What a [`Statement`] stands for.
pub struct StatementView {
    pub sql: Seq<char>,
    pub argument: Option<Seq<char>>,
}

impl View for Statement {
    type V = StatementView;

    open spec fn view(&self) -> StatementView {
        StatementView { sql: self.sql@, argument: self.argument.deep_view() }
    }
}

/// The statement behind a command; the commands that run none are a reply
/// and a connect.
pub open spec fn statement_for(command: CommandView) -> Option<StatementView> {
    match command {
        CommandView::ListDatabases { .. } => Some(
            StatementView { sql: LIST_DATABASES@, argument: None },
        ),
        CommandView::ListSchemas { .. } => Some(
            StatementView { sql: LIST_SCHEMAS@, argument: None },
        ),
        CommandView::ListTables { schema, .. } => Some(
            StatementView { sql: LIST_TABLES@, argument: Some(schema) },
        ),
        CommandView::Execute { query, .. } => Some(StatementView { sql: query, argument: None }),
        _ => None,
    }
}

/// The statement that the session has to run for `command`.
pub fn statement(command: &Command) -> (found: Option<Statement>)
    ensures
        found.is_some() == statement_for(command@).is_some(),
        found matches Some(statement) ==> Some(statement@) == statement_for(command@),
{
    match command {
        Command::ListDatabases { .. } => Some(
            Statement { sql: String::from_str(LIST_DATABASES), argument: None },
        ),
        Command::ListSchemas { .. } => Some(
            Statement { sql: String::from_str(LIST_SCHEMAS), argument: None },
        ),
        Command::ListTables { schema, .. } => Some(
            Statement { sql: String::from_str(LIST_TABLES), argument: Some(schema.clone()) },
        ),
        Command::Execute { query, .. } => Some(Statement { sql: query.clone(), argument: None }),
        _ => None,
    }
}

/// The plans for the cells of a row, one for each column.
pub fn plan_row(types: &Vec<ColumnType>) -> (plans: Vec<CellPlan>)
    ensures
        plans.deep_view() == types.deep_view().map_values(|ty: ColumnTypeView| cell_plan(ty)),
{
    let mut plans: Vec<CellPlan> = Vec::new();
    let mut i: usize = 0;
    while i < types.len()
        invariant
            i <= types.len(),
            plans.len() == i,
            forall|j: int|
                0 <= j < i ==> (#[trigger] plans@[j]).deep_view() == cell_plan(
                    types@[j].deep_view(),
                ),
        decreases types.len() - i,
    {
        plans.push(plan_cell(&types[i]));
        i = i + 1;
    }
    proof {
        assert(plans.deep_view() =~= types.deep_view().map_values(
            |ty: ColumnTypeView| cell_plan(ty),
        ));
    }
    plans
}

/// What was read for the column at `place`; a column for which nothing was
/// handed in counts as one that could not be read.
pub open spec fn decoded_at(decoded: Seq<DecodedView>, place: int) -> DecodedView {
    if 0 <= place < decoded.len() {
        decoded[place]
    } else {
        DecodedView::Failed
    }
}

/// The cell texts of a row: one for each plan, in order.
pub open spec fn row_texts(plans: Seq<CellPlanView>, decoded: Seq<DecodedView>) -> Seq<Seq<char>> {
    Seq::new(plans.len(), |i: int| cell_text(plans[i], decoded_at(decoded, i)))
}

/// Writes the cells of a row.
pub fn render_row(plans: &Vec<CellPlan>, decoded: &Vec<Decoded>) -> (cells: Vec<String>)
    ensures
        cells.deep_view() == row_texts(plans.deep_view(), decoded.deep_view()),
{
    let mut cells: Vec<String> = Vec::new();
    let failed = Decoded::Failed;
    let mut i: usize = 0;
    while i < plans.len()
        invariant
            i <= plans.len(),
            cells.len() == i,
            failed.deep_view() == DecodedView::Failed,
            forall|j: int|
                0 <= j < i ==> (#[trigger] cells@[j])@ == cell_text(
                    plans@[j].deep_view(),
                    decoded_at(decoded.deep_view(), j),
                ),
        decreases plans.len() - i,
    {
        let cell = if i < decoded.len() {
            render_cell(&plans[i], &decoded[i])
        } else {
            render_cell(&plans[i], &failed)
        };
        cells.push(cell);
        i = i + 1;
    }
    proof {
        assert(cells.deep_view() =~= row_texts(plans.deep_view(), decoded.deep_view()));
    }
    cells
}

/// The result of a query while its rows stream in.
#[derive(Debug, PartialEq, Eq)]
pub struct QueryOutput {
    pub headers: Vec<String>,
    pub rows: Vec<Vec<String>>,
}

impl QueryOutput {
    /// A result without column names and without rows.
    pub fn new() -> (output: Self)
        ensures
            output.headers@.len() == 0,
            output.rows@.len() == 0,
    {
        QueryOutput { headers: Vec::new(), rows: Vec::new() }
    }

    /// Takes in the next row. The column names are those of the first row
    /// that has any, so a result without rows has no column names.
    pub fn absorb(&mut self, column_names: Vec<String>, cells: Vec<String>)
        ensures
            final(self).headers.deep_view() == if old(self).headers@.len() == 0 {
                column_names.deep_view()
            } else {
                old(self).headers.deep_view()
            },
            final(self).rows.deep_view() == old(self).rows.deep_view().push(cells.deep_view()),
    {
        if self.headers.len() == 0 {
            self.headers = column_names;
        }
        self.rows.push(cells);
        proof {
            assert(self.rows.deep_view() =~= old(self).rows.deep_view().push(cells.deep_view()));
        }
    }
}

} // verus!
