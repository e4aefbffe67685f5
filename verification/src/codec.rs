//! The value codec: which native type a column is decoded as, and how a
//! decoded cell is written as text. A type that nothing can decode makes a
//! cell that says so; it never fails the query.

use crate::text::{join, joined};
use vstd::prelude::*;

verus! {

/// A native type that a wire value can be decoded as.
#[derive(Clone, Copy, Debug, PartialEq, Eq, Structural)]
pub enum NativeType {
    Bool,
    Text,
    Int8,
    Int16,
    Int32,
    Int64,
    Float32,
    Float64,
    Decimal,
    Bytes,
    Unit,
    DateTime,
    DateTimeTz,
    Date,
    Time,
    TimeTz,
    Uuid,
    IpNetwork,
    MacAddress,
    BitVec,
    Json,
}

/// The candidates in the order in which they are tried.
pub open spec fn candidate_order() -> Seq<NativeType> {
    seq![
        NativeType::Bool,
        NativeType::Text,
        NativeType::Int8,
        NativeType::Int16,
        NativeType::Int32,
        NativeType::Int64,
        NativeType::Float32,
        NativeType::Float64,
        NativeType::Decimal,
        NativeType::Bytes,
        NativeType::Unit,
        NativeType::DateTime,
        NativeType::DateTimeTz,
        NativeType::Date,
        NativeType::Time,
        NativeType::TimeTz,
        NativeType::Uuid,
        NativeType::IpNetwork,
        NativeType::MacAddress,
        NativeType::BitVec,
        NativeType::Json,
    ]
}

/// The candidates in the order in which they are tried.
pub fn candidates() -> (order: Vec<NativeType>)
    ensures
        order@ == candidate_order(),
{
    let order = vec![
        NativeType::Bool,
        NativeType::Text,
        NativeType::Int8,
        NativeType::Int16,
        NativeType::Int32,
        NativeType::Int64,
        NativeType::Float32,
        NativeType::Float64,
        NativeType::Decimal,
        NativeType::Bytes,
        NativeType::Unit,
        NativeType::DateTime,
        NativeType::DateTimeTz,
        NativeType::Date,
        NativeType::Time,
        NativeType::TimeTz,
        NativeType::Uuid,
        NativeType::IpNetwork,
        NativeType::MacAddress,
        NativeType::BitVec,
        NativeType::Json,
    ];
    proof {
        assert(order@ =~= candidate_order());
    }
    order
}

/// The first member of `order` that `accepts` holds, if there is one.
pub open spec fn first_accepted(order: Seq<NativeType>, accepts: Seq<NativeType>) -> Option<
    NativeType,
>
    decreases order.len(),
{
    if order.len() == 0 {
        None
    } else if accepts.contains(order[0]) {
        Some(order[0])
    } else {
        first_accepted(order.drop_first(), accepts)
    }
}

/// What `first_accepted` finds is the earliest accepted member of the order,
/// and it finds one whenever there is one.
pub proof fn lemma_first_accepted(order: Seq<NativeType>, accepts: Seq<NativeType>)
    ensures
        match first_accepted(order, accepts) {
            Some(found) => exists|i: int|
                0 <= i < order.len() && #[trigger] order[i] == found && accepts.contains(found)
                    && forall|j: int| 0 <= j < i ==> !accepts.contains(#[trigger] order[j]),
            None => forall|j: int| 0 <= j < order.len() ==> !accepts.contains(#[trigger] order[j]),
        },
    decreases order.len(),
{
    if order.len() == 0 {
    } else if accepts.contains(order[0]) {
        assert(order[0] == order[0]);
    } else {
        let rest = order.drop_first();
        lemma_first_accepted(rest, accepts);
        match first_accepted(rest, accepts) {
            Some(found) => {
                let i = choose|i: int|
                    0 <= i < rest.len() && #[trigger] rest[i] == found && accepts.contains(found)
                        && forall|j: int| 0 <= j < i ==> !accepts.contains(#[trigger] rest[j]);
                assert(order[i + 1] == found);
                assert forall|j: int| 0 <= j < i + 1 implies !accepts.contains(
                    #[trigger] order[j],
                ) by {
                    if j > 0 {
                        assert(order[j] == rest[j - 1]);
                    }
                }
            },
            None => {
                assert forall|j: int| 0 <= j < order.len() implies !accepts.contains(
                    #[trigger] order[j],
                ) by {
                    if j > 0 {
                        assert(order[j] == rest[j - 1]);
                    }
                }
            },
        }
    }
}

fn holds(accepts: &Vec<NativeType>, candidate: NativeType) -> (found: bool)
    ensures
        found == accepts@.contains(candidate),
{
    let mut i: usize = 0;
    while i < accepts.len()
        invariant
            i <= accepts.len(),
            forall|j: int| 0 <= j < i ==> accepts@[j] != candidate,
        decreases accepts.len() - i,
    {
        if accepts[i] == candidate {
            return true;
        }
        i = i + 1;
    }
    false
}

/// The first candidate, in the order in which they are tried, that
/// `accepts` holds.
pub fn choose_candidate(accepts: &Vec<NativeType>) -> (chosen: Option<NativeType>)
    ensures
        chosen == first_accepted(candidate_order(), accepts@),
{
    let order = candidates();
    let mut i: usize = 0;
    proof {
        assert(order@.skip(0) =~= order@);
    }
    while i < order.len()
        invariant
            i <= order.len(),
            order@ == candidate_order(),
            first_accepted(order@, accepts@) == first_accepted(order@.skip(i as int), accepts@),
        decreases order.len() - i,
    {
        proof {
            let rest = order@.skip(i as int);
            assert(rest.len() > 0 && rest[0] == order@[i as int]);
            assert(rest.drop_first() =~= order@.skip(i + 1));
        }
        if holds(accepts, order[i]) {
            return Some(order[i]);
        }
        i = i + 1;
    }
    proof {
        assert(order@.skip(i as int).len() == 0);
    }
    None
}

/// A wire type of the simple kind: its name, and the native types whose
/// compatibility check it passes, in any order.
#[derive(Debug, PartialEq, Eq)]
pub struct ScalarType {
    pub name: String,
    pub accepts: Vec<NativeType>,
}

/// What a [`ScalarType`] stands for.
pub struct ScalarTypeView {
    pub name: Seq<char>,
    pub accepts: Seq<NativeType>,
}

impl DeepView for ScalarType {
    type V = ScalarTypeView;

    open spec fn deep_view(&self) -> ScalarTypeView {
        ScalarTypeView { name: self.name@, accepts: self.accepts@ }
    }
}

/// A field of a composite type. `simple` holds the field's type where that
/// type is of the simple kind.
#[derive(Debug, PartialEq, Eq)]
pub struct FieldType {
    pub name: String,
    pub simple: Option<ScalarType>,
}

/// What a [`FieldType`] stands for.
pub struct FieldTypeView {
    pub name: Seq<char>,
    pub simple: Option<ScalarTypeView>,
}

impl DeepView for FieldType {
    type V = FieldTypeView;

    open spec fn deep_view(&self) -> FieldTypeView {
        FieldTypeView { name: self.name@, simple: self.simple.deep_view() }
    }
}

/// The declared wire type of a column, by kind.
#[derive(Debug, PartialEq, Eq)]
pub enum ColumnType {
    Simple(ScalarType),
    /// An array; holds the type of its elements.
    Array(ScalarType),
    Enum,
    /// A record; holds its fields in their declared order.
    Composite(Vec<FieldType>),
    Domain,
    Pseudo,
    Range,
}

/// What a [`ColumnType`] stands for.
pub enum ColumnTypeView {
    Simple(ScalarTypeView),
    Array(ScalarTypeView),
    Enum,
    Composite(Seq<FieldTypeView>),
    Domain,
    Pseudo,
    Range,
}

impl DeepView for ColumnType {
    type V = ColumnTypeView;

    open spec fn deep_view(&self) -> ColumnTypeView {
        match self {
            ColumnType::Simple(ty) => ColumnTypeView::Simple(ty.deep_view()),
            ColumnType::Array(ty) => ColumnTypeView::Array(ty.deep_view()),
            ColumnType::Enum => ColumnTypeView::Enum,
            ColumnType::Composite(fields) => ColumnTypeView::Composite(fields.deep_view()),
            ColumnType::Domain => ColumnTypeView::Domain,
            ColumnType::Pseudo => ColumnTypeView::Pseudo,
            ColumnType::Range => ColumnTypeView::Range,
        }
    }
}

/// How a value of the simple kind is read: decoded as a native type, or not
/// decoded at all, with the text that stands in its place.
#[derive(Debug, PartialEq, Eq)]
pub enum ScalarPlan {
    Decode(NativeType),
    Unsupported(String),
}

/// What a [`ScalarPlan`] stands for.
pub enum ScalarPlanView {
    Decode(NativeType),
    Unsupported(Seq<char>),
}

impl DeepView for ScalarPlan {
    type V = ScalarPlanView;

    open spec fn deep_view(&self) -> ScalarPlanView {
        match self {
            ScalarPlan::Decode(native) => ScalarPlanView::Decode(*native),
            ScalarPlan::Unsupported(text) => ScalarPlanView::Unsupported(text@),
        }
    }
}

/// How one field of a record is read.
#[derive(Debug, PartialEq, Eq)]
pub struct FieldPlan {
    pub name: String,
    pub plan: ScalarPlan,
}

/// What a [`FieldPlan`] stands for.
pub struct FieldPlanView {
    pub name: Seq<char>,
    pub plan: ScalarPlanView,
}

impl DeepView for FieldPlan {
    type V = FieldPlanView;

    open spec fn deep_view(&self) -> FieldPlanView {
        FieldPlanView { name: self.name@, plan: self.plan.deep_view() }
    }
}

/// How a cell is read.
#[derive(Debug, PartialEq, Eq)]
pub enum CellPlan {
    /// A single value.
    Scalar(ScalarPlan),
    /// A sequence of values that are all read in the same way.
    Array(ScalarPlan),
    /// The raw text of the wire value.
    Enum,
    /// The fields of a record, in order.
    Record(Vec<FieldPlan>),
    /// Nothing is read.
    Unsupported,
}

/// What a [`CellPlan`] stands for.
pub enum CellPlanView {
    Scalar(ScalarPlanView),
    Array(ScalarPlanView),
    Enum,
    Record(Seq<FieldPlanView>),
    Unsupported,
}

impl DeepView for CellPlan {
    type V = CellPlanView;

    open spec fn deep_view(&self) -> CellPlanView {
        match self {
            CellPlan::Scalar(plan) => CellPlanView::Scalar(plan.deep_view()),
            CellPlan::Array(plan) => CellPlanView::Array(plan.deep_view()),
            CellPlan::Enum => CellPlanView::Enum,
            CellPlan::Record(fields) => CellPlanView::Record(fields.deep_view()),
            CellPlan::Unsupported => CellPlanView::Unsupported,
        }
    }
}

/// The text of a cell that nothing can decode.
pub open spec fn not_supported() -> Seq<char> {
    "not supported"@
}

/// The text of a cell of a simple type that no candidate accepts.
pub open spec fn type_not_supported(name: Seq<char>) -> Seq<char> {
    name + " not supported"@
}

/// The text of a value that is `NULL` or could not be decoded.
pub open spec fn null_text() -> Seq<char> {
    "null"@
}

/// How a value of a simple type is read: as the first candidate that the
/// type accepts; without one, the cell names the type and says that it is
/// not supported.
pub open spec fn scalar_plan(ty: ScalarTypeView) -> ScalarPlanView {
    match first_accepted(candidate_order(), ty.accepts) {
        Some(native) => ScalarPlanView::Decode(native),
        None => ScalarPlanView::Unsupported(type_not_supported(ty.name)),
    }
}

/// How the elements of an array are read: as the first candidate that the
/// element type accepts.
pub open spec fn element_plan(ty: ScalarTypeView) -> ScalarPlanView {
    match first_accepted(candidate_order(), ty.accepts) {
        Some(native) => ScalarPlanView::Decode(native),
        None => ScalarPlanView::Unsupported(not_supported()),
    }
}

/// How a field of a record is read: by the rule for simple types. A field
/// that is itself a record, or of any other kind, is not read.
pub open spec fn field_plan(field: FieldTypeView) -> FieldPlanView {
    FieldPlanView {
        name: field.name,
        plan: match field.simple {
            Some(ty) => scalar_plan(ty),
            None => ScalarPlanView::Unsupported(not_supported()),
        },
    }
}

/// How a cell of a column is read, by the kind of the column's type.
pub open spec fn cell_plan(ty: ColumnTypeView) -> CellPlanView {
    match ty {
        ColumnTypeView::Simple(scalar) => CellPlanView::Scalar(scalar_plan(scalar)),
        ColumnTypeView::Array(element) => CellPlanView::Array(element_plan(element)),
        ColumnTypeView::Enum => CellPlanView::Enum,
        ColumnTypeView::Composite(fields) => CellPlanView::Record(
            fields.map_values(|field: FieldTypeView| field_plan(field)),
        ),
        ColumnTypeView::Domain => CellPlanView::Unsupported,
        ColumnTypeView::Pseudo => CellPlanView::Unsupported,
        ColumnTypeView::Range => CellPlanView::Unsupported,
    }
}

/// Plans the reading of a value of a simple type.
pub fn plan_scalar(ty: &ScalarType) -> (plan: ScalarPlan)
    ensures
        plan.deep_view() == scalar_plan(ty.deep_view()),
{
    match choose_candidate(&ty.accepts) {
        Some(native) => ScalarPlan::Decode(native),
        None => {
            let mut text = ty.name.clone();
            text.append(" not supported");
            ScalarPlan::Unsupported(text)
        },
    }
}

/// Plans the reading of the elements of an array.
pub fn plan_element(ty: &ScalarType) -> (plan: ScalarPlan)
    ensures
        plan.deep_view() == element_plan(ty.deep_view()),
{
    match choose_candidate(&ty.accepts) {
        Some(native) => ScalarPlan::Decode(native),
        None => ScalarPlan::Unsupported(String::from_str("not supported")),
    }
}

/// Plans the reading of one field of a record.
pub fn plan_field(field: &FieldType) -> (plan: FieldPlan)
    ensures
        plan.deep_view() == field_plan(field.deep_view()),
{
    let plan = match &field.simple {
        Some(ty) => plan_scalar(ty),
        None => ScalarPlan::Unsupported(String::from_str("not supported")),
    };
    FieldPlan { name: field.name.clone(), plan }
}

/// Plans the reading of a cell of a column of type `ty`.
pub fn plan_cell(ty: &ColumnType) -> (plan: CellPlan)
    ensures
        plan.deep_view() == cell_plan(ty.deep_view()),
{
    match ty {
        ColumnType::Simple(scalar) => CellPlan::Scalar(plan_scalar(scalar)),
        ColumnType::Array(element) => CellPlan::Array(plan_element(element)),
        ColumnType::Enum => CellPlan::Enum,
        ColumnType::Composite(fields) => {
            let mut plans: Vec<FieldPlan> = Vec::new();
            let mut i: usize = 0;
            while i < fields.len()
                invariant
                    i <= fields.len(),
                    plans.len() == i,
                    forall|j: int|
                        0 <= j < i ==> (#[trigger] plans@[j]).deep_view() == field_plan(
                            fields@[j].deep_view(),
                        ),
                decreases fields.len() - i,
            {
                plans.push(plan_field(&fields[i]));
                i = i + 1;
            }
            proof {
                assert(plans.deep_view() =~= fields.deep_view().map_values(
                    |field: FieldTypeView| field_plan(field),
                ));
            }
            CellPlan::Record(plans)
        },
        ColumnType::Domain => CellPlan::Unsupported,
        ColumnType::Pseudo => CellPlan::Unsupported,
        ColumnType::Range => CellPlan::Unsupported,
    }
}

/// What the driver read from a cell. A text inside is the value's own
/// string form; `None` in its place is a `NULL` or a value that could not be
/// decoded.
#[derive(Debug, PartialEq, Eq)]
pub enum Decoded {
    /// A single value.
    Scalar(Option<String>),
    /// The elements of an array, or `None` for a `NULL` array.
    Array(Option<Vec<Option<String>>>),
    /// The fields of a record, one for each planned field, or `None` for a
    /// `NULL` record.
    Record(Option<Vec<Option<String>>>),
    /// The raw text of the wire value.
    Text(String),
    /// The wire value could not be read.
    Failed,
}

/// What a [`Decoded`] stands for.
pub enum DecodedView {
    Scalar(Option<Seq<char>>),
    Array(Option<Seq<Option<Seq<char>>>>),
    Record(Option<Seq<Option<Seq<char>>>>),
    Text(Seq<char>),
    Failed,
}

impl DeepView for Decoded {
    type V = DecodedView;

    open spec fn deep_view(&self) -> DecodedView {
        match self {
            Decoded::Scalar(value) => DecodedView::Scalar(value.deep_view()),
            Decoded::Array(items) => DecodedView::Array(items.deep_view()),
            Decoded::Record(values) => DecodedView::Record(values.deep_view()),
            Decoded::Text(text) => DecodedView::Text(text@),
            Decoded::Failed => DecodedView::Failed,
        }
    }
}

/// The text of a decoded value: its string form, or `null`.
pub open spec fn value_text(value: Option<Seq<char>>) -> Seq<char> {
    match value {
        Some(text) => text,
        None => null_text(),
    }
}

/// The text of a value read by `plan`.
pub open spec fn scalar_text(plan: ScalarPlanView, value: Option<Seq<char>>) -> Seq<char> {
    match plan {
        ScalarPlanView::Decode(_) => value_text(value),
        ScalarPlanView::Unsupported(text) => text,
    }
}

/// The text of an array: the texts of its elements, each by the rule for a
/// single value, with commas between them and square brackets around.
pub open spec fn array_text(items: Seq<Option<Seq<char>>>) -> Seq<char> {
    "["@ + joined(items.map_values(|item: Option<Seq<char>>| value_text(item)), ","@) + "]"@
}

/// The text of one field of a record: its name, a colon, and its value.
pub open spec fn field_text(field: FieldPlanView, value: Option<Seq<char>>) -> Seq<char> {
    field.name + ":"@ + scalar_text(field.plan, value)
}

/// The texts of the fields of a record, in the order of the fields.
pub open spec fn field_texts(fields: Seq<FieldPlanView>, values: Seq<Option<Seq<char>>>) -> Seq<
    Seq<char>,
> {
    Seq::new(fields.len(), |i: int| field_text(fields[i], values[i]))
}

/// The text of a record: the texts of its fields with commas between them
/// and round brackets around.
pub open spec fn record_text(fields: Seq<FieldPlanView>, values: Seq<Option<Seq<char>>>) -> Seq<
    char,
> {
    "("@ + joined(field_texts(fields, values), ","@) + ")"@
}

/// The text of a cell that was read by `plan` and gave `decoded`.
///
/// A type that is not supported says so, whatever was read. Otherwise:
/// - a single value is its own string form, and `null` where it is `NULL`
///   or failed to decode;
/// - an array is `null` where it is `NULL` or failed to decode, and else
///   its elements in square brackets;
/// - an enum is its raw text, and `not supported` where that cannot be had;
/// - a record is `null` where it is `NULL`, its fields in round brackets
///   where there is one value for each planned field, and `not supported`
///   in every other case.
///
/// What was read in another shape than the plan asked for counts as a
/// failure to decode.
pub open spec fn cell_text(plan: CellPlanView, decoded: DecodedView) -> Seq<char> {
    match plan {
        CellPlanView::Scalar(ScalarPlanView::Unsupported(text)) => text,
        CellPlanView::Scalar(ScalarPlanView::Decode(_)) => match decoded {
            DecodedView::Scalar(value) => value_text(value),
            _ => null_text(),
        },
        CellPlanView::Array(ScalarPlanView::Unsupported(text)) => text,
        CellPlanView::Array(ScalarPlanView::Decode(_)) => match decoded {
            DecodedView::Array(Some(items)) => array_text(items),
            _ => null_text(),
        },
        CellPlanView::Enum => match decoded {
            DecodedView::Text(text) => text,
            _ => not_supported(),
        },
        CellPlanView::Record(fields) => match decoded {
            DecodedView::Record(None) => null_text(),
            DecodedView::Record(Some(values)) => if values.len() == fields.len() {
                record_text(fields, values)
            } else {
                not_supported()
            },
            _ => not_supported(),
        },
        CellPlanView::Unsupported => not_supported(),
    }
}

/// Writes a decoded value: its string form, or `null`.
pub fn render_value(value: &Option<String>) -> (text: String)
    ensures
        text@ == value_text(value.deep_view()),
{
    match value {
        Some(form) => form.clone(),
        None => String::from_str("null"),
    }
}

/// Writes an array.
pub fn render_array(items: &Vec<Option<String>>) -> (text: String)
    ensures
        text@ == array_text(items.deep_view()),
{
    let mut texts: Vec<String> = Vec::new();
    let mut i: usize = 0;
    while i < items.len()
        invariant
            i <= items.len(),
            texts.len() == i,
            forall|j: int| 0 <= j < i ==> (#[trigger] texts@[j])@ == value_text(items@[j].deep_view()),
        decreases items.len() - i,
    {
        texts.push(render_value(&items[i]));
        i = i + 1;
    }
    proof {
        assert(texts.deep_view() =~= items.deep_view().map_values(
            |item: Option<Seq<char>>| value_text(item),
        ));
    }
    let body = join(&texts, ",");
    let mut text = String::from_str("[");
    text.append(body.as_str());
    text.append("]");
    text
}

fn render_field(field: &FieldPlan, value: &Option<String>) -> (text: String)
    ensures
        text@ == field_text(field.deep_view(), value.deep_view()),
{
    let mut text = field.name.clone();
    text.append(":");
    match &field.plan {
        ScalarPlan::Decode(_) => {
            let form = render_value(value);
            text.append(form.as_str());
        },
        ScalarPlan::Unsupported(instead) => {
            text.append(instead.as_str());
        },
    }
    text
}

fn render_record(fields: &Vec<FieldPlan>, values: &Vec<Option<String>>) -> (text: String)
    requires
        fields.len() == values.len(),
    ensures
        text@ == record_text(fields.deep_view(), values.deep_view()),
{
    let mut texts: Vec<String> = Vec::new();
    let mut i: usize = 0;
    while i < fields.len()
        invariant
            i <= fields.len(),
            fields.len() == values.len(),
            texts.len() == i,
            forall|j: int|
                0 <= j < i ==> (#[trigger] texts@[j])@ == field_text(
                    fields@[j].deep_view(),
                    values@[j].deep_view(),
                ),
        decreases fields.len() - i,
    {
        texts.push(render_field(&fields[i], &values[i]));
        i = i + 1;
    }
    proof {
        assert(texts.deep_view() =~= field_texts(fields.deep_view(), values.deep_view()));
    }
    let body = join(&texts, ",");
    let mut text = String::from_str("(");
    text.append(body.as_str());
    text.append(")");
    text
}

/// Writes the cell that was read by `plan` and gave `decoded`.
pub fn render_cell(plan: &CellPlan, decoded: &Decoded) -> (text: String)
    ensures
        text@ == cell_text(plan.deep_view(), decoded.deep_view()),
{
    match plan {
        CellPlan::Scalar(ScalarPlan::Unsupported(instead)) => instead.clone(),
        CellPlan::Scalar(ScalarPlan::Decode(_)) => match decoded {
            Decoded::Scalar(value) => render_value(value),
            _ => String::from_str("null"),
        },
        CellPlan::Array(ScalarPlan::Unsupported(instead)) => instead.clone(),
        CellPlan::Array(ScalarPlan::Decode(_)) => match decoded {
            Decoded::Array(Some(items)) => render_array(items),
            _ => String::from_str("null"),
        },
        CellPlan::Enum => match decoded {
            Decoded::Text(raw) => raw.clone(),
            _ => String::from_str("not supported"),
        },
        CellPlan::Record(fields) => match decoded {
            Decoded::Record(None) => String::from_str("null"),
            Decoded::Record(Some(values)) => {
                if values.len() == fields.len() {
                    render_record(fields, values)
                } else {
                    String::from_str("not supported")
                }
            },
            _ => String::from_str("not supported"),
        },
        CellPlan::Unsupported => String::from_str("not supported"),
    }
}

/// The place of a native type in the order of the candidates.
pub open spec fn rank(native: NativeType) -> int {
    match native {
        NativeType::Bool => 0,
        NativeType::Text => 1,
        NativeType::Int8 => 2,
        NativeType::Int16 => 3,
        NativeType::Int32 => 4,
        NativeType::Int64 => 5,
        NativeType::Float32 => 6,
        NativeType::Float64 => 7,
        NativeType::Decimal => 8,
        NativeType::Bytes => 9,
        NativeType::Unit => 10,
        NativeType::DateTime => 11,
        NativeType::DateTimeTz => 12,
        NativeType::Date => 13,
        NativeType::Time => 14,
        NativeType::TimeTz => 15,
        NativeType::Uuid => 16,
        NativeType::IpNetwork => 17,
        NativeType::MacAddress => 18,
        NativeType::BitVec => 19,
        NativeType::Json => 20,
    }
}

/// Every native type is a candidate, and a type that accepts several is read
/// as the one that comes first.
pub proof fn law_every_candidate_is_tried(native: NativeType, accepts: Seq<NativeType>)
    requires
        accepts.contains(native),
    ensures
        candidate_order()[rank(native)] == native,
        first_accepted(candidate_order(), accepts) matches Some(chosen) && accepts.contains(chosen)
            && rank(chosen) <= rank(native),
{
    let order = candidate_order();
    lemma_first_accepted(order, accepts);
    assert(order[rank(native)] == native);
    match first_accepted(order, accepts) {
        Some(chosen) => {
            let i = choose|i: int|
                0 <= i < order.len() && #[trigger] order[i] == chosen && accepts.contains(chosen)
                    && forall|j: int| 0 <= j < i ==> !accepts.contains(#[trigger] order[j]);
            assert(rank(order[i]) == i);
            if rank(native) < i {
                assert(!accepts.contains(order[rank(native)]));
            }
        },
        None => {
            assert(!accepts.contains(order[rank(native)]));
        },
    }
}

/// A cell of a simple type never fails. Where a candidate accepts the type,
/// a `NULL` is written `null` and a decoded value is written as its own
/// string form; where none does, the cell names the type and says that it is
/// not supported, whatever was read.
pub proof fn law_simple_cell_is_total(ty: ScalarTypeView, form: Seq<char>, decoded: DecodedView)
    ensures
        first_accepted(candidate_order(), ty.accepts) is Some ==> {
            &&& cell_text(cell_plan(ColumnTypeView::Simple(ty)), DecodedView::Scalar(None))
                == null_text()
            &&& cell_text(cell_plan(ColumnTypeView::Simple(ty)), DecodedView::Scalar(Some(form)))
                == form
        },
        first_accepted(candidate_order(), ty.accepts) is None ==> cell_text(
            cell_plan(ColumnTypeView::Simple(ty)),
            decoded,
        ) == type_not_supported(ty.name),
{
}

/// An array without elements is written as a pair of brackets, and each
/// further element adds a comma and its text.
pub proof fn law_array_text(items: Seq<Option<Seq<char>>>, item: Option<Seq<char>>)
    ensures
        array_text(Seq::empty()) == "[]"@,
        items.len() > 0 ==> array_text(items.push(item)) == array_text(items).drop_last() + ","@
            + value_text(item) + "]"@,
{
    reveal_strlit("[");
    reveal_strlit("]");
    reveal_strlit("[]");
    reveal_strlit(",");
    let none = Seq::<Option<Seq<char>>>::empty();
    assert(none.map_values(|item: Option<Seq<char>>| value_text(item)) =~= Seq::<
        Seq<char>,
    >::empty());
    assert(array_text(none) =~= "[]"@);
    if items.len() > 0 {
        let texts = items.map_values(|item: Option<Seq<char>>| value_text(item));
        crate::text::lemma_joined_push(texts, ","@, value_text(item));
        assert(items.push(item).map_values(|item: Option<Seq<char>>| value_text(item))
            =~= texts.push(value_text(item)));
        assert(array_text(items.push(item)) =~= array_text(items).drop_last() + ","@
            + value_text(item) + "]"@);
    }
}

} // verus!
