//! Request and response envelopes, and the payloads they carry.
//!
//! The byte encoding of these values is settled by the transport; the
//! library only builds and reads them.

use std::collections::HashMap;

use vstd::prelude::*;

use crate::config::{Aggregate, Filter, Sort};
use crate::error::{ClientError, ClientResult};
use crate::table::TableInitOptions;
use crate::view::{Dimensions, OnUpdateMode};

verus! {

/// The type of a column, as the engine reports it.
#[derive(Clone, Copy, Debug, PartialEq, Eq, Structural, Hash)]
pub enum ColumnType {
    String,
    Integer,
    Float,
    Boolean,
    Date,
    Datetime,
}

/// The lower-case name of a column type.
pub open spec fn lower_name(t: ColumnType) -> Seq<char> {
    match t {
        ColumnType::String => "string"@,
        ColumnType::Integer => "integer"@,
        ColumnType::Float => "float"@,
        ColumnType::Boolean => "boolean"@,
        ColumnType::Date => "date"@,
        ColumnType::Datetime => "datetime"@,
    }
}

/// The capitalised name of a column type.
pub open spec fn capitalized_name(t: ColumnType) -> Seq<char> {
    match t {
        ColumnType::String => "String"@,
        ColumnType::Integer => "Integer"@,
        ColumnType::Float => "Float"@,
        ColumnType::Boolean => "Boolean"@,
        ColumnType::Date => "Date"@,
        ColumnType::Datetime => "Datetime"@,
    }
}

/// The column type whose lower-case name is `s`, if there is one.
pub open spec fn type_of_name(s: Seq<char>) -> Option<ColumnType> {
    if s == "string"@ {
        Some(ColumnType::String)
    } else if s == "integer"@ {
        Some(ColumnType::Integer)
    } else if s == "float"@ {
        Some(ColumnType::Float)
    } else if s == "boolean"@ {
        Some(ColumnType::Boolean)
    } else if s == "date"@ {
        Some(ColumnType::Date)
    } else if s == "datetime"@ {
        Some(ColumnType::Datetime)
    } else {
        None
    }
}

/// String equality on `&str`, through owned copies.
pub fn str_eq(a: &str, b: &str) -> (r: bool)
    ensures
        r == (a@ == b@),
{
    let x = a.to_string();
    let y = b.to_string();
    x == y
}

impl ColumnType {
    /// The lower-case name, as the engine spells it in a schema.
    pub fn to_string(&self) -> (r: String)
        ensures
            r@ == lower_name(*self),
    {
        match self {
            ColumnType::String => "string".to_string(),
            ColumnType::Integer => "integer".to_string(),
            ColumnType::Float => "float".to_string(),
            ColumnType::Boolean => "boolean".to_string(),
            ColumnType::Date => "date".to_string(),
            ColumnType::Datetime => "datetime".to_string(),
        }
    }

    pub fn to_capitalized(&self) -> (r: String)
        ensures
            r@ == capitalized_name(*self),
    {
        match self {
            ColumnType::String => "String".to_string(),
            ColumnType::Datetime => "Datetime".to_string(),
            ColumnType::Date => "Date".to_string(),
            ColumnType::Integer => "Integer".to_string(),
            ColumnType::Float => "Float".to_string(),
            ColumnType::Boolean => "Boolean".to_string(),
        }
    }

    /// Reads a lower-case type name; `None` for any other text.
    pub fn from_name(val: &str) -> (r: Option<ColumnType>)
        ensures
            r == type_of_name(val@),
    {
        if str_eq(val, "string") {
            Some(ColumnType::String)
        } else if str_eq(val, "integer") {
            Some(ColumnType::Integer)
        } else if str_eq(val, "float") {
            Some(ColumnType::Float)
        } else if str_eq(val, "boolean") {
            Some(ColumnType::Boolean)
        } else if str_eq(val, "date") {
            Some(ColumnType::Date)
        } else if str_eq(val, "datetime") {
            Some(ColumnType::Datetime)
        } else {
            None
        }
    }
}

/// Whether no two entries carry the same column name.
pub open spec fn distinct_names<T>(entries: Seq<(String, T)>) -> bool {
    forall|i: int, j: int| 0 <= i < j < entries.len() ==> #[trigger] entries[i].0@ != #[trigger] entries[j].0@
}

/// Reads a schema given as column names with type names, in order. Every
/// type name must name a column type, and no column may be named twice;
/// the first entry that breaks either rule is reported.
pub fn parse_schema(entries: &Vec<(String, String)>) -> (r: ClientResult<Vec<(String, ColumnType)>>)
    ensures
        r is Ok <==> (forall|i: int| 0 <= i < entries@.len() ==> (#[trigger] lower_type_of(entries@[i])) is Some)
            && distinct_names(entries@),
        r matches Ok(schema) ==> {
            &&& schema@.len() == entries@.len()
            &&& distinct_names(schema@)
            &&& forall|i: int|
                0 <= i < entries@.len() ==> #[trigger] schema@[i].0 == entries@[i].0 && Some(schema@[i].1)
                    == lower_type_of(entries@[i])
        },
        r matches Err(e) ==> (exists|i: int|
            0 <= i < entries@.len() && (#[trigger] lower_type_of(entries@[i])) is None && e
                == ClientError::UnknownColumnType(entries@[i].1)) || (exists|i: int, j: int|
            0 <= i < j < entries@.len() && #[trigger] entries@[i].0@ == #[trigger] entries@[j].0@ && e
                == ClientError::DuplicateColumn(entries@[j].0)),
{
    let mut schema: Vec<(String, ColumnType)> = Vec::new();
    let mut i: usize = 0;
    while i < entries.len()
        invariant
            i <= entries@.len(),
            schema@.len() == i,
            forall|j: int| 0 <= j < i ==> (#[trigger] lower_type_of(entries@[j])) is Some,
            forall|j: int|
                0 <= j < i ==> #[trigger] schema@[j].0 == entries@[j].0 && Some(schema@[j].1)
                    == lower_type_of(entries@[j]),
            forall|a: int, b: int| 0 <= a < b < i ==> #[trigger] entries@[a].0@ != #[trigger] entries@[b].0@,
        decreases entries@.len() - i,
    {
        let entry = &entries[i];
        let mut k: usize = 0;
        while k < i
            invariant
                k <= i < entries@.len(),
                entry == entries@[i as int],
                forall|a: int| 0 <= a < k ==> #[trigger] entries@[a].0@ != entries@[i as int].0@,
            decreases i - k,
        {
            if entries[k].0 == entry.0 {
                return Err(ClientError::DuplicateColumn(entry.0.clone()));
            }
            k = k + 1;
        }
        match ColumnType::from_name(entry.1.as_str()) {
            Some(t) => {
                schema.push((entry.0.clone(), t));
                assert(schema@[i as int].0 == entries@[i as int].0);
            },
            None => {
                let e = ClientError::UnknownColumnType(entry.1.clone());
                assert(lower_type_of(entries@[i as int]) is None);
                return Err(e);
            },
        }
        i = i + 1;
    }
    assert forall|a: int, b: int| 0 <= a < b < schema@.len() implies #[trigger] schema@[a].0@ != #[trigger] schema@[b].0@ by {
        assert(schema@[a].0 == entries@[a].0);
        assert(schema@[b].0 == entries@[b].0);
    }
    Ok(schema)
}

/// The column type that an entry's type name names.
pub open spec fn lower_type_of(entry: (String, String)) -> Option<ColumnType> {
    type_of_name(entry.1@)
}

/// Which kind of resource a request addresses.
#[derive(Clone, Copy, Debug, PartialEq, Eq, Structural)]
pub enum EntityType {
    Table,
    View,
}

/// Column types by column name, as the engine reports them.
pub type Schema = HashMap<String, ColumnType>;

/// The input a table is made from, or that updates it, as it travels.
#[derive(Clone, Debug, PartialEq)]
pub enum MakeTableData {
    FromSchema(Vec<(String, ColumnType)>),
    FromCsv(String),
    FromArrow(Vec<u8>),
    FromRows(String),
    FromCols(String),
    FromView(String),
}

/// The region of a view that a data request reads.
#[derive(Clone, Copy, Debug, PartialEq, Eq, Structural, Default)]
pub struct ViewPort {
    pub start_row: Option<u32>,
    pub start_col: Option<u32>,
    pub end_row: Option<u32>,
    pub end_col: Option<u32>,
}

/// The visible columns of a view configuration, as they travel.
#[derive(Clone, Debug, PartialEq)]
pub enum ColumnsUpdate {
    Columns(Vec<String>),
    DefaultColumns,
}

/// A view configuration as it travels.
#[derive(Clone, Debug, PartialEq)]
pub struct ViewConfig {
    pub group_by: Vec<String>,
    pub split_by: Vec<String>,
    pub columns: Option<ColumnsUpdate>,
    pub filter: Vec<Filter>,
    pub sort: Vec<Sort>,
    pub expressions: HashMap<String, String>,
    pub aggregates: HashMap<String, Aggregate>,
}

/// Why one expression failed to validate.
#[derive(Clone, Debug, PartialEq)]
pub struct ExprValidationError {
    pub error_message: String,
    pub line: u32,
    pub column: u32,
}

/// The operation a request asks for.
#[allow(inconsistent_fields)]
#[derive(Clone, Debug, PartialEq)]
pub enum ClientReq {
    MakeTableReq { data: MakeTableData, options: Option<TableInitOptions> },
    TableClearReq,
    TableDeleteReq,
    TableColumnsReq,
    TableSizeReq,
    TableSchemaReq,
    TableMakePortReq,
    TableOnDeleteReq,
    TableRemoveDeleteReq { id: u32 },
    TableRemoveReq { data: MakeTableData },
    TableReplaceReq { data: MakeTableData },
    TableUpdateReq { data: MakeTableData, port_id: u32 },
    TableValidateExprReq { column_to_expr: HashMap<String, String> },
    TableMakeViewReq { view_id: String, config: Option<ViewConfig> },
    ViewColumnPathsReq,
    ViewDimensionsReq,
    ViewExpressionSchemaReq,
    ViewGetConfigReq,
    ViewNumRowsReq,
    ViewSchemaReq,
    ViewToArrowReq { viewport: ViewPort },
    ViewToColumnsStringReq {
        viewport: ViewPort,
        id: Option<bool>,
        index: Option<bool>,
        formatted: Option<bool>,
        leaves_only: Option<bool>,
    },
    ViewToRowsStringReq {
        viewport: ViewPort,
        id: Option<bool>,
        index: Option<bool>,
        formatted: Option<bool>,
        leaves_only: Option<bool>,
    },
    ViewToCsvReq { viewport: ViewPort },
    ViewDeleteReq,
    ViewGetMinMaxReq { column_name: String },
    ViewOnUpdateReq { mode: Option<OnUpdateMode> },
    ViewOnDeleteReq,
    ViewRemoveDeleteReq { id: u32 },
}

/// What the engine answers, or the event it emits.
#[allow(inconsistent_fields)]
#[derive(Clone, Debug, PartialEq)]
pub enum ClientResp {
    MakeTableResp,
    TableClearResp,
    TableDeleteResp,
    TableColumnsResp { columns: Vec<String> },
    TableSizeResp { size: u32 },
    TableSchemaResp { schema: Schema },
    TableMakePortResp { port_id: u32 },
    TableOnDeleteResp,
    TableRemoveDeleteResp,
    TableRemoveResp,
    TableReplaceResp,
    TableUpdateResp,
    TableValidateExprResp {
        expression_schema: Schema,
        errors: HashMap<String, ExprValidationError>,
        expression_alias: HashMap<String, String>,
    },
    TableMakeViewResp { view_id: String },
    ViewColumnPathsResp { paths: Vec<String> },
    ViewDimensionsResp { dimensions: Dimensions },
    ViewExpressionSchemaResp { schema: Schema },
    ViewGetConfigResp { config: Option<ViewConfig> },
    ViewNumRowsResp { num_rows: u32 },
    ViewSchemaResp { schema: Schema },
    ViewToArrowResp { arrow: Vec<u8> },
    ViewToColumnsStringResp { json_string: String },
    ViewToRowsStringResp { json_string: String },
    ViewToCsvResp { csv: String },
    ViewDeleteResp,
    ViewGetMinMaxResp { min: String, max: String },
    ViewOnUpdateResp { arrow: Option<Vec<u8>>, port_id: u32 },
    ViewOnDeleteResp,
    ViewRemoveDeleteResp,
    /// The engine could not carry out the request.
    ServerError { message: String },
}

/// A request: the operation, the resource it addresses, and the
/// correlation id its answer will carry.
#[derive(Clone, Debug, PartialEq)]
pub struct RequestEnvelope {
    pub msg_id: u32,
    pub entity_id: String,
    pub entity_type: EntityType,
    pub payload: ClientReq,
}

/// A response: the correlation id of the request it answers (0 for the
/// initial handshake) and its payload, which a malformed envelope lacks.
#[derive(Clone, Debug, PartialEq)]
pub struct ResponseEnvelope {
    pub msg_id: u32,
    pub payload: Option<ClientResp>,
}

/// The encoded responses that the engine hands back for one request, in
/// the order it produced them.
#[derive(Clone, Debug, PartialEq)]
pub struct ResponseBatch(pub Vec<Vec<u8>>);

impl ResponseBatch {
    pub fn push_response(&mut self, resp: Vec<u8>)
        ensures
            final(self).0@ == old(self).0@.push(resp),
    {
        self.0.push(resp);
    }

    /// The responses gathered so far.
    pub fn responses(&self) -> (r: &Vec<Vec<u8>>)
        ensures
            r@ == self.0@,
    {
        &self.0
    }
}

pub fn create_response_batch() -> (r: Box<ResponseBatch>)
    ensures
        r.0@.len() == 0,
{
    Box::new(ResponseBatch(Vec::new()))
}

/// Whether `resp` is the answer that the request `req` calls for: the
/// response variant of the same operation; for a new view, one that names
/// the view asked for; for a configuration request, one that holds a
/// configuration. An error payload answers no request.
pub open spec fn answers(req: ClientReq, resp: ClientResp) -> bool {
    match req {
        ClientReq::TableMakeViewReq { view_id, .. } => match resp {
            ClientResp::TableMakeViewResp { view_id: v } => v@ == view_id@,
            _ => false,
        },
        ClientReq::ViewGetConfigReq => match resp {
            ClientResp::ViewGetConfigResp { config } => config is Some,
            _ => false,
        },
        ClientReq::MakeTableReq { .. } => resp is MakeTableResp,
        ClientReq::TableClearReq => resp is TableClearResp,
        ClientReq::TableDeleteReq => resp is TableDeleteResp,
        ClientReq::TableColumnsReq => resp is TableColumnsResp,
        ClientReq::TableSizeReq => resp is TableSizeResp,
        ClientReq::TableSchemaReq => resp is TableSchemaResp,
        ClientReq::TableMakePortReq => resp is TableMakePortResp,
        ClientReq::TableOnDeleteReq => resp is TableOnDeleteResp,
        ClientReq::TableRemoveDeleteReq { .. } => resp is TableRemoveDeleteResp,
        ClientReq::TableRemoveReq { .. } => resp is TableRemoveResp,
        ClientReq::TableReplaceReq { .. } => resp is TableReplaceResp,
        ClientReq::TableUpdateReq { .. } => resp is TableUpdateResp,
        ClientReq::TableValidateExprReq { .. } => resp is TableValidateExprResp,
        ClientReq::ViewColumnPathsReq => resp is ViewColumnPathsResp,
        ClientReq::ViewDimensionsReq => resp is ViewDimensionsResp,
        ClientReq::ViewExpressionSchemaReq => resp is ViewExpressionSchemaResp,
        ClientReq::ViewNumRowsReq => resp is ViewNumRowsResp,
        ClientReq::ViewSchemaReq => resp is ViewSchemaResp,
        ClientReq::ViewToArrowReq { .. } => resp is ViewToArrowResp,
        ClientReq::ViewToColumnsStringReq { .. } => resp is ViewToColumnsStringResp,
        ClientReq::ViewToRowsStringReq { .. } => resp is ViewToRowsStringResp,
        ClientReq::ViewToCsvReq { .. } => resp is ViewToCsvResp,
        ClientReq::ViewDeleteReq => resp is ViewDeleteResp,
        ClientReq::ViewGetMinMaxReq { .. } => resp is ViewGetMinMaxResp,
        ClientReq::ViewOnUpdateReq { .. } => resp is ViewOnUpdateResp,
        ClientReq::ViewOnDeleteReq => resp is ViewOnDeleteResp,
        ClientReq::ViewRemoveDeleteReq { .. } => resp is ViewRemoveDeleteResp,
    }
}

/// Whatever the request, a response that reports a remote failure does not
/// answer it: an operation on a resource that the engine no longer holds
/// (a deleted table or view) comes back to its caller as that failure,
/// carrying the engine's message.
pub proof fn lemma_server_error_answers_nothing(req: ClientReq, message: String)
    ensures
        !answers(req, ClientResp::ServerError { message }),
        crate::error::response_error(ClientResp::ServerError { message })
            == crate::error::ClientError::ServerError(message),
{
}

} // verus!
