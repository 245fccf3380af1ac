//! The `Table` handle: a dataset held by the engine, changed and read
//! through a client.

use std::collections::HashMap;

use vstd::prelude::*;

use crate::client::{after_gen_id, is_fresh, is_url_safe, new_entity_name, table_data_message, Client, TableData};
use crate::config::{is_message_of, ViewConfigUpdate};

use crate::error::{response_error, ClientError, ClientResult};
use crate::proto::{answers, ClientReq, ClientResp, EntityType, ExprValidationError, MakeTableData, RequestEnvelope, Schema};

verus! {

/// Options fixed when a table is made: an index column, whose value decides
/// whether an incoming row inserts or updates, or a row limit, past which the
/// earliest rows are overwritten.
#[derive(Clone, Debug, PartialEq)]
pub enum TableInitOptions {
    Index { index: String },
    Limit { limit: u32 },
}

impl TableInitOptions {
    /// The creation options for a row limit or an index column; a table
    /// cannot have both.
    pub fn from_limit_index(limit: Option<u32>, index: Option<String>) -> (r: ClientResult<Option<TableInitOptions>>)
        ensures
            r is Err <==> (limit is Some && index is Some),
            r is Err ==> (r matches Err(ClientError::Internal(m)) && m@ == "Cannot set both `limit` and `index`"@),
            limit is None ==> match index {
                Some(i) => r == Ok::<Option<TableInitOptions>, ClientError>(Some(TableInitOptions::Index { index: i })),
                None => r == Ok::<Option<TableInitOptions>, ClientError>(None),
            },
            index is None ==> match limit {
                Some(l) => r == Ok::<Option<TableInitOptions>, ClientError>(Some(TableInitOptions::Limit { limit: l })),
                None => r == Ok::<Option<TableInitOptions>, ClientError>(None),
            },
    {
        match (limit, index) {
            (None, None) => Ok(None),
            (None, Some(index)) => Ok(Some(TableInitOptions::Index { index })),
            (Some(limit), None) => Ok(Some(TableInitOptions::Limit { limit })),
            (Some(_), Some(_)) => Err(ClientError::Internal("Cannot set both `limit` and `index`".to_string())),
        }
    }
}

#[derive(Clone, Debug, PartialEq, Default)]
pub struct UpdateOptions {
    pub format: Option<String>,
    pub port_id: Option<u32>,
}

#[derive(Clone, Debug, PartialEq)]
pub struct ValidateExpressionsData {
    pub expression_schema: Schema,
    pub errors: HashMap<String, ExprValidationError>,
    pub expression_alias: HashMap<String, String>,
}

#[derive(Clone, Debug, PartialEq)]
pub struct Table {
    name: String,
    options: Option<TableInitOptions>,
}

/// Whether an input can change an existing table: a schema or a view can
/// only make one.
pub open spec fn is_row_data(input: TableData) -> bool {
    !(input is Schema) && !(input is View)
}

/// The payload of a request that changes a table with `input`, or the
/// local error that refuses it (its text names the operation).
pub fn row_data(input: TableData, schema_err: &str, view_err: &str) -> (r: ClientResult<MakeTableData>)
    ensures
        r is Ok <==> is_row_data(input),
        is_row_data(input) ==> r == Ok::<MakeTableData, ClientError>(table_data_message(input)),
        input is Schema ==> (r matches Err(ClientError::Internal(m)) && m@ == schema_err@),
        input is View ==> (r matches Err(ClientError::Internal(m)) && m@ == view_err@),
{
    match input {
        TableData::Schema(_) => Err(ClientError::Internal(schema_err.to_string())),
        TableData::View(_) => Err(ClientError::Internal(view_err.to_string())),
        other => Ok(MakeTableData::from(other)),
    }
}

impl Table {
    /// The name under which the engine holds the table.
    pub closed spec fn spec_name(&self) -> Seq<char> {
        self.name@
    }

    pub closed spec fn spec_options(&self) -> Option<TableInitOptions> {
        self.options
    }

    pub fn new(name: String, options: Option<TableInitOptions>) -> (r: Table)
        ensures
            r.spec_name() == name@,
            r.spec_options() == options,
    {
        Table { name, options }
    }

    /// The handle for the table made by the request named `name`, once the
    /// engine has answered it.
    pub fn from_response(name: String, options: Option<TableInitOptions>, resp: ClientResp) -> (r: ClientResult<Table>)
        ensures
            r is Ok <==> resp is MakeTableResp,
            forall|data: MakeTableData, o: Option<TableInitOptions>|
                #[trigger] answers(ClientReq::MakeTableReq { data, options: o }, resp) <==> r is Ok,
            r matches Ok(t) ==> t.spec_name() == name@ && t.spec_options() == options,
            r is Err ==> r == Err::<Table, ClientError>(response_error(resp)),
    {
        match resp {
            ClientResp::MakeTableResp => Ok(Table::new(name, options)),
            other => Err(ClientError::from_response(other)),
        }
    }

    pub fn get_name(&self) -> (r: String)
        ensures
            r@ == self.spec_name(),
    {
        self.name.clone()
    }

    pub fn get_index(&self) -> (r: Option<String>)
        ensures
            r == match self.spec_options() {
                Some(TableInitOptions::Index { index }) => Some(index),
                _ => None::<String>,
            },
    {
        if let Some(TableInitOptions::Index { index }) = &self.options {
            Some(index.clone())
        } else {
            None
        }
    }

    pub fn get_limit(&self) -> (r: Option<u32>)
        ensures
            r == match self.spec_options() {
                Some(TableInitOptions::Limit { limit }) => Some(limit),
                _ => None::<u32>,
            },
    {
        if let Some(TableInitOptions::Limit { limit }) = &self.options {
            Some(*limit)
        } else {
            None
        }
    }

    /// An envelope addressing this table, under a fresh correlation id.
    pub fn client_message<O, M>(&self, client: &mut Client<O, M>, req: ClientReq) -> (r: ClientResult<RequestEnvelope>)
        requires
            old(client).wf(),
        ensures
            final(client).wf(),
            final(client).once_handlers() == old(client).once_handlers(),
            final(client).many_handlers() == old(client).many_handlers(),
            r is Ok <==> old(client).next_id() <= u32::MAX,
            match r {
                Ok(msg) => {
                    &&& msg.msg_id == old(client).next_id()
                    &&& final(client).model() == after_gen_id(old(client).model())
                    &&& is_fresh(final(client).model(), msg.msg_id)
                    &&& msg.entity_id@ == self.spec_name()
                    &&& msg.entity_type == EntityType::Table
                    &&& msg.payload == req
                },
                Err(e) => {
                    &&& e == ClientError::IdsExhausted
                    &&& final(client).model() == old(client).model()
                },
            },
    {
        let msg_id = client.gen_id()?;
        Ok(RequestEnvelope { msg_id, entity_id: self.name.clone(), entity_type: EntityType::Table, payload: req })
    }

    /// The request that removes the rows of `input` (matched by index).
    /// A schema or a view is refused before anything is sent.
    pub fn remove_request<O, M>(&self, client: &mut Client<O, M>, input: TableData) -> (r: ClientResult<RequestEnvelope>)
        requires
            old(client).wf(),
        ensures
            final(client).wf(),
            !is_row_data(input) ==> *final(client) == *old(client),
            input is Schema ==> (r matches Err(ClientError::Internal(m)) && m@ == "Can't `remove()` from Schema"@),
            input is View ==> (r matches Err(ClientError::Internal(m)) && m@ == "Can't `remove()` from View"@),
            is_row_data(input) ==> (r is Ok <==> old(client).next_id() <= u32::MAX),
            is_row_data(input) ==> match r {
                Ok(msg) => {
                    &&& msg.msg_id == old(client).next_id()
                    &&& final(client).model() == after_gen_id(old(client).model())
                    &&& msg.entity_id@ == self.spec_name()
                    &&& msg.entity_type == EntityType::Table
                    &&& msg.payload == (ClientReq::TableRemoveReq { data: table_data_message(input) })
                },
                Err(e) => e == ClientError::IdsExhausted && final(client).model() == old(client).model(),
            },
    {
        let data = row_data(input, "Can't `remove()` from Schema", "Can't `remove()` from View")?;
        self.client_message(client, ClientReq::TableRemoveReq { data })
    }

    /// The request that replaces every row with `input`. A schema or a view
    /// is refused before anything is sent.
    pub fn replace_request<O, M>(&self, client: &mut Client<O, M>, input: TableData) -> (r: ClientResult<RequestEnvelope>)
        requires
            old(client).wf(),
        ensures
            final(client).wf(),
            !is_row_data(input) ==> *final(client) == *old(client),
            input is Schema ==> (r matches Err(ClientError::Internal(m)) && m@ == "Can't `replace()` from Schema"@),
            input is View ==> (r matches Err(ClientError::Internal(m)) && m@ == "Can't `replace()` from View"@),
            is_row_data(input) ==> (r is Ok <==> old(client).next_id() <= u32::MAX),
            is_row_data(input) ==> match r {
                Ok(msg) => {
                    &&& msg.msg_id == old(client).next_id()
                    &&& final(client).model() == after_gen_id(old(client).model())
                    &&& msg.entity_id@ == self.spec_name()
                    &&& msg.entity_type == EntityType::Table
                    &&& msg.payload == (ClientReq::TableReplaceReq { data: table_data_message(input) })
                },
                Err(e) => e == ClientError::IdsExhausted && final(client).model() == old(client).model(),
            },
    {
        let data = row_data(input, "Can't `replace()` from Schema", "Can't `replace()` from View")?;
        self.client_message(client, ClientReq::TableReplaceReq { data })
    }

    /// The request that adds or updates the rows of `input`, through the
    /// port of `options` (port 0 when none is named). A schema or a view is
    /// refused before anything is sent, so the table is left as it was.
    pub fn update_request<O, M>(&self, client: &mut Client<O, M>, input: TableData, options: UpdateOptions) -> (r: ClientResult<RequestEnvelope>)
        requires
            old(client).wf(),
        ensures
            final(client).wf(),
            !is_row_data(input) ==> *final(client) == *old(client),
            input is Schema ==> (r matches Err(ClientError::Internal(m)) && m@ == "Can't `update()` from Schema"@),
            input is View ==> (r matches Err(ClientError::Internal(m)) && m@ == "Can't `update()` from View"@),
            is_row_data(input) ==> (r is Ok <==> old(client).next_id() <= u32::MAX),
            is_row_data(input) ==> match r {
                Ok(msg) => {
                    &&& msg.msg_id == old(client).next_id()
                    &&& final(client).model() == after_gen_id(old(client).model())
                    &&& msg.entity_id@ == self.spec_name()
                    &&& msg.entity_type == EntityType::Table
                    &&& msg.payload == (ClientReq::TableUpdateReq {
                        data: table_data_message(input),
                        port_id: match options.port_id { Some(p) => p, None => 0 },
                    })
                },
                Err(e) => e == ClientError::IdsExhausted && final(client).model() == old(client).model(),
            },
    {
        let data = row_data(input, "Can't `update()` from Schema", "Can't `update()` from View")?;
        let port_id = match options.port_id {
            Some(p) => p,
            None => 0,
        };
        self.client_message(client, ClientReq::TableUpdateReq { data, port_id })
    }

    /// Reads the outcome of validating expressions: their types, the
    /// errors of those that failed, and their aliases.
    pub fn validate_expressions_result(resp: ClientResp) -> (r: ClientResult<ValidateExpressionsData>)
        ensures
            forall|c: HashMap<String, String>|
                #[trigger] answers(ClientReq::TableValidateExprReq { column_to_expr: c }, resp) <==> r is Ok,
            r == match resp {
                ClientResp::TableValidateExprResp { expression_schema, errors, expression_alias } => Ok(
                    ValidateExpressionsData { expression_schema, errors, expression_alias },
                ),
                _ => Err(response_error(resp)),
            },
    {
        match resp {
            ClientResp::TableValidateExprResp { expression_schema, errors, expression_alias } => Ok(
                ValidateExpressionsData { expression_schema, errors, expression_alias },
            ),
            other => Err(ClientError::from_response(other)),
        }
    }

    /// The request that makes a view of this table, under a fresh name that
    /// the client picks, configured by `config` over the defaults.
    pub fn view_request<O, M>(&self, client: &mut Client<O, M>, config: Option<ViewConfigUpdate>) -> (r: ClientResult<RequestEnvelope>)
        requires
            old(client).wf(),
        ensures
            final(client).wf(),
            final(client).once_handlers() == old(client).once_handlers(),
            final(client).many_handlers() == old(client).many_handlers(),
            r is Ok <==> old(client).next_id() <= u32::MAX,
            match r {
                Ok(msg) => {
                    &&& msg.msg_id == old(client).next_id()
                    &&& final(client).model() == after_gen_id(old(client).model())
                    &&& is_fresh(final(client).model(), msg.msg_id)
                    &&& msg.entity_id@ == self.spec_name()
                    &&& msg.entity_type == EntityType::Table
                    &&& match msg.payload {
                        ClientReq::TableMakeViewReq { view_id, config: c } => {
                            &&& view_id@.len() == 21
                            &&& forall|i: int| 0 <= i < view_id@.len() ==> is_url_safe(#[trigger] view_id@[i])
                            &&& match config {
                                None => c is None,
                                Some(u) => c matches Some(m) && is_message_of(u, m),
                            }
                        },
                        _ => false,
                    }
                },
                Err(e) => {
                    &&& e == ClientError::IdsExhausted
                    &&& final(client).model() == old(client).model()
                },
            },
    {
        let view_id = new_entity_name();
        let config = match config {
            Some(u) => Some(u.to_message()),
            None => None,
        };
        let msg_id = client.gen_id()?;
        Ok(
            RequestEnvelope {
                msg_id,
                entity_id: self.name.clone(),
                entity_type: EntityType::Table,
                payload: ClientReq::TableMakeViewReq { view_id, config },
            },
        )
    }

    /// The handle for the view requested under `view_id`, once the engine
    /// has answered; an answer that names another view is refused.
    pub fn view_result(view_id: String, resp: ClientResp) -> (r: ClientResult<crate::view::View>)
        ensures
            forall|c: Option<crate::proto::ViewConfig>|
                #[trigger] answers(ClientReq::TableMakeViewReq { view_id, config: c }, resp) <==> r is Ok,
            r matches Ok(v) ==> v.name@ == view_id@,
            r is Err ==> r == Err::<crate::view::View, ClientError>(response_error(resp)),
    {
        match resp {
            ClientResp::TableMakeViewResp { view_id: answered } => {
                if answered == view_id {
                    Ok(crate::view::View::new(view_id))
                } else {
                    Err(ClientError::from_response(ClientResp::TableMakeViewResp { view_id: answered }))
                }
            },
            other => Err(ClientError::from_response(other)),
        }
    }

    /// Reads the answer to a clear request.
    pub fn clear_result(resp: ClientResp) -> (r: ClientResult<()>)
        ensures
            r is Ok <==> answers(ClientReq::TableClearReq, resp),
            r == match resp {
                ClientResp::TableClearResp => Ok(()),
                _ => Err(response_error(resp)),
            },
    {
        match resp {
            ClientResp::TableClearResp => Ok(()),
            other => Err(ClientError::from_response(other)),
        }
    }

    /// Reads the answer to a delete request; after it, the table is gone.
    pub fn delete_result(resp: ClientResp) -> (r: ClientResult<()>)
        ensures
            r is Ok <==> answers(ClientReq::TableDeleteReq, resp),
            r == match resp {
                ClientResp::TableDeleteResp => Ok(()),
                _ => Err(response_error(resp)),
            },
    {
        match resp {
            ClientResp::TableDeleteResp => Ok(()),
            other => Err(ClientError::from_response(other)),
        }
    }

    /// Reads the column names of the table.
    pub fn columns_result(resp: ClientResp) -> (r: ClientResult<Vec<String>>)
        ensures
            r is Ok <==> answers(ClientReq::TableColumnsReq, resp),
            r == match resp {
                ClientResp::TableColumnsResp { columns } => Ok(columns),
                _ => Err(response_error(resp)),
            },
    {
        match resp {
            ClientResp::TableColumnsResp { columns } => Ok(columns),
            other => Err(ClientError::from_response(other)),
        }
    }

    /// Reads the number of rows of the table.
    pub fn size_result(resp: ClientResp) -> (r: ClientResult<usize>)
        ensures
            r is Ok <==> answers(ClientReq::TableSizeReq, resp),
            r == match resp {
                ClientResp::TableSizeResp { size } => Ok(size as usize),
                _ => Err(response_error(resp)),
            },
    {
        match resp {
            ClientResp::TableSizeResp { size } => Ok(size as usize),
            other => Err(ClientError::from_response(other)),
        }
    }

    /// Reads the schema of the table.
    pub fn schema_result(resp: ClientResp) -> (r: ClientResult<Schema>)
        ensures
            r is Ok <==> answers(ClientReq::TableSchemaReq, resp),
            r == match resp {
                ClientResp::TableSchemaResp { schema } => Ok(schema),
                _ => Err(response_error(resp)),
            },
    {
        match resp {
            ClientResp::TableSchemaResp { schema } => Ok(schema),
            other => Err(ClientError::from_response(other)),
        }
    }

    /// Reads the id of a new input port.
    pub fn make_port_result(resp: ClientResp) -> (r: ClientResult<i32>)
        ensures
            r is Ok <==> answers(ClientReq::TableMakePortReq, resp),
            r == match resp {
                ClientResp::TableMakePortResp { port_id } => Ok(port_id as i32),
                _ => Err(response_error(resp)),
            },
    {
        match resp {
            ClientResp::TableMakePortResp { port_id } => Ok(port_id as i32),
            other => Err(ClientError::from_response(other)),
        }
    }

    /// Reads the event an `on_delete` subscriber receives.
    pub fn on_delete_event(resp: ClientResp) -> (r: ClientResult<()>)
        ensures
            r is Ok <==> answers(ClientReq::TableOnDeleteReq, resp),
            r == match resp {
                ClientResp::TableOnDeleteResp => Ok(()),
                _ => Err(response_error(resp)),
            },
    {
        match resp {
            ClientResp::TableOnDeleteResp => Ok(()),
            other => Err(ClientError::from_response(other)),
        }
    }

    /// Reads the answer to the removal of an `on_delete` subscriber.
    pub fn remove_delete_result(resp: ClientResp) -> (r: ClientResult<()>)
        ensures
            forall|id: u32| #[trigger] answers(ClientReq::TableRemoveDeleteReq { id }, resp) <==> r is Ok,
            r == match resp {
                ClientResp::TableRemoveDeleteResp => Ok(()),
                _ => Err(response_error(resp)),
            },
    {
        match resp {
            ClientResp::TableRemoveDeleteResp => Ok(()),
            other => Err(ClientError::from_response(other)),
        }
    }

    /// Reads the answer to a row removal.
    pub fn remove_result(resp: ClientResp) -> (r: ClientResult<()>)
        ensures
            forall|data: MakeTableData| #[trigger] answers(ClientReq::TableRemoveReq { data }, resp) <==> r is Ok,
            r == match resp {
                ClientResp::TableRemoveResp => Ok(()),
                _ => Err(response_error(resp)),
            },
    {
        match resp {
            ClientResp::TableRemoveResp => Ok(()),
            other => Err(ClientError::from_response(other)),
        }
    }

    /// Reads the answer to a replace request.
    pub fn replace_result(resp: ClientResp) -> (r: ClientResult<()>)
        ensures
            forall|data: MakeTableData| #[trigger] answers(ClientReq::TableReplaceReq { data }, resp) <==> r is Ok,
            r == match resp {
                ClientResp::TableReplaceResp => Ok(()),
                _ => Err(response_error(resp)),
            },
    {
        match resp {
            ClientResp::TableReplaceResp => Ok(()),
            other => Err(ClientError::from_response(other)),
        }
    }

    /// Reads the answer to an update request.
    pub fn update_result(resp: ClientResp) -> (r: ClientResult<()>)
        ensures
            forall|data: MakeTableData, port_id: u32| #[trigger] answers(ClientReq::TableUpdateReq { data, port_id }, resp) <==> r is Ok,
            r == match resp {
                ClientResp::TableUpdateResp => Ok(()),
                _ => Err(response_error(resp)),
            },
    {
        match resp {
            ClientResp::TableUpdateResp => Ok(()),
            other => Err(ClientError::from_response(other)),
        }
    }
}

} // verus!
