//! The `View` handle: a projection over a table, queried through a client.

use vstd::prelude::*;
use vstd::view::View as _;

use crate::client::{after_gen_id, after_unsubscribe, is_fresh, Client};
use crate::config::{is_config_of, ViewConfig};
use crate::error::{response_error, ClientError, ClientResult};
use crate::proto::{answers, str_eq, ClientReq, ClientResp, EntityType, RequestEnvelope, Schema, ViewPort};

verus! {

/// How row updates are reported to an `on_update` subscriber.
#[derive(Clone, Copy, Debug, PartialEq, Eq, Structural)]
pub enum OnUpdateMode {
    Row,
}

#[derive(Clone, Copy, Debug, PartialEq, Eq, Structural)]
pub struct OnUpdateOptions {
    pub mode: Option<OnUpdateMode>,
}

#[derive(Clone, Copy, Debug, PartialEq, Eq, Structural)]
pub struct Dimensions {
    pub num_view_rows: usize,
    pub num_view_columns: usize,
    pub num_table_rows: usize,
    pub num_table_columns: usize,
}

/// The region, and the serialisation flags, of a data request.
#[derive(Clone, Copy, Debug, PartialEq, Eq, Structural, Default)]
pub struct ViewWindow {
    pub start_row: Option<u32>,
    pub start_col: Option<u32>,
    pub end_row: Option<u32>,
    pub end_col: Option<u32>,
    pub id: Option<bool>,
    pub index: Option<bool>,
    pub leaves_only: Option<bool>,
    pub formatted: Option<bool>,
}

/// A handle on a view: its name, under which the engine knows it.
#[derive(Clone, Debug, PartialEq)]
pub struct View {
    pub name: String,
}

impl View {
    pub fn new(name: String) -> (r: View)
        ensures
            r.name == name,
    {
        View { name }
    }
}

/// The region of the data that a window selects.
pub open spec fn viewport_of(w: ViewWindow) -> ViewPort {
    ViewPort { start_row: w.start_row, start_col: w.start_col, end_row: w.end_row, end_col: w.end_col }
}

impl ViewWindow {
    pub fn viewport(&self) -> (r: ViewPort)
        ensures
            r == viewport_of(*self),
    {
        ViewPort { start_row: self.start_row, start_col: self.start_col, end_row: self.end_row, end_col: self.end_col }
    }
}

impl OnUpdateMode {
    /// Reads a mode name; "row" is the only one.
    pub fn parse(s: &str) -> (r: ClientResult<OnUpdateMode>)
        ensures
            r is Ok <==> s@ == "row"@,
            r is Ok ==> r == Ok::<OnUpdateMode, ClientError>(OnUpdateMode::Row),
            r is Err ==> r == Err::<OnUpdateMode, ClientError>(ClientError::Malformed),
    {
        if str_eq(s, "row") {
            Ok(OnUpdateMode::Row)
        } else {
            Err(ClientError::Malformed)
        }
    }
}

impl View {
    /// An envelope addressing this view, under a fresh correlation id.
    pub fn client_message<O, M>(&self, client: &mut Client<O, M>, req: ClientReq) -> (r: ClientResult<RequestEnvelope>)
        requires
            old(client).wf(),
        ensures
            final(client).wf(),
            final(client).once_handlers() == old(client).once_handlers(),
            final(client).many_handlers() == old(client).many_handlers(),
            r is Ok <==> old(client).next_id() <= u32::MAX,
            match r {
                Ok(msg) => {
                    &&& msg.msg_id == old(client).next_id()
                    &&& final(client).model() == after_gen_id(old(client).model())
                    &&& is_fresh(final(client).model(), msg.msg_id)
                    &&& msg.entity_id == self.name
                    &&& msg.entity_type == EntityType::View
                    &&& msg.payload == req
                },
                Err(e) => {
                    &&& e == ClientError::IdsExhausted
                    &&& final(client).model() == old(client).model()
                },
            },
    {
        let msg_id = client.gen_id()?;
        Ok(RequestEnvelope { msg_id, entity_id: self.name.clone(), entity_type: EntityType::View, payload: req })
    }

    pub fn to_arrow_request(window: &ViewWindow) -> (r: ClientReq)
        ensures
            r == (ClientReq::ViewToArrowReq { viewport: viewport_of(*window) }),
    {
        ClientReq::ViewToArrowReq { viewport: window.viewport() }
    }

    pub fn to_csv_request(window: &ViewWindow) -> (r: ClientReq)
        ensures
            r == (ClientReq::ViewToCsvReq { viewport: viewport_of(*window) }),
    {
        ClientReq::ViewToCsvReq { viewport: window.viewport() }
    }

    pub fn to_columns_string_request(window: &ViewWindow) -> (r: ClientReq)
        ensures
            r == (ClientReq::ViewToColumnsStringReq {
                viewport: viewport_of(*window),
                id: window.id,
                index: window.index,
                formatted: window.formatted,
                leaves_only: window.leaves_only,
            }),
    {
        ClientReq::ViewToColumnsStringReq {
            viewport: window.viewport(),
            id: window.id,
            index: window.index,
            formatted: window.formatted,
            leaves_only: window.leaves_only,
        }
    }

    pub fn to_json_string_request(window: &ViewWindow) -> (r: ClientReq)
        ensures
            r == (ClientReq::ViewToRowsStringReq {
                viewport: viewport_of(*window),
                id: window.id,
                index: window.index,
                formatted: window.formatted,
                leaves_only: window.leaves_only,
            }),
    {
        ClientReq::ViewToRowsStringReq {
            viewport: window.viewport(),
            id: window.id,
            index: window.index,
            formatted: window.formatted,
            leaves_only: window.leaves_only,
        }
    }

    pub fn on_update_request(options: OnUpdateOptions) -> (r: ClientReq)
        ensures
            r == (ClientReq::ViewOnUpdateReq { mode: options.mode }),
    {
        ClientReq::ViewOnUpdateReq { mode: options.mode }
    }

    /// Cancels an `on_update` subscription. An id that holds none is an
    /// error, as it is for every persistent subscription.
    pub fn remove_update<O, M>(&self, client: &mut Client<O, M>, update_id: u32) -> (r: ClientResult<()>)
        requires
            old(client).wf(),
        ensures
            final(client).wf(),
            final(client).model() == after_unsubscribe(old(client).model(), update_id),
            final(client).once_handlers() == old(client).once_handlers(),
            final(client).many_handlers() == old(client).many_handlers().remove(update_id),
            r is Ok <==> old(client).model().many.contains(update_id),
            r is Err ==> r == Err::<(), ClientError>(ClientError::UnknownSubscription(update_id)),
    {
        client.unsubscribe(update_id)
    }

    /// Typed-array export of one column is not offered by this client.
    pub fn col_to_js_typed_array(&self, _column: &str) -> (r: ClientResult<Vec<u8>>)
        ensures
            r matches Err(ClientError::NotImplemented(_)),
    {
        Err(ClientError::NotImplemented("col_to_js_typed_array".to_string()))
    }

    /// Reads the view's configuration, as the engine reports it.
    pub fn get_config_result(resp: ClientResp) -> (r: ClientResult<ViewConfig>)
        ensures
            r is Ok ==> answers(ClientReq::ViewGetConfigReq, resp),
            match resp {
                ClientResp::ViewGetConfigResp { config: Some(c) } => is_config_of(c, r),
                _ => r == Err::<ViewConfig, ClientError>(response_error(resp)),
            },
    {
        match resp {
            ClientResp::ViewGetConfigResp { config: Some(config) } => ViewConfig::from_message(config),
            other => Err(ClientError::from_response(other)),
        }
    }

    /// Reads the column paths of the view.
    pub fn column_paths_result(resp: ClientResp) -> (r: ClientResult<Vec<String>>)
        ensures
            r is Ok <==> answers(ClientReq::ViewColumnPathsReq, resp),
            r == match resp {
                ClientResp::ViewColumnPathsResp { paths } => Ok(paths),
                _ => Err(response_error(resp)),
            },
    {
        match resp {
            ClientResp::ViewColumnPathsResp { paths } => Ok(paths),
            other => Err(ClientError::from_response(other)),
        }
    }

    /// Reads the row and column counts of the view and its table.
    pub fn dimensions_result(resp: ClientResp) -> (r: ClientResult<Dimensions>)
        ensures
            r is Ok <==> answers(ClientReq::ViewDimensionsReq, resp),
            r == match resp {
                ClientResp::ViewDimensionsResp { dimensions } => Ok(dimensions),
                _ => Err(response_error(resp)),
            },
    {
        match resp {
            ClientResp::ViewDimensionsResp { dimensions } => Ok(dimensions),
            other => Err(ClientError::from_response(other)),
        }
    }

    /// Reads the types of the view's computed columns.
    pub fn expression_schema_result(resp: ClientResp) -> (r: ClientResult<Schema>)
        ensures
            r is Ok <==> answers(ClientReq::ViewExpressionSchemaReq, resp),
            r == match resp {
                ClientResp::ViewExpressionSchemaResp { schema } => Ok(schema),
                _ => Err(response_error(resp)),
            },
    {
        match resp {
            ClientResp::ViewExpressionSchemaResp { schema } => Ok(schema),
            other => Err(ClientError::from_response(other)),
        }
    }

    /// Reads the number of rows of the view.
    pub fn num_rows_result(resp: ClientResp) -> (r: ClientResult<u32>)
        ensures
            r is Ok <==> answers(ClientReq::ViewNumRowsReq, resp),
            r == match resp {
                ClientResp::ViewNumRowsResp { num_rows } => Ok(num_rows),
                _ => Err(response_error(resp)),
            },
    {
        match resp {
            ClientResp::ViewNumRowsResp { num_rows } => Ok(num_rows),
            other => Err(ClientError::from_response(other)),
        }
    }

    /// Reads the schema of the view.
    pub fn schema_result(resp: ClientResp) -> (r: ClientResult<Schema>)
        ensures
            r is Ok <==> answers(ClientReq::ViewSchemaReq, resp),
            r == match resp {
                ClientResp::ViewSchemaResp { schema } => Ok(schema),
                _ => Err(response_error(resp)),
            },
    {
        match resp {
            ClientResp::ViewSchemaResp { schema } => Ok(schema),
            other => Err(ClientError::from_response(other)),
        }
    }

    /// Reads the view's data as an Arrow buffer.
    pub fn to_arrow_result(resp: ClientResp) -> (r: ClientResult<Vec<u8>>)
        ensures
            forall|viewport: ViewPort| #[trigger] answers(ClientReq::ViewToArrowReq { viewport }, resp) <==> r is Ok,
            r == match resp {
                ClientResp::ViewToArrowResp { arrow } => Ok(arrow),
                _ => Err(response_error(resp)),
            },
    {
        match resp {
            ClientResp::ViewToArrowResp { arrow } => Ok(arrow),
            other => Err(ClientError::from_response(other)),
        }
    }

    /// Reads the view's data as column-major JSON text.
    pub fn to_columns_string_result(resp: ClientResp) -> (r: ClientResult<String>)
        ensures
            forall|viewport: ViewPort, id: Option<bool>, index: Option<bool>, formatted: Option<bool>, leaves_only: Option<bool>|
                #[trigger] answers(ClientReq::ViewToColumnsStringReq { viewport, id, index, formatted, leaves_only }, resp) <==> r is Ok,
            r == match resp {
                ClientResp::ViewToColumnsStringResp { json_string } => Ok(json_string),
                _ => Err(response_error(resp)),
            },
    {
        match resp {
            ClientResp::ViewToColumnsStringResp { json_string } => Ok(json_string),
            other => Err(ClientError::from_response(other)),
        }
    }

    /// Reads the view's data as row-major JSON text.
    pub fn to_json_string_result(resp: ClientResp) -> (r: ClientResult<String>)
        ensures
            forall|viewport: ViewPort, id: Option<bool>, index: Option<bool>, formatted: Option<bool>, leaves_only: Option<bool>|
                #[trigger] answers(ClientReq::ViewToRowsStringReq { viewport, id, index, formatted, leaves_only }, resp) <==> r is Ok,
            r == match resp {
                ClientResp::ViewToRowsStringResp { json_string } => Ok(json_string),
                _ => Err(response_error(resp)),
            },
    {
        match resp {
            ClientResp::ViewToRowsStringResp { json_string } => Ok(json_string),
            other => Err(ClientError::from_response(other)),
        }
    }

    /// Reads the view's data as CSV text.
    pub fn to_csv_result(resp: ClientResp) -> (r: ClientResult<String>)
        ensures
            forall|viewport: ViewPort| #[trigger] answers(ClientReq::ViewToCsvReq { viewport }, resp) <==> r is Ok,
            r == match resp {
                ClientResp::ViewToCsvResp { csv } => Ok(csv),
                _ => Err(response_error(resp)),
            },
    {
        match resp {
            ClientResp::ViewToCsvResp { csv } => Ok(csv),
            other => Err(ClientError::from_response(other)),
        }
    }

    /// Reads the answer to a delete request; after it, the view is gone.
    pub fn delete_result(resp: ClientResp) -> (r: ClientResult<()>)
        ensures
            r is Ok <==> answers(ClientReq::ViewDeleteReq, resp),
            r == match resp {
                ClientResp::ViewDeleteResp => Ok(()),
                _ => Err(response_error(resp)),
            },
    {
        match resp {
            ClientResp::ViewDeleteResp => Ok(()),
            other => Err(ClientError::from_response(other)),
        }
    }

    /// Reads the least and greatest values of a column.
    pub fn get_min_max_result(resp: ClientResp) -> (r: ClientResult<(String, String)>)
        ensures
            forall|column_name: String| #[trigger] answers(ClientReq::ViewGetMinMaxReq { column_name }, resp) <==> r is Ok,
            r == match resp {
                ClientResp::ViewGetMinMaxResp { min, max } => Ok((min, max)),
                _ => Err(response_error(resp)),
            },
    {
        match resp {
            ClientResp::ViewGetMinMaxResp { min, max } => Ok((min, max)),
            other => Err(ClientError::from_response(other)),
        }
    }

    /// Reads one event of an `on_update` subscription: the rows changed, if the mode sends them, and the port they came through.
    pub fn on_update_event(resp: ClientResp) -> (r: ClientResult<(Option<Vec<u8>>, u32)>)
        ensures
            forall|mode: Option<OnUpdateMode>| #[trigger] answers(ClientReq::ViewOnUpdateReq { mode }, resp) <==> r is Ok,
            r == match resp {
                ClientResp::ViewOnUpdateResp { arrow, port_id } => Ok((arrow, port_id)),
                _ => Err(response_error(resp)),
            },
    {
        match resp {
            ClientResp::ViewOnUpdateResp { arrow, port_id } => Ok((arrow, port_id)),
            other => Err(ClientError::from_response(other)),
        }
    }

    /// Reads the event an `on_delete` subscriber receives.
    pub fn on_delete_event(resp: ClientResp) -> (r: ClientResult<()>)
        ensures
            r is Ok <==> answers(ClientReq::ViewOnDeleteReq, resp),
            r == match resp {
                ClientResp::ViewOnDeleteResp => Ok(()),
                _ => Err(response_error(resp)),
            },
    {
        match resp {
            ClientResp::ViewOnDeleteResp => Ok(()),
            other => Err(ClientError::from_response(other)),
        }
    }

    /// Reads the answer to the removal of an `on_delete` subscriber.
    pub fn remove_delete_result(resp: ClientResp) -> (r: ClientResult<()>)
        ensures
            forall|id: u32| #[trigger] answers(ClientReq::ViewRemoveDeleteReq { id }, resp) <==> r is Ok,
            r == match resp {
                ClientResp::ViewRemoveDeleteResp => Ok(()),
                _ => Err(response_error(resp)),
            },
    {
        match resp {
            ClientResp::ViewRemoveDeleteResp => Ok(()),
            other => Err(ClientError::from_response(other)),
        }
    }
}

} // verus!
