use std::cell::RefCell;
use std::collections::HashMap;
use std::rc::Rc;

use perspective_client::proto::{
    ClientReq, ClientResp, ColumnsUpdate, EntityType, MakeTableData, RequestEnvelope, ResponseEnvelope, ViewPort,
};
use perspective_client::{
    Client, ClientError, ClientResult, ColumnType, ManyCallback, OnUpdateMode, OnUpdateOptions, OnceCallback,
    Table, TableData, TableInitOptions, UpdateOptions, View, ViewConfig, ViewConfigUpdate, ViewWindow,
};

/// Holds the single answer of a request, for the caller to pick up.
struct Slot(Rc<RefCell<Option<ClientResp>>>);

impl OnceCallback for Slot {
    fn delivers(&self, _resp: ClientResp, failure: Option<ClientError>) -> bool {
        failure.is_none()
    }

    fn call_once(self, resp: ClientResp) -> ClientResult<()> {
        *self.0.borrow_mut() = Some(resp);
        Ok(())
    }
}

impl ManyCallback for Slot {
    fn delivers(&self, _resp: ClientResp, failure: Option<ClientError>) -> bool {
        failure.is_none()
    }

    fn call(&self, resp: ClientResp) -> ClientResult<()> {
        *self.0.borrow_mut() = Some(resp);
        Ok(())
    }
}

/// A stand-in for the remote engine: tables with a schema and a row count,
/// and views with the configuration they were made with.
#[derive(Default)]
struct Engine {
    tables: HashMap<String, (Vec<(String, ColumnType)>, u32)>,
    views: HashMap<String, perspective_client::proto::ViewConfig>,
}

impl Engine {
    fn handle(&mut self, req: &RequestEnvelope) -> ClientResp {
        let missing = || ClientResp::ServerError { message: format!("no such entity {}", req.entity_id) };
        match &req.payload {
            ClientReq::MakeTableReq { data: MakeTableData::FromSchema(schema), .. } => {
                self.tables.insert(req.entity_id.clone(), (schema.clone(), 0));
                ClientResp::MakeTableResp
            },
            ClientReq::TableUpdateReq { data: MakeTableData::FromRows(rows), .. } => match self.tables.get_mut(&req.entity_id) {
                Some(t) => {
                    t.1 += rows.matches('{').count() as u32;
                    ClientResp::TableUpdateResp
                },
                None => missing(),
            },
            ClientReq::TableSizeReq => match self.tables.get(&req.entity_id) {
                Some(t) => ClientResp::TableSizeResp { size: t.1 },
                None => missing(),
            },
            ClientReq::TableSchemaReq => match self.tables.get(&req.entity_id) {
                Some(t) => ClientResp::TableSchemaResp { schema: t.0.iter().cloned().collect() },
                None => missing(),
            },
            ClientReq::TableDeleteReq => match self.tables.remove(&req.entity_id) {
                Some(_) => ClientResp::TableDeleteResp,
                None => missing(),
            },
            ClientReq::TableMakeViewReq { view_id, config } if self.tables.contains_key(&req.entity_id) => {
                let mut config = config.clone().unwrap_or_else(|| ViewConfigUpdate::default().to_message());
                if config.columns.is_none() {
                    config.columns = Some(ColumnsUpdate::Columns(vec![]));
                }
                self.views.insert(view_id.clone(), config);
                ClientResp::TableMakeViewResp { view_id: view_id.clone() }
            },
            ClientReq::ViewGetConfigReq => match self.views.get(&req.entity_id) {
                Some(c) => ClientResp::ViewGetConfigResp { config: Some(c.clone()) },
                None => missing(),
            },
            _ => missing(),
        }
    }
}

/// A client wired to the engine by a loopback transport, which answers
/// from within the send.
struct Session {
    client: Client<Slot, Slot>,
    engine: Engine,
}

impl Session {
    fn new() -> Self {
        Session { client: Client::new(), engine: Engine::default() }
    }

    fn call(&mut self, msg: RequestEnvelope) -> ClientResp {
        let slot = Rc::new(RefCell::new(None));
        self.client.subscribe_once(&msg, Slot(slot.clone()));
        let answer = self.engine.handle(&msg);
        self.client.receive(ResponseEnvelope { msg_id: msg.msg_id, payload: Some(answer) }).unwrap();
        let resp = slot.borrow_mut().take();
        resp.expect("the handler registered before sending receives the answer")
    }

    fn table(&mut self, input: TableData, options: Option<TableInitOptions>) -> ClientResult<Table> {
        let msg = self.client.table_request(input, options.clone())?;
        let name = msg.entity_id.clone();
        let resp = self.call(msg);
        Table::from_response(name, options, resp)
    }

    fn size(&mut self, table: &Table) -> ClientResult<usize> {
        let msg = table.client_message(&mut self.client, ClientReq::TableSizeReq)?;
        Table::size_result(self.call(msg))
    }

    fn schema(&mut self, table: &Table) -> ClientResult<HashMap<String, ColumnType>> {
        let msg = table.client_message(&mut self.client, ClientReq::TableSchemaReq)?;
        Table::schema_result(self.call(msg))
    }

    fn update(&mut self, table: &Table, input: TableData) -> ClientResult<()> {
        let msg = table.update_request(&mut self.client, input, UpdateOptions::default())?;
        Table::update_result(self.call(msg))
    }

    fn view(&mut self, table: &Table, config: Option<ViewConfigUpdate>) -> ClientResult<View> {
        let msg = table.view_request(&mut self.client, config)?;
        let view_id = match &msg.payload {
            ClientReq::TableMakeViewReq { view_id, .. } => view_id.clone(),
            _ => unreachable!(),
        };
        Table::view_result(view_id, self.call(msg))
    }

    fn get_config(&mut self, view: &View) -> ClientResult<ViewConfig> {
        let msg = view.client_message(&mut self.client, ClientReq::ViewGetConfigReq)?;
        View::get_config_result(self.call(msg))
    }
}

fn ab_schema() -> Vec<(String, ColumnType)> {
    vec![("a".to_string(), ColumnType::Integer), ("b".to_string(), ColumnType::String)]
}

#[test]
fn schema_table_reports_schema_and_size() {
    let mut s = Session::new();
    let table = s.table(TableData::Schema(ab_schema()), None).unwrap();
    assert_eq!(s.schema(&table), Ok(ab_schema().into_iter().collect::<HashMap<_, _>>()));
    assert_eq!(s.size(&table), Ok(0));
    assert_eq!(s.update(&table, TableData::JsonRows("[{\"a\": 1, \"b\": \"x\"}]".to_string())), Ok(()));
    assert_eq!(s.size(&table), Ok(1));
}

#[test]
fn update_from_schema_or_view_is_refused_locally() {
    let mut s = Session::new();
    let table = s.table(TableData::Schema(ab_schema()), None).unwrap();
    s.update(&table, TableData::JsonRows("[{\"a\": 1, \"b\": \"x\"}]".to_string())).unwrap();

    let before = s.client.gen_id().unwrap();
    assert_eq!(
        table.update_request(&mut s.client, TableData::Schema(ab_schema()), UpdateOptions::default()),
        Err(ClientError::Internal("Can't `update()` from Schema".to_string()))
    );
    let view = View::new("v".to_string());
    assert_eq!(
        table.update_request(&mut s.client, TableData::View(view.clone()), UpdateOptions::default()),
        Err(ClientError::Internal("Can't `update()` from View".to_string()))
    );
    assert_eq!(
        table.replace_request(&mut s.client, TableData::View(view.clone())),
        Err(ClientError::Internal("Can't `replace()` from View".to_string()))
    );
    assert_eq!(
        table.remove_request(&mut s.client, TableData::Schema(vec![])),
        Err(ClientError::Internal("Can't `remove()` from Schema".to_string()))
    );
    // Nothing was sent: no id was spent, and the data is as it was.
    assert_eq!(s.client.gen_id(), Ok(before + 1));
    assert_eq!(s.size(&table), Ok(1));
}

#[test]
fn operations_after_delete_are_typed_errors() {
    let mut s = Session::new();
    let table = s.table(TableData::Schema(ab_schema()), None).unwrap();
    let msg = table.client_message(&mut s.client, ClientReq::TableDeleteReq).unwrap();
    assert_eq!(Table::delete_result(s.call(msg)), Ok(()));

    let expected = ClientError::ServerError(format!("no such entity {}", table.get_name()));
    assert_eq!(s.size(&table), Err(expected.clone()));
    assert_eq!(s.schema(&table), Err(expected.clone()));
    assert_eq!(s.update(&table, TableData::Csv("a,b\n1,x".to_string())), Err(expected.clone()));
    assert_eq!(s.view(&table, None), Err(expected.clone()));
    let msg = table.client_message(&mut s.client, ClientReq::TableDeleteReq).unwrap();
    assert_eq!(Table::delete_result(s.call(msg)), Err(expected));
}

#[test]
fn view_with_empty_patch_has_default_config() {
    let mut s = Session::new();
    let table = s.table(TableData::Schema(ab_schema()), None).unwrap();
    let view = s.view(&table, Some(ViewConfigUpdate::default())).unwrap();
    let mut config = s.get_config(&view).unwrap();
    assert_eq!(config, ViewConfig::default());

    config.apply_update(ViewConfigUpdate { group_by: Some(vec!["a".to_string()]), ..ViewConfigUpdate::default() });
    assert_eq!(config.group_by, vec!["a".to_string()]);
    config.reset(false);
    assert!(config.group_by.is_empty());
}

#[test]
fn view_made_with_a_patch_reports_it() {
    let mut s = Session::new();
    let table = s.table(TableData::Schema(ab_schema()), None).unwrap();
    let patch = ViewConfigUpdate {
        group_by: Some(vec!["a".to_string()]),
        columns: Some(vec![Some("b".to_string()), None]),
        ..ViewConfigUpdate::default()
    };
    let view = s.view(&table, Some(patch)).unwrap();
    assert_eq!(view.name.len(), 21);
    let config = s.get_config(&view).unwrap();
    assert_eq!(config.group_by, vec!["a".to_string()]);
    assert_eq!(config.columns, vec![Some("b".to_string())]);
}

#[test]
fn generated_names_are_url_safe_and_distinct() {
    let mut client: Client<Slot, Slot> = Client::new();
    let a = client.table_request(TableData::Csv("x\n1".to_string()), None).unwrap();
    let b = client.table_request(TableData::Csv("x\n1".to_string()), None).unwrap();
    for msg in [&a, &b] {
        assert_eq!(msg.entity_id.chars().count(), 21);
        assert!(msg.entity_id.chars().all(|c| c.is_ascii_alphanumeric() || c == '_' || c == '-'));
        assert_eq!(msg.entity_type, EntityType::Table);
    }
    assert_ne!(a.entity_id, b.entity_id);
    assert_eq!((a.msg_id, b.msg_id), (1, 2));
    assert_eq!(
        a.payload,
        ClientReq::MakeTableReq { data: MakeTableData::FromCsv("x\n1".to_string()), options: None }
    );
}

#[test]
fn table_input_travels_in_its_own_form() {
    let cases = vec![
        (TableData::Csv("c".to_string()), MakeTableData::FromCsv("c".to_string())),
        (TableData::Arrow(vec![1, 2]), MakeTableData::FromArrow(vec![1, 2])),
        (TableData::JsonRows("r".to_string()), MakeTableData::FromRows("r".to_string())),
        (TableData::JsonColumns("k".to_string()), MakeTableData::FromCols("k".to_string())),
        (TableData::View(View::new("v1".to_string())), MakeTableData::FromView("v1".to_string())),
        (TableData::Schema(ab_schema()), MakeTableData::FromSchema(ab_schema())),
    ];
    for (input, wire) in cases {
        assert_eq!(MakeTableData::from(input), wire);
    }
}

#[test]
fn update_uses_the_named_port() {
    let mut client: Client<Slot, Slot> = Client::new();
    let table = Table::new("t".to_string(), None);
    let options = UpdateOptions { format: None, port_id: Some(4) };
    let msg = table.update_request(&mut client, TableData::Csv("a\n1".to_string()), options).unwrap();
    assert_eq!(msg.payload, ClientReq::TableUpdateReq { data: MakeTableData::FromCsv("a\n1".to_string()), port_id: 4 });
    let msg = table.update_request(&mut client, TableData::Csv("a\n1".to_string()), UpdateOptions::default()).unwrap();
    assert_eq!(msg.payload, ClientReq::TableUpdateReq { data: MakeTableData::FromCsv("a\n1".to_string()), port_id: 0 });
    assert_eq!(msg.entity_id, "t");
    assert_eq!(msg.entity_type, EntityType::Table);
}

#[test]
fn wrong_answers_are_unexpected_responses() {
    assert_eq!(
        Table::size_result(ClientResp::TableClearResp),
        Err(ClientError::UnexpectedResponse(ClientResp::TableClearResp))
    );
    assert_eq!(
        Table::clear_result(ClientResp::ServerError { message: "boom".to_string() }),
        Err(ClientError::ServerError("boom".to_string()))
    );
    assert_eq!(Table::make_port_result(ClientResp::TableMakePortResp { port_id: 3 }), Ok(3));
    assert_eq!(
        Table::view_result("v1".to_string(), ClientResp::TableMakeViewResp { view_id: "v2".to_string() }),
        Err(ClientError::UnexpectedResponse(ClientResp::TableMakeViewResp { view_id: "v2".to_string() }))
    );
    assert_eq!(
        Table::from_response("t".to_string(), None, ClientResp::TableDeleteResp),
        Err(ClientError::UnexpectedResponse(ClientResp::TableDeleteResp))
    );
    assert_eq!(View::num_rows_result(ClientResp::ViewNumRowsResp { num_rows: 12 }), Ok(12));
    assert_eq!(
        View::get_min_max_result(ClientResp::ViewGetMinMaxResp { min: "1".to_string(), max: "9".to_string() }),
        Ok(("1".to_string(), "9".to_string()))
    );
    assert_eq!(
        View::on_update_event(ClientResp::ViewOnUpdateResp { arrow: None, port_id: 2 }),
        Ok((None, 2))
    );
    assert_eq!(
        View::get_config_result(ClientResp::ViewGetConfigResp { config: None }),
        Err(ClientError::UnexpectedResponse(ClientResp::ViewGetConfigResp { config: None }))
    );
}

#[test]
fn creation_options() {
    let t = Table::new("t".to_string(), Some(TableInitOptions::Index { index: "id".to_string() }));
    assert_eq!((t.get_index(), t.get_limit()), (Some("id".to_string()), None));
    let t = Table::new("t".to_string(), Some(TableInitOptions::Limit { limit: 10 }));
    assert_eq!((t.get_index(), t.get_limit()), (None, Some(10)));
    assert_eq!(TableInitOptions::from_limit_index(None, None), Ok(None));
    assert_eq!(TableInitOptions::from_limit_index(Some(5), None), Ok(Some(TableInitOptions::Limit { limit: 5 })));
    assert_eq!(
        TableInitOptions::from_limit_index(None, Some("k".to_string())),
        Ok(Some(TableInitOptions::Index { index: "k".to_string() }))
    );
    assert_eq!(
        TableInitOptions::from_limit_index(Some(5), Some("k".to_string())),
        Err(ClientError::Internal("Cannot set both `limit` and `index`".to_string()))
    );
}

#[test]
fn window_requests_carry_region_and_flags() {
    let window = ViewWindow { start_row: Some(1), end_row: Some(5), formatted: Some(true), ..ViewWindow::default() };
    let port = ViewPort { start_row: Some(1), start_col: None, end_row: Some(5), end_col: None };
    assert_eq!(window.viewport(), port);
    assert_eq!(View::to_csv_request(&window), ClientReq::ViewToCsvReq { viewport: port });
    assert_eq!(View::to_arrow_request(&window), ClientReq::ViewToArrowReq { viewport: port });
    assert_eq!(
        View::to_json_string_request(&window),
        ClientReq::ViewToRowsStringReq { viewport: port, id: None, index: None, formatted: Some(true), leaves_only: None }
    );
    assert_eq!(
        View::to_columns_string_request(&window),
        ClientReq::ViewToColumnsStringReq { viewport: port, id: None, index: None, formatted: Some(true), leaves_only: None }
    );
    assert_eq!(
        View::on_update_request(OnUpdateOptions { mode: Some(OnUpdateMode::Row) }),
        ClientReq::ViewOnUpdateReq { mode: Some(OnUpdateMode::Row) }
    );
}

#[test]
fn view_subscriptions_and_modes() {
    let mut client: Client<Slot, Slot> = Client::new();
    let view = View::new("v".to_string());
    let msg = view.client_message(&mut client, View::on_update_request(OnUpdateOptions { mode: None })).unwrap();
    assert_eq!(msg.entity_type, EntityType::View);
    assert_eq!(msg.entity_id, "v");
    client.subscribe(&msg, Slot(Rc::default()));
    assert_eq!(view.remove_update(&mut client, msg.msg_id), Ok(()));
    assert_eq!(view.remove_update(&mut client, msg.msg_id), Err(ClientError::UnknownSubscription(msg.msg_id)));
    assert_eq!(OnUpdateMode::parse("row"), Ok(OnUpdateMode::Row));
    assert_eq!(OnUpdateMode::parse("rows"), Err(ClientError::Malformed));
    assert!(matches!(view.col_to_js_typed_array("a"), Err(ClientError::NotImplemented(_))));
}

#[test]
fn column_type_names() {
    assert_eq!(ColumnType::Datetime.to_capitalized(), "Datetime");
    assert_eq!(ColumnType::Boolean.to_capitalized(), "Boolean");
    assert_eq!(ColumnType::Float.to_string(), "float");
    assert_eq!(ColumnType::from_name("integer"), Some(ColumnType::Integer));
    assert_eq!(ColumnType::from_name("date"), Some(ColumnType::Date));
    assert_eq!(ColumnType::from_name("Integer"), None);
    assert_eq!(ColumnType::from_name(""), None);
}

#[test]
fn schema_from_type_names() {
    let entries = vec![("a".to_string(), "integer".to_string()), ("b".to_string(), "string".to_string())];
    assert_eq!(perspective_client::proto::parse_schema(&entries), Ok(ab_schema()));
    let bad = vec![("a".to_string(), "integer".to_string()), ("c".to_string(), "decimal".to_string())];
    assert_eq!(
        perspective_client::proto::parse_schema(&bad),
        Err(ClientError::UnknownColumnType("decimal".to_string()))
    );
    assert_eq!(perspective_client::proto::parse_schema(&vec![]), Ok(vec![]));
    let twice = vec![("a".to_string(), "integer".to_string()), ("a".to_string(), "string".to_string())];
    assert_eq!(
        perspective_client::proto::parse_schema(&twice),
        Err(ClientError::DuplicateColumn("a".to_string()))
    );
}
