use rusqlite::types::ValueRef;
use rusqlite::ToSql;
use sqlite_serve::config::ModuleConfig;
use sqlite_serve::content_type::{negotiate_content_type, ContentType};
use sqlite_serve::domain::{
    resolve_parameters, LogLevel, Logger, QueryExecutor, Representation, RequestProcessor,
    TemplateLoader, TemplateRenderer, VariableResolver,
};
use sqlite_serve::parsing::parse_config;
use sqlite_serve::query::{convert_row, has_named_params, Cell, Row, SqlValue};
use sqlite_serve::template::HandlebarsAdapter;
use sqlite_serve::types::{DatabasePath, SqlQuery};

struct StoreExecutor;

fn read_row(names: &[String], row: &rusqlite::Row) -> rusqlite::Result<Row> {
    let mut values = Vec::new();
    for i in 0..names.len() {
        values.push(match row.get_ref(i)? {
            ValueRef::Null => SqlValue::Null,
            ValueRef::Integer(v) => SqlValue::Integer(v),
            ValueRef::Real(v) => SqlValue::Real(v.to_bits()),
            ValueRef::Text(v) => SqlValue::Text(v.to_vec()),
            ValueRef::Blob(v) => SqlValue::Blob(v.to_vec()),
        });
    }
    Ok(convert_row(names, &values))
}

impl QueryExecutor for StoreExecutor {
    fn execute(
        &mut self,
        db_path: &DatabasePath,
        query: &SqlQuery,
        params: &[(String, String)],
    ) -> Result<Vec<Row>, String> {
        let conn = rusqlite::Connection::open(db_path.as_str()).map_err(|e| e.to_string())?;
        let mut stmt = conn.prepare(query.as_str()).map_err(|e| e.to_string())?;
        let names: Vec<String> = (0..stmt.column_count())
            .map(|i| stmt.column_name(i).unwrap_or("").to_string())
            .collect();
        let rows = if has_named_params(params) {
            let named: Vec<(&str, &dyn ToSql)> = params
                .iter()
                .map(|(n, v)| (n.as_str(), v as &dyn ToSql))
                .collect();
            stmt.query_map(named.as_slice(), |r| read_row(&names, r))
                .map_err(|e| e.to_string())?
                .collect::<Result<Vec<Row>, _>>()
        } else {
            let positional: Vec<&dyn ToSql> = params.iter().map(|(_, v)| v as &dyn ToSql).collect();
            stmt.query_map(positional.as_slice(), |r| read_row(&names, r))
                .map_err(|e| e.to_string())?
                .collect::<Result<Vec<Row>, _>>()
        };
        rows.map_err(|e| e.to_string())
    }
}

fn books_store(path: &str) {
    let conn = rusqlite::Connection::open(path).unwrap();
    conn.execute("CREATE TABLE IF NOT EXISTS books (id INTEGER, title TEXT)", [])
        .unwrap();
    conn.execute("DELETE FROM books", []).unwrap();
    conn.execute(
        "INSERT INTO books VALUES (1, 'Book One'), (2, 'Book Two'), (3, 'Book Three')",
        [],
    )
    .unwrap();
}

fn cell_json(c: &Cell) -> serde_json::Value {
    match c {
        Cell::Null => serde_json::Value::Null,
        Cell::Integer(n) => serde_json::Value::from(*n),
        Cell::Real(bits) => serde_json::Value::from(f64::from_bits(*bits)),
        Cell::Text(s) => serde_json::Value::from(s.clone()),
    }
}

fn rows_json(rows: &[Row]) -> serde_json::Value {
    let list: Vec<serde_json::Value> = rows
        .iter()
        .map(|r| {
            let mut m = serde_json::Map::new();
            for (k, v) in &r.columns {
                m.insert(k.clone(), cell_json(v));
            }
            serde_json::Value::Object(m)
        })
        .collect();
    serde_json::Value::Array(list)
}

struct ListTemplates {
    reg: handlebars::Handlebars<'static>,
}

impl TemplateLoader for ListTemplates {
    fn load_from_dir(&mut self, _dir_path: &str) -> Result<usize, String> {
        Ok(0)
    }
    fn register_template(&mut self, name: &str, _path: &str) -> Result<(), String> {
        self.reg
            .register_template_string(name, "{{#each results}}<li>{{title}}</li>{{/each}}")
            .map_err(|e| e.to_string())
    }
}

impl TemplateRenderer for ListTemplates {
    fn render(&mut self, template_name: &str, rows: &[Row]) -> Result<String, String> {
        let mut data = serde_json::Map::new();
        data.insert("results".to_string(), rows_json(rows));
        self.reg
            .render(template_name, &serde_json::Value::Object(data))
            .map_err(|e| e.to_string())
    }
}

struct NoTemplates;

impl TemplateLoader for NoTemplates {
    fn load_from_dir(&mut self, _dir_path: &str) -> Result<usize, String> {
        panic!("template stage ran")
    }
    fn register_template(&mut self, _name: &str, _path: &str) -> Result<(), String> {
        panic!("template stage ran")
    }
}

impl TemplateRenderer for NoTemplates {
    fn render(&mut self, _template_name: &str, _rows: &[Row]) -> Result<String, String> {
        panic!("template stage ran")
    }
}

struct QuietLogger;
impl Logger for QuietLogger {
    fn log(&self, _level: LogLevel, _module: &str, _message: &str) {}
}

struct ArgResolver;
impl VariableResolver for ArgResolver {
    fn resolve(&mut self, var_name: &str) -> Result<String, String> {
        if var_name == "$arg_id" {
            Ok("2".to_string())
        } else {
            Err(format!("variable not found: {}", var_name))
        }
    }
}

fn location(db: &str, query: &str, params: Vec<(String, String)>) -> ModuleConfig {
    ModuleConfig {
        db_path: db.to_string(),
        query: query.to_string(),
        template_path: "list.hbs".to_string(),
        query_params: params,
    }
}

#[test]
fn rendered_body_lists_titles_in_store_order() {
    let db = "/tmp/sqlite_serve_scenario_render.db";
    let conn = rusqlite::Connection::open(db).unwrap();
    conn.execute("CREATE TABLE IF NOT EXISTS books (id INTEGER, title TEXT)", [])
        .unwrap();
    conn.execute("DELETE FROM books", []).unwrap();
    conn.execute(
        "INSERT INTO books VALUES (1, 'Book One'), (2, 'Book Two')",
        [],
    )
    .unwrap();
    let config = parse_config(
        &location(db, "SELECT id,title FROM books", vec![]),
        "root".into(),
        "/books".into(),
    )
    .unwrap();
    let resolved = config.resolve_template_path();
    let mut processor = RequestProcessor::new(
        StoreExecutor,
        ListTemplates { reg: handlebars::Handlebars::new() },
        QuietLogger,
    );
    let body = processor.process(&config, &resolved, &[], None).unwrap();
    let one = body.find("Book One").unwrap();
    let two = body.find("Book Two").unwrap();
    assert!(one < two);
    assert_eq!(body, "<li>Book One</li><li>Book Two</li>");
}

#[test]
fn positional_variable_selects_one_row() {
    let db = "/tmp/sqlite_serve_scenario_param.db";
    books_store(db);
    let config = parse_config(
        &location(
            db,
            "SELECT * FROM books WHERE id=?",
            vec![(String::new(), "$arg_id".to_string())],
        ),
        "".into(),
        "".into(),
    )
    .unwrap();
    let params = resolve_parameters(&config.parameters, &mut ArgResolver).unwrap();
    assert_eq!(params, vec![(String::new(), "2".to_string())]);
    assert!(!has_named_params(&params));
    let rows = StoreExecutor
        .execute(&config.db_path, &config.query, &params)
        .unwrap();
    assert_eq!(rows.len(), 1);
    assert_eq!(rows[0].columns[0], ("id".to_string(), Cell::Integer(2)));
    assert_eq!(
        rows[0].columns[1],
        ("title".to_string(), Cell::Text("Book Two".to_string()))
    );
}

#[test]
fn named_literal_and_variable_submit_by_name() {
    let db = "/tmp/sqlite_serve_scenario_named.db";
    books_store(db);
    let config = parse_config(
        &location(
            db,
            "SELECT title FROM books WHERE id >= :low AND id <= :high ORDER BY id",
            vec![
                (":low".to_string(), "$arg_id".to_string()),
                (":high".to_string(), "3".to_string()),
            ],
        ),
        "".into(),
        "".into(),
    )
    .unwrap();
    let params = resolve_parameters(&config.parameters, &mut ArgResolver).unwrap();
    assert!(has_named_params(&params));
    let rows = StoreExecutor
        .execute(&config.db_path, &config.query, &params)
        .unwrap();
    assert_eq!(rows.len(), 2);
    assert_eq!(rows[1].columns[0].1, Cell::Text("Book Three".to_string()));
}

#[test]
fn structured_request_returns_rows_without_templates() {
    let db = "/tmp/sqlite_serve_scenario_json.db";
    books_store(db);
    let headers = vec![(
        "Accept".to_string(),
        "application/json, text/html".to_string(),
    )];
    let content_type = negotiate_content_type(&headers);
    assert_eq!(content_type, ContentType::Json);
    let config = parse_config(
        &location(db, "SELECT id, title FROM books ORDER BY id", vec![]),
        "".into(),
        "".into(),
    )
    .unwrap();
    let resolved = config.resolve_template_path();
    let mut processor = RequestProcessor::new(StoreExecutor, NoTemplates, QuietLogger);
    let answer = processor
        .respond(content_type, &config, &resolved, &[], Some("/nonexistent"))
        .unwrap();
    let expected = StoreExecutor
        .execute(&config.db_path, &config.query, &[])
        .unwrap();
    match answer {
        Representation::Structured(rows) => {
            assert_eq!(
                serde_json::to_string_pretty(&rows_json(&rows)).unwrap(),
                serde_json::to_string_pretty(&rows_json(&expected)).unwrap()
            );
            assert_eq!(rows.len(), 3);
        }
        Representation::Rendered(_) => panic!("expected the structured representation"),
    }
}

#[test]
fn query_failure_names_the_query_stage() {
    let config = parse_config(
        &location("/nonexistent/dir/store.db", "SELECT 1", vec![]),
        "".into(),
        "".into(),
    )
    .unwrap();
    let resolved = config.resolve_template_path();
    let mut processor = RequestProcessor::new(StoreExecutor, NoTemplates, QuietLogger);
    let err = processor.process(&config, &resolved, &[], None).unwrap_err();
    assert!(err.starts_with("query execution failed: "));
}

#[test]
fn local_templates_override_global_ones() {
    let mut adapter = HandlebarsAdapter::new();
    let global = vec![("a.hbs".to_string(), "G".to_string())];
    let local = vec![("a.hbs".to_string(), "L".to_string())];
    assert_eq!(adapter.load_files(&global), 1);
    assert_eq!(adapter.load_files(&local), 1);
    assert_eq!(adapter.source("a").unwrap(), "L");
}
