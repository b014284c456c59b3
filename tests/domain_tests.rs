use sqlite_serve::domain::{
    resolve_parameters, resolve_template_path, LogLevel, Logger, QueryExecutor,
    RequestProcessor, ResolvedTemplate, TemplateLoader, TemplateRenderer, ValidatedConfig,
    VariableResolver,
};
use sqlite_serve::query::{Cell, Row};
use sqlite_serve::types::{
    DatabasePath, NginxVariable, ParamName, ParameterBinding, SqlQuery, TemplatePath,
};

#[test]
fn test_resolve_template_path() {
    let template = TemplatePath::parse("list.hbs").unwrap();
    let resolved = resolve_template_path(&ValidatedConfig {
        db_path: DatabasePath::parse("asdf").expect("fail"),
        query: SqlQuery::parse("SELECT whatever").expect("fail"),
        template_path: template,
        parameters: Vec::new(),
        doc_root: "server_root".into(),
        uri: "/books".into(),
    });

    assert_eq!(resolved.full_path(), "server_root/books/list.hbs");
    assert_eq!(resolved.directory(), "server_root/books");
}

#[test]
fn test_resolve_template_path_with_trailing_slash() {
    let template = TemplatePath::parse("index.hbs").unwrap();
    let resolved = resolve_template_path(&ValidatedConfig {
        db_path: DatabasePath::parse("asdf").expect("fail"),
        query: SqlQuery::parse("SELECT whatever").expect("fail"),
        template_path: template,
        parameters: Vec::new(),
        doc_root: "public/".into(),
        uri: "/docs/".into(),
    });

    assert!(resolved.full_path().contains("public//docs/"));
}

struct MockVariableResolver;
impl VariableResolver for MockVariableResolver {
    fn resolve(&mut self, var_name: &str) -> Result<String, String> {
        match var_name {
            "$arg_id" => Ok("123".to_string()),
            "$arg_genre" => Ok("Fiction".to_string()),
            _ => Err(format!("unknown variable: {}", var_name)),
        }
    }
}

struct MockQueryExecutor;
impl QueryExecutor for MockQueryExecutor {
    fn execute(
        &mut self,
        _db_path: &DatabasePath,
        _query: &SqlQuery,
        _params: &[(String, String)],
    ) -> Result<Vec<Row>, String> {
        let row = Row {
            columns: vec![
                ("id".to_string(), Cell::Integer(1)),
                ("title".to_string(), Cell::Text("Test Book".to_string())),
            ],
        };
        Ok(vec![row])
    }
}

struct MockTemplateSystem;
impl TemplateLoader for MockTemplateSystem {
    fn load_from_dir(&mut self, _dir_path: &str) -> Result<usize, String> {
        Ok(0)
    }
    fn register_template(&mut self, _name: &str, _path: &str) -> Result<(), String> {
        Ok(())
    }
}

impl TemplateRenderer for MockTemplateSystem {
    fn render(&mut self, _template_name: &str, rows: &[Row]) -> Result<String, String> {
        Ok(format!("Rendered: {:?}", rows))
    }
}

struct MockLogger;
impl Logger for MockLogger {
    fn log(&self, _level: LogLevel, _module: &str, _message: &str) {}
}

#[test]
fn test_resolve_parameters_positional() {
    let bindings = vec![ParameterBinding::Positional {
        variable: NginxVariable::parse("$arg_id").unwrap(),
    }];

    let mut resolver = MockVariableResolver;
    let resolved = resolve_parameters(&bindings, &mut resolver).unwrap();

    assert_eq!(resolved.len(), 1);
    assert_eq!(resolved[0].0, "");
    assert_eq!(resolved[0].1, "123");
}

#[test]
fn test_resolve_parameters_named() {
    let bindings = vec![ParameterBinding::Named {
        name: ParamName::parse(":book_id").unwrap(),
        variable: NginxVariable::parse("$arg_id").unwrap(),
    }];

    let mut resolver = MockVariableResolver;
    let resolved = resolve_parameters(&bindings, &mut resolver).unwrap();

    assert_eq!(resolved.len(), 1);
    assert_eq!(resolved[0].0, ":book_id");
    assert_eq!(resolved[0].1, "123");
}

#[test]
fn test_resolve_parameters_literal() {
    let bindings = vec![ParameterBinding::PositionalLiteral {
        value: "constant".to_string(),
    }];

    let mut resolver = MockVariableResolver;
    let resolved = resolve_parameters(&bindings, &mut resolver).unwrap();

    assert_eq!(resolved.len(), 1);
    assert_eq!(resolved[0].1, "constant");
}

#[test]
fn test_request_processor_integration() {
    let config = ValidatedConfig {
        db_path: DatabasePath::parse("test.db").unwrap(),
        query: SqlQuery::parse("SELECT * FROM books").unwrap(),
        template_path: TemplatePath::parse("list.hbs").unwrap(),
        parameters: vec![],
        doc_root: "".into(),
        uri: "".into(),
    };

    let resolved_template = ResolvedTemplate {
        full_path: "templates/list.hbs".to_string(),
        directory: "templates".to_string(),
    };

    let mut processor = RequestProcessor::new(MockQueryExecutor, MockTemplateSystem, MockLogger);

    let result = processor.process(&config, &resolved_template, &[], None);

    assert!(result.is_ok());
    assert!(result.unwrap().contains("Rendered"));
}
