use sqlite_serve::template::HandlebarsAdapter;

fn render_empty(adapter: &HandlebarsAdapter, name: &str) -> String {
    adapter
        .registry()
        .render(name, &serde_json::Value::Object(serde_json::Map::new()))
        .unwrap()
}

#[test]
fn local_directory_overrides_global_on_render() {
    let mut adapter = HandlebarsAdapter::new();
    let global = vec![
        ("a.hbs".to_string(), "G".to_string()),
        ("shared.hbs".to_string(), "S".to_string()),
    ];
    let local = vec![("a.hbs".to_string(), "L".to_string())];
    assert_eq!(adapter.load_files(&global), 2);
    assert_eq!(adapter.load_files(&local), 1);
    assert_eq!(render_empty(&adapter, "a"), "L");
    assert_eq!(render_empty(&adapter, "shared"), "S");
}

#[test]
fn reregistering_renders_the_latest_content() {
    let mut adapter = HandlebarsAdapter::new();
    adapter.register_source("test", "Original").unwrap();
    assert_eq!(render_empty(&adapter, "test"), "Original");
    adapter.register_source("test", "Updated").unwrap();
    assert_eq!(render_empty(&adapter, "test"), "Updated");
    assert_eq!(adapter.source("test").unwrap(), "Updated");
}

#[test]
fn main_template_wins_over_a_loaded_one() {
    let mut adapter = HandlebarsAdapter::new();
    let local = vec![("template.hbs".to_string(), "from directory".to_string())];
    adapter.load_files(&local);
    adapter.register_source("template", "main").unwrap();
    assert_eq!(render_empty(&adapter, "template"), "main");
}

#[test]
fn unparsable_source_is_rejected_and_skipped() {
    let mut adapter = HandlebarsAdapter::new();
    adapter.register_source("page", "ok").unwrap();
    assert!(adapter.register_source("page", "{{#each results}}").is_err());
    assert_eq!(render_empty(&adapter, "page"), "ok");
    let files = vec![
        ("bad.hbs".to_string(), "{{#if}".to_string()),
        ("good.hbs".to_string(), "fine".to_string()),
        ("notes.txt".to_string(), "n".to_string()),
    ];
    assert_eq!(adapter.load_files(&files), 1);
    assert!(!adapter.has_template("bad"));
    assert!(adapter.has_template("good"));
    assert!(!adapter.has_template("notes"));
}

#[test]
fn rows_render_through_each() {
    let mut adapter = HandlebarsAdapter::new();
    adapter
        .register_source("list", "{{#each results}}<li>{{name}}</li>{{/each}}")
        .unwrap();
    let mut item1 = serde_json::Map::new();
    item1.insert("name".to_string(), serde_json::Value::from("Item 1"));
    let mut item2 = serde_json::Map::new();
    item2.insert("name".to_string(), serde_json::Value::from("Item 2"));
    let mut data = serde_json::Map::new();
    data.insert(
        "results".to_string(),
        serde_json::Value::Array(vec![
            serde_json::Value::Object(item1),
            serde_json::Value::Object(item2),
        ]),
    );
    let rendered = adapter
        .registry()
        .render("list", &serde_json::Value::Object(data))
        .unwrap();
    assert_eq!(rendered, "<li>Item 1</li><li>Item 2</li>");
}
