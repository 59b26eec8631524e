use lepumk::flatten::JsonParser;
use lepumk::json::JsonValue;
use lepumk::options::ParserOptions;
use lepumk::property::{PropertyItem, PropertyItemOp};
use lepumk::row::FlatRow;

fn text(s: &str) -> JsonValue {
    JsonValue::Str(s.to_string())
}

fn num(n: i64) -> JsonValue {
    JsonValue::Number(serde_json::Number::from(n))
}

fn obj(fields: Vec<(&str, JsonValue)>) -> JsonValue {
    JsonValue::Object(fields.into_iter().map(|(k, v)| (k.to_string(), v)).collect())
}

fn strings(items: &[&str]) -> Vec<String> {
    items.iter().map(|s| s.to_string()).collect()
}

fn key_number() -> JsonValue {
    obj(vec![("key", text("value")), ("number", num(1))])
}

fn complex_array() -> JsonValue {
    obj(vec![
        (
            "complex_array",
            JsonValue::Array(vec![obj(vec![
                ("nest", JsonValue::Array(vec![num(1), num(2)])),
                (
                    "nest_obj",
                    obj(vec![
                        ("key", text("value")),
                        ("nest_arr", JsonValue::Array(vec![num(1), num(2), num(3)])),
                    ]),
                ),
                ("number", num(1)),
            ])]),
        ),
        ("key", text("value")),
    ])
}

fn run(p: &JsonParser, v: &JsonValue) -> Vec<FlatRow> {
    p.run(v).expect("flattening a document does not fail")
}

#[test]
fn test_debug() {
    let v = PropertyItem::default();
    assert_eq!(v.node_name(), "");
    assert_eq!(v.op(), "");
    assert!(v.props().is_empty());
    let v = PropertyItem::new(String::new(), String::new(), vec![]);
    assert_eq!(v.op(), "keep");
}

#[test]
fn test_with_max_depth() {
    let opt = ParserOptions::fmt();
    assert_eq!(opt.get_max_depth(), 0);
    let opt = ParserOptions::fmt().with_max_depth(10);
    assert_eq!(opt.get_max_depth(), 10)
}

#[test]
fn test_with_strict_mode() {
    let opt = ParserOptions::fmt();
    assert_eq!(opt.strict_mode(), false);
    let opt = ParserOptions::fmt().with_strict_mode(true);
    assert_eq!(opt.strict_mode(), true);
    let opt = ParserOptions::fmt().with_strict_mode(false);
    assert_eq!(opt.strict_mode(), false);
}

#[test]
fn test_with_fold() {
    let fold: Vec<String> = Vec::new();
    let opt = ParserOptions::fmt().with_fold(fold.clone());
    assert_eq!(opt.get_fold(), &fold);
}

#[test]
fn test_with_ignore() {
    let mut ignore: Vec<String> = Vec::new();
    let opt = ParserOptions::fmt().with_ignore(ignore.clone());
    assert_eq!(opt.get_ignore(), &ignore);
    ignore.push("abc".to_owned());

    let opt = ParserOptions::fmt().with_ignore(ignore.clone());
    assert_eq!(opt.get_ignore(), &ignore);
    assert_ne!(opt.get_ignore(), &Vec::<String>::new());
    assert!(opt.contains_ignore("abc"));
    assert!(!opt.contains_ignore("ab"));
}

#[test]
fn test_with_keys() {
    let mut keys: Vec<String> = Vec::new();
    let opt = ParserOptions::fmt().with_keys(keys.clone());
    assert_eq!(opt.get_keys(), &keys);
    keys.push("foo/baz".to_owned());

    let opt = ParserOptions::fmt().with_keys(keys.clone());
    assert_eq!(opt.get_keys(), &keys);
    assert_ne!(opt.get_keys(), &Vec::<String>::new());
    assert!(opt.contain_key("foo/baz"));
}

#[test]
fn test_join_key() {
    let p = ParserOptions::fmt().with_sep("_").init();
    let key = p.join_key("hello", "world");
    assert_eq!(key, "hello_world".to_owned());

    let key = p.join_key("", "key");
    assert_eq!(key, "key".to_owned());

    let p = ParserOptions::fmt().with_sep("").init();
    let key = p.join_key("hello", "World");
    assert_eq!(key, "helloWorld".to_owned());
}

#[test]
fn test_with_sep() {
    let opt = ParserOptions::fmt();

    assert_eq!(opt.get_sep(), "");

    let s = "_".to_owned();
    let opt = ParserOptions::fmt().with_sep(s.as_str());
    assert_eq!(opt.get_sep(), "_");
}

#[test]
fn test_fold() {
    let p = ParserOptions::fmt()
        .with_sep("_")
        .with_fold(strings(&[""]))
        .with_keys(strings(&[""]))
        .with_ignore(Vec::new())
        .with_strict_mode(true)
        .init();

    let doc = obj(vec![("key", text("value"))]);
    let res = run(&p, &doc);
    assert_eq!(res.len(), 1);
    assert_eq!(res[0].len(), 1);
    assert_eq!(res[0].get(""), Some(&doc));
}

#[test]
fn test_parser_simple_object() {
    let p = ParserOptions::fmt().with_max_depth(10).with_sep("_").init();

    let res = run(&p, &key_number());

    assert_eq!(res.len(), 1);
    assert_eq!(res[0].get("key"), Some(&JsonValue::Str("value".to_owned())));

    assert!(matches!(res[0].get("key"), Some(JsonValue::Str(_))));
    assert_eq!(res[0].len(), 2);
    assert_eq!(res[0].get("number"), Some(&num(1)));
}

#[test]
fn test_parser_complex_object() {
    let p = ParserOptions::fmt()
        .with_fold(Vec::new())
        .with_keys(Vec::new())
        .with_strict_mode(false)
        .with_default_value(Vec::new())
        .with_max_depth(10)
        .with_ignore(strings(&["key"]))
        .with_sep("_")
        .init();

    let res = run(&p, &key_number());

    assert_eq!(res.len(), 1);
    assert_eq!(res[0].len(), 1);
    assert_eq!(res[0].get("number"), Some(&num(1)));
    assert_eq!(res[0].get("key"), None);
}

#[test]
fn test_parser_complex_default_value() {
    let p = ParserOptions::fmt()
        .with_max_depth(10)
        .with_ignore(strings(&["key"]))
        .with_default_value(vec![("default".to_owned(), JsonValue::Bool(true))])
        .with_keys(Vec::new())
        .with_fold(Vec::new())
        .with_strict_mode(false)
        .init();

    let doc = obj(vec![("default", JsonValue::Null), ("key", text("value")), ("number", num(1))]);
    let res = run(&p, &doc);

    assert_eq!(res.len(), 1);
    assert_eq!(res[0].len(), 2);
    assert_eq!(res[0].get("default"), Some(&JsonValue::Bool(true)));
}

#[test]
fn test_parser_complex_fold() {
    let p = ParserOptions::fmt()
        .with_keys(Vec::new())
        .with_default_value(Vec::new())
        .with_max_depth(10)
        .with_fold(strings(&["fold"]))
        .with_ignore(strings(&["key"]))
        .init();

    let doc = obj(vec![
        ("fold", obj(vec![("hello", text("world"))])),
        ("key", text("value")),
        ("number", num(1)),
    ]);
    let res = run(&p, &doc);

    assert_eq!(res.len(), 1);
    assert_eq!(res[0].len(), 2);
    let m = obj(vec![("hello", text("world"))]);
    assert_eq!(res[0].get("fold"), Some(&m));
}

#[test]
fn test_parser_complex_array() {
    let p = ParserOptions::fmt().with_sep("_").with_max_depth(100).init();

    let res = run(&p, &complex_array());
    assert_eq!(res.len(), 6);
    assert_eq!(res[0].len(), 5);
}

#[test]
fn test_max_depth() {
    let p = ParserOptions::fmt().with_max_depth(1).with_sep("_").init();

    // The array's element lies past the limit: that branch yields no rows,
    // and the document as a whole still succeeds.
    let res = p.run(&complex_array());
    let rows = res.expect("a nested branch past the limit does not fail the document");
    assert_eq!(rows.len(), 1);
    assert_eq!(rows[0].len(), 1);
    assert_eq!(rows[0].get("key"), Some(&text("value")));
}

#[test]
fn scalar_documents_give_one_row_under_the_empty_key() {
    let p = ParserOptions::fmt().with_sep("_").init();
    for v in [JsonValue::Null, JsonValue::Bool(false), num(7), text("x")] {
        let res = run(&p, &v);
        assert_eq!(res.len(), 1);
        assert_eq!(res[0].len(), 1);
        assert_eq!(res[0].get(""), Some(&v));
    }
}

#[test]
fn nested_rows_carry_joined_keys() {
    let p = ParserOptions::fmt().with_sep("_").with_max_depth(100).init();
    let res = run(&p, &complex_array());
    let first = &res[0];
    assert_eq!(first.get("key"), Some(&text("value")));
    assert_eq!(first.get("complex_array_number"), Some(&num(1)));
    assert_eq!(first.get("complex_array_nest"), Some(&num(1)));
    assert_eq!(first.get("complex_array_nest_obj_key"), Some(&text("value")));
    assert_eq!(first.get("complex_array_nest_obj_nest_arr"), Some(&num(1)));
    let last = &res[5];
    assert_eq!(last.get("complex_array_nest"), Some(&num(2)));
    assert_eq!(last.get("complex_array_nest_obj_nest_arr"), Some(&num(3)));
}

#[test]
fn sibling_arrays_multiply() {
    let p = ParserOptions::fmt().with_sep(".").init();
    let doc = obj(vec![
        ("a", JsonValue::Array(vec![num(1), num(2)])),
        ("b", JsonValue::Array(vec![num(3), num(4), num(5)])),
    ]);
    let res = run(&p, &doc);
    assert_eq!(res.len(), 6);
    assert_eq!(res[0].get("a"), Some(&num(1)));
    assert_eq!(res[0].get("b"), Some(&num(3)));
    assert_eq!(res[5].get("a"), Some(&num(2)));
    assert_eq!(res[5].get("b"), Some(&num(5)));
}

#[test]
fn empty_collections_take_defaults_or_literals() {
    let p = ParserOptions::fmt()
        .with_sep("_")
        .with_default_value(vec![("e".to_owned(), text("none"))])
        .init();
    let doc = obj(vec![
        ("e", JsonValue::Array(vec![])),
        ("o", JsonValue::Object(vec![])),
    ]);
    let res = run(&p, &doc);
    assert_eq!(res.len(), 1);
    assert_eq!(res[0].get("e"), Some(&text("none")));
    assert_eq!(res[0].get("o"), Some(&JsonValue::Object(vec![])));
}

#[test]
fn empty_root_object_gives_one_row() {
    let p = ParserOptions::fmt().init();
    let res = run(&p, &JsonValue::Object(vec![]));
    assert_eq!(res.len(), 1);
    assert_eq!(res[0].get(""), Some(&JsonValue::Object(vec![])));
}

#[test]
fn strict_mode_keeps_only_allowed_keys() {
    let p = ParserOptions::fmt()
        .with_strict_mode(true)
        .with_keys(strings(&["", "number"]))
        .init();
    let res = run(&p, &key_number());
    assert_eq!(res.len(), 1);
    assert_eq!(res[0].len(), 1);
    assert_eq!(res[0].get("number"), Some(&num(1)));

    let p = ParserOptions::fmt().with_strict_mode(true).with_keys(strings(&["number"])).init();
    assert_eq!(run(&p, &key_number()).len(), 0);
}

#[test]
fn ignoring_the_root_gives_no_rows() {
    let p = ParserOptions::fmt().with_ignore(strings(&[""])).init();
    assert_eq!(run(&p, &key_number()).len(), 0);
}

#[test]
fn null_array_element_takes_default() {
    let p = ParserOptions::fmt()
        .with_sep("_")
        .with_default_value(vec![("a".to_owned(), num(0))])
        .init();
    let doc = obj(vec![("a", JsonValue::Array(vec![JsonValue::Null, num(4)]))]);
    let res = run(&p, &doc);
    assert_eq!(res.len(), 2);
    assert_eq!(res[0].get("a"), Some(&num(0)));
    assert_eq!(res[1].get("a"), Some(&num(4)));
}

#[test]
fn folded_array_is_kept_whole() {
    let p = ParserOptions::fmt().with_sep("_").with_fold(strings(&["a"])).init();
    let arr = JsonValue::Array(vec![num(1), num(2)]);
    let doc = obj(vec![("a", arr.deep_copy())]);
    let res = run(&p, &doc);
    assert_eq!(res.len(), 1);
    assert_eq!(res[0].get("a"), Some(&arr));
}

#[test]
fn describe_samples_first_array_element() {
    let p = ParserOptions::fmt().with_sep("_").init();
    let doc = obj(vec![
        ("list", JsonValue::Array(vec![num(1), text("x")])),
        ("name", text("n")),
        ("none", JsonValue::Array(vec![])),
    ]);
    let prop = p.property(&doc);
    assert_eq!(prop.sep(), "_");
    assert_eq!(prop.value(), &doc);
    let root = prop.item();
    assert_eq!(root.node_name(), "");
    assert_eq!(root.value_type(), "object");
    assert_eq!(root.props().len(), 3);
    let list = &root.props()[0];
    assert_eq!(list.node_name(), "list");
    assert_eq!(list.value_type(), "array");
    assert_eq!(list.props().len(), 1);
    assert_eq!(list.props()[0].value_type(), "number");
    assert_eq!(root.props()[1].value_type(), "string");
    assert_eq!(root.props()[2].props().len(), 0);
}

#[test]
fn property_ops_have_names() {
    assert_eq!(PropertyItemOp::Keep.get_value(), "keep");
    assert_eq!(PropertyItemOp::Fold.get_value(), "fold");
    assert_eq!(PropertyItemOp::Ignore.get_value(), "ignore");
    let item = PropertyItem::new("a".to_owned(), "null".to_owned(), vec![]).with_op(PropertyItemOp::Fold);
    assert_eq!(item.op(), "fold");
    assert_eq!(item.node_name(), "a");
}

#[test]
fn value_types_are_named() {
    let p = ParserOptions::fmt().init();
    assert_eq!(p.value_type(&JsonValue::Null), "null");
    assert_eq!(p.value_type(&JsonValue::Bool(true)), "boolean");
    assert_eq!(p.value_type(&num(1)), "number");
    assert_eq!(p.value_type(&text("a")), "string");
    assert_eq!(p.value_type(&JsonValue::Array(vec![])), "array");
    assert_eq!(p.value_type(&JsonValue::Object(vec![])), "object");
}

#[test]
fn row_insert_replaces() {
    let mut r = FlatRow::new();
    assert!(r.is_empty());
    r.insert("a".to_owned(), num(1));
    r.insert("a".to_owned(), num(2));
    assert_eq!(r.len(), 1);
    assert_eq!(r.get("a"), Some(&num(2)));
    let c = r.copy();
    assert_eq!(c, r);
}

#[test]
fn first_default_wins() {
    let opt = ParserOptions::fmt().with_default_value(vec![
        ("k".to_owned(), num(1)),
        ("k".to_owned(), num(2)),
    ]);
    assert_eq!(opt.get_default("k"), Some(&num(1)));
    assert_eq!(opt.get_default("j"), None);
}
