use lepumk::conf::{LogConfig, LogLevel};
use lepumk::counter::{Counter, ProgressCounters};
use lepumk::errcode::{TASKING_ALREADY_RUNNING, TASKING_START_ERR, TASK_HEALTH_ERR, TASK_NOT_RUNNING};
use lepumk::job::{
    build_failed, check_health, check_start, check_stop, finish_run, handle_msg, tasks_to_restart,
    Heartbeat, MAX_HEARTBEAT_FAILURES,
};
use lepumk::json::JsonValue;
use lepumk::link::{
    build_links, get_sinker, get_source, EmptySinker, LinkError, SinkerEnum, SourceEnum,
};
use lepumk::message::{AppErr, CoreMsg};
use lepumk::model::{TaskInfo, TaskLog, TaskLogStatus, TaskStatus, TASK_STATUS_RUNNING, TASK_STATUS_STOP};
use lepumk::options::ParserOptions;
use lepumk::registry::{add_task, contains_task, remove_task, running_task, TaskManager};
use lepumk::types::{JsonParserOpt, PropertyPlainTextRequest, TaskHealthCheckRequest};

fn text(s: &str) -> JsonValue {
    JsonValue::Str(s.to_string())
}

fn obj(fields: Vec<(&str, JsonValue)>) -> JsonValue {
    JsonValue::Object(fields.into_iter().map(|(k, v)| (k.to_string(), v)).collect())
}

#[test]
fn test_build_task() {
    let task = TaskInfo::default()
        .with_id(1)
        .with_status(TaskStatus::Created.get_status())
        .with_name(String::from("foo/baz"));

    assert_eq!(task.id, 1);
    assert_eq!(task.name, String::from("foo/baz"));
}

#[test]
fn test_run() {
    let sinker: SinkerEnum = SinkerEnum::EmptySinker(EmptySinker { val: JsonValue::Null });
    assert!(matches!(sinker, SinkerEnum::EmptySinker(_)));
}

#[test]
fn test_empty() {
    let source = get_source("empty", &JsonValue::Null);
    let sink = get_sinker("empty", &JsonValue::Null);
    assert!(matches!(source, Ok(SourceEnum::EmptySource(_))));
    assert!(matches!(sink, Ok(SinkerEnum::EmptySinker(_))));
}

#[test]
fn link_names_ignore_case() {
    assert!(matches!(get_sinker("EMPTY", &JsonValue::Null), Ok(SinkerEnum::EmptySinker(_))));
    let cfg = obj(vec![("params", text("bootstrap.servers=localhost:9092")), ("topic", text("t"))]);
    match get_sinker("Kafka", &cfg) {
        Ok(SinkerEnum::KafkaSinker(k)) => {
            assert_eq!(k.arg.get_topic(), "t");
            assert_eq!(k.arg.get_params(), "bootstrap.servers=localhost:9092");
        }
        other => panic!("unexpected {:?}", other),
    }
    match get_source("kafka", &cfg) {
        Ok(SourceEnum::KafkaSource(k)) => assert_eq!(k.arg.get_topic(), "t"),
        other => panic!("unexpected {:?}", other),
    }
}

#[test]
fn link_errors() {
    assert!(matches!(get_sinker("file", &JsonValue::Null), Err(LinkError::UnknownKind)));
    let cfg = obj(vec![("topic", text("t"))]);
    assert!(matches!(get_source("kafka", &cfg), Err(LinkError::BadConfig)));
    let src = obj(vec![("name", text("empty")), ("val", JsonValue::Null)]);
    let dst = obj(vec![("name", text("empty"))]);
    assert!(matches!(build_links(&src, &dst), Err(LinkError::BadConfig)));
    let dst = obj(vec![("name", text("Empty")), ("val", JsonValue::Null)]);
    assert!(build_links(&src, &dst).is_ok());
}

#[test]
fn links_come_from_their_own_configurations() {
    let src = obj(vec![("name", text("empty")), ("val", text("from source"))]);
    let dst = obj(vec![
        ("name", text("kafka")),
        ("val", obj(vec![("params", text("p=1")), ("topic", text("out"))])),
    ]);
    match build_links(&src, &dst) {
        Ok((SourceEnum::EmptySource(s), SinkerEnum::KafkaSinker(k))) => {
            assert_eq!(s.val, text("from source"));
            assert_eq!(k.arg.get_topic(), "out");
            assert_eq!(k.arg.get_params(), "p=1");
        }
        other => panic!("unexpected {:?}", other),
    }
    assert!(matches!(
        build_links(&dst, &src),
        Ok((SourceEnum::KafkaSource(_), SinkerEnum::EmptySinker(_)))
    ));
}

#[test]
fn registry_is_single_flight() {
    let mut m: TaskManager<u32> = TaskManager::new();
    let successes = (0..8).filter(|i| add_task(&mut m, 7, *i)).count();
    assert_eq!(successes, 1);
    assert!(contains_task(&m, 7));
    assert!(!add_task(&mut m, 7, 100));
    assert_eq!(remove_task(&mut m, 7), Some(0));
    assert!(!contains_task(&m, 7));
    assert_eq!(remove_task(&mut m, 7), None);
    assert!(add_task(&mut m, 7, 9));
    assert!(add_task(&mut m, 3, 1));
    let mut ids = running_task(&m);
    ids.sort();
    assert_eq!(ids, vec![3, 7]);
}

#[test]
fn counters_drain_without_loss() {
    let mut c = Counter::new();
    let mut drained = 0u64;
    let mut issued = 0u64;
    for round in 0..5u64 {
        for _ in 0..round + 1 {
            c.increment();
            issued += 1;
        }
        if round % 2 == 0 {
            drained += c.drain();
        }
    }
    assert_eq!(drained + c.get(), issued);
    assert_eq!(drained, 15);
    assert_eq!(c.drain(), 0);
}

#[test]
fn progress_counters_drain_both() {
    let mut p = ProgressCounters::new();
    p.handle_num.increment();
    p.handle_num.increment();
    p.handle_err.increment();
    assert_eq!(p.drain(), (2, 1));
    assert_eq!(p.drain(), (0, 0));
}

#[test]
fn start_and_stop_checks() {
    let mut m: TaskManager<()> = TaskManager::new();
    assert!(check_start(&m, 1).is_ok());
    add_task(&mut m, 1, ());
    assert_eq!(check_start(&m, 1).unwrap_err().err_no, TASKING_ALREADY_RUNNING);
    assert!(check_stop(&m, 1, TASK_STATUS_RUNNING).is_ok());
    assert_eq!(check_stop(&m, 1, TASK_STATUS_STOP).unwrap_err().err_no, TASK_NOT_RUNNING);
    assert_eq!(check_stop(&m, 2, TASK_STATUS_RUNNING).unwrap_err().err_no, TASK_NOT_RUNNING);
    assert!(check_health(&m, 1).is_ok());
    assert_eq!(check_health(&m, 2).unwrap_err().err_no, TASK_HEALTH_ERR);
}

#[test]
fn run_end_records() {
    let end = finish_run(5, &Ok(()), 1000);
    assert_eq!(end.status, TASK_STATUS_STOP);
    assert_eq!(end.log.log_info, "finished success");
    assert_eq!(end.log.task_id, 5);
    assert_eq!(end.log.created_at, 1000);
    let end = finish_run(5, &Err("use cancel task".to_owned()), 1001);
    assert_eq!(end.log.log_info, "error use cancel task");
    let (end, err) = build_failed(6, "bad sink", 7);
    assert_eq!(end.status, TASK_STATUS_STOP);
    assert_eq!(end.log.log_info, "error bad sink");
    assert_eq!(err.err_no, TASKING_START_ERR);
}

#[test]
fn heartbeat_gives_up_after_consecutive_failures() {
    let mut h = Heartbeat::new();
    for _ in 0..MAX_HEARTBEAT_FAILURES - 1 {
        assert!(h.record(false));
    }
    assert!(h.record(true));
    for _ in 0..MAX_HEARTBEAT_FAILURES - 1 {
        assert!(h.record(false));
    }
    assert!(!h.record(false));
}

#[test]
fn transform_counts_and_attaches_rows() {
    let p = ParserOptions::fmt().with_sep("_").with_keys(vec!["k".to_owned()]).init();
    let mut c = ProgressCounters::new();
    let out = handle_msg(&p, &mut c, CoreMsg::new("not json".to_owned()), None);
    assert!(out.is_none());
    let doc = obj(vec![("k", text("v"))]);
    let out = handle_msg(&p, &mut c, CoreMsg::new("{\"k\":\"v\"}".to_owned()), Some(doc)).unwrap();
    assert_eq!(out.get_raw_msg(), "{\"k\":\"v\"}");
    assert_eq!(out.raw_keys, vec!["k".to_owned()]);
    assert_eq!(out.result.len(), 1);
    assert_eq!(out.result[0].get("k"), Some(&text("v")));
    assert_eq!(c.drain(), (2, 1));
}

#[test]
fn restart_skips_registered_tasks() {
    let mut m: TaskManager<()> = TaskManager::new();
    add_task(&mut m, 2, ());
    assert_eq!(tasks_to_restart(&vec![1, 2, 3], &m), vec![1, 3]);
}

#[test]
fn status_codes() {
    assert_eq!(TaskStatus::Created.get_status(), 1);
    assert_eq!(TaskStatus::Deleted.get_status(), -1);
    assert_eq!(TaskStatus::Stop.get_status(), 10);
    assert_eq!(TaskStatus::Running.get_status(), 12);
    assert_eq!(TaskStatus::ERROR.get_status(), 16);
    assert_eq!(TaskStatus::from_code(12), Some(TaskStatus::Running));
    assert_eq!(TaskStatus::from_code(3), None);
    assert_eq!(TaskLogStatus::Normal.status(), 1);
    assert_eq!(TaskLogStatus::Deleted.status(), 2);
    let log = TaskLog::new(4, "hello", 9);
    assert_eq!(log.status, 1);
    assert_eq!(log.updated_at, 9);
}

#[test]
fn log_levels_ignore_case() {
    let mut conf = LogConfig {
        file_name: String::new(),
        dir: String::new(),
        max_file: 1,
        time_format: String::new(),
        format: String::new(),
        level: "DEBUG".to_owned(),
        output: String::new(),
    };
    assert_eq!(conf.log_level(), LogLevel::Debug);
    conf.level = "verbose".to_owned();
    assert_eq!(conf.log_level(), LogLevel::Info);
}

#[test]
fn request_helpers() {
    let r = PropertyPlainTextRequest { plain_text: JsonValue::Null, sep: None };
    assert_eq!(r.get_sep(), "_");
    assert_eq!(r.to_json_parser().0.get_sep(), "_");
    let r = PropertyPlainTextRequest { plain_text: JsonValue::Null, sep: Some("__".to_owned()) };
    assert_eq!(r.get_sep(), "__");
    assert_eq!(TaskHealthCheckRequest { id: 3 }.get_id(), 3);
    let e = AppErr::new(1, "x");
    assert_eq!(e.err_msg, "x");
    let opt = JsonParserOpt {
        max_depth: 3,
        sep: "/".to_owned(),
        keys: vec![],
        ignore: vec!["a".to_owned()],
        fold: vec![],
        default_value: vec![],
        strict_mode: false,
    };
    let p = opt.to_parser();
    assert_eq!(p.0.get_max_depth(), 3);
    assert_eq!(p.join_key("x", "y"), "x/y");
    assert!(p.0.contains_ignore("a"));
}
