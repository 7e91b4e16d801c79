use imagine::ast::{ImagineFile, ImagineFunction, ImagineStage, ImagineStatement};
use imagine::grammar::Expected;
use imagine::reload::{BuildError, ButtonLabel, HotReloader};
use imagine::schedule::TaskGraph;
use imagine::tick::{check_tick, Tick};

const EXAMPLE: &str = "#[Update]\nfn greet() {\nprint \"hello\"\nprint \"world\"\n}\n\n#[Last]\nfn bye() {\nprint \"done\"\n}\n";

fn texts(f: &ImagineFunction) -> Vec<String> {
    f.body
        .iter()
        .map(|st| match st {
            ImagineStatement::Print { text } => text.clone(),
        })
        .collect()
}

fn names(queue: &[ImagineFunction]) -> Vec<String> {
    queue.iter().map(|f| f.name()).collect()
}

#[test]
fn end_to_end_example() {
    let source = "#[Update]\nfn f() {\nprint \"a\"\n}";
    let file = ImagineFile::parse(source).unwrap();
    assert_eq!(file.items.len(), 1);
    assert_eq!(file.items[0].stage, ImagineStage::Update);
    assert_eq!(file.items[0].name, "f");
    assert_eq!(texts(&file.items[0]), vec!["a".to_string()]);
    let reloader = HotReloader::cold_build(source).unwrap();
    assert_eq!(reloader.live.run_tick(), vec!["a".to_string()]);
}

#[test]
fn unknown_stage_is_rejected() {
    let err = ImagineFile::parse("#[Foo]\nfn f(){print \"a\"}").unwrap_err();
    assert_eq!(err.offset, 2);
    assert_eq!(err.expected, Expected::StageName);
}

#[test]
fn empty_body_is_rejected() {
    let err = ImagineFile::parse("#[Update]\nfn f(){}").unwrap_err();
    assert_eq!(err.offset, 17);
    assert_eq!(err.expected, Expected::PrintKeyword);
}

#[test]
fn parsing_twice_gives_the_same_tree() {
    let a = ImagineFile::parse(EXAMPLE).unwrap();
    let b = ImagineFile::parse(EXAMPLE).unwrap();
    assert_eq!(format!("{:?}", a), format!("{:?}", b));
    let e1 = ImagineFile::parse("#[Update]\nfn f(){}").unwrap_err();
    let e2 = ImagineFile::parse("#[Update]\nfn f(){}").unwrap_err();
    assert_eq!(e1, e2);
}

#[test]
fn example_file_parses() {
    let file = ImagineFile::parse(EXAMPLE).unwrap();
    assert_eq!(file.items.len(), 2);
    assert_eq!(file.items[0].name, "greet");
    assert_eq!(file.items[0].stage, ImagineStage::Update);
    assert_eq!(texts(&file.items[0]), vec!["hello".to_string(), "world".to_string()]);
    assert_eq!(file.items[1].name, "bye");
    assert_eq!(file.items[1].stage, ImagineStage::Last);
    assert_eq!(texts(&file.items[1]), vec!["done".to_string()]);
    assert_eq!(file.items[0].last_run, Tick::new(0));
}

#[test]
fn statements_and_functions_keep_source_order() {
    let source = "#[Last]\nfn l1() {\nprint \"x\"\n}\n#[Update]\nfn u1() {\nprint \"1\"\nprint \"2\"\n}\n#[Last]\nfn l2() {\nprint \"y\"\n}\n#[Update]\nfn u2() {\nprint \"3\"\n}";
    let file = ImagineFile::parse(source).unwrap();
    let mut graph = TaskGraph::new();
    file.apply(&mut graph);
    assert_eq!(names(&graph.update), vec!["u1".to_string(), "u2".to_string()]);
    assert_eq!(names(&graph.last), vec!["l1".to_string(), "l2".to_string()]);
    let out = graph.run_tick();
    assert_eq!(out, vec!["1", "2", "3", "x", "y"]);
}

#[test]
fn stages_go_to_their_own_queue() {
    let file = ImagineFile::parse(EXAMPLE).unwrap();
    let mut graph = TaskGraph::new();
    file.apply(&mut graph);
    assert_eq!(graph.task_count(), 2);
    assert!(graph.update.iter().all(|f| f.stage == ImagineStage::Update));
    assert!(graph.last.iter().all(|f| f.stage == ImagineStage::Last));
    assert_eq!(graph.run_tick(), vec!["hello", "world", "done"]);
}

#[test]
fn apply_appends_after_existing_tasks() {
    let mut graph = TaskGraph::new();
    ImagineFile::parse("#[Update]\nfn a() {\nprint \"1\"\n}").unwrap().apply(&mut graph);
    ImagineFile::parse("#[Update]\nfn b() {\nprint \"2\"\n}").unwrap().apply(&mut graph);
    assert_eq!(names(&graph.update), vec!["a".to_string(), "b".to_string()]);
    assert!(graph.last.is_empty());
}

#[test]
fn duplicate_names_both_run() {
    let source = "#[Update]\nfn f() {\nprint \"a\"\n}\n#[Update]\nfn f() {\nprint \"b\"\n}";
    let reloader = HotReloader::cold_build(source).unwrap();
    assert_eq!(reloader.live.run_tick(), vec!["a", "b"]);
}

#[test]
fn tick_near_the_top_wrapping_past_zero() {
    let mut last = Tick::new(u32::MAX - 1);
    check_tick(&mut last, Tick::new(1));
    assert_eq!(last.get(), u32::MAX - 1);
    let max_age: u32 = 3_258_167_296;
    let mut last = Tick::new(max_age - 1);
    check_tick(&mut last, Tick::new(1));
    assert_eq!(last.get(), max_age - 1);
    assert!(1u32.wrapping_sub(last.get()) <= max_age);
}

#[test]
fn tick_too_old_is_rewound() {
    let max_age: u32 = 3_258_167_296;
    let mut last = Tick::new(0);
    let now = Tick::new(max_age + 1);
    check_tick(&mut last, now);
    assert_eq!(last.get(), 0u32.wrapping_sub(max_age));
    assert_eq!(last.get(), 1_036_800_000);
    assert!(now.get().wrapping_sub(last.get()) <= max_age);
}

#[test]
fn tick_at_the_maximum_age_is_kept() {
    let max_age: u32 = 3_258_167_296;
    let mut last = Tick::new(10);
    check_tick(&mut last, Tick::new(max_age + 10));
    assert_eq!(last.get(), 10);
}

#[test]
fn function_check_change_tick_keeps_body() {
    let mut file = ImagineFile::parse("#[Last]\nfn t() {\nprint \"z\"\n}").unwrap();
    let f = &mut file.items[0];
    f.set_last_run(Tick::new(5));
    assert_eq!(f.get_last_run(), Tick::new(5));
    f.check_change_tick(Tick::new(4_000_000_000));
    assert_eq!(f.get_last_run().get(), 5u32.wrapping_sub(3_258_167_296));
    assert_eq!(f.run(), vec!["z".to_string()]);
    assert_eq!(f.name(), "t");
}

#[test]
fn task_flags() {
    let file = ImagineFile::parse("#[Update]\nfn flags() {\nprint \"q\"\n}").unwrap();
    let f = &file.items[0];
    assert!(f.is_send());
    assert!(!f.is_exclusive());
    assert!(!f.has_deferred());
    assert!(f.validate_param());
}

#[test]
fn failed_hot_build_keeps_live_graph() {
    let mut reloader = HotReloader::cold_build(EXAMPLE).unwrap();
    let before = (names(&reloader.live.update), names(&reloader.live.last), reloader.live.task_count());
    let err = reloader.hot_build(Ok("#[Update]\nfn f(){}".to_string())).unwrap_err();
    match err {
        BuildError::Parse(e) => assert_eq!(e.expected, Expected::PrintKeyword),
        BuildError::Io { .. } => panic!("expected a parse error"),
    }
    let after = (names(&reloader.live.update), names(&reloader.live.last), reloader.live.task_count());
    assert_eq!(before, after);
    assert_eq!(reloader.live.run_tick(), vec!["hello", "world", "done"]);
}

#[test]
fn unreadable_script_keeps_live_graph() {
    let mut reloader = HotReloader::cold_build(EXAMPLE).unwrap();
    let err = reloader.hot_build(Err("not found".to_string())).unwrap_err();
    match err {
        BuildError::Io { message } => assert_eq!(message, "not found"),
        BuildError::Parse(_) => panic!("expected an io error"),
    }
    assert_eq!(reloader.live.task_count(), 2);
    assert!(!reloader.in_flight);
}

#[test]
fn successful_hot_build_replaces_graph() {
    let mut reloader = HotReloader::cold_build(EXAMPLE).unwrap();
    assert!(reloader.request_reload());
    let b = "#[Last]\nfn only() {\nprint \"new\"\n}";
    assert!(reloader.hot_build(Ok(b.to_string())).is_ok());
    assert!(reloader.live.update.is_empty());
    assert_eq!(names(&reloader.live.last), vec!["only".to_string()]);
    assert_eq!(reloader.live.run_tick(), vec!["new"]);
    assert!(!reloader.in_flight);
}

#[test]
fn repeated_reload_requests_collapse() {
    let mut reloader = HotReloader::cold_build(EXAMPLE).unwrap();
    assert!(reloader.request_reload());
    assert!(!reloader.request_reload());
    assert!(reloader.hot_build(Ok(EXAMPLE.to_string())).is_ok());
    assert!(reloader.request_reload());
}

#[test]
fn button_labels() {
    let mut reloader = HotReloader::cold_build(EXAMPLE).unwrap();
    assert_eq!(reloader.button_clicked(false), ButtonLabel::ReloadMods);
    assert!(!reloader.in_flight);
    assert_eq!(reloader.button_clicked(true), ButtonLabel::Reloading);
    assert!(reloader.in_flight);
}

#[test]
fn cold_build_reports_parse_error() {
    let err = HotReloader::cold_build("").unwrap_err();
    assert_eq!(err.offset, 0);
    assert_eq!(err.expected, Expected::StageAnnotation);
}

#[test]
fn grammar_errors() {
    let cases: Vec<(&str, usize, Expected)> = vec![
        ("fn f() {\nprint \"a\"\n}", 0, Expected::StageAnnotation),
        ("#[Update x\nfn f() {\nprint \"a\"\n}", 8, Expected::ClosingBracket),
        ("#[Last]\nfun f() {\nprint \"a\"\n}", 8, Expected::FnKeyword),
        ("#[Last]\nfn 1f() {\nprint \"a\"\n}", 11, Expected::Identifier),
        ("#[Last]\nfn f(x) {\nprint \"a\"\n}", 12, Expected::EmptyParens),
        ("#[Last]\nfn f() print \"a\"\n}", 15, Expected::OpenBrace),
        ("#[Last]\nfn f() {\nprint a\n}", 23, Expected::OpeningQuote),
        ("#[Last]\nfn f() {\nprint \"\"\n}", 24, Expected::Text),
        ("#[Last]\nfn f() {\nprint \"abc\n}", 29, Expected::ClosingQuote),
        ("#[Last]\nfn f() {\nprint \"a\" print \"b\"\n}", 27, Expected::CloseBrace),
        ("#[Last]\nfn f() {\nprint \"a\"\n}\ngarbage", 29, Expected::StageAnnotation),
    ];
    for (source, offset, expected) in cases {
        let err = ImagineFile::parse(source).unwrap_err();
        assert_eq!((err.offset, err.expected), (offset, expected), "{source:?}");
    }
}

#[test]
fn whitespace_around_parts() {
    let source = "  \n#[Update]   \n\tfn f_1()  {  \nprint    \"a b\"\n\n  print \"c\"\n  }  \n#[Last]fn g(){print\"d\"}";
    let file = ImagineFile::parse(source).unwrap();
    assert_eq!(file.items.len(), 2);
    assert_eq!(file.items[0].name, "f_1");
    assert_eq!(texts(&file.items[0]), vec!["a b".to_string(), "c".to_string()]);
    assert_eq!(file.items[1].name, "g");
    assert_eq!(texts(&file.items[1]), vec!["d".to_string()]);
}

#[test]
fn non_ascii_text_is_kept() {
    let file = ImagineFile::parse("#[Update]\nfn f() {\nprint \"héllo ✓\"\n}").unwrap();
    assert_eq!(texts(&file.items[0]), vec!["héllo ✓".to_string()]);
}

#[test]
fn parse_error_keeps_remaining_input() {
    let source = "#[Foo]\nfn f(){print \"a\"}";
    let err = ImagineFile::parse(source).unwrap_err();
    assert_eq!(err.remaining(source), "Foo]\nfn f(){print \"a\"}");
    let beyond = imagine::parser::ParseError { offset: 100, expected: Expected::Text };
    assert_eq!(beyond.remaining(source), "");
}
