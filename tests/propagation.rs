use cascade::{begin, relay, translate, Cascadable, CascadeError, CodeTrace};

#[derive(Debug, Clone, PartialEq)]
struct IoError {
    code: i32,
}

impl Cascadable for IoError {}

#[derive(Debug, Clone, PartialEq)]
enum AppError {
    Io(i32),
}

impl From<IoError> for AppError {
    fn from(e: IoError) -> AppError {
        AppError::Io(e.code)
    }
}

impl Cascadable for AppError {}

#[derive(Debug, Clone, PartialEq)]
struct Message(String);

impl Cascadable for Message {}

fn at(file: &'static str, line: u32) -> CodeTrace {
    CodeTrace::new(file, line)
}

#[test]
fn lift_keeps_error_and_one_location() {
    let e = IoError { code: 3 }.into_cascade(at("x.rs", 1));
    assert_eq!(e.inner(), &IoError { code: 3 });
    assert_eq!(e.code_trace(), vec![at("x.rs", 1)]);
}

#[test]
fn begin_matches_lift() {
    let e = begin(IoError { code: 4 }, at("y.rs", 9));
    assert_eq!(e.inner(), &IoError { code: 4 });
    assert_eq!(e.code_trace(), vec![at("y.rs", 9)]);
}

#[test]
fn push_appends_and_keeps_error() {
    let mut e = begin(IoError { code: 1 }, at("a", 1));
    e.push(at("b", 2));
    assert_eq!(e.code_trace(), vec![at("a", 1), at("b", 2)]);
    e.push(at("c", 3));
    assert_eq!(e.code_trace(), vec![at("a", 1), at("b", 2), at("c", 3)]);
    assert_eq!(e.inner(), &IoError { code: 1 });
}

#[test]
fn push_keeps_duplicates() {
    let mut e = begin(IoError { code: 1 }, at("a", 1));
    e.push(at("a", 1));
    e.push(at("a", 1));
    assert_eq!(e.code_trace(), vec![at("a", 1), at("a", 1), at("a", 1)]);
}

#[test]
fn map_turns_error_and_appends() {
    let e = begin(IoError { code: 5 }, at("a", 1));
    let e = relay(e, at("b", 2));
    let m: CascadeError<Message> = e.map(|x: IoError| Message(format!("io {}", x.code)), at("c", 3));
    assert_eq!(m.inner(), &Message("io 5".to_string()));
    assert_eq!(m.code_trace(), vec![at("a", 1), at("b", 2), at("c", 3)]);
}

#[test]
fn chain_of_hops_keeps_call_order() {
    let mut e = begin(IoError { code: 2 }, at("origin", 100));
    let mut expected = vec![at("origin", 100)];
    for i in 0..20u32 {
        let t = at("hop", 50 - i);
        e = relay(e, t);
        expected.push(t);
    }
    let t = at("edge", 7);
    let q: CascadeError<AppError> = translate(e, AppError::from, t);
    expected.push(t);
    let t = at("top", 1);
    let q = relay(q, t);
    expected.push(t);
    let trace = q.code_trace();
    assert_eq!(trace.len(), 23);
    assert_eq!(trace, expected);
    assert_eq!(q.into_inner(), AppError::Io(2));
}

#[test]
fn extract_gives_error_alone() {
    let e = relay(begin(IoError { code: 8 }, at("a", 1)), at("b", 2));
    let plain: IoError = e.into_inner();
    assert_eq!(plain, IoError { code: 8 });
}

#[test]
fn scenario_io_to_app_error() {
    let e = begin(IoError { code: 13 }, at("a", 10));
    assert_eq!(e.inner(), &IoError { code: 13 });
    assert_eq!(e.code_trace(), vec![at("a", 10)]);
    let e = relay(e, at("b", 20));
    assert_eq!(e.code_trace(), vec![at("a", 10), at("b", 20)]);
    let e = translate(e, AppError::from, at("c", 5));
    assert_eq!(e.inner(), &AppError::Io(13));
    assert_eq!(e.code_trace(), vec![at("a", 10), at("b", 20), at("c", 5)]);
    assert_eq!(e.into_inner(), AppError::Io(13));
}

#[test]
fn trace_text_of_scenario() {
    let e = translate(
        relay(begin(IoError { code: 13 }, at("a", 10)), at("b", 20)),
        AppError::from,
        at("c", 5),
    );
    let text: Vec<String> = e.code_trace().iter().map(|t| t.to_string()).collect();
    assert_eq!(text, vec!["a:10", "b:20", "c:5"]);
}
