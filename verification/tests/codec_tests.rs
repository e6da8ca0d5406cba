use todos::codec::{encode_tasks, parse_tasks};
use todos::store::Todos;
use todos::task::{Lifespan, Status, Todo};

fn task(title: &str, desc: &str, lf: Lifespan) -> Todo {
    Todo::new(String::from(title), String::from(desc), lf)
}

#[test]
fn encode_one_task_exact_text() {
    let tasks = vec![task("Buy milk", "2%", Lifespan::Daily)];
    let s = encode_tasks(&tasks);
    assert_eq!(
        s,
        "[{\"title\":\"Buy milk\",\"description\":\"2%\",\"status\":\"Possible\",\"lifespan\":\"Daily\"}]"
    );
}

#[test]
fn encode_escapes_special_characters() {
    let tasks = vec![task("a\"b\\c", "line1\nline2\ttab\u{1}", Lifespan::Life)];
    let s = encode_tasks(&tasks);
    assert_eq!(
        s,
        "[{\"title\":\"a\\\"b\\\\c\",\"description\":\"line1\\nline2\\ttab\\u0001\",\"status\":\"Possible\",\"lifespan\":\"Life\"}]"
    );
}

#[test]
fn encode_empty_list_is_bare_brackets() {
    let tasks: Vec<Todo> = Vec::new();
    assert_eq!(encode_tasks(&tasks), "[]");
}

#[test]
fn parse_rejects_malformed_text() {
    assert!(parse_tasks("nonsense").is_none());
    assert!(parse_tasks("[").is_none());
    assert!(parse_tasks("[{\"title\":\"a\"}]").is_none());
    assert!(parse_tasks("[]x").is_none());
}

#[test]
fn parse_accepts_what_was_encoded() {
    let tasks = vec![
        task("plain", "text", Lifespan::Weekly),
        task("q\"w\\e", "d\r\n\u{8}\u{c}\u{1f}", Lifespan::Monthly),
    ];
    let s = encode_tasks(&tasks);
    let back = parse_tasks(&s).expect("round trip must parse");
    assert_eq!(back.len(), 2);
    assert_eq!(back[0].title, "plain");
    assert_eq!(back[0].description, "text");
    assert_eq!(back[0].lifespan, Lifespan::Weekly);
    assert_eq!(back[1].title, "q\"w\\e");
    assert_eq!(back[1].description, "d\r\n\u{8}\u{c}\u{1f}");
    assert_eq!(back[1].lifespan, Lifespan::Monthly);
}

#[test]
fn round_trip_preserves_every_field_and_order() {
    let mut store = Todos::new();
    store.add(task("first", "one", Lifespan::Daily));
    store.add(task("sécond ünïcode", "déscription", Lifespan::Yearly));
    store.add(task("third", "", Lifespan::Life));
    store.set_status(2, Status::Obsolete);
    store.set_status(3, Status::Open);
    let saved = store.save_to_string();
    let mut reloaded = Todos::new();
    assert!(reloaded.load_from_str(&saved));
    let a = store.get_all();
    let b = reloaded.get_all();
    assert_eq!(a.len(), b.len());
    for i in 0..a.len() {
        assert_eq!(a[i].title, b[i].title);
        assert_eq!(a[i].description, b[i].description);
        assert_eq!(a[i].status, b[i].status);
        assert_eq!(a[i].lifespan, b[i].lifespan);
    }
}

#[test]
fn load_empty_text_gives_empty_store() {
    let mut store = Todos::new();
    store.add(task("leftover", "x", Lifespan::Daily));
    assert!(store.load_from_str(""));
    assert_eq!(store.len(), 0);
    assert!(store.load_from_str("[]"));
    assert_eq!(store.len(), 0);
}

#[test]
fn load_malformed_text_is_refused_and_keeps_contents() {
    let mut store = Todos::new();
    store.add(task("keep", "x", Lifespan::Daily));
    assert!(!store.load_from_str("{broken"));
    assert_eq!(store.len(), 1);
    assert_eq!(store.get_all()[0].title, "keep");
}
