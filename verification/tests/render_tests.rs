use todos::dispatch::{dispatch, Command};
use todos::render::{list_todos, render_report, show_todo, show_todo_as_html, show_todo_as_markdown};
use todos::store::Todos;
use todos::task::{Lifespan, Todo};

fn task(title: &str, desc: &str, lf: Lifespan) -> Todo {
    Todo::new(String::from(title), String::from(desc), lf)
}

#[test]
fn console_form_of_one_task() {
    let t = task("Water plants", "the ferns", Lifespan::Weekly);
    let s = show_todo(&t, 3);
    assert_eq!(s, "3- Water plants (Weekly, Possible)\n\tthe ferns\n");
}

#[test]
fn html_form_of_one_task() {
    let t = task("Water plants", "the ferns", Lifespan::Weekly);
    let s = show_todo_as_html(&t, 12);
    assert_eq!(s, "<li><h2>12- Water plants</h2>\n(Weekly)<br/>\n\tthe ferns</li>\n");
}

#[test]
fn markdown_form_of_one_task() {
    let t = task("Water plants", "the ferns", Lifespan::Weekly);
    let s = show_todo_as_markdown(&t, 1);
    assert_eq!(s, "##1- Water plants\n(Weekly)\n* the ferns\n");
}

#[test]
fn list_numbers_from_one() {
    let tasks = vec![
        task("a", "1", Lifespan::Daily),
        task("b", "2", Lifespan::Daily),
    ];
    let s = list_todos(&tasks);
    assert_eq!(s, "1- a (Daily, Possible)\n\t1\n2- b (Daily, Possible)\n\t2\n");
}

#[test]
fn scenario_filtered_list_renumbers_matches() {
    let mut store = Todos::new();
    store.add(task("one", "d1", Lifespan::Daily));
    store.add(task("two", "w1", Lifespan::Weekly));
    store.add(task("three", "d2", Lifespan::Daily));
    let out = dispatch(&mut store, Command::List { lf_flag: String::from("daily") });
    assert_eq!(out, "1- one (Daily, Possible)\n\td1\n2- three (Daily, Possible)\n\td2\n");
    assert_eq!(store.len(), 3);
}

#[test]
fn list_without_recognized_filter_renders_everything() {
    let mut store = Todos::new();
    store.add(task("one", "d1", Lifespan::Daily));
    store.add(task("two", "w1", Lifespan::Weekly));
    let out = dispatch(&mut store, Command::List { lf_flag: String::from("") });
    assert_eq!(out, "1- one (Daily, Possible)\n\td1\n2- two (Weekly, Possible)\n\tw1\n");
}

#[test]
fn scenario_html_report_wraps_items_in_a_list() {
    let mut store = Todos::new();
    store.add(task("one", "d1", Lifespan::Daily));
    store.add(task("two", "w1", Lifespan::Weekly));
    let out = dispatch(&mut store, Command::Report { type_flag: String::from("html") });
    assert!(out.starts_with("<ul>\n"));
    assert!(out.ends_with("</ul>\n"));
    assert_eq!(out.matches("<li>").count(), 2);
    assert_eq!(
        out,
        "<ul>\n<li><h2>1- one</h2>\n(Daily)<br/>\n\td1</li>\n<li><h2>2- two</h2>\n(Weekly)<br/>\n\tw1</li>\n</ul>\n"
    );
}

#[test]
fn scenario_default_report_is_markdown() {
    let mut store = Todos::new();
    store.add(task("one", "d1", Lifespan::Daily));
    store.add(task("two", "w1", Lifespan::Weekly));
    let out = dispatch(&mut store, Command::Report { type_flag: String::from("") });
    assert_eq!(out, "##1- one\n(Daily)\n* d1\n##2- two\n(Weekly)\n* w1\n");
    assert_eq!(out.matches("##").count(), 2);
}

#[test]
fn report_on_empty_store() {
    let mut store = Todos::new();
    let html = dispatch(&mut store, Command::Report { type_flag: String::from("html") });
    assert_eq!(html, "<ul>\n</ul>\n");
    let md = dispatch(&mut store, Command::Report { type_flag: String::from("markdown") });
    assert_eq!(md, "");
    let tasks: Vec<Todo> = Vec::new();
    assert_eq!(render_report(&tasks, false), "");
}

#[test]
fn filtered_list_with_other_lifespans() {
    let mut store = Todos::new();
    store.add(task("w", "1", Lifespan::Weekly));
    store.add(task("d", "2", Lifespan::Daily));
    let out = dispatch(&mut store, Command::List { lf_flag: String::from("weekly") });
    assert_eq!(out, "1- w (Weekly, Possible)\n\t1\n");
    let none = dispatch(&mut store, Command::List { lf_flag: String::from("life") });
    assert_eq!(none, "");
}
