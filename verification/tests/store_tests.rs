use todos::dispatch::{dispatch, Command};
use todos::store::Todos;
use todos::task::{Lifespan, Status, Todo};

fn task(title: &str, desc: &str, lf: Lifespan) -> Todo {
    Todo::new(String::from(title), String::from(desc), lf)
}

#[test]
fn new_store_is_empty() {
    let store = Todos::new();
    assert_eq!(store.len(), 0);
    assert_eq!(store.get_all().len(), 0);
}

#[test]
fn add_appends_with_status_possible() {
    let mut store = Todos::new();
    store.add(task("a", "da", Lifespan::Daily));
    store.add(task("b", "db", Lifespan::Weekly));
    assert_eq!(store.len(), 2);
    let all = store.get_all();
    assert_eq!(all[0].title, "a");
    assert_eq!(all[1].title, "b");
    assert_eq!(all[1].description, "db");
    assert_eq!(all[0].status, Status::Possible);
    assert_eq!(all[1].status, Status::Possible);
    assert_eq!(all[1].lifespan, Lifespan::Weekly);
}

#[test]
fn get_by_lifespan_filters_in_order_without_mutating() {
    let mut store = Todos::new();
    store.add(task("first", "1", Lifespan::Daily));
    store.add(task("second", "2", Lifespan::Weekly));
    store.add(task("third", "3", Lifespan::Daily));
    let daily = store.get_by_lifespan(Lifespan::Daily);
    assert_eq!(daily.len(), 2);
    assert_eq!(daily[0].title, "first");
    assert_eq!(daily[1].title, "third");
    let monthly = store.get_by_lifespan(Lifespan::Monthly);
    assert_eq!(monthly.len(), 0);
    assert_eq!(store.len(), 3);
    assert_eq!(store.get_all()[1].title, "second");
}

#[test]
fn set_status_changes_only_that_field() {
    let mut store = Todos::new();
    store.add(task("a", "da", Lifespan::Daily));
    store.add(task("b", "db", Lifespan::Yearly));
    store.set_status(2, Status::Achieved);
    let all = store.get_all();
    assert_eq!(all[0].status, Status::Possible);
    assert_eq!(all[1].status, Status::Achieved);
    assert_eq!(all[1].title, "b");
    assert_eq!(all[1].description, "db");
    assert_eq!(all[1].lifespan, Lifespan::Yearly);
}

#[test]
fn rm_removes_ith_and_shifts() {
    let mut store = Todos::new();
    store.add(task("a", "1", Lifespan::Daily));
    store.add(task("b", "2", Lifespan::Daily));
    store.add(task("c", "3", Lifespan::Daily));
    store.rm(2);
    let all = store.get_all();
    assert_eq!(all.len(), 2);
    assert_eq!(all[0].title, "a");
    assert_eq!(all[1].title, "c");
}

#[test]
fn rm_beyond_end_clamps_to_last() {
    let mut store = Todos::new();
    store.add(task("a", "1", Lifespan::Daily));
    store.add(task("b", "2", Lifespan::Daily));
    store.rm(9);
    let all = store.get_all();
    assert_eq!(all.len(), 1);
    assert_eq!(all[0].title, "a");
}

#[test]
fn rm_on_empty_store_is_a_no_op() {
    let mut store = Todos::new();
    store.rm(1);
    assert_eq!(store.len(), 0);
}

#[test]
fn scenario_new_status_rm_save() {
    let mut store = Todos::new();
    assert!(store.load_from_str(""));
    assert_eq!(store.len(), 0);
    let out = dispatch(
        &mut store,
        Command::New {
            name: String::from("Buy milk"),
            description: String::from("2%\n"),
            lifespan_keyword: String::from("daily"),
        },
    );
    assert_eq!(out, "");
    assert_eq!(store.len(), 1);
    {
        let t = &store.get_all()[0];
        assert_eq!(t.title, "Buy milk");
        assert_eq!(t.description, "2%\n");
        assert_eq!(t.lifespan, Lifespan::Daily);
        assert_eq!(t.status, Status::Possible);
    }
    dispatch(
        &mut store,
        Command::SetStatus { index: 1, stat_keyword: String::from("open") },
    );
    assert_eq!(store.get_all()[0].status, Status::Open);
    dispatch(&mut store, Command::Rm { index: 1 });
    assert_eq!(store.len(), 0);
    let saved = store.save_to_string();
    assert_eq!(saved, "[]");
    let mut reloaded = Todos::new();
    assert!(reloaded.load_from_str(&saved));
    assert_eq!(reloaded.len(), 0);
}

#[test]
fn dispatch_unknown_status_keyword_reports_and_skips() {
    let mut store = Todos::new();
    store.add(task("a", "1", Lifespan::Daily));
    let out = dispatch(
        &mut store,
        Command::SetStatus { index: 1, stat_keyword: String::from("done") },
    );
    assert!(out.starts_with("Something went wront with status done"));
    assert_eq!(store.get_all()[0].status, Status::Possible);
}

#[test]
fn dispatch_status_out_of_range_reports_and_skips() {
    let mut store = Todos::new();
    store.add(task("a", "1", Lifespan::Daily));
    let out = dispatch(
        &mut store,
        Command::SetStatus { index: 4, stat_keyword: String::from("open") },
    );
    assert_eq!(out, "no task at index 4\n");
    assert_eq!(store.get_all()[0].status, Status::Possible);
}

#[test]
fn dispatch_edit_is_inert() {
    let mut store = Todos::new();
    store.add(task("a", "1", Lifespan::Daily));
    let out = dispatch(&mut store, Command::Edit);
    assert_eq!(out, "");
    assert_eq!(store.len(), 1);
}

#[test]
fn dispatch_new_defaults_unknown_lifespan_to_daily() {
    let mut store = Todos::new();
    dispatch(
        &mut store,
        Command::New {
            name: String::from("x"),
            description: String::from("y"),
            lifespan_keyword: String::from("fortnightly"),
        },
    );
    assert_eq!(store.get_all()[0].lifespan, Lifespan::Daily);
}

#[test]
fn dispatch_rm_index_zero_is_a_no_op() {
    let mut store = Todos::new();
    store.add(task("a", "1", Lifespan::Daily));
    let out = dispatch(&mut store, Command::Rm { index: 0 });
    assert_eq!(out, "0\n");
    assert_eq!(store.len(), 1);
}

#[test]
fn dispatch_status_success_reports_both_lines() {
    let mut store = Todos::new();
    store.add(task("a", "1", Lifespan::Daily));
    let out = dispatch(
        &mut store,
        Command::SetStatus { index: 1, stat_keyword: String::from("achieved") },
    );
    assert_eq!(out, "new status Achieved\nStatus for 1 modified to: achieved\n");
    assert_eq!(store.get_all()[0].status, Status::Achieved);
}
