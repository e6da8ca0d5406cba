//! The command dispatcher: one parsed command is executed against the
//! store, and the text to print is returned. The caller loads the store
//! first and saves it afterwards, whatever the command was.

use vstd::prelude::*;

use crate::render::{spec_render_list, spec_render_report};
use crate::render::{list_todos, render_report};
use crate::store::Todos;
use crate::task::{spec_lifespan_filter, spec_lifespan_of_keyword, spec_status_of_keyword};
use crate::task::{lifespan_filter, lifespan_of_keyword, status_name, status_of_keyword, str_eq};
use crate::task::{Status, TaskView, Todo};
use crate::text::{append_usize, dec_str};

verus! {

/// One invocation's command, as the command line and the prompts gave it.
pub enum Command {
    New { name: String, description: String, lifespan_keyword: String },
    List { lf_flag: String },
    Edit,
    SetStatus { index: usize, stat_keyword: String },
    Rm { index: usize },
    Report { type_flag: String },
}

/// Mathematical image of a command: its strings as character sequences.
pub enum CommandView {
    New { name: Seq<char>, description: Seq<char>, lifespan_keyword: Seq<char> },
    List { lf_flag: Seq<char> },
    Edit,
    SetStatus { index: usize, stat_keyword: Seq<char> },
    Rm { index: usize },
    Report { type_flag: Seq<char> },
}

impl View for Command {
    type V = CommandView;

    open spec fn view(&self) -> CommandView {
        match self {
            Command::New { name, description, lifespan_keyword } => CommandView::New {
                name: name@,
                description: description@,
                lifespan_keyword: lifespan_keyword@,
            },
            Command::List { lf_flag } => CommandView::List { lf_flag: lf_flag@ },
            Command::Edit => CommandView::Edit,
            Command::SetStatus { index, stat_keyword } => CommandView::SetStatus {
                index: *index,
                stat_keyword: stat_keyword@,
            },
            Command::Rm { index } => CommandView::Rm { index: *index },
            Command::Report { type_flag } => CommandView::Report { type_flag: type_flag@ },
        }
    }
}

/// The store contents after a command runs against the given contents.
pub open spec fn spec_store_after(ts: Seq<TaskView>, c: CommandView) -> Seq<TaskView> {
    match c {
        CommandView::New { name, description, lifespan_keyword } => ts.push(
            TaskView {
                title: name,
                description: description,
                status: Status::Possible,
                lifespan: spec_lifespan_of_keyword(lifespan_keyword),
            },
        ),
        CommandView::List { .. } => ts,
        CommandView::Edit => ts,
        CommandView::SetStatus { index, stat_keyword } => match spec_status_of_keyword(
            stat_keyword,
        ) {
            Some(st) => if 1 <= index && index <= ts.len() {
                ts.update(index - 1, TaskView { status: st, ..ts[index - 1] })
            } else {
                ts
            },
            None => ts,
        },
        CommandView::Rm { index } => if ts.len() == 0 || index == 0 {
            ts
        } else {
            ts.remove(
                if index >= ts.len() {
                    ts.len() - 1
                } else {
                    index - 1
                },
            )
        },
        CommandView::Report { .. } => ts,
    }
}

/// The trailing line the `status` command always reports.
pub open spec fn status_footer(index: usize, kw: Seq<char>) -> Seq<char> {
    "Status for "@ + dec_str(index as nat) + " modified to: "@ + kw + "\n"@
}

/// The text a command prints, given the store contents it ran against.
pub open spec fn spec_output(ts: Seq<TaskView>, c: CommandView) -> Seq<char> {
    match c {
        CommandView::New { .. } => Seq::<char>::empty(),
        CommandView::List { lf_flag } => match spec_lifespan_filter(lf_flag) {
            Some(lf) => spec_render_list(ts.filter(|t: TaskView| t.lifespan == lf)),
            None => spec_render_list(ts),
        },
        CommandView::Edit => Seq::<char>::empty(),
        CommandView::SetStatus { index, stat_keyword } => match spec_status_of_keyword(
            stat_keyword,
        ) {
            Some(st) => if 1 <= index && index <= ts.len() {
                "new status "@ + status_name(st) + "\n"@ + status_footer(index, stat_keyword)
            } else {
                "no task at index "@ + dec_str(index as nat) + "\n"@
            },
            None => "Something went wront with status "@ + stat_keyword + "\n"@ + status_footer(
                index,
                stat_keyword,
            ),
        },
        CommandView::Rm { index } => dec_str(index as nat) + "\n"@,
        CommandView::Report { type_flag } => spec_render_report(ts, type_flag == "html"@),
    }
}

/// Runs one command against the store and returns the text to print.
pub fn dispatch(store: &mut Todos, cmd: Command) -> (out: String)
    ensures
        final(store)@ == spec_store_after(old(store)@, cmd@),
        out@ == spec_output(old(store)@, cmd@),
{
    let ghost cv = cmd@;
    match cmd {
        Command::New { name, description, lifespan_keyword } => {
            let lf = lifespan_of_keyword(&lifespan_keyword);
            let todo = Todo::new(name, description, lf);
            store.add(todo);
            String::new()
        },
        Command::List { lf_flag } => {
            match lifespan_filter(&lf_flag) {
                Some(lf) => {
                    let picked = store.get_by_lifespan(lf);
                    list_todos(&picked)
                },
                None => {
                    let all = store.get_all();
                    proof {
                        assert(all@.map_values(|t: Todo| t@) =~= store@);
                    }
                    list_todos(all)
                },
            }
        },
        Command::Edit => String::new(),
        Command::SetStatus { index, stat_keyword } => {
            match status_of_keyword(&stat_keyword) {
                Some(st) => {
                    if 1 <= index && index <= store.len() {
                        store.set_status(index, st);
                        let mut out = String::new();
                        out.append("new status ");
                        out.append(crate::task::status_name_str(st));
                        out.append("\n");
                        out.append("Status for ");
                        append_usize(&mut out, index);
                        out.append(" modified to: ");
                        out.append(stat_keyword.as_str());
                        out.append("\n");
                        proof {
                            assert(out@ =~= spec_output(old(store)@, cv));
                        }
                        out
                    } else {
                        let mut out = String::new();
                        out.append("no task at index ");
                        append_usize(&mut out, index);
                        out.append("\n");
                        proof {
                            assert(out@ =~= spec_output(old(store)@, cv));
                        }
                        out
                    }
                },
                None => {
                    let mut out = String::new();
                    out.append("Something went wront with status ");
                    out.append(stat_keyword.as_str());
                    out.append("\n");
                    out.append("Status for ");
                    append_usize(&mut out, index);
                    out.append(" modified to: ");
                    out.append(stat_keyword.as_str());
                    out.append("\n");
                    proof {
                        assert(out@ =~= spec_output(old(store)@, cv));
                    }
                    out
                },
            }
        },
        Command::Rm { index } => {
            let mut out = String::new();
            append_usize(&mut out, index);
            out.append("\n");
            if index >= 1 && store.len() > 0 {
                store.rm(index);
            }
            out
        },
        Command::Report { type_flag } => {
            let html = str_eq(&type_flag, "html");
            let all = store.get_all();
            proof {
                assert(all@.map_values(|t: Todo| t@) =~= store@);
            }
            render_report(all, html)
        },
    }
}

} // verus!
