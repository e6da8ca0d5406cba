//! The three renderers: plain console text, HTML fragment, Markdown
//! fragment. Each formats one task with its 1-based display index; the
//! list and report functions number a whole sequence from one.

use vstd::prelude::*;

use crate::task::{lifespan_name, lifespan_name_str, status_name, status_name_str};
use crate::task::{TaskView, Todo};
use crate::text::{append_usize, dec_str};

verus! {

/// Console form: index and title, lifespan and status annotated, the
/// description indented on the following line.
pub open spec fn console_block(t: TaskView, i: nat) -> Seq<char> {
    dec_str(i) + "- "@ + t.title + " ("@ + lifespan_name(t.lifespan) + ", "@ + status_name(
        t.status,
    ) + ")\n\t"@ + t.description + "\n"@
}

/// HTML form: a list item whose heading carries the index and title.
pub open spec fn html_block(t: TaskView, i: nat) -> Seq<char> {
    "<li><h2>"@ + dec_str(i) + "- "@ + t.title + "</h2>\n("@ + lifespan_name(t.lifespan)
        + ")<br/>\n\t"@ + t.description + "</li>\n"@
}

/// Markdown form: a heading line, the lifespan in parentheses, the
/// description as a bullet.
pub open spec fn markdown_block(t: TaskView, i: nat) -> Seq<char> {
    "##"@ + dec_str(i) + "- "@ + t.title + "\n("@ + lifespan_name(t.lifespan) + ")\n* "@
        + t.description + "\n"@
}

/// Console blocks for a whole sequence, numbered from `i`.
pub open spec fn console_blocks(ts: Seq<TaskView>, i: nat) -> Seq<char>
    decreases ts.len(),
{
    if ts.len() == 0 {
        Seq::empty()
    } else {
        console_block(ts[0], i) + console_blocks(ts.skip(1), i + 1)
    }
}

/// HTML blocks for a whole sequence, numbered from `i`.
pub open spec fn html_blocks(ts: Seq<TaskView>, i: nat) -> Seq<char>
    decreases ts.len(),
{
    if ts.len() == 0 {
        Seq::empty()
    } else {
        html_block(ts[0], i) + html_blocks(ts.skip(1), i + 1)
    }
}

/// Markdown blocks for a whole sequence, numbered from `i`.
pub open spec fn markdown_blocks(ts: Seq<TaskView>, i: nat) -> Seq<char>
    decreases ts.len(),
{
    if ts.len() == 0 {
        Seq::empty()
    } else {
        markdown_block(ts[0], i) + markdown_blocks(ts.skip(1), i + 1)
    }
}

/// A rendered listing: console blocks numbered from one. A filtered list
/// is numbered by position in the filtered sequence, not in the store.
pub open spec fn spec_render_list(ts: Seq<TaskView>) -> Seq<char> {
    console_blocks(ts, 1)
}

/// A rendered report: HTML blocks wrapped in a list container, or bare
/// Markdown blocks, numbered from one either way.
pub open spec fn spec_render_report(ts: Seq<TaskView>, html: bool) -> Seq<char> {
    if html {
        "<ul>\n"@ + html_blocks(ts, 1) + "</ul>\n"@
    } else {
        markdown_blocks(ts, 1)
    }
}

/// Console form of one task at its display index.
pub fn show_todo(todo: &Todo, index: usize) -> (r: String)
    ensures
        r@ == console_block(todo@, index as nat),
{
    let mut out = String::new();
    append_usize(&mut out, index);
    out.append("- ");
    out.append(todo.title.as_str());
    out.append(" (");
    out.append(lifespan_name_str(todo.lifespan));
    out.append(", ");
    out.append(status_name_str(todo.status));
    out.append(")\n\t");
    out.append(todo.description.as_str());
    out.append("\n");
    proof {
        assert(out@ =~= console_block(todo@, index as nat));
    }
    out
}

/// HTML form of one task at its display index.
pub fn show_todo_as_html(todo: &Todo, index: usize) -> (r: String)
    ensures
        r@ == html_block(todo@, index as nat),
{
    let mut out = String::new();
    out.append("<li><h2>");
    append_usize(&mut out, index);
    out.append("- ");
    out.append(todo.title.as_str());
    out.append("</h2>\n(");
    out.append(lifespan_name_str(todo.lifespan));
    out.append(")<br/>\n\t");
    out.append(todo.description.as_str());
    out.append("</li>\n");
    proof {
        assert(out@ =~= html_block(todo@, index as nat));
    }
    out
}

/// Markdown form of one task at its display index.
pub fn show_todo_as_markdown(todo: &Todo, index: usize) -> (r: String)
    ensures
        r@ == markdown_block(todo@, index as nat),
{
    let mut out = String::new();
    out.append("##");
    append_usize(&mut out, index);
    out.append("- ");
    out.append(todo.title.as_str());
    out.append("\n(");
    out.append(lifespan_name_str(todo.lifespan));
    out.append(")\n* ");
    out.append(todo.description.as_str());
    out.append("\n");
    proof {
        assert(out@ =~= markdown_block(todo@, index as nat));
    }
    out
}

/// The console listing of the given tasks, numbered from one.
pub fn list_todos(todos: &Vec<Todo>) -> (r: String)
    ensures
        r@ == spec_render_list(todos@.map_values(|t: Todo| t@)),
{
    let ghost tsv = todos@.map_values(|t: Todo| t@);
    let mut out = String::new();
    let n = todos.len();
    proof {
        assert(tsv.skip(0) =~= tsv);
        assert(out@ + console_blocks(tsv, 1) =~= console_blocks(tsv, 1));
    }
    for k in it: 0..n
        invariant
            n == todos.len(),
            tsv == todos@.map_values(|t: Todo| t@),
            out@ + console_blocks(tsv.skip(k as int), (k + 1) as nat) == console_blocks(tsv, 1),
    {
        proof {
            assert(tsv.skip(k as int)[0] == tsv[k as int]);
            assert(tsv.skip(k as int).skip(1) =~= tsv.skip(k + 1));
        }
        let block = show_todo(&todos[k], k + 1);
        out.append(block.as_str());
        proof {
            assert(out@ + console_blocks(tsv.skip(k + 1), (k + 2) as nat) =~= console_blocks(
                tsv,
                1,
            ));
        }
    }
    proof {
        assert(tsv.skip(n as int) =~= Seq::<TaskView>::empty());
        assert(out@ =~= console_blocks(tsv, 1));
    }
    out
}

/// The report over the given tasks: HTML wrapped in `<ul>`, or Markdown.
pub fn render_report(todos: &Vec<Todo>, html: bool) -> (r: String)
    ensures
        r@ == spec_render_report(todos@.map_values(|t: Todo| t@), html),
{
    let ghost tsv = todos@.map_values(|t: Todo| t@);
    let mut out = String::new();
    if html {
        out.append("<ul>\n");
    }
    let ghost head = out@;
    let n = todos.len();
    proof {
        assert(tsv.skip(0) =~= tsv);
    }
    for k in it: 0..n
        invariant
            n == todos.len(),
            tsv == todos@.map_values(|t: Todo| t@),
            html ==> out@ + html_blocks(tsv.skip(k as int), (k + 1) as nat) == head + html_blocks(
                tsv,
                1,
            ),
            !html ==> out@ + markdown_blocks(tsv.skip(k as int), (k + 1) as nat) == head
                + markdown_blocks(tsv, 1),
    {
        proof {
            assert(tsv.skip(k as int)[0] == tsv[k as int]);
            assert(tsv.skip(k as int).skip(1) =~= tsv.skip(k + 1));
        }
        let block = if html {
            show_todo_as_html(&todos[k], k + 1)
        } else {
            show_todo_as_markdown(&todos[k], k + 1)
        };
        out.append(block.as_str());
        proof {
            if html {
                assert(out@ + html_blocks(tsv.skip(k + 1), (k + 2) as nat) =~= head + html_blocks(
                    tsv,
                    1,
                ));
            } else {
                assert(out@ + markdown_blocks(tsv.skip(k + 1), (k + 2) as nat) =~= head
                    + markdown_blocks(tsv, 1));
            }
        }
    }
    proof {
        assert(tsv.skip(n as int) =~= Seq::<TaskView>::empty());
    }
    if html {
        out.append("</ul>\n");
        proof {
            assert(out@ =~= spec_render_report(tsv, html));
        }
    } else {
        proof {
            assert(out@ =~= spec_render_report(tsv, html));
        }
    }
    out
}

} // verus!
