//! The persistence format: a JSON array of task objects, written as
//! `{"title":...,"description":...,"status":...,"lifespan":...}` with the
//! usual string escapes. Both directions are verified, and parsing what was
//! encoded is proved to give back the original sequence. The parser reads
//! exactly the canonical form the encoder writes: no surrounding
//! whitespace, fields in their fixed order.

use vstd::prelude::*;

use crate::task::{lifespan_name, lifespan_name_str, status_name, status_name_str};
use crate::task::{Lifespan, Status, TaskView, Todo};
use crate::text::{push_char, starts_at, starts_with, to_chars};

verus! {

/// Hexadecimal digit character for a value below sixteen.
pub open spec fn hex_digit(d: nat) -> char {
    if d == 0 {
        '0'
    } else if d == 1 {
        '1'
    } else if d == 2 {
        '2'
    } else if d == 3 {
        '3'
    } else if d == 4 {
        '4'
    } else if d == 5 {
        '5'
    } else if d == 6 {
        '6'
    } else if d == 7 {
        '7'
    } else if d == 8 {
        '8'
    } else if d == 9 {
        '9'
    } else if d == 10 {
        'a'
    } else if d == 11 {
        'b'
    } else if d == 12 {
        'c'
    } else if d == 13 {
        'd'
    } else if d == 14 {
        'e'
    } else {
        'f'
    }
}

/// The value of a hexadecimal digit character, if it is one.
pub open spec fn unhex(c: char) -> Option<nat> {
    if c == '0' {
        Some(0 as nat)
    } else if c == '1' {
        Some(1 as nat)
    } else if c == '2' {
        Some(2 as nat)
    } else if c == '3' {
        Some(3 as nat)
    } else if c == '4' {
        Some(4 as nat)
    } else if c == '5' {
        Some(5 as nat)
    } else if c == '6' {
        Some(6 as nat)
    } else if c == '7' {
        Some(7 as nat)
    } else if c == '8' {
        Some(8 as nat)
    } else if c == '9' {
        Some(9 as nat)
    } else if c == 'a' {
        Some(10 as nat)
    } else if c == 'b' {
        Some(11 as nat)
    } else if c == 'c' {
        Some(12 as nat)
    } else if c == 'd' {
        Some(13 as nat)
    } else if c == 'e' {
        Some(14 as nat)
    } else if c == 'f' {
        Some(15 as nat)
    } else {
        None
    }
}

/// How one character appears inside a JSON string literal.
pub open spec fn esc_char(c: char) -> Seq<char> {
    if c == '"' {
        "\\\""@
    } else if c == '\\' {
        "\\\\"@
    } else if c == '\n' {
        "\\n"@
    } else if c == '\r' {
        "\\r"@
    } else if c == '\t' {
        "\\t"@
    } else if c == '\u{8}' {
        "\\b"@
    } else if c == '\u{c}' {
        "\\f"@
    } else if (c as u32) < 32 {
        "\\u00"@ + seq![
            hex_digit(((c as u32) / 16) as nat),
            hex_digit(((c as u32) % 16) as nat),
        ]
    } else {
        seq![c]
    }
}

/// How a whole string appears inside a JSON string literal.
pub open spec fn esc(s: Seq<char>) -> Seq<char>
    decreases s.len(),
{
    if s.len() == 0 {
        Seq::empty()
    } else {
        esc_char(s[0]) + esc(s.skip(1))
    }
}

/// The serialized form of one task object.
pub open spec fn spec_encode_task(t: TaskView) -> Seq<char> {
    "{\"title\":\""@ + esc(t.title) + "\",\"description\":\""@ + esc(t.description)
        + "\",\"status\":\""@ + status_name(t.status) + "\",\"lifespan\":\""@ + lifespan_name(
        t.lifespan,
    ) + "\"}"@
}

/// The serialized task objects, comma-separated, closed by `]`.
pub open spec fn spec_encode_items(ts: Seq<TaskView>) -> Seq<char>
    decreases ts.len(),
{
    if ts.len() == 0 {
        "]"@
    } else if ts.len() == 1 {
        spec_encode_task(ts[0]) + "]"@
    } else {
        spec_encode_task(ts[0]) + ","@ + spec_encode_items(ts.skip(1))
    }
}

/// The serialized form of a whole task sequence: a JSON array.
pub open spec fn spec_encode_tasks(ts: Seq<TaskView>) -> Seq<char> {
    "["@ + spec_encode_items(ts)
}

fn exec_hex_digit(d: u32) -> (c: char)
    requires
        d < 16,
    ensures
        c == hex_digit(d as nat),
{
    if d == 0 {
        '0'
    } else if d == 1 {
        '1'
    } else if d == 2 {
        '2'
    } else if d == 3 {
        '3'
    } else if d == 4 {
        '4'
    } else if d == 5 {
        '5'
    } else if d == 6 {
        '6'
    } else if d == 7 {
        '7'
    } else if d == 8 {
        '8'
    } else if d == 9 {
        '9'
    } else if d == 10 {
        'a'
    } else if d == 11 {
        'b'
    } else if d == 12 {
        'c'
    } else if d == 13 {
        'd'
    } else if d == 14 {
        'e'
    } else {
        'f'
    }
}

fn append_esc_char(out: &mut String, c: char)
    ensures
        final(out)@ == old(out)@ + esc_char(c),
{
    if c == '"' {
        out.append("\\\"");
    } else if c == '\\' {
        out.append("\\\\");
    } else if c == '\n' {
        out.append("\\n");
    } else if c == '\r' {
        out.append("\\r");
    } else if c == '\t' {
        out.append("\\t");
    } else if c == '\u{8}' {
        out.append("\\b");
    } else if c == '\u{c}' {
        out.append("\\f");
    } else if (c as u32) < 32 {
        out.append("\\u00");
        push_char(out, exec_hex_digit((c as u32) / 16));
        push_char(out, exec_hex_digit((c as u32) % 16));
        proof {
            assert(out@ =~= old(out)@ + esc_char(c));
        }
    } else {
        push_char(out, c);
        proof {
            assert(out@ =~= old(out)@ + esc_char(c));
        }
    }
}

proof fn lemma_esc_snoc(s: Seq<char>, c: char)
    ensures
        esc(s.push(c)) == esc(s) + esc_char(c),
    decreases s.len(),
{
    if s.len() == 0 {
        assert(s.push(c)[0] == c);
        assert(s.push(c).skip(1) =~= Seq::<char>::empty());
        assert(esc(Seq::<char>::empty()) == Seq::<char>::empty());
        assert(esc(s) == Seq::<char>::empty());
        assert(esc(s.push(c)) =~= esc(s) + esc_char(c));
    } else {
        lemma_esc_snoc(s.skip(1), c);
        assert(s.push(c).skip(1) =~= s.skip(1).push(c));
        assert(s.push(c)[0] == s[0]);
        assert(esc(s.push(c)) =~= esc(s) + esc_char(c));
    }
}

fn append_escaped(out: &mut String, s: &str)
    ensures
        final(out)@ == old(out)@ + esc(s@),
{
    for c in it: s.chars()
        invariant
            it.seq() == s@,
            out@ == old(out)@ + esc(it.seq().take(it.index() as int)),
    {
        proof {
            lemma_esc_snoc(it.seq().take(it.index() as int), c);
            assert(it.seq().take(it.index() + 1) =~= it.seq().take(it.index() as int).push(c));
        }
        append_esc_char(out, c);
        proof {
            assert(out@ =~= old(out)@ + esc(it.seq().take(it.index() + 1)));
        }
    }
    proof {
        assert(s@.take(s@.len() as int) =~= s@);
    }
}

/// Appends the serialized form of one task.
fn append_task(out: &mut String, t: &Todo)
    ensures
        final(out)@ == old(out)@ + spec_encode_task(t@),
{
    out.append("{\"title\":\"");
    append_escaped(out, t.title.as_str());
    out.append("\",\"description\":\"");
    append_escaped(out, t.description.as_str());
    out.append("\",\"status\":\"");
    out.append(status_name_str(t.status));
    out.append("\",\"lifespan\":\"");
    out.append(lifespan_name_str(t.lifespan));
    out.append("\"}");
    proof {
        assert(out@ =~= old(out)@ + spec_encode_task(t@));
    }
}

/// The serialized form of a whole task vector.
pub fn encode_tasks(tasks: &Vec<Todo>) -> (r: String)
    ensures
        r@ == spec_encode_tasks(tasks@.map_values(|t: Todo| t@)),
{
    let ghost tsv = tasks@.map_values(|t: Todo| t@);
    let mut out = String::new();
    out.append("[");
    let n = tasks.len();
    if n == 0 {
        out.append("]");
        proof {
            assert(out@ =~= spec_encode_tasks(tsv));
        }
        return out;
    }
    proof {
        assert(tsv.skip(0) =~= tsv);
        assert(out@ =~= "["@);
    }
    for k in it: 0..n
        invariant
            n == tasks.len(),
            n >= 1,
            tsv == tasks@.map_values(|t: Todo| t@),
            out@ + spec_encode_items(tsv.skip(k as int)) == spec_encode_tasks(tsv),
    {
        proof {
            assert(tsv.skip(k as int)[0] == tsv[k as int]);
            assert(tsv.skip(k as int).len() == n - k);
            assert(tsv.skip(k as int).skip(1) =~= tsv.skip(k + 1));
        }
        append_task(&mut out, &tasks[k]);
        if k + 1 < n {
            out.append(",");
        }
        proof {
            assert(out@ + spec_encode_items(tsv.skip(k + 1)) =~= spec_encode_tasks(tsv));
        }
    }
    proof {
        assert(tsv.skip(n as int) =~= Seq::<TaskView>::empty());
    }
    out.append("]");
    proof {
        assert(out@ =~= spec_encode_tasks(tsv));
    }
    out
}

/// The character an escape code stands for, if it is a valid one.
pub open spec fn unesc_code(e: char) -> Option<char> {
    if e == '"' {
        Some('"')
    } else if e == '\\' {
        Some('\\')
    } else if e == '/' {
        Some('/')
    } else if e == 'n' {
        Some('\n')
    } else if e == 'r' {
        Some('\r')
    } else if e == 't' {
        Some('\t')
    } else if e == 'b' {
        Some('\u{8}')
    } else if e == 'f' {
        Some('\u{c}')
    } else {
        None
    }
}

/// Reads a JSON string body up to, but not including, its closing quote.
/// Returns the decoded content and the rest, which begins at the quote.
pub open spec fn spec_parse_string_body(s: Seq<char>) -> Option<(Seq<char>, Seq<char>)>
    decreases s.len(),
{
    if s.len() == 0 {
        None
    } else if s[0] == '"' {
        Some((Seq::empty(), s))
    } else if s[0] == '\\' {
        if s.len() < 2 {
            None
        } else if s[1] == 'u' {
            if s.len() < 6 {
                None
            } else if s[2] == '0' && s[3] == '0' && unhex(s[4]) is Some && unhex(s[5]) is Some {
                match spec_parse_string_body(s.skip(6)) {
                    Some(p) => Some(
                        (seq![((unhex(s[4])->0 * 16 + unhex(s[5])->0) as nat) as char] + p.0, p.1),
                    ),
                    None => None,
                }
            } else {
                None
            }
        } else {
            match unesc_code(s[1]) {
                Some(c) => match spec_parse_string_body(s.skip(2)) {
                    Some(p) => Some((seq![c] + p.0, p.1)),
                    None => None,
                },
                None => None,
            }
        }
    } else {
        match spec_parse_string_body(s.skip(1)) {
            Some(p) => Some((seq![s[0]] + p.0, p.1)),
            None => None,
        }
    }
}

/// Reads one of the four status tags.
pub open spec fn spec_parse_status(s: Seq<char>) -> Option<(Status, Seq<char>)> {
    if starts_with(s, "Possible"@) {
        Some((Status::Possible, s.skip(8)))
    } else if starts_with(s, "Open"@) {
        Some((Status::Open, s.skip(4)))
    } else if starts_with(s, "Achieved"@) {
        Some((Status::Achieved, s.skip(8)))
    } else if starts_with(s, "Obsolete"@) {
        Some((Status::Obsolete, s.skip(8)))
    } else {
        None
    }
}

/// Reads one of the five lifespan tags.
pub open spec fn spec_parse_lifespan(s: Seq<char>) -> Option<(Lifespan, Seq<char>)> {
    if starts_with(s, "Daily"@) {
        Some((Lifespan::Daily, s.skip(5)))
    } else if starts_with(s, "Weekly"@) {
        Some((Lifespan::Weekly, s.skip(6)))
    } else if starts_with(s, "Monthly"@) {
        Some((Lifespan::Monthly, s.skip(7)))
    } else if starts_with(s, "Yearly"@) {
        Some((Lifespan::Yearly, s.skip(6)))
    } else if starts_with(s, "Life"@) {
        Some((Lifespan::Life, s.skip(4)))
    } else {
        None
    }
}

/// Reads one task object, fields in their fixed order.
pub open spec fn spec_parse_task(s: Seq<char>) -> Option<(TaskView, Seq<char>)> {
    if !starts_with(s, "{\"title\":\""@) {
        None
    } else {
        match spec_parse_string_body(s.skip(10)) {
            None => None,
            Some(p1) => if !starts_with(p1.1, "\",\"description\":\""@) {
                None
            } else {
                match spec_parse_string_body(p1.1.skip(17)) {
                    None => None,
                    Some(p2) => if !starts_with(p2.1, "\",\"status\":\""@) {
                        None
                    } else {
                        match spec_parse_status(p2.1.skip(12)) {
                            None => None,
                            Some(p3) => if !starts_with(p3.1, "\",\"lifespan\":\""@) {
                                None
                            } else {
                                match spec_parse_lifespan(p3.1.skip(14)) {
                                    None => None,
                                    Some(p4) => if !starts_with(p4.1, "\"}"@) {
                                        None
                                    } else {
                                        Some(
                                            (
                                                TaskView {
                                                    title: p1.0,
                                                    description: p2.0,
                                                    status: p3.0,
                                                    lifespan: p4.0,
                                                },
                                                p4.1.skip(2),
                                            ),
                                        )
                                    },
                                }
                            },
                        }
                    },
                }
            },
        }
    }
}

/// Reads the task objects after the opening bracket of a nonempty array,
/// through the closing bracket, which must end the input.
pub open spec fn spec_parse_items(s: Seq<char>) -> Option<Seq<TaskView>>
    decreases s.len(),
{
    match spec_parse_task(s) {
        None => None,
        Some(p) => {
            let r = p.1;
            if r.len() == 1 && r[0] == ']' {
                Some(seq![p.0])
            } else if r.len() >= 2 && r[0] == ',' && r.len() <= s.len() {
                match spec_parse_items(r.skip(1)) {
                    Some(ts) => Some(seq![p.0] + ts),
                    None => None,
                }
            } else {
                None
            }
        },
    }
}

/// Reads a whole persisted task array; the input must be consumed exactly.
pub open spec fn spec_parse_tasks(s: Seq<char>) -> Option<Seq<TaskView>> {
    if s.len() == 2 && s[0] == '[' && s[1] == ']' {
        Some(Seq::empty())
    } else if s.len() >= 1 && s[0] == '[' {
        spec_parse_items(s.skip(1))
    } else {
        None
    }
}

fn exec_unhex(c: char) -> (r: Option<u8>)
    ensures
        match r {
            Some(d) => d < 16 && unhex(c) == Some(d as nat),
            None => unhex(c) is None,
        },
{
    if c == '0' {
        Some(0)
    } else if c == '1' {
        Some(1)
    } else if c == '2' {
        Some(2)
    } else if c == '3' {
        Some(3)
    } else if c == '4' {
        Some(4)
    } else if c == '5' {
        Some(5)
    } else if c == '6' {
        Some(6)
    } else if c == '7' {
        Some(7)
    } else if c == '8' {
        Some(8)
    } else if c == '9' {
        Some(9)
    } else if c == 'a' {
        Some(10)
    } else if c == 'b' {
        Some(11)
    } else if c == 'c' {
        Some(12)
    } else if c == 'd' {
        Some(13)
    } else if c == 'e' {
        Some(14)
    } else if c == 'f' {
        Some(15)
    } else {
        None
    }
}

fn exec_unesc(e: char) -> (r: Option<char>)
    ensures
        r == unesc_code(e),
{
    if e == '"' {
        Some('"')
    } else if e == '\\' {
        Some('\\')
    } else if e == '/' {
        Some('/')
    } else if e == 'n' {
        Some('\n')
    } else if e == 'r' {
        Some('\r')
    } else if e == 't' {
        Some('\t')
    } else if e == 'b' {
        Some('\u{8}')
    } else if e == 'f' {
        Some('\u{c}')
    } else {
        None
    }
}

/// A decoded prefix joined onto the outcome of parsing the remainder.
spec fn psb_compose(acc: Seq<char>, inner: Option<(Seq<char>, Seq<char>)>) -> Option<
    (Seq<char>, Seq<char>),
> {
    match inner {
        Some(p) => Some((acc + p.0, p.1)),
        None => None,
    }
}

fn parse_string_body(v: &Vec<char>, i0: usize) -> (r: Option<(String, usize)>)
    requires
        i0 <= v@.len(),
    ensures
        match r {
            Some(p) => i0 <= p.1 <= v@.len() && spec_parse_string_body(v@.skip(i0 as int))
                == Some((p.0@, v@.skip(p.1 as int))),
            None => spec_parse_string_body(v@.skip(i0 as int)) is None,
        },
{
    let mut acc = String::new();
    let mut cur: usize = i0;
    proof {
        assert(acc@ =~= Seq::<char>::empty());
    }
    loop
        invariant
            i0 <= cur <= v@.len(),
            spec_parse_string_body(v@.skip(i0 as int)) == psb_compose(
                acc@,
                spec_parse_string_body(v@.skip(cur as int)),
            ),
        decreases v@.len() - cur,
    {
        let ghost scur = v@.skip(cur as int);
        if cur == v.len() {
            proof {
                assert(scur.len() == 0);
            }
            return None;
        }
        let c = v[cur];
        proof {
            assert(scur[0] == c);
        }
        if c == '"' {
            proof {
                assert(spec_parse_string_body(scur) == Some((Seq::<char>::empty(), scur)));
                assert(acc@ + Seq::<char>::empty() =~= acc@);
            }
            return Some((acc, cur));
        } else if c == '\\' {
            if cur + 1 == v.len() {
                proof {
                    assert(scur.len() < 2);
                }
                return None;
            }
            let e = v[cur + 1];
            proof {
                assert(scur[1] == e);
            }
            if e == 'u' {
                if v.len() - cur < 6 {
                    proof {
                        assert(scur.len() < 6);
                    }
                    return None;
                }
                proof {
                    assert(scur[2] == v@[cur + 2]);
                    assert(scur[3] == v@[cur + 3]);
                    assert(scur[4] == v@[cur + 4]);
                    assert(scur[5] == v@[cur + 5]);
                }
                if v[cur + 2] != '0' || v[cur + 3] != '0' {
                    return None;
                }
                let h = exec_unhex(v[cur + 4]);
                let l = exec_unhex(v[cur + 5]);
                match (h, l) {
                    (Some(hd), Some(ld)) => {
                        let val: u8 = hd * 16 + ld;
                        let ghost acc0 = acc@;
                        push_char(&mut acc, val as char);
                        proof {
                            assert(scur.skip(6) =~= v@.skip(cur + 6));
                            assert(acc@ =~= acc0 + seq![val as char]);
                            match spec_parse_string_body(v@.skip(cur + 6)) {
                                Some(p) => {
                                    assert(acc0 + (seq![val as char] + p.0) =~= acc@ + p.0);
                                }
                                None => {}
                            }
                        }
                        cur = cur + 6;
                    },
                    _ => {
                        return None;
                    },
                }
            } else {
                match exec_unesc(e) {
                    Some(d) => {
                        let ghost acc0 = acc@;
                        push_char(&mut acc, d);
                        proof {
                            assert(scur.skip(2) =~= v@.skip(cur + 2));
                            assert(acc@ =~= acc0 + seq![d]);
                            match spec_parse_string_body(v@.skip(cur + 2)) {
                                Some(p) => {
                                    assert(acc0 + (seq![d] + p.0) =~= acc@ + p.0);
                                }
                                None => {}
                            }
                        }
                        cur = cur + 2;
                    },
                    None => {
                        return None;
                    },
                }
            }
        } else {
            let ghost acc0 = acc@;
            push_char(&mut acc, c);
            proof {
                assert(scur.skip(1) =~= v@.skip(cur + 1));
                assert(acc@ =~= acc0 + seq![c]);
                match spec_parse_string_body(v@.skip(cur + 1)) {
                    Some(p) => {
                        assert(acc0 + (seq![c] + p.0) =~= acc@ + p.0);
                    }
                    None => {}
                }
            }
            cur = cur + 1;
        }
    }
}

fn parse_status_at(v: &Vec<char>, i: usize) -> (r: Option<(Status, usize)>)
    requires
        i <= v@.len(),
    ensures
        match r {
            Some(p) => i <= p.1 <= v@.len() && spec_parse_status(v@.skip(i as int)) == Some(
                (p.0, v@.skip(p.1 as int)),
            ),
            None => spec_parse_status(v@.skip(i as int)) is None,
        },
{
    let n = v.len();
    proof {
        assert(v@.len() == n);
    }
    if starts_at(v, i, "Possible") {
        proof {
            reveal_strlit("Possible");
            assert("Possible"@.len() == 8);
            assert(v@.skip(i as int).skip(8) =~= v@.skip(i + 8));
        }
        Some((Status::Possible, i + 8))
    } else if starts_at(v, i, "Open") {
        proof {
            reveal_strlit("Open");
            assert("Open"@.len() == 4);
            assert(v@.skip(i as int).skip(4) =~= v@.skip(i + 4));
        }
        Some((Status::Open, i + 4))
    } else if starts_at(v, i, "Achieved") {
        proof {
            reveal_strlit("Achieved");
            assert("Achieved"@.len() == 8);
            assert(v@.skip(i as int).skip(8) =~= v@.skip(i + 8));
        }
        Some((Status::Achieved, i + 8))
    } else if starts_at(v, i, "Obsolete") {
        proof {
            reveal_strlit("Obsolete");
            assert("Obsolete"@.len() == 8);
            assert(v@.skip(i as int).skip(8) =~= v@.skip(i + 8));
        }
        Some((Status::Obsolete, i + 8))
    } else {
        None
    }
}

fn parse_lifespan_at(v: &Vec<char>, i: usize) -> (r: Option<(Lifespan, usize)>)
    requires
        i <= v@.len(),
    ensures
        match r {
            Some(p) => i <= p.1 <= v@.len() && spec_parse_lifespan(v@.skip(i as int)) == Some(
                (p.0, v@.skip(p.1 as int)),
            ),
            None => spec_parse_lifespan(v@.skip(i as int)) is None,
        },
{
    let n = v.len();
    proof {
        assert(v@.len() == n);
    }
    if starts_at(v, i, "Daily") {
        proof {
            reveal_strlit("Daily");
            assert("Daily"@.len() == 5);
            assert(v@.skip(i as int).skip(5) =~= v@.skip(i + 5));
        }
        Some((Lifespan::Daily, i + 5))
    } else if starts_at(v, i, "Weekly") {
        proof {
            reveal_strlit("Weekly");
            assert("Weekly"@.len() == 6);
            assert(v@.skip(i as int).skip(6) =~= v@.skip(i + 6));
        }
        Some((Lifespan::Weekly, i + 6))
    } else if starts_at(v, i, "Monthly") {
        proof {
            reveal_strlit("Monthly");
            assert("Monthly"@.len() == 7);
            assert(v@.skip(i as int).skip(7) =~= v@.skip(i + 7));
        }
        Some((Lifespan::Monthly, i + 7))
    } else if starts_at(v, i, "Yearly") {
        proof {
            reveal_strlit("Yearly");
            assert("Yearly"@.len() == 6);
            assert(v@.skip(i as int).skip(6) =~= v@.skip(i + 6));
        }
        Some((Lifespan::Yearly, i + 6))
    } else if starts_at(v, i, "Life") {
        proof {
            reveal_strlit("Life");
            assert("Life"@.len() == 4);
            assert(v@.skip(i as int).skip(4) =~= v@.skip(i + 4));
        }
        Some((Lifespan::Life, i + 4))
    } else {
        None
    }
}

fn parse_task_at(v: &Vec<char>, i: usize) -> (r: Option<(Todo, usize)>)
    requires
        i <= v@.len(),
    ensures
        match r {
            Some(p) => i <= p.1 <= v@.len() && spec_parse_task(v@.skip(i as int)) == Some(
                (p.0@, v@.skip(p.1 as int)),
            ),
            None => spec_parse_task(v@.skip(i as int)) is None,
        },
{
    let n = v.len();
    proof {
        assert(v@.len() == n);
    }
    if !starts_at(v, i, "{\"title\":\"") {
        return None;
    }
    proof {
        reveal_strlit("{\"title\":\"");
            assert("{\"title\":\""@.len() == 10);
        assert(v@.skip(i as int).skip(10) =~= v@.skip(i + 10));
    }
    let p1 = parse_string_body(v, i + 10);
    match p1 {
        None => None,
        Some((title, j1)) => {
            if !starts_at(v, j1, "\",\"description\":\"") {
                return None;
            }
            proof {
                reveal_strlit("\",\"description\":\"");
            assert("\",\"description\":\""@.len() == 17);
                assert(v@.skip(j1 as int).skip(17) =~= v@.skip(j1 + 17));
            }
            let p2 = parse_string_body(v, j1 + 17);
            match p2 {
                None => None,
                Some((description, j2)) => {
                    if !starts_at(v, j2, "\",\"status\":\"") {
                        return None;
                    }
                    proof {
                        reveal_strlit("\",\"status\":\"");
            assert("\",\"status\":\""@.len() == 12);
                        assert(v@.skip(j2 as int).skip(12) =~= v@.skip(j2 + 12));
                    }
                    let p3 = parse_status_at(v, j2 + 12);
                    match p3 {
                        None => None,
                        Some((status, j3)) => {
                            if !starts_at(v, j3, "\",\"lifespan\":\"") {
                                return None;
                            }
                            proof {
                                reveal_strlit("\",\"lifespan\":\"");
            assert("\",\"lifespan\":\""@.len() == 14);
                                assert(v@.skip(j3 as int).skip(14) =~= v@.skip(j3 + 14));
                            }
                            let p4 = parse_lifespan_at(v, j3 + 14);
                            match p4 {
                                None => None,
                                Some((lifespan, j4)) => {
                                    if !starts_at(v, j4, "\"}") {
                                        return None;
                                    }
                                    proof {
                                        reveal_strlit("\"}");
            assert("\"}"@.len() == 2);
                                        assert(v@.skip(j4 as int).skip(2) =~= v@.skip(j4 + 2));
                                    }
                                    let t = Todo { title, description, status, lifespan };
                                    Some((t, j4 + 2))
                                },
                            }
                        },
                    }
                },
            }
        },
    }
}

/// Parsed tasks joined onto the outcome of parsing the remaining items.
spec fn items_compose(acc: Seq<TaskView>, inner: Option<Seq<TaskView>>) -> Option<
    Seq<TaskView>,
> {
    match inner {
        Some(ts) => Some(acc + ts),
        None => None,
    }
}

fn parse_items_at(v: &Vec<char>, i0: usize) -> (r: Option<Vec<Todo>>)
    requires
        i0 <= v@.len(),
    ensures
        match r {
            Some(ts) => spec_parse_items(v@.skip(i0 as int)) == Some(
                ts@.map_values(|t: Todo| t@),
            ),
            None => spec_parse_items(v@.skip(i0 as int)) is None,
        },
{
    let mut acc: Vec<Todo> = Vec::new();
    let mut cur: usize = i0;
    proof {
        assert(acc@.map_values(|t: Todo| t@) =~= Seq::<TaskView>::empty());
    }
    loop
        invariant
            i0 <= cur <= v@.len(),
            spec_parse_items(v@.skip(i0 as int)) == items_compose(
                acc@.map_values(|t: Todo| t@),
                spec_parse_items(v@.skip(cur as int)),
            ),
        decreases v@.len() - cur,
    {
        let ghost scur = v@.skip(cur as int);
        let ghost accv0 = acc@.map_values(|t: Todo| t@);
        match parse_task_at(v, cur) {
            None => {
                return None;
            },
            Some((t, j)) => {
                let ghost tv = t@;
                acc.push(t);
                proof {
                    assert(acc@.map_values(|t: Todo| t@) =~= accv0 + seq![tv]);
                }
                if j < v.len() && j + 1 == v.len() && v[j] == ']' {
                    proof {
                        assert(v@.skip(j as int).len() == 1);
                        assert(v@.skip(j as int)[0] == ']');
                        assert(spec_parse_items(scur) == Some(seq![tv]));
                        assert(accv0 + seq![tv] =~= acc@.map_values(|t: Todo| t@));
                    }
                    return Some(acc);
                } else if j < v.len() && v.len() - j >= 2 && v[j] == ',' {
                    proof {
                        let rj = v@.skip(j as int);
                        assert(rj.len() >= 2);
                        assert(rj[0] == ',');
                        assert(rj.len() <= scur.len());
                        assert(rj.skip(1) =~= v@.skip(j + 1));
                        match spec_parse_items(v@.skip(j + 1)) {
                            Some(ts) => {
                                assert(accv0 + (seq![tv] + ts) =~= (accv0 + seq![tv]) + ts);
                            }
                            None => {}
                        }
                    }
                    cur = j + 1;
                } else {
                    proof {
                        let rj = v@.skip(j as int);
                        assert(!(rj.len() == 1 && rj[0] == ']'));
                        assert(!(rj.len() >= 2 && rj[0] == ','));
                    }
                    return None;
                }
            },
        }
    }
}

/// Parses a whole persisted task array.
pub fn parse_tasks(data: &str) -> (r: Option<Vec<Todo>>)
    ensures
        match r {
            Some(ts) => spec_parse_tasks(data@) == Some(ts@.map_values(|t: Todo| t@)),
            None => spec_parse_tasks(data@) is None,
        },
{
    let v = to_chars(data);
    if v.len() == 2 {
        let a = v[0];
        let b = v[1];
        if a == '[' && b == ']' {
            let empty: Vec<Todo> = Vec::new();
            proof {
                assert(empty@.map_values(|t: Todo| t@) =~= Seq::<TaskView>::empty());
            }
            return Some(empty);
        }
    }
    if v.len() >= 1 {
        let a = v[0];
        if a == '[' {
            proof {
                assert(v@.skip(1) == data@.skip(1));
            }
            return parse_items_at(&v, 1);
        }
    }
    None
}

proof fn lemma_starts_concat(x: Seq<char>, y: Seq<char>)
    ensures
        starts_with(x + y, x),
        (x + y).skip(x.len() as int) == y,
{
    assert((x + y).skip(x.len() as int) =~= y);
}

proof fn lemma_unhex_hex(d: nat)
    requires
        d < 16,
    ensures
        unhex(hex_digit(d)) == Some(d),
{
}

proof fn lemma_psb_esc(t: Seq<char>, rest: Seq<char>)
    requires
        rest.len() > 0,
        rest[0] == '"',
    ensures
        spec_parse_string_body(esc(t) + rest) == Some((t, rest)),
    decreases t.len(),
{
    reveal_strlit("\\\"");
    reveal_strlit("\\\\");
    reveal_strlit("\\n");
    reveal_strlit("\\r");
    reveal_strlit("\\t");
    reveal_strlit("\\b");
    reveal_strlit("\\f");
    reveal_strlit("\\u00");
    if t.len() == 0 {
        assert(esc(t) == Seq::<char>::empty());
        assert(esc(t) + rest =~= rest);
        assert(t =~= Seq::<char>::empty());
    } else {
        let c = t[0];
        let t2 = t.skip(1);
        let e = esc_char(c);
        let s = esc(t) + rest;
        let inner = esc(t2) + rest;
        assert(esc(t) == e + esc(t2));
        assert(s =~= e + inner);
        lemma_psb_esc(t2, rest);
        assert(t =~= seq![c] + t2);
        if c == '"' {
            assert(e == "\\\""@);
            assert(e.len() == 2 && e[0] == '\\' && e[1] == '"');
            assert(s.skip(2) =~= inner);
            assert(spec_parse_string_body(s) == Some((t, rest)));
        } else if c == '\\' {
            assert(e.len() == 2 && e[0] == '\\' && e[1] == '\\');
            assert(s.skip(2) =~= inner);
            assert(spec_parse_string_body(s) == Some((t, rest)));
        } else if c == '\n' {
            assert(e.len() == 2 && e[0] == '\\' && e[1] == 'n');
            assert(s.skip(2) =~= inner);
            assert(spec_parse_string_body(s) == Some((t, rest)));
        } else if c == '\r' {
            assert(e.len() == 2 && e[0] == '\\' && e[1] == 'r');
            assert(s.skip(2) =~= inner);
            assert(spec_parse_string_body(s) == Some((t, rest)));
        } else if c == '\t' {
            assert(e.len() == 2 && e[0] == '\\' && e[1] == 't');
            assert(s.skip(2) =~= inner);
            assert(spec_parse_string_body(s) == Some((t, rest)));
        } else if c == '\u{8}' {
            assert(e.len() == 2 && e[0] == '\\' && e[1] == 'b');
            assert(s.skip(2) =~= inner);
            assert(spec_parse_string_body(s) == Some((t, rest)));
        } else if c == '\u{c}' {
            assert(e.len() == 2 && e[0] == '\\' && e[1] == 'f');
            assert(s.skip(2) =~= inner);
            assert(spec_parse_string_body(s) == Some((t, rest)));
        } else if (c as u32) < 32 {
            let hi = ((c as u32) / 16) as nat;
            let lo = ((c as u32) % 16) as nat;
            assert("\\u00"@.len() == 4);
            assert(e.len() == 6);
            assert(e[0] == '\\' && e[1] == 'u' && e[2] == '0' && e[3] == '0');
            assert(e[4] == hex_digit(hi) && e[5] == hex_digit(lo));
            assert(s[0] == '\\' && s[1] == 'u' && s[2] == '0' && s[3] == '0');
            assert(s[4] == hex_digit(hi) && s[5] == hex_digit(lo));
            lemma_unhex_hex(hi);
            lemma_unhex_hex(lo);
            assert(hi <= 1 && lo <= 15);
            assert(hi * 16 + lo == c as u32);
            assert(hi * 16 + lo < 32);
            vstd::utf8::char_u32_cast(c, c as u32);
            assert((((hi * 16 + lo) as nat) as char) == c);
            assert(s.skip(6) =~= inner);
            assert(spec_parse_string_body(s) == Some((t, rest)));
        } else {
            assert(e == seq![c]);
            assert(s[0] == c);
            assert(s.skip(1) =~= inner);
            assert(spec_parse_string_body(s) == Some((t, rest)));
        }
    }
}

proof fn lemma_parse_status_name(st: Status, rest: Seq<char>)
    ensures
        spec_parse_status(status_name(st) + rest) == Some((st, rest)),
{
    reveal_strlit("Possible");
    reveal_strlit("Open");
    reveal_strlit("Achieved");
    reveal_strlit("Obsolete");
    assert("Possible"@.len() == 8 && "Possible"@[0] == 'P');
    assert("Open"@.len() == 4 && "Open"@[0] == 'O' && "Open"@[1] == 'p');
    assert("Achieved"@.len() == 8 && "Achieved"@[0] == 'A');
    assert("Obsolete"@.len() == 8 && "Obsolete"@[0] == 'O' && "Obsolete"@[1] == 'b');
    let s = status_name(st) + rest;
    match st {
        Status::Possible => {
            lemma_starts_concat("Possible"@, rest);
        },
        Status::Open => {
            assert(s[0] == 'O');
            if starts_with(s, "Possible"@) {
                assert(s[0] == "Possible"@[0]);
            }
            lemma_starts_concat("Open"@, rest);
        },
        Status::Achieved => {
            assert(s[0] == 'A');
            if starts_with(s, "Possible"@) {
                assert(s[0] == "Possible"@[0]);
            }
            if starts_with(s, "Open"@) {
                assert(s[0] == "Open"@[0]);
            }
            lemma_starts_concat("Achieved"@, rest);
        },
        Status::Obsolete => {
            assert(s[0] == 'O' && s[1] == 'b');
            if starts_with(s, "Possible"@) {
                assert(s[0] == "Possible"@[0]);
            }
            if starts_with(s, "Open"@) {
                assert(s[1] == "Open"@[1]);
            }
            if starts_with(s, "Achieved"@) {
                assert(s[0] == "Achieved"@[0]);
            }
            lemma_starts_concat("Obsolete"@, rest);
        },
    }
}

proof fn lemma_parse_lifespan_name(l: Lifespan, rest: Seq<char>)
    ensures
        spec_parse_lifespan(lifespan_name(l) + rest) == Some((l, rest)),
{
    reveal_strlit("Daily");
    reveal_strlit("Weekly");
    reveal_strlit("Monthly");
    reveal_strlit("Yearly");
    reveal_strlit("Life");
    assert("Daily"@.len() == 5 && "Daily"@[0] == 'D');
    assert("Weekly"@.len() == 6 && "Weekly"@[0] == 'W');
    assert("Monthly"@.len() == 7 && "Monthly"@[0] == 'M');
    assert("Yearly"@.len() == 6 && "Yearly"@[0] == 'Y');
    assert("Life"@.len() == 4 && "Life"@[0] == 'L');
    let s = lifespan_name(l) + rest;
    match l {
        Lifespan::Daily => {
            lemma_starts_concat("Daily"@, rest);
        },
        Lifespan::Weekly => {
            assert(s[0] == 'W');
            if starts_with(s, "Daily"@) {
                assert(s[0] == "Daily"@[0]);
            }
            lemma_starts_concat("Weekly"@, rest);
        },
        Lifespan::Monthly => {
            assert(s[0] == 'M');
            if starts_with(s, "Daily"@) {
                assert(s[0] == "Daily"@[0]);
            }
            if starts_with(s, "Weekly"@) {
                assert(s[0] == "Weekly"@[0]);
            }
            lemma_starts_concat("Monthly"@, rest);
        },
        Lifespan::Yearly => {
            assert(s[0] == 'Y');
            if starts_with(s, "Daily"@) {
                assert(s[0] == "Daily"@[0]);
            }
            if starts_with(s, "Weekly"@) {
                assert(s[0] == "Weekly"@[0]);
            }
            if starts_with(s, "Monthly"@) {
                assert(s[0] == "Monthly"@[0]);
            }
            lemma_starts_concat("Yearly"@, rest);
        },
        Lifespan::Life => {
            assert(s[0] == 'L');
            if starts_with(s, "Daily"@) {
                assert(s[0] == "Daily"@[0]);
            }
            if starts_with(s, "Weekly"@) {
                assert(s[0] == "Weekly"@[0]);
            }
            if starts_with(s, "Monthly"@) {
                assert(s[0] == "Monthly"@[0]);
            }
            if starts_with(s, "Yearly"@) {
                assert(s[0] == "Yearly"@[0]);
            }
            lemma_starts_concat("Life"@, rest);
        },
    }
}

#[verifier::rlimit(60)]
proof fn lemma_parse_encode_task(t: TaskView, rest: Seq<char>)
    ensures
        spec_parse_task(spec_encode_task(t) + rest) == Some((t, rest)),
{
    let tt = "{\"title\":\""@;
    let td = "\",\"description\":\""@;
    let tst = "\",\"status\":\""@;
    let tl = "\",\"lifespan\":\""@;
    let te = "\"}"@;
    reveal_strlit("{\"title\":\"");
    reveal_strlit("\",\"description\":\"");
    reveal_strlit("\",\"status\":\"");
    reveal_strlit("\",\"lifespan\":\"");
    reveal_strlit("\"}");
    assert(tt.len() == 10);
    assert(td.len() == 17 && td[0] == '"');
    assert(tst.len() == 12 && tst[0] == '"');
    assert(tl.len() == 14 && tl[0] == '"');
    assert(te.len() == 2 && te[0] == '"');
    let s = spec_encode_task(t) + rest;
    let seg7 = te + rest;
    let seg6 = lifespan_name(t.lifespan) + seg7;
    let seg5 = tl + seg6;
    let seg4 = status_name(t.status) + seg5;
    let seg3 = tst + seg4;
    let seg2 = esc(t.description) + seg3;
    let seg1 = td + seg2;
    let seg0 = esc(t.title) + seg1;
    assert(s =~= tt + seg0);
    lemma_starts_concat(tt, seg0);
    assert(s.skip(10) == seg0);
    assert(seg1.len() > 0 && seg1[0] == '"');
    lemma_psb_esc(t.title, seg1);
    lemma_starts_concat(td, seg2);
    assert(seg1.skip(17) == seg2);
    assert(seg3.len() > 0 && seg3[0] == '"');
    lemma_psb_esc(t.description, seg3);
    lemma_starts_concat(tst, seg4);
    assert(seg3.skip(12) == seg4);
    lemma_parse_status_name(t.status, seg5);
    lemma_starts_concat(tl, seg6);
    assert(seg5.skip(14) == seg6);
    lemma_parse_lifespan_name(t.lifespan, seg7);
    lemma_starts_concat(te, rest);
    assert(seg7.skip(2) == rest);
    assert(spec_parse_task(s) == Some((t, rest)));
}

proof fn lemma_parse_encode_items(ts: Seq<TaskView>)
    requires
        ts.len() >= 1,
    ensures
        spec_parse_items(spec_encode_items(ts)) == Some(ts),
    decreases ts.len(),
{
    reveal_strlit("]");
    reveal_strlit(",");
    assert("]"@.len() == 1 && "]"@[0] == ']');
    assert(","@.len() == 1 && ","@[0] == ',');
    let s = spec_encode_items(ts);
    if ts.len() == 1 {
        lemma_parse_encode_task(ts[0], "]"@);
        assert(seq![ts[0]] =~= ts);
        assert(spec_parse_items(s) == Some(ts));
    } else {
        let ts2 = ts.skip(1);
        let inner = spec_encode_items(ts2);
        let r = ","@ + inner;
        assert(s =~= spec_encode_task(ts[0]) + r);
        lemma_parse_encode_task(ts[0], r);
        assert(spec_parse_task(s) == Some((ts[0], r)));
        assert(inner.len() >= 1);
        assert(r.len() >= 2 && r[0] == ',');
        assert(r.len() <= s.len());
        assert(r.skip(1) =~= inner);
        lemma_parse_encode_items(ts2);
        assert(seq![ts[0]] + ts2 =~= ts);
        assert(spec_parse_items(s) == Some(ts));
    }
}

/// Law: parsing what was encoded gives back exactly the original task
/// sequence, field for field and in order.
pub proof fn lemma_round_trip(ts: Seq<TaskView>)
    ensures
        spec_parse_tasks(spec_encode_tasks(ts)) == Some(ts),
{
    reveal_strlit("[");
    reveal_strlit("]");
    reveal_strlit("{\"title\":\"");
    assert("["@.len() == 1 && "["@[0] == '[');
    assert("]"@.len() == 1 && "]"@[0] == ']');
    let s = spec_encode_tasks(ts);
    if ts.len() == 0 {
        assert(spec_encode_items(ts) == "]"@);
        assert(s.len() == 2 && s[0] == '[' && s[1] == ']');
        assert(ts =~= Seq::<TaskView>::empty());
    } else {
        let items = spec_encode_items(ts);
        assert("{\"title\":\""@[0] == '{');
        assert(spec_encode_task(ts[0])[0] == '{');
        assert(items[0] == '{');
        assert(s[0] == '[' && s[1] == '{');
        assert(s.skip(1) =~= items);
        lemma_parse_encode_items(ts);
        assert(spec_parse_tasks(s) == Some(ts));
    }
}

} // verus!
