//! The entity model: `Status`, `Lifespan`, `Todo`, and the keyword tables
//! that turn user-supplied words into the two enumerations.

use vstd::prelude::*;

verus! {

/// Completion state of a task; the only field that changes after creation.
#[derive(Clone, Copy, Debug, PartialEq, Eq, Structural)]
pub enum Status {
    Possible,
    Open,
    Achieved,
    Obsolete,
}

/// Recurrence category of a task; fixed at creation.
#[derive(Clone, Copy, Debug, PartialEq, Eq, Structural)]
pub enum Lifespan {
    Daily,
    Weekly,
    Monthly,
    Yearly,
    Life,
}

/// One todo item. Only `status` is meant to change after construction,
/// and only through the store.
#[derive(Debug)]
pub struct Todo {
    pub title: String,
    pub description: String,
    pub status: Status,
    pub lifespan: Lifespan,
}

/// Mathematical image of a `Todo`: the two strings as character sequences.
pub struct TaskView {
    pub title: Seq<char>,
    pub description: Seq<char>,
    pub status: Status,
    pub lifespan: Lifespan,
}

impl View for Todo {
    type V = TaskView;

    open spec fn view(&self) -> TaskView {
        TaskView {
            title: self.title@,
            description: self.description@,
            status: self.status,
            lifespan: self.lifespan,
        }
    }
}

impl Clone for Todo {
    fn clone(&self) -> (r: Self)
        ensures
            r@ == self@,
    {
        Todo {
            title: self.title.clone(),
            description: self.description.clone(),
            status: self.status,
            lifespan: self.lifespan,
        }
    }
}

impl Todo {
    /// A fresh task starts in status `Possible`.
    pub fn new(title: String, description: String, lifespan: Lifespan) -> (r: Self)
        ensures
            r@ == (TaskView {
                title: title@,
                description: description@,
                status: Status::Possible,
                lifespan: lifespan,
            }),
    {
        Todo { title, description, status: Status::Possible, lifespan }
    }
}

/// The serialized tag of a status, as it appears in the persistence file.
pub open spec fn status_name(s: Status) -> Seq<char> {
    match s {
        Status::Possible => "Possible"@,
        Status::Open => "Open"@,
        Status::Achieved => "Achieved"@,
        Status::Obsolete => "Obsolete"@,
    }
}

/// The serialized tag of a lifespan, as it appears in the persistence file.
pub open spec fn lifespan_name(l: Lifespan) -> Seq<char> {
    match l {
        Lifespan::Daily => "Daily"@,
        Lifespan::Weekly => "Weekly"@,
        Lifespan::Monthly => "Monthly"@,
        Lifespan::Yearly => "Yearly"@,
        Lifespan::Life => "Life"@,
    }
}

/// Tag of a status as an owned string (for rendering).
pub fn status_name_str(s: Status) -> (r: &'static str)
    ensures
        r@ == status_name(s),
{
    match s {
        Status::Possible => "Possible",
        Status::Open => "Open",
        Status::Achieved => "Achieved",
        Status::Obsolete => "Obsolete",
    }
}

/// Tag of a lifespan as an owned string (for rendering).
pub fn lifespan_name_str(l: Lifespan) -> (r: &'static str)
    ensures
        r@ == lifespan_name(l),
{
    match l {
        Lifespan::Daily => "Daily",
        Lifespan::Weekly => "Weekly",
        Lifespan::Monthly => "Monthly",
        Lifespan::Yearly => "Yearly",
        Lifespan::Life => "Life",
    }
}

/// String equality against a literal, stated over the views.
pub fn str_eq(a: &String, b: &str) -> (r: bool)
    ensures
        r == (a@ == b@),
{
    *a == b.to_owned()
}

/// The lifespan a user keyword denotes; anything unrecognized means `Daily`.
pub open spec fn spec_lifespan_of_keyword(kw: Seq<char>) -> Lifespan {
    if kw == "daily"@ {
        Lifespan::Daily
    } else if kw == "weekly"@ {
        Lifespan::Weekly
    } else if kw == "monthly"@ {
        Lifespan::Monthly
    } else if kw == "yearly"@ {
        Lifespan::Yearly
    } else if kw == "life"@ {
        Lifespan::Life
    } else {
        Lifespan::Daily
    }
}

/// Keyword table for creating a task: unrecognized input defaults to `Daily`.
pub fn lifespan_of_keyword(kw: &String) -> (r: Lifespan)
    ensures
        r == spec_lifespan_of_keyword(kw@),
{
    if str_eq(kw, "daily") {
        Lifespan::Daily
    } else if str_eq(kw, "weekly") {
        Lifespan::Weekly
    } else if str_eq(kw, "monthly") {
        Lifespan::Monthly
    } else if str_eq(kw, "yearly") {
        Lifespan::Yearly
    } else if str_eq(kw, "life") {
        Lifespan::Life
    } else {
        Lifespan::Daily
    }
}

/// The lifespan filter a `list` option denotes; anything else means no filter.
pub open spec fn spec_lifespan_filter(kw: Seq<char>) -> Option<Lifespan> {
    if kw == "daily"@ {
        Some(Lifespan::Daily)
    } else if kw == "weekly"@ {
        Some(Lifespan::Weekly)
    } else if kw == "monthly"@ {
        Some(Lifespan::Monthly)
    } else if kw == "yearly"@ {
        Some(Lifespan::Yearly)
    } else if kw == "life"@ {
        Some(Lifespan::Life)
    } else {
        None
    }
}

/// Keyword table for the `list` filter: only the five exact keywords select
/// a lifespan; any other value (including the empty string) means no filter.
pub fn lifespan_filter(kw: &String) -> (r: Option<Lifespan>)
    ensures
        r == spec_lifespan_filter(kw@),
{
    if str_eq(kw, "daily") {
        Some(Lifespan::Daily)
    } else if str_eq(kw, "weekly") {
        Some(Lifespan::Weekly)
    } else if str_eq(kw, "monthly") {
        Some(Lifespan::Monthly)
    } else if str_eq(kw, "yearly") {
        Some(Lifespan::Yearly)
    } else if str_eq(kw, "life") {
        Some(Lifespan::Life)
    } else {
        None
    }
}

/// The status a user keyword denotes, if any.
pub open spec fn spec_status_of_keyword(kw: Seq<char>) -> Option<Status> {
    if kw == "possible"@ {
        Some(Status::Possible)
    } else if kw == "open"@ {
        Some(Status::Open)
    } else if kw == "achieved"@ {
        Some(Status::Achieved)
    } else if kw == "obsolete"@ {
        Some(Status::Obsolete)
    } else {
        None
    }
}

/// Keyword table for the `status` command: an unrecognized keyword selects
/// no status at all, and the caller reports it.
pub fn status_of_keyword(kw: &String) -> (r: Option<Status>)
    ensures
        r == spec_status_of_keyword(kw@),
{
    if str_eq(kw, "possible") {
        Some(Status::Possible)
    } else if str_eq(kw, "open") {
        Some(Status::Open)
    } else if str_eq(kw, "achieved") {
        Some(Status::Achieved)
    } else if str_eq(kw, "obsolete") {
        Some(Status::Obsolete)
    } else {
        None
    }
}

} // verus!
