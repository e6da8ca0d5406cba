//! The store: an ordered sequence of tasks addressed by 1-based position,
//! with the operations the commands need. Its view is the sequence of task
//! views, so every contract below speaks of that sequence.

use vstd::prelude::*;

use crate::codec::{encode_tasks, parse_tasks, spec_encode_tasks, spec_parse_tasks};
use crate::task::{Lifespan, Status, TaskView, Todo};

verus! {

/// The ordered collection of tasks. The sequence is the sole source of
/// truth; the persistence file is a direct serialization of it.
pub struct Todos {
    todos: Vec<Todo>,
}

impl View for Todos {
    type V = Seq<TaskView>;

    closed spec fn view(&self) -> Seq<TaskView> {
        self.todos@.map_values(|t: Todo| t@)
    }
}

impl Todos {
    /// A store starts empty; `load` then replaces its contents.
    pub fn new() -> (r: Self)
        ensures
            r@ == Seq::<TaskView>::empty(),
    {
        let r = Todos { todos: Vec::new() };
        proof {
            assert(r@ =~= Seq::<TaskView>::empty());
        }
        r
    }

    /// The full sequence, ownership retained by the store.
    pub fn get_all(&self) -> (r: &Vec<Todo>)
        ensures
            r@.len() == self@.len(),
            forall|i: int| 0 <= i < r@.len() ==> r@[i]@ == self@[i],
    {
        proof {
            assert(forall|i: int| 0 <= i < self.todos@.len() ==> self.todos@[i]@ == self@[i]);
        }
        &self.todos
    }

    /// Exactly the tasks with lifespan `lf`, in their original relative
    /// order; the store itself is left unchanged.
    pub fn get_by_lifespan(&mut self, lf: Lifespan) -> (r: Vec<Todo>)
        ensures
            final(self)@ == old(self)@,
            r@.map_values(|t: Todo| t@) == old(self)@.filter(|tv: TaskView| tv.lifespan == lf),
    {
        let mut r: Vec<Todo> = Vec::new();
        let n = self.todos.len();
        for i in it: 0..n
            invariant
                n == self.todos.len(),
                self@ == old(self)@,
                r@.map_values(|t: Todo| t@) == self@.take(i as int).filter(
                    |tv: TaskView| tv.lifespan == lf,
                ),
        {
            proof {
                reveal_with_fuel(Seq::<_>::filter, 2);
                assert(self@.take(i + 1).drop_last() =~= self@.take(i as int));
                assert(self@.take(i + 1).last() == self@[i as int]);
                assert(self@[i as int] == self.todos@[i as int]@);
            }
            if self.todos[i].lifespan == lf {
                let t = self.todos[i].clone();
                r.push(t);
                proof {
                    assert(r@.map_values(|t: Todo| t@) =~= r@.drop_last().map_values(
                        |t: Todo| t@,
                    ).push(r@.last()@));
                    assert(r@.map_values(|t: Todo| t@) =~= self@.take(i + 1).filter(
                        |tv: TaskView| tv.lifespan == lf,
                    ));
                }
            } else {
                proof {
                    assert(r@.map_values(|t: Todo| t@) =~= self@.take(i + 1).filter(
                        |tv: TaskView| tv.lifespan == lf,
                    ));
                }
            }
        }
        proof {
            assert(self@.take(n as int) =~= self@);
        }
        r
    }

    /// Appends the task at the end of the sequence.
    pub fn add(&mut self, todo: Todo)
        ensures
            final(self)@ == old(self)@.push(todo@),
    {
        let ghost t = todo@;
        self.todos.push(todo);
        proof {
            assert(self@ =~= old(self)@.push(t));
        }
    }

    /// Sets the status of the task at the 1-based `index`; every other
    /// field and every other task is left as it was.
    pub fn set_status(&mut self, index: usize, status: Status)
        requires
            1 <= index <= old(self)@.len(),
        ensures
            final(self)@ == old(self)@.update(
                index - 1,
                TaskView { status: status, ..old(self)@[index - 1] },
            ),
    {
        let mut t = self.todos.remove(index - 1);
        t.status = status;
        self.todos.insert(index - 1, t);
        proof {
            assert(self@ =~= old(self)@.update(
                index - 1,
                TaskView { status: status, ..old(self)@[index - 1] },
            ));
        }
    }

    /// Removes the task at the 1-based `index`. An index beyond the end is
    /// clamped to the last task; on an empty store nothing happens.
    pub fn rm(&mut self, index: usize)
        requires
            index >= 1,
        ensures
            old(self)@.len() == 0 ==> final(self)@ == old(self)@,
            old(self)@.len() > 0 ==> final(self)@ == old(self)@.remove(
                if index >= old(self)@.len() {
                    old(self)@.len() - 1
                } else {
                    index - 1
                },
            ),
    {
        let len = self.todos.len();
        if len == 0 {
            return ;
        }
        let i: usize = if index >= len {
            len
        } else {
            index
        };
        self.todos.remove(i - 1);
        proof {
            assert(self@ =~= old(self)@.remove(
                if index >= old(self)@.len() {
                    old(self)@.len() - 1
                } else {
                    index - 1
                },
            ));
        }
    }


    /// The serialized form of the full sequence, ready to overwrite the
    /// persistence file in one write.
    pub fn save_to_string(&self) -> (r: String)
        ensures
            r@ == spec_encode_tasks(self@),
    {
        encode_tasks(&self.todos)
    }

    /// Replaces the contents from the persisted text. Empty input means an
    /// empty list, never an error; text that does not parse is refused and
    /// leaves the store unchanged, for the caller to treat as fatal.
    pub fn load_from_str(&mut self, data: &str) -> (ok: bool)
        ensures
            data@.len() == 0 ==> ok && final(self)@ == Seq::<TaskView>::empty(),
            data@.len() > 0 ==> match spec_parse_tasks(data@) {
                Some(ts) => ok && final(self)@ == ts,
                None => !ok && final(self)@ == old(self)@,
            },
    {
        if data.is_empty() {
            self.todos = Vec::new();
            proof {
                assert(self@ =~= Seq::<TaskView>::empty());
            }
            true
        } else {
            match parse_tasks(data) {
                Some(v) => {
                    self.todos = v;
                    true
                },
                None => false,
            }
        }
    }

    /// Number of tasks in the store.
    pub fn len(&self) -> (n: usize)
        ensures
            n == self@.len(),
    {
        self.todos.len()
    }
}

} // verus!
