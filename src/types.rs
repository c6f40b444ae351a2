//! Domain model: item status and its cycle, TODO items, and the list with a
//! selection cursor.

use vstd::prelude::*;

verus! {

/// Relies on `String::push`: appends one character.
#[verifier::external_body]
pub(crate) fn push_char(s: &mut String, c: char)
    ensures
        final(s)@ == old(s)@.push(c),
{
    s.push(c)
}

/// Relies on `String::pop`: removes and returns the last character.
#[verifier::external_body]
pub(crate) fn pop_char(s: &mut String) -> (r: Option<char>)
    ensures
        old(s)@.len() == 0 ==> r is None && final(s)@ == old(s)@,
        old(s)@.len() > 0 ==> r == Some(old(s)@.last()) && final(s)@ == old(s)@.drop_last(),
{
    s.pop()
}

/// Progress state of a TODO item.
#[derive(Debug, Clone, Copy, PartialEq, Eq, Structural)]
pub enum Status {
    Todo,
    Active,
    Done,
    Cancelled,
}

/// The toggle cycle: Todo -> Active -> Done -> Cancelled -> Todo.
pub open spec fn next_status(s: Status) -> Status {
    match s {
        Status::Todo => Status::Active,
        Status::Active => Status::Done,
        Status::Done => Status::Cancelled,
        Status::Cancelled => Status::Todo,
    }
}

/// The text under which a status is stored.
pub open spec fn status_name(s: Status) -> Seq<char> {
    match s {
        Status::Todo => "Todo"@,
        Status::Active => "Active"@,
        Status::Done => "Done"@,
        Status::Cancelled => "Cancelled"@,
    }
}

/// The status that a stored text denotes; any unknown text degrades to Todo.
pub open spec fn status_from_name(name: Seq<char>) -> Status {
    if name == "Active"@ {
        Status::Active
    } else if name == "Done"@ {
        Status::Done
    } else if name == "Cancelled"@ {
        Status::Cancelled
    } else {
        Status::Todo
    }
}

impl Status {
    /// The successor of this status in the toggle cycle.
    pub fn next(self) -> (r: Status)
        ensures
            r == next_status(self),
    {
        match self {
            Status::Todo => Status::Active,
            Status::Active => Status::Done,
            Status::Done => Status::Cancelled,
            Status::Cancelled => Status::Todo,
        }
    }

    /// The text under which this status is stored.
    pub fn name(self) -> (r: &'static str)
        ensures
            r@ == status_name(self),
    {
        match self {
            Status::Todo => "Todo",
            Status::Active => "Active",
            Status::Done => "Done",
            Status::Cancelled => "Cancelled",
        }
    }
}

/// Whether two texts hold the same characters.
pub fn text_eq(a: &str, b: &str) -> (r: bool)
    ensures
        r == (a@ == b@),
{
    let n = a.unicode_len();
    if n != b.unicode_len() {
        return false;
    }
    let mut i: usize = 0;
    while i < n
        invariant
            n == a@.len(),
            n == b@.len(),
            i <= n,
            forall|k: int| 0 <= k < i ==> a@[k] == b@[k],
        decreases n - i,
    {
        if a.get_char(i) != b.get_char(i) {
            return false;
        }
        i = i + 1;
    }
    assert(a@ =~= b@);
    true
}

impl Status {
    /// The status that a stored text denotes; an unknown text gives `Todo`.
    pub fn from_name(name: &str) -> (r: Status)
        ensures
            r == status_from_name(name@),
    {
        if text_eq(name, "Active") {
            Status::Active
        } else if text_eq(name, "Done") {
            Status::Done
        } else if text_eq(name, "Cancelled") {
            Status::Cancelled
        } else {
            Status::Todo
        }
    }
}

/// A TODO item as held in memory after loading it from the store.
#[derive(Debug)]
pub struct TODOData {
    /// Key assigned by the store.
    pub id: i64,
    pub title: String,
    pub message: String,
    /// Creation time as RFC 3339 text with the local offset.
    pub date: String,
    pub status: Status,
}

impl TODOData {
    /// Advances the status one step along the toggle cycle and returns it.
    pub fn toggle_status(&mut self) -> (r: Status)
        ensures
            final(self).status == next_status(old(self).status),
            r == final(self).status,
            final(self).id == old(self).id,
            final(self).title == old(self).title,
            final(self).message == old(self).message,
            final(self).date == old(self).date,
    {
        self.status = self.status.next();
        self.status
    }
}

/// Selection after moving one step forward in a list of `len` items:
/// wraps from the last item to the first, starts at the first when nothing
/// is selected, and changes nothing in an empty list.
pub open spec fn next_index(selected: Option<usize>, len: nat) -> Option<usize> {
    if len == 0 {
        selected
    } else {
        match selected {
            Some(i) => if i + 1 >= len {
                Some(0usize)
            } else {
                Some((i + 1) as usize)
            },
            None => Some(0usize),
        }
    }
}

/// Selection after moving one step back in a list of `len` items: wraps
/// from the first item to the last, starts at the first when nothing is
/// selected, and changes nothing in an empty list.
pub open spec fn previous_index(selected: Option<usize>, len: nat) -> Option<usize> {
    if len == 0 {
        selected
    } else {
        match selected {
            Some(i) => if i == 0 {
                Some((len - 1) as usize)
            } else {
                Some((i - 1) as usize)
            },
            None => Some(0usize),
        }
    }
}

/// The ordered items on display and the index of the selected one.
#[derive(Debug)]
pub struct ListState {
    pub selected: Option<usize>,
    pub items: Vec<TODOData>,
}

impl ListState {
    /// A selection, when present, points at an item.
    pub open spec fn wf(&self) -> bool {
        self.selected matches Some(i) ==> i < self.items@.len()
    }

    /// An empty list with nothing selected.
    pub fn new() -> (r: ListState)
        ensures
            r.wf(),
            r.items@.len() == 0,
            r.selected is None,
    {
        ListState { selected: None, items: Vec::new() }
    }

    /// Moves the selection to the next item, wrapping around at the end.
    pub fn next(&mut self)
        requires
            old(self).wf(),
        ensures
            final(self).wf(),
            final(self).items@ == old(self).items@,
            final(self).selected == next_index(old(self).selected, old(self).items@.len()),
    {
        let len = self.items.len();
        if len == 0 {
            return;
        }
        let i: usize = match self.selected {
            Some(i) => if i >= len - 1 {
                0
            } else {
                i + 1
            },
            None => 0,
        };
        self.selected = Some(i);
    }

    /// Moves the selection to the previous item, wrapping around at the start.
    pub fn previous(&mut self)
        requires
            old(self).wf(),
        ensures
            final(self).wf(),
            final(self).items@ == old(self).items@,
            final(self).selected == previous_index(old(self).selected, old(self).items@.len()),
    {
        let len = self.items.len();
        if len == 0 {
            return;
        }
        let i: usize = match self.selected {
            Some(i) => if i == 0 {
                len - 1
            } else {
                i - 1
            },
            None => 0,
        };
        self.selected = Some(i);
    }

    /// The selected item, if the selection points at one.
    pub fn selected_item(&self) -> (r: Option<&TODOData>)
        ensures
            match self.selected {
                Some(i) => if i < self.items@.len() {
                    r matches Some(x) && *x == self.items@[i as int]
                } else {
                    r is None
                },
                None => r is None,
            },
    {
        match self.selected {
            Some(i) => if i < self.items.len() {
                Some(&self.items[i])
            } else {
                None
            },
            None => None,
        }
    }
}

impl Default for ListState {
    fn default() -> (r: ListState)
        ensures
            r.wf(),
            r.items@.len() == 0,
            r.selected is None,
    {
        ListState::new()
    }
}

/// In a non-empty list, a step forward followed by a step back (or a step
/// back followed by a step forward) returns the selection to where it was,
/// and both steps wrap around at the ends.
pub proof fn lemma_next_previous_round_trip(len: usize, i: usize)
    requires
        i < len,
    ensures
        previous_index(next_index(Some(i), len as nat), len as nat) == Some(i),
        next_index(previous_index(Some(i), len as nat), len as nat) == Some(i),
        i + 1 == len ==> next_index(Some(i), len as nat) == Some(0usize),
        i == 0 ==> previous_index(Some(i), len as nat) == Some((len - 1) as usize),
{
}

/// In an empty list both steps leave the selection empty.
pub proof fn lemma_empty_list_navigation()
    ensures
        next_index(None, 0) is None,
        previous_index(None, 0) is None,
{
}

/// Toggling an item four times brings back the status it started from.
pub proof fn lemma_toggle_four_times(s: Status)
    ensures
        next_status(next_status(next_status(next_status(s)))) == s,
{
}

/// A status read back from the text it is stored under is the status
/// itself.
pub proof fn lemma_status_name_round_trip(s: Status)
    ensures
        status_from_name(status_name(s)) == s,
{
    reveal_strlit("Todo");
    reveal_strlit("Active");
    reveal_strlit("Done");
    reveal_strlit("Cancelled");
    assert("Todo"@.len() != "Active"@.len());
    assert("Todo"@.len() != "Cancelled"@.len());
    assert("Todo"@[0] != "Done"@[0]);
    assert("Done"@.len() != "Active"@.len());
    assert("Cancelled"@.len() != "Active"@.len());
    assert("Cancelled"@.len() != "Done"@.len());
}

/// A stored text that names no status reads back as Todo.
pub proof fn lemma_unknown_status_is_todo(name: Seq<char>)
    requires
        forall|s: Status| status_name(s) != name,
    ensures
        status_from_name(name) == Status::Todo,
{
    assert(status_name(Status::Active) != name);
    assert(status_name(Status::Done) != name);
    assert(status_name(Status::Cancelled) != name);
}

} // verus!
