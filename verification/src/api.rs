//! Values exchanged with HTTP clients: the submitted batch and the two
//! response bodies.

use vstd::prelude::*;

verus! {

/// The largest number of events one batch may carry.
pub const MAX_EVENTS: usize = 100;

/// The user on whose behalf a batch is submitted.
#[derive(Debug, PartialEq, Eq)]
pub struct User {
    pub id: String,
}

/// One client event.
#[derive(Debug, PartialEq, Eq)]
pub struct Event {
    pub name: String,
}

/// A batch as a client submits it.
#[derive(Debug, PartialEq, Eq)]
pub struct Events {
    pub partner: String,
    pub user: User,
    pub events: Vec<Event>,
}

/// Body of a successful response.
#[derive(Debug, PartialEq, Eq)]
pub struct OkResponse {
    pub token: String,
}

/// Body of a failed response.
#[derive(Debug, PartialEq, Eq)]
pub struct ErrorResponse {
    pub error: String,
}

/// The mathematical content of a submitted batch.
pub ghost struct BatchView {
    pub partner: Seq<char>,
    pub user: Seq<char>,
    pub events: Seq<Seq<char>>,
}

/// The names of a sequence of events, in order.
pub open spec fn event_names(events: Seq<Event>) -> Seq<Seq<char>> {
    events.map_values(|e: Event| e.name@)
}

/// Whether a batch with `count` events has an acceptable shape.
pub open spec fn batch_size_ok(count: nat) -> bool {
    1 <= count <= MAX_EVENTS
}

impl View for User {
    type V = Seq<char>;

    open spec fn view(&self) -> Seq<char> {
        self.id@
    }
}

impl View for Event {
    type V = Seq<char>;

    open spec fn view(&self) -> Seq<char> {
        self.name@
    }
}

impl View for Events {
    type V = BatchView;

    open spec fn view(&self) -> BatchView {
        BatchView {
            partner: self.partner@,
            user: self.user.id@,
            events: event_names(self.events@),
        }
    }
}

impl View for OkResponse {
    type V = Seq<char>;

    open spec fn view(&self) -> Seq<char> {
        self.token@
    }
}

impl View for ErrorResponse {
    type V = Seq<char>;

    open spec fn view(&self) -> Seq<char> {
        self.error@
    }
}

impl Clone for User {
    fn clone(&self) -> (copy: Self)
        ensures
            copy@ == self@,
    {
        User { id: self.id.clone() }
    }
}

impl Clone for Event {
    fn clone(&self) -> (copy: Self)
        ensures
            copy@ == self@,
    {
        Event { name: self.name.clone() }
    }
}

/// Copies a list of events, name by name.
pub fn clone_events(events: &Vec<Event>) -> (copy: Vec<Event>)
    ensures
        event_names(copy@) == event_names(events@),
{
    let mut copy: Vec<Event> = Vec::new();
    let mut i: usize = 0;
    while i < events.len()
        invariant
            i <= events.len(),
            copy.len() == i,
            forall|j: int| 0 <= j < i ==> copy[j].name@ == events[j].name@,
        decreases events.len() - i,
    {
        copy.push(events[i].clone());
        i += 1;
    }
    assert(event_names(copy@) =~= event_names(events@));
    copy
}

impl Clone for Events {
    fn clone(&self) -> (copy: Self)
        ensures
            copy@ == self@,
    {
        Events {
            partner: self.partner.clone(),
            user: self.user.clone(),
            events: clone_events(&self.events),
        }
    }
}

impl Events {
    /// Tells whether the batch has between one and `MAX_EVENTS` events.
    pub fn has_valid_size(&self) -> (ok: bool)
        ensures
            ok == batch_size_ok(self@.events.len()),
    {
        1 <= self.events.len() && self.events.len() <= MAX_EVENTS
    }
}

} // verus!
