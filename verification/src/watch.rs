//! Watching one directory for changes.
//!
//! A session is either armed, and then holds the handle of its one watch, or
//! disarmed. The sender disarms it around every write it causes itself in
//! the watched directory: a watch cannot tell who wrote, so while the sender
//! produces a new version of a file nothing must be reported.

use vstd::prelude::*;

verus! {

/// The handle of a watch, as the notification facility numbers it.
#[derive(Clone, Copy, Debug, PartialEq, Eq, Structural)]
pub struct WatchHandle {
    /// The number of the watch.
    pub id: i32,
}

/// What happened to an entry of a watched directory.
#[derive(Clone, Copy, Debug, PartialEq, Eq, Structural)]
pub enum ChangeKind {
    /// A file that was open for writing was closed.
    ClosedAfterWrite,
    /// An entry was moved into the directory.
    MovedInto,
    /// The attributes of an entry changed.
    AttributeChanged,
    /// Anything else.
    Other,
}

/// Whether a session asks to be told of `kind`.
pub open spec fn is_watched(kind: ChangeKind) -> bool {
    kind == ChangeKind::ClosedAfterWrite || kind == ChangeKind::MovedInto || kind
        == ChangeKind::AttributeChanged
}

impl ChangeKind {
    /// Whether a session asks to be told of this kind of change.
    pub fn watched(&self) -> (yes: bool)
        ensures
            yes == is_watched(*self),
    {
        match self {
            ChangeKind::ClosedAfterWrite => true,
            ChangeKind::MovedInto => true,
            ChangeKind::AttributeChanged => true,
            ChangeKind::Other => false,
        }
    }
}

/// One notification: what happened, and to which entry of the directory.
/// Some notifications concern the directory itself and name no entry.
#[derive(Debug, PartialEq, Eq)]
pub struct ChangeEvent {
    /// What happened.
    pub kind: ChangeKind,
    /// The name of the entry, without any directory.
    pub name: Option<String>,
}

/// A notification, with its name as plain text.
pub struct ChangeEventView {
    /// What happened.
    pub kind: ChangeKind,
    /// The name of the entry.
    pub name: Option<Seq<char>>,
}

impl View for ChangeEvent {
    type V = ChangeEventView;

    open spec fn view(&self) -> ChangeEventView {
        ChangeEventView {
            kind: self.kind,
            name: match self.name {
                Some(name) => Some(name@),
                None => None,
            },
        }
    }
}

/// A batch of notifications, with their names as plain text.
pub open spec fn batch_view(events: Seq<ChangeEvent>) -> Seq<ChangeEventView> {
    events.map_values(|event: ChangeEvent| event@)
}

/// Whether `event` tells of a watched change to an entry.
pub open spec fn names_entry(event: ChangeEventView) -> bool {
    is_watched(event.kind) && event.name is Some
}

/// Whether some notification of the batch tells of a watched change to the
/// entry `name`.
pub open spec fn mentions(events: Seq<ChangeEventView>, name: Seq<char>) -> bool {
    exists|i: int| 0 <= i < events.len() && names_entry(#[trigger] events[i]) && events[i].name
        == Some(name)
}

/// The names of the entries that a batch tells a watched change of: each
/// name once, in the order in which the names first occur.
pub open spec fn changed(events: Seq<ChangeEventView>) -> Seq<Seq<char>>
    decreases events.len(),
{
    if events.len() == 0 {
        Seq::empty()
    } else {
        let earlier = changed(events.drop_last());
        let last = events.last();
        if names_entry(last) && !earlier.contains(last.name->0) {
            earlier.push(last.name->0)
        } else {
            earlier
        }
    }
}

/// A session: the watched directory and the handle of the watch, if armed.
pub struct WatchModel {
    /// The watched directory.
    pub directory: Seq<char>,
    /// The handle of the active watch.
    pub handle: Option<WatchHandle>,
}

impl WatchModel {
    /// Whether the session is armed.
    pub open spec fn armed(self) -> bool {
        self.handle is Some
    }

    /// The session after `start` with a watch at `handle`: an armed session
    /// stays as it is.
    pub open spec fn started(self, handle: WatchHandle) -> WatchModel {
        if self.armed() {
            self
        } else {
            WatchModel { handle: Some(handle), ..self }
        }
    }

    /// The session after `stop`.
    pub open spec fn stopped(self) -> WatchModel {
        WatchModel { handle: None, ..self }
    }

    /// The names that the session reports for a batch: those the batch tells
    /// a change of while the session is armed, none while it is not.
    pub open spec fn reported(self, events: Seq<ChangeEventView>) -> Seq<Seq<char>> {
        if self.armed() {
            changed(events)
        } else {
            Seq::empty()
        }
    }
}

/// A name is among the changed names of a batch exactly if the batch tells
/// a watched change of it, and no name is there twice.
pub proof fn lemma_changed_is_a_set(events: Seq<ChangeEventView>)
    ensures
        changed(events).no_duplicates(),
        forall|name: Seq<char>| #[trigger]
            changed(events).contains(name) <==> mentions(events, name),
    decreases events.len(),
{
    if events.len() > 0 {
        let front = events.drop_last();
        let last = events.last();
        let earlier = changed(front);
        lemma_changed_is_a_set(front);
        assert forall|name: Seq<char>| #[trigger]
            changed(events).contains(name) <==> mentions(events, name) by {
            if mentions(front, name) {
                let i = choose|i: int|
                    0 <= i < front.len() && names_entry(#[trigger] front[i]) && front[i].name
                        == Some(name);
                assert(events[i] == front[i]);
                assert(earlier.contains(name));
            }
            if names_entry(last) && last.name == Some(name) {
                assert(events[events.len() - 1] == last);
                assert(mentions(events, name));
            }
            if mentions(events, name) {
                let i = choose|i: int|
                    0 <= i < events.len() && names_entry(#[trigger] events[i]) && events[i].name
                        == Some(name);
                if i < front.len() {
                    assert(front[i] == events[i]);
                    assert(mentions(front, name));
                }
            }
            if names_entry(last) && !earlier.contains(last.name->0) {
                let added = earlier.push(last.name->0);
                assert(added[earlier.len() as int] == last.name->0);
                if earlier.contains(name) {
                    let j = choose|j: int| 0 <= j < earlier.len() && earlier[j] == name;
                    assert(added[j] == name);
                }
            }
        }
    } else {
        assert forall|name: Seq<char>| #[trigger]
            changed(events).contains(name) <==> mentions(events, name) by {}
    }
}

/// Disarm correctness: once stopped, a session reports nothing, whatever
/// happens in the directory, until it is started again; from then on it
/// reports every batch in full.
pub proof fn lemma_stopped_session_is_silent(
    session: WatchModel,
    events: Seq<ChangeEventView>,
    handle: WatchHandle,
)
    ensures
        session.stopped().reported(events) == Seq::<Seq<char>>::empty(),
        session.stopped().started(handle).reported(events) == changed(events),
{
}

/// Starting is idempotent: on an armed session it changes nothing.
pub proof fn lemma_start_is_idempotent(session: WatchModel, first: WatchHandle, second: WatchHandle)
    ensures
        session.started(first).armed(),
        session.started(first).started(second) == session.started(first),
        session.armed() ==> session.started(first) == session,
{
}

/// Stopping clears the handle, and on a disarmed session it changes nothing.
pub proof fn lemma_stop_always_disarms(session: WatchModel)
    ensures
        !session.stopped().armed(),
        session.stopped().stopped() == session.stopped(),
        !session.armed() ==> session.stopped() == session,
{
}

/// Tells whether `name` is one of `names`.
pub fn contains_name(names: &Vec<String>, name: &String) -> (found: bool)
    ensures
        found == names.deep_view().contains(name@),
{
    let mut i: usize = 0;
    while i < names.len()
        invariant
            i <= names.len(),
            forall|j: int| 0 <= j < i ==> names.deep_view()[j] != name@,
        decreases names.len() - i,
    {
        if names[i] == *name {
            assert(names.deep_view()[i as int] == name@);
            return true;
        }
        i = i + 1;
    }
    false
}

/// A session that watches one directory.
#[derive(Debug, PartialEq, Eq)]
pub struct WatchSession {
    directory: String,
    handle: Option<WatchHandle>,
}

impl View for WatchSession {
    type V = WatchModel;

    closed spec fn view(&self) -> WatchModel {
        WatchModel { directory: self.directory@, handle: self.handle }
    }
}

impl WatchSession {
    /// A disarmed session for `directory`.
    pub fn new(directory: String) -> (session: WatchSession)
        ensures
            session@ == (WatchModel { directory: directory@, handle: None }),
    {
        WatchSession { directory, handle: None }
    }

    /// The watched directory.
    pub fn directory(&self) -> (directory: &String)
        ensures
            directory@ == self@.directory,
    {
        &self.directory
    }

    /// The handle of the active watch.
    pub fn handle(&self) -> (handle: Option<WatchHandle>)
        ensures
            handle == self@.handle,
    {
        self.handle
    }

    /// Whether the session is armed.
    pub fn is_armed(&self) -> (armed: bool)
        ensures
            armed == self@.armed(),
    {
        self.handle.is_some()
    }

    /// Arms the session with a watch that was just placed on the directory.
    /// Does nothing if the session is armed already: it keeps its watch.
    pub fn start(&mut self, handle: WatchHandle)
        ensures
            final(self)@ == old(self)@.started(handle),
    {
        if self.handle.is_none() {
            self.handle = Some(handle);
        }
    }

    /// Disarms the session and hands out the watch to take off the
    /// directory. Does nothing, and hands out nothing, if the session is not
    /// armed.
    pub fn stop(&mut self) -> (released: Option<WatchHandle>)
        ensures
            final(self)@ == old(self)@.stopped(),
            released == old(self)@.handle,
    {
        let released = self.handle;
        self.handle = None;
        released
    }

    /// The names of the entries that a batch of notifications tells a
    /// watched change of: each name once, without any directory. A disarmed
    /// session reports nothing.
    pub fn changed_names(&self, events: &Vec<ChangeEvent>) -> (names: Vec<String>)
        ensures
            names.deep_view() == self@.reported(batch_view(events@)),
    {
        let mut names: Vec<String> = Vec::new();
        if self.handle.is_none() {
            assert(names.deep_view() =~= Seq::<Seq<char>>::empty());
            return names;
        }
        let ghost batch = batch_view(events@);
        let mut i: usize = 0;
        assert(names.deep_view() =~= changed(batch.take(0)));
        while i < events.len()
            invariant
                i <= events.len(),
                batch == batch_view(events@),
                names.deep_view() == changed(batch.take(i as int)),
            decreases events.len() - i,
        {
            let event = &events[i];
            proof {
                assert(batch.take(i + 1).drop_last() =~= batch.take(i as int));
                assert(batch.take(i + 1).last() == event@);
            }
            if event.kind.watched() {
                match &event.name {
                    Some(name) => {
                        if !contains_name(&names, name) {
                            let ghost before = names.deep_view();
                            names.push(name.clone());
                            assert(names.deep_view() =~= before.push(name@));
                        }
                    },
                    None => {},
                }
            }
            i = i + 1;
        }
        assert(batch.take(events.len() as int) =~= batch);
        names
    }
}

} // verus!
