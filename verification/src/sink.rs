//! Edit-bracket notification sinks.
//!
//! A host that automates parameters wants every write bracketed by a
//! begin-edit / end-edit pair so it can refresh its automation UI. The store
//! does not talk to a host directly; it is given a sink, an abstract
//! capability whose whole observable behaviour is the sequence of bracket
//! events it has received.

use vstd::prelude::*;

verus! {

/// One half of an edit bracket, tagged with the host-facing parameter index.
#[derive(Clone, Copy, PartialEq, Eq, Structural, Debug)]
pub enum EditEvent {
    Begin(i32),
    End(i32),
}

/// A receiver for edit brackets. `events` is the abstract history of calls;
/// each notification appends exactly one event to it. The history defaults
/// to empty so that an implementation outside the verified
/// library (a real host connection) need only write the two notification
/// methods; a verified implementation states its own history.
pub trait EditSink: Sized {
    open spec fn events(&self) -> Seq<EditEvent> {
        Seq::<EditEvent>::empty()
    }

    fn begin_edit(&mut self, index: i32)
        ensures
            final(self).events() == old(self).events().push(EditEvent::Begin(index)),
    ;

    fn end_edit(&mut self, index: i32)
        ensures
            final(self).events() == old(self).events().push(EditEvent::End(index)),
    ;
}

/// A sink that just records the brackets it receives, for use where no host
/// is attached (and as the stub a test hands to a store).
pub struct RecordingSink {
    pub log: Vec<EditEvent>,
}

impl RecordingSink {
    pub fn new() -> (r: Self)
        ensures
            r.events() == Seq::<EditEvent>::empty(),
    {
        RecordingSink { log: Vec::new() }
    }
}

impl EditSink for RecordingSink {
    open spec fn events(&self) -> Seq<EditEvent> {
        self.log@
    }

    fn begin_edit(&mut self, index: i32) {
        self.log.push(EditEvent::Begin(index));
    }

    fn end_edit(&mut self, index: i32) {
        self.log.push(EditEvent::End(index));
    }
}

} // verus!
