use vstd::prelude::*;
use crate::node::service::{EventPublishResult, EventResult, Outcome, ServiceError};

verus! {

/// The two flags through which the tasks of the event loop speak to each other.
#[derive(Clone, Copy, Debug, PartialEq, Eq, Structural)]
pub struct Flags {
    /// Set when it is time to publish; cleared once a block was published,
    /// or when a new chain head was seen.
    pub publishing: bool,
    /// Set when a new chain head was committed; cleared once that was seen.
    pub new_chainhead: bool,
}

/// What the event loop found in the queue of the validator.
#[derive(Debug)]
pub enum Polled {
    /// An update, and how the node handled it.
    Handled(Result<Outcome, ServiceError>),
    /// Nothing, for now.
    Empty,
    /// Nothing, and nothing will come.
    Disconnected,
}

/// What the pump does after it looked into the queue.
#[derive(Clone, Copy, Debug, PartialEq, Eq, Structural)]
pub enum Tick {
    /// It goes round again at once.
    Continue,
    /// It rests for a moment and goes round again.
    Idle,
    /// It ends, and the event loop with it.
    Shutdown,
}

/// Whether the handling of an update ended in a restart.
pub open spec fn restarts(result: Result<Outcome, ServiceError>) -> bool {
    result matches Ok(Outcome::Update(EventResult::Restart(_)))
}

/// Whether the handling of an update ended in a restart on the way to
/// which a block was published.
pub open spec fn restarts_published(result: Result<Outcome, ServiceError>) -> bool {
    result matches Ok(Outcome::Update(EventResult::Restart(true)))
}

impl Flags {
    /// Both flags cleared.
    pub fn new() -> (flags: Self)
        ensures
            flags == (Flags { publishing: false, new_chainhead: false }),
    {
        Flags { publishing: false, new_chainhead: false }
    }

    /// The timer has run out: it is time to publish.
    pub fn schedule_fired(&mut self)
        ensures
            *final(self) == (Flags { publishing: true, ..*old(self) }),
    {
        self.publishing = true;
    }

    /// The reactor looks for a new chain head. Where one was committed, it
    /// clears both flags and says that the timer is to be set again.
    pub fn chainhead_seen(&mut self) -> (rearm: bool)
        ensures
            rearm == old(self).new_chainhead,
            *final(self) == (if old(self).new_chainhead {
                Flags { publishing: false, new_chainhead: false }
            } else {
                *old(self)
            }),
    {
        if self.new_chainhead {
            self.new_chainhead = false;
            self.publishing = false;
            true
        } else {
            false
        }
    }

    /// The pump has attempted to publish, as it does when the publishing
    /// flag is set. A published block clears the flag; an error ends the pump.
    pub fn published(&mut self, result: &Result<Outcome, ServiceError>) -> (tick: Tick)
        ensures
            tick == (if result is Err {
                Tick::Shutdown
            } else {
                Tick::Continue
            }),
            *final(self) == (if *result matches Ok(
                Outcome::Publish(EventPublishResult::Published),
            ) {
                Flags { publishing: false, ..*old(self) }
            } else {
                *old(self)
            }),
    {
        match result {
            Ok(Outcome::Publish(EventPublishResult::Published)) => {
                self.publishing = false;
                Tick::Continue
            },
            Ok(_) => Tick::Continue,
            Err(_) => Tick::Shutdown,
        }
    }

    /// The pump has looked into the queue of the validator. A restart sets
    /// the flag of the new chain head, and clears the publishing flag where a
    /// block was published on the way. The pump ends when the node says so
    /// and when the queue is disconnected; an error of the node does not end it.
    pub fn updated(&mut self, polled: &Polled) -> (tick: Tick)
        ensures
            tick == (match *polled {
                Polled::Handled(Ok(Outcome::Update(EventResult::Shutdown))) => Tick::Shutdown,
                Polled::Handled(_) => Tick::Continue,
                Polled::Empty => Tick::Idle,
                Polled::Disconnected => Tick::Shutdown,
            }),
            *final(self) == (match *polled {
                Polled::Handled(result) => Flags {
                    publishing: old(self).publishing && !restarts_published(result),
                    new_chainhead: old(self).new_chainhead || restarts(result),
                },
                _ => *old(self),
            }),
    {
        match polled {
            Polled::Handled(Ok(Outcome::Update(EventResult::Shutdown))) => Tick::Shutdown,
            Polled::Handled(Ok(Outcome::Update(EventResult::Restart(eager_publish)))) => {
                self.new_chainhead = true;
                if *eager_publish {
                    self.publishing = false;
                }
                Tick::Continue
            },
            Polled::Handled(_) => Tick::Continue,
            Polled::Empty => Tick::Idle,
            Polled::Disconnected => Tick::Shutdown,
        }
    }
}

} // verus!
