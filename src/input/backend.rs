//! Input backend interface and a scripted backend for tests.
use vstd::prelude::*;

use crossbeam_channel::Sender;

use crate::types::{AppError, InputEvent};

verus! {

#[verifier::external_type_specification]
#[verifier::external_body]
#[verifier::reject_recursive_types(T)]
pub struct ExSender<T>(crossbeam_channel::Sender<T>);

/// Relies on `crossbeam_channel::Sender::send`: hands the event to the
/// channel, or fails, with the error's text, when every receiver is gone.
#[verifier::external_body]
fn send_event(tx: &Sender<InputEvent>, event: InputEvent) -> (r: Result<(), String>) {
    tx.send(event).map_err(|err| format!("{err}"))
}

/// A source of input events, started with the channel to send them into.
pub trait InputBackend {
    fn start(&mut self, tx: Sender<InputEvent>) -> Result<(), AppError>;

    fn stop(&mut self) -> Result<(), AppError>;
}

/// Deterministic backend that sends a fixed script of events, and can be told
/// to fail once on start or on stop.
///
/// `sent` records, in order, every event it has handed to a channel.
#[derive(Clone)]
pub struct MockBackend {
    scripted_events: Vec<InputEvent>,
    fail_start: Option<String>,
    fail_stop: Option<String>,
    started: bool,
    sent: Ghost<Seq<InputEvent>>,
}

impl Default for MockBackend {
    /// A backend with an empty script that never fails.
    fn default() -> (b: MockBackend)
        ensures
            b.script() == Seq::<InputEvent>::empty(),
            b.start_failure() == None::<Seq<char>>,
            b.stop_failure() == None::<Seq<char>>,
            !b.running(),
            b.sent() == Seq::<InputEvent>::empty(),
    {
        MockBackend::new(Vec::new())
    }
}

impl MockBackend {
    /// The events sent on start.
    pub closed spec fn script(&self) -> Seq<InputEvent> {
        self.scripted_events@
    }

    /// The message of the next start failure, if one is set.
    pub closed spec fn start_failure(&self) -> Option<Seq<char>> {
        match self.fail_start {
            Some(m) => Some(m@),
            None => None,
        }
    }

    /// The message of the next stop failure, if one is set.
    pub closed spec fn stop_failure(&self) -> Option<Seq<char>> {
        match self.fail_stop {
            Some(m) => Some(m@),
            None => None,
        }
    }

    /// Whether the backend is running.
    pub closed spec fn running(&self) -> bool {
        self.started
    }

    /// Every event handed to a channel so far, in order.
    pub closed spec fn sent(&self) -> Seq<InputEvent> {
        self.sent@
    }

    /// A backend that sends `scripted_events` on start, and never fails.
    pub fn new(scripted_events: Vec<InputEvent>) -> (b: MockBackend)
        ensures
            b.script() == scripted_events@,
            b.start_failure() == None::<Seq<char>>,
            b.stop_failure() == None::<Seq<char>>,
            !b.running(),
            b.sent() == Seq::<InputEvent>::empty(),
    {
        MockBackend {
            scripted_events,
            fail_start: None,
            fail_stop: None,
            started: false,
            sent: Ghost(Seq::empty()),
        }
    }

    /// The same backend, whose next start fails with `message`.
    pub fn with_start_error(self, message: &str) -> (b: MockBackend)
        ensures
            b.script() == self.script(),
            b.start_failure() == Some(message@),
            b.stop_failure() == self.stop_failure(),
            b.running() == self.running(),
            b.sent() == self.sent(),
    {
        let mut b = self;
        b.fail_start = Some(message.to_owned());
        b
    }

    /// The same backend, whose next stop fails with `message`.
    pub fn with_stop_error(self, message: &str) -> (b: MockBackend)
        ensures
            b.script() == self.script(),
            b.start_failure() == self.start_failure(),
            b.stop_failure() == Some(message@),
            b.running() == self.running(),
            b.sent() == self.sent(),
    {
        let mut b = self;
        b.fail_stop = Some(message.to_owned());
        b
    }

    /// Whether the backend is running.
    pub fn is_started(&self) -> (r: bool)
        ensures
            r == self.running(),
    {
        self.started
    }

    /// Fails once with the configured start error, sending nothing;
    /// otherwise hands the script to `tx` in order and is then running. A
    /// send to a channel without receivers stops there and fails the start
    /// with the channel's reason, leaving the backend not started.
    pub fn start(&mut self, tx: Sender<InputEvent>) -> (r: Result<(), AppError>)
        ensures
            final(self).script() == old(self).script(),
            final(self).stop_failure() == old(self).stop_failure(),
            final(self).start_failure() == None::<Seq<char>>,
            match old(self).start_failure() {
                Some(m) => {
                    &&& r is Err && r->Err_0 is Input && r->Err_0->Input_0@ == m
                    &&& final(self).running() == old(self).running()
                    &&& final(self).sent() == old(self).sent()
                },
                None => {
                    &&& old(self).script().len() == 0 ==> r is Ok
                    &&& r is Ok ==> final(self).running() && final(self).sent() == old(
                        self,
                    ).sent() + old(self).script()
                    &&& r is Err ==> {
                        &&& final(self).running() == old(self).running()
                        &&& r->Err_0 is Input
                        &&& exists|k: int, reason: Seq<char>|
                            0 < k <= old(self).script().len() && final(self).sent() == old(
                                self,
                            ).sent() + old(self).script().subrange(0, k)
                                && r->Err_0->Input_0@ == send_failure_message(reason)
                    }
                },
            },
    {
        match self.fail_start.take() {
            Some(message) => {
                return Err(AppError::Input(message));
            },
            None => {},
        }
        let ghost before = self.sent@;
        let mut i: usize = 0;
        while i < self.scripted_events.len()
            invariant
                0 <= i <= self.scripted_events@.len(),
                self.scripted_events@ == old(self).scripted_events@,
                self.fail_start is None,
                old(self).fail_start is None,
                self.fail_stop == old(self).fail_stop,
                self.started == old(self).started,
                before == old(self).sent@,
                self.sent@ == before + self.scripted_events@.subrange(0, i as int),
            decreases self.scripted_events@.len() - i,
        {
            let event = self.scripted_events[i].clone();
            proof {
                self.sent@ = self.sent@.push(self.scripted_events@[i as int]);
                assert(self.scripted_events@.subrange(0, i + 1) =~= self.scripted_events@.subrange(
                    0,
                    i as int,
                ).push(self.scripted_events@[i as int]));
                assert(self.sent@ =~= before + self.scripted_events@.subrange(0, i + 1));
            }
            match send_event(&tx, event) {
                Ok(()) => {},
                Err(reason) => {
                    let mut message = "failed to send mock event: ".to_owned();
                    message.append(reason.as_str());
                    assert(message@ == send_failure_message(reason@));
                    let r: Result<(), AppError> = Err(AppError::Input(message));
                    assert(0 < i + 1 <= old(self).script().len() && self.sent() == old(self).sent()
                        + old(self).script().subrange(0, i + 1) && r->Err_0->Input_0@
                        == send_failure_message(reason@));
                    return r;
                },
            }
            i = i + 1;
        }
        proof {
            assert(self.scripted_events@.subrange(0, i as int) =~= self.scripted_events@);
        }
        self.started = true;
        Ok(())
    }

    /// Fails once with the configured stop error; otherwise stops running.
    pub fn stop(&mut self) -> (r: Result<(), AppError>)
        ensures
            final(self).script() == old(self).script(),
            final(self).start_failure() == old(self).start_failure(),
            final(self).stop_failure() == None::<Seq<char>>,
            final(self).sent() == old(self).sent(),
            match old(self).stop_failure() {
                Some(m) => {
                    &&& r is Err && r->Err_0 is Input && r->Err_0->Input_0@ == m
                    &&& final(self).running() == old(self).running()
                },
                None => r is Ok && !final(self).running(),
            },
    {
        match self.fail_stop.take() {
            Some(message) => {
                return Err(AppError::Input(message));
            },
            None => {},
        }
        self.started = false;
        Ok(())
    }
}

/// The start error of a send that failed for `reason`.
pub open spec fn send_failure_message(reason: Seq<char>) -> Seq<char> {
    "failed to send mock event: "@ + reason
}

impl InputBackend for MockBackend {
    fn start(&mut self, tx: Sender<InputEvent>) -> Result<(), AppError> {
        MockBackend::start(self, tx)
    }

    fn stop(&mut self) -> Result<(), AppError> {
        MockBackend::stop(self)
    }
}

} // verus!
