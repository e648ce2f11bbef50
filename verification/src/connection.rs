//! One connection from its acceptance to its close, as a state machine.
//!
//! The library decides; the caller acts. The caller starts with `accepted`,
//! does what the action says, and hands what came of it to `step`, until the
//! action ends the connection. A connection gets one response at most, and a
//! failure ends that connection and nothing else.

use crate::echo::{echo_exchange, is_echo_exchange};
use crate::outside::guessed_mime;
use crate::request::{read_view, READ_BUFFER_SIZE};
use crate::resolver::{
    escapes_root, is_answer, is_reception, receive, respond, robots_response, Found, Step,
};
use crate::response::Response;
use crate::status::Code;
use vstd::prelude::*;
use vstd::utf8::encode_utf8;

verus! {

/// What the server serves.
#[derive(Clone, Copy, Debug, PartialEq, Eq)]
pub enum Mode {
    /// The files below the content root.
    Files,
    /// The echo service.
    Echo,
}

/// Where a connection stands.
#[derive(Clone, Debug, PartialEq, Eq)]
pub enum State {
    /// The TLS handshake is under way.
    Upgrading,
    /// The request is being read.
    Reading,
    /// The robots file is being read.
    Robots,
    /// The path is being looked up below the content root.
    Lookup { path: String },
    /// The response is being written.
    Writing,
    /// The connection has ended.
    Closed,
}

/// Why a connection ended without a response having gone out.
#[derive(Clone, Debug, PartialEq, Eq)]
pub enum Failure {
    /// The TLS handshake failed; nothing was sent.
    Handshake(String),
    /// The response could not be written.
    Write(String),
}

/// What the caller is to do next.
#[derive(Clone, Debug, PartialEq, Eq)]
pub enum Action {
    /// Do the TLS handshake.
    Upgrade,
    /// Read once, into a buffer of this many bytes.
    Read(usize),
    /// Read the robots file.
    ReadRobots,
    /// Read the header and the footer, and look the path up.
    Inspect(String),
    /// Write the response in one call.
    Send(Response),
    /// Tell the operator of the failure and drop the connection.
    GiveUp(Failure),
    /// Close the connection.
    Close,
}

/// What came of an action.
#[derive(Debug, PartialEq, Eq)]
pub enum Event {
    /// The handshake succeeded, or failed with these words.
    Upgraded(Result<(), String>),
    /// The read gave these bytes, or failed with these words.
    Read(Result<Vec<u8>, String>),
    /// The robots file holds these bytes, or could not be read.
    RobotsRead(Option<Vec<u8>>),
    /// The header, the footer (each empty where its file could not be
    /// read) and what the lookup found.
    Found { header: String, footer: String, found: Found },
    /// The write succeeded, or failed with these words.
    Written(Result<(), String>),
}

/// How many steps a connection in this state can still take at most.
pub open spec fn steps_left(state: State) -> nat {
    match state {
        State::Upgrading => 4,
        State::Reading => 3,
        State::Robots => 2,
        State::Lookup { .. } => 2,
        State::Writing => 1,
        State::Closed => 0,
    }
}

/// The step that a connection in `state` takes on `event`: the state it
/// goes to and the action it asks for. An event that the state does not
/// wait for closes the connection.
pub open spec fn is_step(mode: Mode, state: State, event: Event, next: State, action: Action) -> bool {
    match (state, event) {
        (State::Upgrading, Event::Upgraded(Ok(_))) => next == State::Reading && action
            == Action::Read(READ_BUFFER_SIZE),
        (State::Upgrading, Event::Upgraded(Err(reason))) => next == State::Closed && (action matches Action::GiveUp(
            Failure::Handshake(text),
        ) && text@ == reason@),
        (State::Reading, Event::Read(read)) => match mode {
            Mode::Echo => next == State::Writing && (action matches Action::Send(r)
                && is_echo_exchange(read_view(read), r)),
            Mode::Files => match action {
                Action::Send(r) => next == State::Writing && is_reception(
                    read_view(read),
                    Step::Reply(r),
                ),
                Action::ReadRobots => next == State::Robots && is_reception(
                    read_view(read),
                    Step::ReadRobots,
                ),
                Action::Inspect(path) => (next matches State::Lookup { path: kept } && kept@
                    == path@) && is_reception(read_view(read), Step::Inspect(path)),
                _ => false,
            },
        },
        (State::Robots, Event::RobotsRead(read)) => next == State::Writing && (action matches Action::Send(
            r,
        ) && r.holds(
            Code::Success,
            "text/plain"@,
            match read {
                Some(bytes) => bytes@,
                None => Seq::empty(),
            },
        )),
        (State::Lookup { path }, Event::Found { header, footer, found }) => next == State::Writing
            && (action matches Action::Send(r) && is_answer(
            path@,
            header@,
            footer@,
            found,
            guessed_mime(path@),
            r,
        )),
        (State::Writing, Event::Written(Ok(_))) => next == State::Closed && action == Action::Close,
        (State::Writing, Event::Written(Err(reason))) => next == State::Closed && (action matches Action::GiveUp(
            Failure::Write(text),
        ) && text@ == reason@),
        _ => next == State::Closed && action == Action::Close,
    }
}

/// A connection that was just accepted: the handshake comes first.
pub fn accepted() -> (start: (State, Action))
    ensures
        start.0 == State::Upgrading,
        start.1 == Action::Upgrade,
{
    (State::Upgrading, Action::Upgrade)
}

/// Takes one step: from the state of a connection and what came of its last
/// action to its next state and its next action.
pub fn step(mode: Mode, state: State, event: Event) -> (out: (State, Action))
    ensures
        is_step(mode, state, event, out.0, out.1),
        steps_left(out.0) < steps_left(state) || (state == State::Closed && out.0 == State::Closed),
        (out.1 is Send) <==> out.0 == State::Writing,
        (out.1 is Close || out.1 is GiveUp) <==> out.0 == State::Closed,
        out.1 matches Action::Inspect(path) ==> !escapes_root(encode_utf8(path@)),
{
    match (state, event) {
        (State::Upgrading, Event::Upgraded(Ok(_))) => (State::Reading, Action::Read(READ_BUFFER_SIZE)),
        (State::Upgrading, Event::Upgraded(Err(reason))) => (
            State::Closed,
            Action::GiveUp(Failure::Handshake(reason)),
        ),
        (State::Reading, Event::Read(read)) => match mode {
            Mode::Echo => (State::Writing, Action::Send(echo_exchange(read))),
            Mode::Files => match receive(read) {
                Step::Reply(response) => (State::Writing, Action::Send(response)),
                Step::ReadRobots => (State::Robots, Action::ReadRobots),
                Step::Inspect(path) => (State::Lookup { path: path.clone() }, Action::Inspect(path)),
            },
        },
        (State::Robots, Event::RobotsRead(read)) => (
            State::Writing,
            Action::Send(robots_response(read)),
        ),
        (State::Lookup { path }, Event::Found { header, footer, found }) => (
            State::Writing,
            Action::Send(respond(path.as_str(), header.as_str(), footer.as_str(), found)),
        ),
        (State::Writing, Event::Written(Ok(_))) => (State::Closed, Action::Close),
        (State::Writing, Event::Written(Err(reason))) => (
            State::Closed,
            Action::GiveUp(Failure::Write(reason)),
        ),
        _ => (State::Closed, Action::Close),
    }
}

/// Every step brings a connection nearer to its close, and a closed
/// connection stays closed; a response is sent exactly on the step into
/// `Writing`, which no connection takes twice; and no path is ever looked up
/// that may lead out of the content root.
pub proof fn lemma_step_is_safe(mode: Mode, state: State, event: Event, next: State, action: Action)
    requires
        is_step(mode, state, event, next, action),
    ensures
        steps_left(next) < steps_left(state) || (state == State::Closed && next == State::Closed),
        (action is Send) <==> next == State::Writing,
        action is Send ==> steps_left(state) >= 2,
        next == State::Writing ==> steps_left(next) < 2,
        (action is Close || action is GiveUp) <==> next == State::Closed,
        action matches Action::Inspect(path) ==> !escapes_root(encode_utf8(path@)),
        action matches Action::Send(r) ==> r.status().is_defined(),
{
}

} // verus!
