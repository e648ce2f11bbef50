use gemini_server::connection::{accepted, step, Action, Event, Failure, Mode, State};
use gemini_server::echo::HELP_TEXT;
use gemini_server::resolver::Found;
use gemini_server::response::Response;

fn read(line: &str) -> Event {
    Event::Read(Ok(line.as_bytes().to_vec()))
}

#[test]
fn connection_starts_with_the_handshake() {
    assert_eq!(accepted(), (State::Upgrading, Action::Upgrade));
    assert_eq!(
        step(Mode::Files, State::Upgrading, Event::Upgraded(Ok(()))),
        (State::Reading, Action::Read(2048))
    );
    assert_eq!(
        step(Mode::Echo, State::Upgrading, Event::Upgraded(Ok(()))),
        (State::Reading, Action::Read(2048))
    );
}

#[test]
fn failed_handshake_ends_the_connection_without_a_response() {
    assert_eq!(
        step(Mode::Files, State::Upgrading, Event::Upgraded(Err("bad record".to_string()))),
        (State::Closed, Action::GiveUp(Failure::Handshake("bad record".to_string())))
    );
}

#[test]
fn file_request_runs_to_its_close() {
    let (state, action) = step(Mode::Files, State::Reading, read("gemini://h/docs/a.txt\r\n"));
    assert_eq!(state, State::Lookup { path: "docs/a.txt".to_string() });
    assert_eq!(action, Action::Inspect("docs/a.txt".to_string()));
    let found = Event::Found {
        header: "h".to_string(),
        footer: "f".to_string(),
        found: Found::File(Ok(b"hello".to_vec())),
    };
    let (state, action) = step(Mode::Files, state, found);
    assert_eq!(state, State::Writing);
    assert_eq!(action, Action::Send(Response::Success("text/plain".to_string(), b"hello".to_vec())));
    let (state, action) = step(Mode::Files, state, Event::Written(Ok(())));
    assert_eq!((state, action), (State::Closed, Action::Close));
}

#[test]
fn directory_request_is_listed() {
    let (state, action) = step(Mode::Files, State::Reading, read("gemini://h/"));
    assert_eq!(action, Action::Inspect(".".to_string()));
    let found = Event::Found {
        header: "# All\n".to_string(),
        footer: String::new(),
        found: Found::Directory(Ok(vec!["./a.gmi".to_string(), "./.hidden".to_string(), "./sub".to_string()])),
    };
    let (state, action) = step(Mode::Files, state, found);
    assert_eq!(state, State::Writing);
    assert_eq!(
        action,
        Action::Send(Response::Success(
            "text/gemini".to_string(),
            b"# All\n\n### Path: [ . ]\n=> ./sub sub\n=> ./a.gmi a.gmi\n\n".to_vec()
        ))
    );
}

#[test]
fn robots_request_reads_the_robots_file() {
    let (state, action) = step(Mode::Files, State::Reading, read("gemini://h/robots.txt"));
    assert_eq!((state.clone(), action), (State::Robots, Action::ReadRobots));
    assert_eq!(
        step(Mode::Files, state.clone(), Event::RobotsRead(None)),
        (State::Writing, Action::Send(Response::Success("text/plain".to_string(), Vec::new())))
    );
    assert_eq!(
        step(Mode::Files, state, Event::RobotsRead(Some(b"Disallow: /\n".to_vec()))),
        (
            State::Writing,
            Action::Send(Response::Success("text/plain".to_string(), b"Disallow: /\n".to_vec()))
        )
    );
}

#[test]
fn refused_request_is_answered_at_once() {
    let (state, action) = step(Mode::Files, State::Reading, Event::Read(Ok(vec![b'x'; 1025])));
    assert_eq!(state, State::Writing);
    assert_eq!(action, Action::Send(Response::BadRequest("request exceeds 1024 bytes".to_string())));
    let (state, action) = step(Mode::Files, State::Reading, Event::Read(Err("reset".to_string())));
    assert_eq!(state, State::Writing);
    assert_eq!(action, Action::Send(Response::BadRequest("Failed to get url : reset ".to_string())));
    let (state, action) = step(Mode::Files, State::Reading, read("gemini://h/..%2f..%2fetc%2fpasswd"));
    assert_eq!(state, State::Writing);
    assert_eq!(action, Action::Send(Response::NotFound("Not found".to_string())));
}

#[test]
fn echo_mode_answers_without_a_lookup() {
    assert_eq!(
        step(Mode::Echo, State::Reading, read("gemini://h/echo?hello%20world")),
        (
            State::Writing,
            Action::Send(Response::Success("text/plain".to_string(), b"hello world\r\n".to_vec()))
        )
    );
    assert_eq!(
        step(Mode::Echo, State::Reading, read("gemini://h/echo")),
        (State::Writing, Action::Send(Response::Input("Please enter some text".to_string())))
    );
    assert_eq!(
        step(Mode::Echo, State::Reading, read("gemini://h/robots.txt")),
        (
            State::Writing,
            Action::Send(Response::Success("text/gemini".to_string(), HELP_TEXT.as_bytes().to_vec()))
        )
    );
}

#[test]
fn failed_write_ends_the_connection() {
    assert_eq!(
        step(Mode::Files, State::Writing, Event::Written(Err("broken pipe".to_string()))),
        (State::Closed, Action::GiveUp(Failure::Write("broken pipe".to_string())))
    );
}

#[test]
fn unexpected_event_closes_the_connection() {
    assert_eq!(step(Mode::Files, State::Upgrading, read("gemini://h/")), (State::Closed, Action::Close));
    assert_eq!(
        step(Mode::Files, State::Reading, Event::Written(Ok(()))),
        (State::Closed, Action::Close)
    );
    assert_eq!(
        step(Mode::Echo, State::Writing, Event::RobotsRead(None)),
        (State::Closed, Action::Close)
    );
    assert_eq!(
        step(Mode::Files, State::Lookup { path: "a".to_string() }, Event::Upgraded(Ok(()))),
        (State::Closed, Action::Close)
    );
    assert_eq!(
        step(Mode::Files, State::Closed, read("gemini://h/")),
        (State::Closed, Action::Close)
    );
}
