//! The launcher's side of the exchange with the worker, as a state machine.
//!
//! The launcher does one thing at a time and waits for it to end. Each
//! [`Action`] is a piece of work on the outside (a file, a process, the
//! connection); each [`Event`] tells how it went. [`Launcher::step`] decides
//! what comes next.

use vstd::prelude::*;
use vstd::string::*;
use crate::launcher::{
    fallback_exit_code,
    fallback_command,
    on_search_path,
    fallback_invocation,
    worker_invocation,
    worker_start,
    Invocation,
    InvocationView,
};
use crate::paths::{cache_dir, cache_dir_of, Session};
use crate::project_root::path_exists;
use crate::relay::{exit_with_status, missing_status_message, outcome_of, Outcome};
use crate::request::{
    forwarded,
    forwarded_args,
    frame,
    parse_port,
    payload_source,
    port_of,
    request_frame,
    stdin_content,
    wants_stdin,
    PayloadSource,
};

verus! {

/// Why the launcher gives up.
#[derive(Clone, Copy, PartialEq, Eq, Structural, Debug)]
pub enum Failure {
    /// The home directory is not known.
    Home,
    /// The cache directory could not be created.
    CacheDir,
    /// The lock could not be acquired.
    Lock,
    /// The worker could not be started, or its start failed.
    Spawn,
    /// The token or the port file could not be read.
    Session,
    /// The port file does not hold a port number.
    Port,
    /// The worker did not accept the connection.
    Connect,
    /// The launcher's input stream could not be read.
    Input,
    /// The request could not be sent.
    Send,
    /// The response could not be passed on.
    Relay,
    /// An event arrived that does not answer the action in progress.
    Unexpected,
}

/// What is said of a failure on the error stream.
pub open spec fn failure_text(failure: Failure) -> Seq<char> {
    match failure {
        Failure::Home => "HOME env var"@,
        Failure::CacheDir => "failed to create the cache directory"@,
        Failure::Lock => "failed to lock running.lock"@,
        Failure::Spawn => "rubocop failed"@,
        Failure::Session => "failed to read the session files"@,
        Failure::Port => "parsing port file"@,
        Failure::Connect => "failed to connect to the server"@,
        Failure::Input => "failed to read the input stream"@,
        Failure::Send => "failed to send the request"@,
        Failure::Relay => "failed to pass on the response"@,
        Failure::Unexpected => "unexpected event"@,
    }
}

impl Failure {
    /// The message that describes the failure.
    pub fn message(&self) -> (text: String)
        ensures
            text@ == failure_text(*self),
    {
        match self {
            Failure::Home => String::from_str("HOME env var"),
            Failure::CacheDir => String::from_str("failed to create the cache directory"),
            Failure::Lock => String::from_str("failed to lock running.lock"),
            Failure::Spawn => String::from_str("rubocop failed"),
            Failure::Session => String::from_str("failed to read the session files"),
            Failure::Port => String::from_str("parsing port file"),
            Failure::Connect => String::from_str("failed to connect to the server"),
            Failure::Input => String::from_str("failed to read the input stream"),
            Failure::Send => String::from_str("failed to send the request"),
            Failure::Relay => String::from_str("failed to pass on the response"),
            Failure::Unexpected => String::from_str("unexpected event"),
        }
    }
}

/// The action in progress.
#[derive(Clone, Copy, PartialEq, Eq, Structural, Debug)]
pub enum Phase {
    /// Nothing was done yet.
    Start,
    /// Looking for the worker's program.
    Locating,
    /// The plain tool runs in the worker's place.
    Fallback,
    /// Creating the cache directory.
    Preparing,
    /// Waiting for the lock.
    Locking,
    /// Holding the lock; looking for the session's token.
    Probing,
    /// Holding the lock; the worker is starting.
    Spawning,
    /// Giving the lock back after the worker was found or started.
    Unlocking,
    /// Giving the lock back before giving up.
    Aborting(Failure),
    /// Reading the token and the port.
    Reading,
    /// Connecting to the worker.
    Connecting,
    /// Reading the input stream.
    ReadingInput,
    /// Deleting the status left by an earlier request.
    Clearing,
    /// Sending the request.
    Sending,
    /// Passing the response on.
    Relaying,
    /// Reading the status of this request.
    Collecting,
    /// Deleting the status that was read.
    Removing,
    /// The launcher has ended.
    Done,
}

/// How the action in progress ended.
#[derive(PartialEq, Eq, Debug)]
pub enum Event {
    /// The launcher was invoked.
    Started,
    /// Whether the worker's program was found.
    Located(bool),
    /// The plain tool ended, with this exit code if it had one.
    FallbackExited(Option<i32>),
    /// Whether the cache directory is there.
    CacheDirReady(bool),
    /// Whether the lock was acquired.
    LockAcquired(bool),
    /// Whether the session's token file exists.
    TokenProbed(bool),
    /// Whether the worker was started and its start succeeded.
    Spawned(bool),
    /// The lock was given back; whether its file could be removed.
    LockReleased(bool),
    /// What the token and the port file hold, as far as they could be read.
    SessionRead(Option<String>, Option<String>),
    /// Whether the connection stands.
    Connected(bool),
    /// What the input stream held, if it could be read.
    InputRead(Option<String>),
    /// The stale status was dealt with; whether there was one to delete.
    StatusCleared(bool),
    /// Whether the request went out and the sending side was closed.
    Sent(bool),
    /// Whether the response was passed on up to its end.
    Relayed(bool),
    /// What the status file holds, if it is there.
    StatusRead(Option<String>),
    /// The status was dealt with; whether its file could be deleted.
    StatusRemoved(bool),
}

/// What the launcher does next.
#[derive(PartialEq, Eq, Debug)]
pub enum Action {
    /// Look for this program on the search path.
    Locate(String),
    /// Run the plain tool and wait for it.
    RunFallback(Invocation),
    /// Create this directory, and those above it.
    CreateCacheDir(String),
    /// Open this file and wait for an exclusive lock on it.
    AcquireLock(String),
    /// See whether this file exists.
    ProbeToken(String),
    /// Start the worker and wait until the start has ended.
    Spawn(Invocation),
    /// Remove this file and give the lock back.
    ReleaseLock(String),
    /// Read the token file and the port file.
    ReadSession(String, String),
    /// Connect to this port on the local host.
    Connect(u16),
    /// Read the input stream to its end.
    ReadInput,
    /// Delete this file if it is there.
    ClearStatus(String),
    /// Send this text, then close the sending side only.
    SendRequest(String),
    /// Copy what the worker sends to the output, until it closes.
    Relay,
    /// Read this file.
    ReadStatus(String),
    /// Delete this file if it is there.
    RemoveStatus(String),
    /// End with this exit code.
    Exit(i32),
    /// Write this message to the error stream and end with this exit code.
    Report(String, i32),
    /// Give up.
    Fail(Failure),
}

/// An [`Action`] as plain text.
pub enum ActionView {
    Locate(Seq<char>),
    RunFallback(InvocationView),
    CreateCacheDir(Seq<char>),
    AcquireLock(Seq<char>),
    ProbeToken(Seq<char>),
    Spawn(InvocationView),
    ReleaseLock(Seq<char>),
    ReadSession(Seq<char>, Seq<char>),
    Connect(u16),
    ReadInput,
    ClearStatus(Seq<char>),
    SendRequest(Seq<char>),
    Relay,
    ReadStatus(Seq<char>),
    RemoveStatus(Seq<char>),
    Exit(i32),
    Report(Seq<char>, i32),
    Fail(Failure),
}

impl View for Action {
    type V = ActionView;

    open spec fn view(&self) -> ActionView {
        match *self {
            Action::Locate(p) => ActionView::Locate(p@),
            Action::RunFallback(i) => ActionView::RunFallback(i@),
            Action::CreateCacheDir(p) => ActionView::CreateCacheDir(p@),
            Action::AcquireLock(p) => ActionView::AcquireLock(p@),
            Action::ProbeToken(p) => ActionView::ProbeToken(p@),
            Action::Spawn(i) => ActionView::Spawn(i@),
            Action::ReleaseLock(p) => ActionView::ReleaseLock(p@),
            Action::ReadSession(t, p) => ActionView::ReadSession(t@, p@),
            Action::Connect(port) => ActionView::Connect(port),
            Action::ReadInput => ActionView::ReadInput,
            Action::ClearStatus(p) => ActionView::ClearStatus(p@),
            Action::SendRequest(f) => ActionView::SendRequest(f@),
            Action::Relay => ActionView::Relay,
            Action::ReadStatus(p) => ActionView::ReadStatus(p@),
            Action::RemoveStatus(p) => ActionView::RemoveStatus(p@),
            Action::Exit(code) => ActionView::Exit(code),
            Action::Report(m, code) => ActionView::Report(m@, code),
            Action::Fail(f) => ActionView::Fail(f),
        }
    }
}

/// One run of the launcher: what it was invoked with, how far it has come,
/// and what it has learned on the way.
pub struct Launcher {
    /// Whether the home directory is known; the session lies below it.
    pub home_known: bool,
    /// The files of the project's session.
    pub session: Session,
    /// The project root.
    pub root: String,
    /// The names of the variables set in the environment.
    pub env_keys: Vec<String>,
    /// The command line, the launcher's own name first.
    pub args: Vec<String>,
    /// The payload that the environment supplies, if it does.
    pub stdin_override: Option<String>,
    /// The action in progress.
    pub phase: Phase,
    /// The session's token, once read.
    pub token: String,
    /// The payload of the request, once known.
    pub payload: String,
    /// The exit status that the worker reported, once read.
    pub code: i32,
}

/// The text of an optional string.
pub open spec fn text_of(s: Option<String>) -> Option<Seq<char>> {
    match s {
        Some(t) => Some(t@),
        None => None,
    }
}

impl Launcher {
    /// The launcher reads its input stream for the payload: no override is
    /// set, and the forwarded arguments ask for it.
    pub open spec fn reads_input(self) -> bool {
        self.stdin_override is None && wants_stdin(forwarded(self.args.deep_view()))
    }

    /// The phase that follows `self.phase` on `event`.
    pub open spec fn next_phase(self, event: Event) -> Phase {
        match self.phase {
            Phase::Start => match event {
                Event::Started => Phase::Locating,
                _ => Phase::Done,
            },
            Phase::Locating => match event {
                Event::Located(true) => if self.home_known {
                    Phase::Preparing
                } else {
                    Phase::Done
                },
                Event::Located(false) => Phase::Fallback,
                _ => Phase::Done,
            },
            Phase::Fallback => Phase::Done,
            Phase::Preparing => match event {
                Event::CacheDirReady(true) => Phase::Locking,
                _ => Phase::Done,
            },
            Phase::Locking => match event {
                Event::LockAcquired(true) => Phase::Probing,
                _ => Phase::Done,
            },
            Phase::Probing => match event {
                Event::TokenProbed(true) => Phase::Unlocking,
                Event::TokenProbed(false) => Phase::Spawning,
                _ => Phase::Aborting(Failure::Unexpected),
            },
            Phase::Spawning => match event {
                Event::Spawned(true) => Phase::Unlocking,
                Event::Spawned(false) => Phase::Aborting(Failure::Spawn),
                _ => Phase::Aborting(Failure::Unexpected),
            },
            Phase::Unlocking => match event {
                Event::LockReleased(_) => Phase::Reading,
                _ => Phase::Done,
            },
            Phase::Aborting(_) => Phase::Done,
            Phase::Reading => match event {
                Event::SessionRead(Some(_), Some(port)) => if port_of(port@) is Some {
                    Phase::Connecting
                } else {
                    Phase::Done
                },
                _ => Phase::Done,
            },
            Phase::Connecting => match event {
                Event::Connected(true) => if self.reads_input() {
                    Phase::ReadingInput
                } else {
                    Phase::Clearing
                },
                _ => Phase::Done,
            },
            Phase::ReadingInput => match event {
                Event::InputRead(Some(_)) => Phase::Clearing,
                _ => Phase::Done,
            },
            Phase::Clearing => match event {
                Event::StatusCleared(_) => Phase::Sending,
                _ => Phase::Done,
            },
            Phase::Sending => match event {
                Event::Sent(true) => Phase::Relaying,
                _ => Phase::Done,
            },
            Phase::Relaying => match event {
                Event::Relayed(true) => Phase::Collecting,
                _ => Phase::Done,
            },
            Phase::Collecting => match event {
                Event::StatusRead(content) => if outcome_of(text_of(content)) is Reported {
                    Phase::Removing
                } else {
                    Phase::Done
                },
                _ => Phase::Done,
            },
            Phase::Removing => Phase::Done,
            Phase::Done => Phase::Done,
        }
    }

    /// The token known after `event`.
    pub open spec fn next_token(self, event: Event) -> Seq<char> {
        match (self.phase, event) {
            (Phase::Reading, Event::SessionRead(Some(token), Some(_))) => token@,
            _ => self.token@,
        }
    }

    /// The payload known after `event`.
    pub open spec fn next_payload(self, event: Event) -> Seq<char> {
        match (self.phase, event) {
            (Phase::Connecting, Event::Connected(true)) => match self.stdin_override {
                Some(content) => content@,
                None => if self.reads_input() {
                    self.payload@
                } else {
                    Seq::empty()
                },
            },
            (Phase::ReadingInput, Event::InputRead(Some(input))) => input@,
            _ => self.payload@,
        }
    }

    /// The exit status known after `event`.
    pub open spec fn next_code(self, event: Event) -> i32 {
        match (self.phase, event) {
            (Phase::Collecting, Event::StatusRead(content)) => match outcome_of(text_of(content)) {
                Outcome::Reported(code) => code,
                Outcome::Unreported => self.code,
            },
            _ => self.code,
        }
    }

    /// The action that answers `event` in `self.phase`.
    pub open spec fn next_action(self, event: Event) -> ActionView {
        match self.phase {
            Phase::Start => match event {
                Event::Started => ActionView::Locate("rubocop-daemon"@),
                _ => ActionView::Fail(Failure::Unexpected),
            },
            Phase::Locating => match event {
                Event::Located(true) => if self.home_known {
                    ActionView::CreateCacheDir(self.session.cache_dir@)
                } else {
                    ActionView::Fail(Failure::Home)
                },
                Event::Located(false) => ActionView::RunFallback(
                    fallback_invocation(self.env_keys.deep_view(), self.args.deep_view()),
                ),
                _ => ActionView::Fail(Failure::Unexpected),
            },
            Phase::Fallback => match event {
                Event::FallbackExited(Some(code)) => ActionView::Exit(code),
                Event::FallbackExited(None) => ActionView::Exit(0),
                _ => ActionView::Fail(Failure::Unexpected),
            },
            Phase::Preparing => match event {
                Event::CacheDirReady(true) => ActionView::AcquireLock(self.session.lock@),
                Event::CacheDirReady(false) => ActionView::Fail(Failure::CacheDir),
                _ => ActionView::Fail(Failure::Unexpected),
            },
            Phase::Locking => match event {
                Event::LockAcquired(true) => ActionView::ProbeToken(self.session.token@),
                Event::LockAcquired(false) => ActionView::Fail(Failure::Lock),
                _ => ActionView::Fail(Failure::Unexpected),
            },
            Phase::Probing => match event {
                Event::TokenProbed(false) => ActionView::Spawn(
                    worker_invocation(self.env_keys.deep_view(), self.session),
                ),
                _ => ActionView::ReleaseLock(self.session.lock@),
            },
            Phase::Spawning => ActionView::ReleaseLock(self.session.lock@),
            Phase::Unlocking => match event {
                Event::LockReleased(_) => ActionView::ReadSession(
                    self.session.token@,
                    self.session.port@,
                ),
                _ => ActionView::Fail(Failure::Unexpected),
            },
            Phase::Aborting(failure) => ActionView::Fail(failure),
            Phase::Reading => match event {
                Event::SessionRead(Some(_), Some(port)) => match port_of(port@) {
                    Some(number) => ActionView::Connect(number),
                    None => ActionView::Fail(Failure::Port),
                },
                Event::SessionRead(_, _) => ActionView::Fail(Failure::Session),
                _ => ActionView::Fail(Failure::Unexpected),
            },
            Phase::Connecting => match event {
                Event::Connected(true) => if self.reads_input() {
                    ActionView::ReadInput
                } else {
                    ActionView::ClearStatus(self.session.status@)
                },
                Event::Connected(false) => ActionView::Fail(Failure::Connect),
                _ => ActionView::Fail(Failure::Unexpected),
            },
            Phase::ReadingInput => match event {
                Event::InputRead(Some(_)) => ActionView::ClearStatus(self.session.status@),
                Event::InputRead(None) => ActionView::Fail(Failure::Input),
                _ => ActionView::Fail(Failure::Unexpected),
            },
            Phase::Clearing => match event {
                Event::StatusCleared(_) => ActionView::SendRequest(
                    frame(
                        self.token@,
                        self.root@,
                        forwarded(self.args.deep_view()),
                        self.payload@,
                    ),
                ),
                _ => ActionView::Fail(Failure::Unexpected),
            },
            Phase::Sending => match event {
                Event::Sent(true) => ActionView::Relay,
                Event::Sent(false) => ActionView::Fail(Failure::Send),
                _ => ActionView::Fail(Failure::Unexpected),
            },
            Phase::Relaying => match event {
                Event::Relayed(true) => ActionView::ReadStatus(self.session.status@),
                Event::Relayed(false) => ActionView::Fail(Failure::Relay),
                _ => ActionView::Fail(Failure::Unexpected),
            },
            Phase::Collecting => match event {
                Event::StatusRead(content) => match outcome_of(text_of(content)) {
                    Outcome::Reported(_) => ActionView::RemoveStatus(self.session.status@),
                    Outcome::Unreported => ActionView::Report(missing_status_message(), 1),
                },
                _ => ActionView::Fail(Failure::Unexpected),
            },
            Phase::Removing => match event {
                Event::StatusRemoved(_) => ActionView::Exit(self.code),
                _ => ActionView::Fail(Failure::Unexpected),
            },
            Phase::Done => ActionView::Fail(Failure::Unexpected),
        }
    }

    /// `self` is `before` after `event`: the phase has moved on, what the
    /// event taught is remembered, and the rest is as it was.
    pub open spec fn follows(self, before: Launcher, event: Event) -> bool {
        &&& self.home_known == before.home_known
        &&& self.session == before.session
        &&& self.root == before.root
        &&& self.env_keys == before.env_keys
        &&& self.args == before.args
        &&& self.stdin_override == before.stdin_override
        &&& self.phase == before.next_phase(event)
        &&& self.token@ == before.next_token(event)
        &&& self.payload@ == before.next_payload(event)
        &&& self.code == before.next_code(event)
    }

    /// A launcher that has done nothing yet, for the project at `root` and
    /// the user whose home directory is `home`, where that is known.
    pub fn new(
        home: Option<&str>,
        root: String,
        env_keys: Vec<String>,
        args: Vec<String>,
        stdin_override: Option<String>,
    ) -> (l: Launcher)
        ensures
            l.home_known == home is Some,
            l.session.is_session_of(
                match home {
                    Some(h) => cache_dir_of(h@),
                    None => Seq::empty(),
                },
                root@,
            ),
            l.root == root,
            l.env_keys == env_keys,
            l.args == args,
            l.stdin_override == stdin_override,
            l.phase == Phase::Start,
            l.token@ == Seq::<char>::empty(),
            l.payload@ == Seq::<char>::empty(),
            l.code == 0,
    {
        let (home_known, cache) = match home {
            Some(h) => (true, cache_dir(h)),
            None => (false, String::new()),
        };
        let session = Session::new(cache.as_str(), root.as_str());
        Launcher {
            home_known,
            session,
            root,
            env_keys,
            args,
            stdin_override,
            phase: Phase::Start,
            token: String::new(),
            payload: String::new(),
            code: 0,
        }
    }

    /// Takes in how the action in progress ended, and decides on the next.
    ///
    /// Every event is answered: one that does not fit the action in
    /// progress ends the run.
    pub fn step(&mut self, event: Event) -> (action: Action)
        ensures
            final(self).follows(*old(self), event),
            action@ == old(self).next_action(event),
    {
        match self.phase {
            Phase::Start => match event {
                Event::Started => {
                    self.phase = Phase::Locating;
                    Action::Locate(String::from_str("rubocop-daemon"))
                },
                _ => {
                    self.phase = Phase::Done;
                    Action::Fail(Failure::Unexpected)
                },
            },
            Phase::Locating => match event {
                Event::Located(found) => {
                    match fallback_command(found, &self.env_keys, &self.args) {
                        Some(invocation) => {
                            self.phase = Phase::Fallback;
                            Action::RunFallback(invocation)
                        },
                        None => {
                            if self.home_known {
                                self.phase = Phase::Preparing;
                                Action::CreateCacheDir(self.session.cache_dir.clone())
                            } else {
                                self.phase = Phase::Done;
                                Action::Fail(Failure::Home)
                            }
                        },
                    }
                },
                _ => {
                    self.phase = Phase::Done;
                    Action::Fail(Failure::Unexpected)
                },
            },
            Phase::Fallback => {
                self.phase = Phase::Done;
                match event {
                    Event::FallbackExited(code) => Action::Exit(fallback_exit_code(code)),
                    _ => Action::Fail(Failure::Unexpected),
                }
            },
            Phase::Preparing => match event {
                Event::CacheDirReady(ready) => {
                    if ready {
                        self.phase = Phase::Locking;
                        Action::AcquireLock(self.session.lock.clone())
                    } else {
                        self.phase = Phase::Done;
                        Action::Fail(Failure::CacheDir)
                    }
                },
                _ => {
                    self.phase = Phase::Done;
                    Action::Fail(Failure::Unexpected)
                },
            },
            Phase::Locking => match event {
                Event::LockAcquired(locked) => {
                    if locked {
                        self.phase = Phase::Probing;
                        Action::ProbeToken(self.session.token.clone())
                    } else {
                        self.phase = Phase::Done;
                        Action::Fail(Failure::Lock)
                    }
                },
                _ => {
                    self.phase = Phase::Done;
                    Action::Fail(Failure::Unexpected)
                },
            },
            Phase::Probing => match event {
                Event::TokenProbed(present) => {
                    match worker_start(present, &self.session, &self.env_keys) {
                        Some(invocation) => {
                            self.phase = Phase::Spawning;
                            Action::Spawn(invocation)
                        },
                        None => {
                            self.phase = Phase::Unlocking;
                            Action::ReleaseLock(self.session.lock.clone())
                        },
                    }
                },
                _ => {
                    self.phase = Phase::Aborting(Failure::Unexpected);
                    Action::ReleaseLock(self.session.lock.clone())
                },
            },
            Phase::Spawning => {
                match event {
                    Event::Spawned(started) => {
                        if started {
                            self.phase = Phase::Unlocking;
                        } else {
                            self.phase = Phase::Aborting(Failure::Spawn);
                        }
                    },
                    _ => {
                        self.phase = Phase::Aborting(Failure::Unexpected);
                    },
                }
                Action::ReleaseLock(self.session.lock.clone())
            },
            Phase::Unlocking => match event {
                Event::LockReleased(_) => {
                    self.phase = Phase::Reading;
                    Action::ReadSession(self.session.token.clone(), self.session.port.clone())
                },
                _ => {
                    self.phase = Phase::Done;
                    Action::Fail(Failure::Unexpected)
                },
            },
            Phase::Aborting(failure) => {
                self.phase = Phase::Done;
                Action::Fail(failure)
            },
            Phase::Reading => match event {
                Event::SessionRead(Some(token), Some(port)) => {
                    self.token = token;
                    match parse_port(port.as_str()) {
                        Some(number) => {
                            self.phase = Phase::Connecting;
                            Action::Connect(number)
                        },
                        None => {
                            self.phase = Phase::Done;
                            Action::Fail(Failure::Port)
                        },
                    }
                },
                Event::SessionRead(_, _) => {
                    self.phase = Phase::Done;
                    Action::Fail(Failure::Session)
                },
                _ => {
                    self.phase = Phase::Done;
                    Action::Fail(Failure::Unexpected)
                },
            },
            Phase::Connecting => match event {
                Event::Connected(connected) => {
                    if connected {
                        let argv = forwarded_args(&self.args);
                        let source = match &self.stdin_override {
                            Some(content) => payload_source(Some(content.as_str()), &argv),
                            None => payload_source(None, &argv),
                        };
                        if source.reads_input() {
                            self.phase = Phase::ReadingInput;
                            Action::ReadInput
                        } else {
                            self.payload = stdin_content(source, String::new());
                            self.phase = Phase::Clearing;
                            Action::ClearStatus(self.session.status.clone())
                        }
                    } else {
                        self.phase = Phase::Done;
                        Action::Fail(Failure::Connect)
                    }
                },
                _ => {
                    self.phase = Phase::Done;
                    Action::Fail(Failure::Unexpected)
                },
            },
            Phase::ReadingInput => match event {
                Event::InputRead(Some(input)) => {
                    self.payload = stdin_content(PayloadSource::InputStream, input);
                    self.phase = Phase::Clearing;
                    Action::ClearStatus(self.session.status.clone())
                },
                Event::InputRead(None) => {
                    self.phase = Phase::Done;
                    Action::Fail(Failure::Input)
                },
                _ => {
                    self.phase = Phase::Done;
                    Action::Fail(Failure::Unexpected)
                },
            },
            Phase::Clearing => match event {
                Event::StatusCleared(_) => {
                    let argv = forwarded_args(&self.args);
                    self.phase = Phase::Sending;
                    Action::SendRequest(
                        request_frame(
                            self.token.as_str(),
                            self.root.as_str(),
                            &argv,
                            self.payload.as_str(),
                        ),
                    )
                },
                _ => {
                    self.phase = Phase::Done;
                    Action::Fail(Failure::Unexpected)
                },
            },
            Phase::Sending => match event {
                Event::Sent(sent) => {
                    if sent {
                        self.phase = Phase::Relaying;
                        Action::Relay
                    } else {
                        self.phase = Phase::Done;
                        Action::Fail(Failure::Send)
                    }
                },
                _ => {
                    self.phase = Phase::Done;
                    Action::Fail(Failure::Unexpected)
                },
            },
            Phase::Relaying => match event {
                Event::Relayed(relayed) => {
                    if relayed {
                        self.phase = Phase::Collecting;
                        Action::ReadStatus(self.session.status.clone())
                    } else {
                        self.phase = Phase::Done;
                        Action::Fail(Failure::Relay)
                    }
                },
                _ => {
                    self.phase = Phase::Done;
                    Action::Fail(Failure::Unexpected)
                },
            },
            Phase::Collecting => match event {
                Event::StatusRead(content) => {
                    let outcome = match &content {
                        Some(text) => exit_with_status(Some(text.as_str())),
                        None => exit_with_status(None),
                    };
                    match outcome.diagnostic() {
                        Some(message) => {
                            self.phase = Phase::Done;
                            Action::Report(message, outcome.exit_code())
                        },
                        None => {
                            self.code = outcome.exit_code();
                            self.phase = Phase::Removing;
                            Action::RemoveStatus(self.session.status.clone())
                        },
                    }
                },
                _ => {
                    self.phase = Phase::Done;
                    Action::Fail(Failure::Unexpected)
                },
            },
            Phase::Removing => {
                self.phase = Phase::Done;
                match event {
                    Event::StatusRemoved(_) => Action::Exit(self.code),
                    _ => Action::Fail(Failure::Unexpected),
                }
            },
            Phase::Done => Action::Fail(Failure::Unexpected),
        }
    }
}

/// Carries out `action` where it only looks at the machine: whether a
/// program is on the search path, whether the token file exists.
///
/// What is found is for the machine to say. Every other action is left to
/// the caller.
pub fn probe(action: &Action) -> (event: Option<Event>)
    ensures
        match *action {
            Action::Locate(_) => event matches Some(Event::Located(_)),
            Action::ProbeToken(_) => event matches Some(Event::TokenProbed(_)),
            _ => event is None,
        },
{
    match action {
        Action::Locate(program) => Some(Event::Located(on_search_path(program.as_str()))),
        Action::ProbeToken(token) => Some(Event::TokenProbed(path_exists(token.as_str()))),
        _ => None,
    }
}

/// The launcher holds the lock: it was acquired, and giving it back has not
/// begun.
pub open spec fn holds_lock(phase: Phase) -> bool {
    phase is Probing || phase is Spawning
}

/// The action ends the run.
pub open spec fn is_final(action: ActionView) -> bool {
    action is Exit || action is Report || action is Fail
}

/// The lock is only ever taken by acquiring it: a phase that holds it
/// follows one that holds it already, or the successful wait for it.
pub proof fn lemma_lock_is_acquired(l: Launcher, event: Event)
    requires
        holds_lock(l.next_phase(event)),
    ensures
        holds_lock(l.phase) || (l.phase is Locking && event == Event::LockAcquired(true)),
{
}

/// While the lock is held, the worker is started or the lock is given back,
/// and nothing else: no request is sent and the run does not end. Whenever
/// the launcher stops holding the lock, the action is to give it back.
pub proof fn lemma_lock_is_released(l: Launcher, event: Event)
    requires
        holds_lock(l.phase),
    ensures
        l.next_action(event) is Spawn || l.next_action(event) == ActionView::ReleaseLock(
            l.session.lock@,
        ),
        !is_final(l.next_action(event)),
        !holds_lock(l.next_phase(event)) ==> l.next_action(event) == ActionView::ReleaseLock(
            l.session.lock@,
        ),
        l.next_action(event) is Spawn ==> holds_lock(l.next_phase(event)),
{
}

/// The worker is started only after its token was looked for and not found:
/// where the token is there, the lock is given back at once and the session
/// is read.
pub proof fn lemma_spawn_only_without_token(l: Launcher, event: Event)
    ensures
        l.next_action(event) is Spawn <==> (l.phase is Probing && event == Event::TokenProbed(
            false,
        )),
        l.phase is Probing && event == Event::TokenProbed(true) ==> l.next_phase(event)
            is Unlocking,
{
}

/// Deleting is best effort: whether the stale status, the consumed status or
/// the lock file could be removed changes nothing in what follows.
pub proof fn lemma_deletions_are_best_effort(l: Launcher, a: bool, b: bool)
    ensures
        l.next_action(Event::StatusCleared(a)) == l.next_action(Event::StatusCleared(b)),
        l.next_phase(Event::StatusCleared(a)) == l.next_phase(Event::StatusCleared(b)),
        l.next_action(Event::StatusRemoved(a)) == l.next_action(Event::StatusRemoved(b)),
        l.next_phase(Event::StatusRemoved(a)) == l.next_phase(Event::StatusRemoved(b)),
        l.next_action(Event::LockReleased(a)) == l.next_action(Event::LockReleased(b)),
        l.next_phase(Event::LockReleased(a)) == l.next_phase(Event::LockReleased(b)),
{
}

/// The worker's status comes back unchanged: once it is read, the run ends
/// with exactly that exit code, after the status file was dealt with.
pub proof fn lemma_status_round_trip(l: Launcher, after: Launcher, content: String, removed: bool)
    requires
        l.phase is Collecting,
        after.follows(l, Event::StatusRead(Some(content))),
    ensures
        match crate::relay::status_of(content@) {
            Some(code) => {
                &&& l.next_action(Event::StatusRead(Some(content))) == ActionView::RemoveStatus(
                    l.session.status@,
                )
                &&& after.next_action(Event::StatusRemoved(removed)) == ActionView::Exit(code)
            },
            None => l.next_action(Event::StatusRead(Some(content))) == ActionView::Report(
                missing_status_message(),
                1,
            ),
        },
{
}

/// A run that ends without a status ends with the diagnostic and with exit
/// code 1: the worker's response has no part in it.
pub proof fn lemma_missing_status_is_reported(l: Launcher)
    requires
        l.phase is Collecting,
    ensures
        l.next_action(Event::StatusRead(None)) == ActionView::Report(missing_status_message(), 1),
        l.next_phase(Event::StatusRead(None)) is Done,
{
}

} // verus!
