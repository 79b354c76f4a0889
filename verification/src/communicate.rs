//! A whole conversation with a child process, from its pipes to its output.

use crate::client::{Answer, ClientState, Io, Reply, Step, Stream, SubprocessClient};
use vstd::prelude::*;

verus! {

/// What a registered pipe is watched for.
#[derive(Clone, Copy, Debug, PartialEq, Eq)]
pub enum Interest {
    Readable,
    Writable,
}

/// Why a conversation could not begin.
#[derive(Clone, Copy, Debug, PartialEq, Eq)]
pub enum SetupError {
    /// The pipe could not be made non-blocking.
    Pipe(Stream),
    /// The poll could not be created.
    Poll,
    /// The pipe could not be registered with the poll.
    Register(Stream),
}

/// What is to be done next.
#[derive(Debug, PartialEq, Eq)]
pub enum Action {
    /// Take this pipe from the child, if it has one, and make it non-blocking.
    Adopt(Stream),
    /// Create a poll.
    CreatePoll,
    /// Register a pipe with the poll, level-triggered, under this token.
    Register { stream: Stream, token: usize, interest: Interest },
    /// Wait until the poll has events.
    Poll,
    /// Hand over the token of the next event of the poll, if there is one.
    NextEvent,
    /// Do this with a pipe.
    Io(Io),
    /// Nothing more: return what was kept of standard output and of standard
    /// error, and whether the conversation could begin.
    Finish { stdout: Vec<u8>, stderr: Vec<u8>, result: Result<(), SetupError> },
}

/// What an [`Action`] stands for.
#[verifier::ext_equal]
pub enum Directive {
    Adopt(Stream),
    CreatePoll,
    Register { stream: Stream, token: usize, interest: Interest },
    Poll,
    NextEvent,
    Io(Io),
    Finish { stdout: Seq<u8>, stderr: Seq<u8>, result: Result<(), SetupError> },
}

impl View for Action {
    type V = Directive;

    open spec fn view(&self) -> Directive {
        match *self {
            Action::Adopt(stream) => Directive::Adopt(stream),
            Action::CreatePoll => Directive::CreatePoll,
            Action::Register { stream, token, interest } => Directive::Register {
                stream,
                token,
                interest,
            },
            Action::Poll => Directive::Poll,
            Action::NextEvent => Directive::NextEvent,
            Action::Io(io) => Directive::Io(io),
            Action::Finish { stdout, stderr, result } => Directive::Finish {
                stdout: stdout@,
                stderr: stderr@,
                result,
            },
        }
    }
}

/// What came of an [`Action`].
#[derive(Clone, Copy, Debug, PartialEq, Eq)]
pub enum Event<'a> {
    /// The pipe was taken; `false` where the child has none.
    Adopted(bool),
    /// The poll was created, the pipe was registered, or the poll has events.
    Succeeded,
    /// The pipe, the poll or the registration failed.
    Failed,
    /// The next event of the poll has this token.
    Ready(usize),
    /// The poll has no further event.
    BatchEnd,
    /// This came of an [`Io`].
    Reply(Reply<'a>),
}

/// What an [`Event`] stands for.
#[verifier::ext_equal]
pub enum Occurrence {
    Adopted(bool),
    Succeeded,
    Failed,
    Ready(usize),
    BatchEnd,
    Reply(Answer),
}

impl<'a> View for Event<'a> {
    type V = Occurrence;

    open spec fn view(&self) -> Occurrence {
        match *self {
            Event::Adopted(present) => Occurrence::Adopted(present),
            Event::Succeeded => Occurrence::Succeeded,
            Event::Failed => Occurrence::Failed,
            Event::Ready(token) => Occurrence::Ready(token),
            Event::BatchEnd => Occurrence::BatchEnd,
            Event::Reply(reply) => Occurrence::Reply(reply@),
        }
    }
}

/// What the caller of a conversation asks for.
#[derive(Clone, Copy, Debug)]
pub struct Request<'a> {
    input: &'a [u8],
    stdout_bound: Option<usize>,
    stderr_bound: Option<usize>,
    return_on_stdout_fill: bool,
}

/// What a [`Request`] stands for.
#[verifier::ext_equal]
pub struct Terms {
    /// What the child is to be sent.
    pub input: Seq<u8>,
    /// How much of standard output is kept at most.
    pub stdout_bound: Option<usize>,
    /// How much of standard error is kept at most.
    pub stderr_bound: Option<usize>,
    /// Whether standard error is given up once standard output reaches its bound.
    pub return_on_stdout_fill: bool,
}

impl<'a> View for Request<'a> {
    type V = Terms;

    closed spec fn view(&self) -> Terms {
        Terms {
            input: self.input@,
            stdout_bound: self.stdout_bound,
            stderr_bound: self.stderr_bound,
            return_on_stdout_fill: self.return_on_stdout_fill,
        }
    }
}

/// A conversation, by the action whose outcome it waits for.
#[derive(Debug)]
pub enum Communication<'a> {
    /// Standard input is being taken.
    AdoptStdin(Request<'a>),
    /// Standard output is being taken; the flag says whether there is a standard input.
    AdoptStdout(Request<'a>, bool),
    /// Standard error is being taken; the flags are for standard input and output.
    AdoptStderr(Request<'a>, bool, bool),
    /// The poll is being created.
    CreatePoll(SubprocessClient),
    /// This pipe is being registered.
    Register(SubprocessClient, Stream),
    /// The poll is waited for.
    Poll(SubprocessClient),
    /// The events of the poll are gone through.
    Dispatch(SubprocessClient),
    /// An event is being handled.
    Handle(SubprocessClient),
    /// The conversation is over.
    Finished,
}

/// What a [`Communication`] stands for.
#[verifier::ext_equal]
pub enum Stage {
    AdoptStdin(Terms),
    AdoptStdout(Terms, bool),
    AdoptStderr(Terms, bool, bool),
    CreatePoll(ClientState),
    Register(ClientState, Stream),
    Poll(ClientState),
    Dispatch(ClientState),
    Handle(ClientState),
    Finished,
}

impl<'a> View for Communication<'a> {
    type V = Stage;

    open spec fn view(&self) -> Stage {
        match *self {
            Communication::AdoptStdin(request) => Stage::AdoptStdin(request@),
            Communication::AdoptStdout(request, stdin) => Stage::AdoptStdout(request@, stdin),
            Communication::AdoptStderr(request, stdin, stdout) => Stage::AdoptStderr(
                request@,
                stdin,
                stdout,
            ),
            Communication::CreatePoll(client) => Stage::CreatePoll(client@),
            Communication::Register(client, stream) => Stage::Register(client@, stream),
            Communication::Poll(client) => Stage::Poll(client@),
            Communication::Dispatch(client) => Stage::Dispatch(client@),
            Communication::Handle(client) => Stage::Handle(client@),
            Communication::Finished => Stage::Finished,
        }
    }
}

/// The end of a conversation that could not begin: no output, and the error.
pub open spec fn give_up(error: SetupError) -> (Stage, Directive) {
    (
        Stage::Finished,
        Directive::Finish { stdout: Seq::empty(), stderr: Seq::empty(), result: Err(error) },
    )
}

/// The loop of the conversation: wait for events until it is over, then return
/// what was kept.
pub open spec fn next_round(client: ClientState) -> (Stage, Directive) {
    if client.child_shutdown {
        (
            Stage::Finished,
            Directive::Finish {
                stdout: client.stdout.output,
                stderr: client.stderr.output,
                result: Ok(()),
            },
        )
    } else {
        (Stage::Poll(client), Directive::Poll)
    }
}

/// Registers standard input, if there is one, and then enters the loop.
pub open spec fn register_stdin(client: ClientState) -> (Stage, Directive) {
    if client.stdin {
        (
            Stage::Register(client, Stream::Stdin),
            Directive::Register {
                stream: Stream::Stdin,
                token: client.stdin_token,
                interest: Interest::Writable,
            },
        )
    } else {
        next_round(client)
    }
}

/// Registers standard error, if there is one, and then the rest.
pub open spec fn register_stderr(client: ClientState) -> (Stage, Directive) {
    if client.stderr.open {
        (
            Stage::Register(client, Stream::Stderr),
            Directive::Register {
                stream: Stream::Stderr,
                token: client.stderr_token,
                interest: Interest::Readable,
            },
        )
    } else {
        register_stdin(client)
    }
}

/// Registers standard output, if there is one, and then the rest.
pub open spec fn register_stdout(client: ClientState) -> (Stage, Directive) {
    if client.stdout.open {
        (
            Stage::Register(client, Stream::Stdout),
            Directive::Register {
                stream: Stream::Stdout,
                token: client.stdout_token,
                interest: Interest::Readable,
            },
        )
    } else {
        register_stderr(client)
    }
}

/// The conversation once a handler has come to `moved.1`: it waits for the
/// outcome of that, or goes on to the next event.
pub open spec fn handled(moved: (ClientState, Step)) -> (Stage, Directive) {
    match moved.1 {
        Step::Io(io) => (Stage::Handle(moved.0), Directive::Io(io)),
        Step::Done(_) => (Stage::Dispatch(moved.0), Directive::NextEvent),
    }
}

impl Stage {
    /// The state of the client, from the time when all pipes have been taken.
    pub open spec fn client(self) -> Option<ClientState> {
        match self {
            Stage::CreatePoll(client) => Some(client),
            Stage::Register(client, _) => Some(client),
            Stage::Poll(client) => Some(client),
            Stage::Dispatch(client) => Some(client),
            Stage::Handle(client) => Some(client),
            _ => None,
        }
    }

    /// What holds of every stage that a conversation comes to.
    pub open spec fn wf(self) -> bool {
        match self.client() {
            Some(client) => client.wf() && (self is Handle <==> !(client.task is Idle)),
            None => true,
        }
    }

    /// Whether this can come of the action that the conversation waits for, and
    /// the conversation can go on with it.
    pub open spec fn accepts(self, event: Occurrence) -> bool {
        match self {
            Stage::AdoptStdin(_) | Stage::AdoptStdout(..) | Stage::AdoptStderr(..) => event
                is Adopted || event is Failed,
            Stage::CreatePoll(_) | Stage::Register(..) => event is Succeeded || event is Failed,
            Stage::Poll(_) => event is Succeeded,
            Stage::Dispatch(client) => match event {
                Occurrence::Ready(token) => client.can_take(token),
                Occurrence::BatchEnd => true,
                _ => false,
            },
            Stage::Handle(client) => match event {
                Occurrence::Reply(answer) => client.accepts(answer),
                _ => false,
            },
            Stage::Finished => false,
        }
    }

    /// How the conversation goes on: first the pipes, then the poll, then the
    /// registrations, then rounds of events until the client has shut down. A
    /// failure before the first round ends it.
    pub open spec fn advance(self, event: Occurrence) -> (Stage, Directive) {
        let failed = event is Failed;
        match self {
            Stage::AdoptStdin(terms) => if failed {
                give_up(SetupError::Pipe(Stream::Stdin))
            } else {
                (
                    Stage::AdoptStdout(terms, event == Occurrence::Adopted(true)),
                    Directive::Adopt(Stream::Stdout),
                )
            },
            Stage::AdoptStdout(terms, stdin) => if failed {
                give_up(SetupError::Pipe(Stream::Stdout))
            } else {
                (
                    Stage::AdoptStderr(terms, stdin, event == Occurrence::Adopted(true)),
                    Directive::Adopt(Stream::Stderr),
                )
            },
            Stage::AdoptStderr(terms, stdin, stdout) => if failed {
                give_up(SetupError::Pipe(Stream::Stderr))
            } else {
                (
                    Stage::CreatePoll(
                        ClientState::fresh(
                            stdin,
                            stdout,
                            event == Occurrence::Adopted(true),
                            terms.input,
                            terms.stdout_bound,
                            terms.stderr_bound,
                            terms.return_on_stdout_fill,
                        ),
                    ),
                    Directive::CreatePoll,
                )
            },
            Stage::CreatePoll(client) => if failed {
                give_up(SetupError::Poll)
            } else {
                register_stdout(client)
            },
            Stage::Register(client, stream) => if failed {
                give_up(SetupError::Register(stream))
            } else {
                match stream {
                    Stream::Stdout => register_stderr(client),
                    Stream::Stderr => register_stdin(client),
                    Stream::Stdin => next_round(client),
                }
            },
            Stage::Poll(client) => (Stage::Dispatch(client), Directive::NextEvent),
            Stage::Dispatch(client) => match event {
                Occurrence::Ready(token) => handled(client.ready(token)),
                _ => next_round(client),
            },
            Stage::Handle(client) => match event {
                Occurrence::Reply(answer) => handled(client.resume(answer)),
                _ => (self, Directive::NextEvent),
            },
            Stage::Finished => (self, Directive::NextEvent),
        }
    }
}

/// Begins a conversation in which `input` is sent to the child, and what it
/// writes to its standard output and standard error is kept, at most
/// `stdout_bound` and `stderr_bound` bytes of each.
///
/// Once standard output reaches its bound and `return_on_stdout_fill` holds, the
/// rest of standard error is not waited for. Otherwise standard error is waited
/// for until it ends or reaches its own bound.
///
/// The first thing to do is to take standard input from the child.
pub fn subprocess_communicate<'a>(
    input: &'a [u8],
    stdout_bound: Option<usize>,
    stderr_bound: Option<usize>,
    return_on_stdout_fill: bool,
) -> (started: (Communication<'a>, Action))
    ensures
        started.0@ == Stage::AdoptStdin(
            (Terms { input: input@, stdout_bound, stderr_bound, return_on_stdout_fill }),
        ),
        started.1@ == Directive::Adopt(Stream::Stdin),
        started.0@.wf(),
{
    let request = Request { input, stdout_bound, stderr_bound, return_on_stdout_fill };
    (Communication::AdoptStdin(request), Action::Adopt(Stream::Stdin))
}

impl<'a> Communication<'a> {
    /// Goes on with what came of the last action, and says what to do next.
    pub fn step(self, event: Event) -> (next: (Communication<'a>, Action))
        requires
            self@.wf(),
            self@.accepts(event@),
        ensures
            (next.0@, next.1@) == self@.advance(event@),
            next.0@.wf(),
    {
        match self {
            Communication::AdoptStdin(request) => match event {
                Event::Adopted(stdin) => (
                    Communication::AdoptStdout(request, stdin),
                    Action::Adopt(Stream::Stdout),
                ),
                _ => Communication::give_up(SetupError::Pipe(Stream::Stdin)),
            },
            Communication::AdoptStdout(request, stdin) => match event {
                Event::Adopted(stdout) => (
                    Communication::AdoptStderr(request, stdin, stdout),
                    Action::Adopt(Stream::Stderr),
                ),
                _ => Communication::give_up(SetupError::Pipe(Stream::Stdout)),
            },
            Communication::AdoptStderr(request, stdin, stdout) => match event {
                Event::Adopted(stderr) => {
                    let client = SubprocessClient::new(
                        stdin,
                        stdout,
                        stderr,
                        request.input,
                        request.stdout_bound,
                        request.stderr_bound,
                        request.return_on_stdout_fill,
                    );
                    (Communication::CreatePoll(client), Action::CreatePoll)
                },
                _ => Communication::give_up(SetupError::Pipe(Stream::Stderr)),
            },
            Communication::CreatePoll(client) => {
                if matches!(event, Event::Failed) {
                    return Communication::give_up(SetupError::Poll);
                }
                Communication::register_stdout(client)
            },
            Communication::Register(client, stream) => {
                if matches!(event, Event::Failed) {
                    return Communication::give_up(SetupError::Register(stream));
                }
                match stream {
                    Stream::Stdout => Communication::register_stderr(client),
                    Stream::Stderr => Communication::register_stdin(client),
                    Stream::Stdin => Communication::next_round(client),
                }
            },
            Communication::Poll(client) => (Communication::Dispatch(client), Action::NextEvent),
            Communication::Dispatch(client) => match event {
                Event::Ready(token) => {
                    let mut client = client;
                    let step = client.ready(token);
                    Communication::handled(client, step)
                },
                _ => Communication::next_round(client),
            },
            Communication::Handle(client) => match event {
                Event::Reply(reply) => {
                    let mut client = client;
                    let step = client.resume(reply);
                    Communication::handled(client, step)
                },
                _ => (Communication::Handle(client), Action::NextEvent),
            },
            Communication::Finished => (Communication::Finished, Action::NextEvent),
        }
    }

    /// Whether the conversation can go on with this.
    pub fn accepts(&self, event: Event) -> (yes: bool)
        requires
            self@.wf(),
        ensures
            yes == self@.accepts(event@),
    {
        match self {
            Communication::AdoptStdin(_) | Communication::AdoptStdout(..)
            | Communication::AdoptStderr(..) => matches!(event, Event::Adopted(_) | Event::Failed),
            Communication::CreatePoll(_) | Communication::Register(..) => matches!(
                event,
                Event::Succeeded | Event::Failed
            ),
            Communication::Poll(_) => matches!(event, Event::Succeeded),
            Communication::Dispatch(client) => match event {
                Event::Ready(token) => client.can_take(token),
                Event::BatchEnd => true,
                _ => false,
            },
            Communication::Handle(client) => match event {
                Event::Reply(reply) => client.accepts(reply),
                _ => false,
            },
            Communication::Finished => false,
        }
    }

    /// The client, from the time when all pipes have been taken.
    pub fn client(&self) -> (client: Option<&SubprocessClient>)
        ensures
            client is Some <==> self@.client() is Some,
            client is Some ==> client->0@ == self@.client()->0,
    {
        match self {
            Communication::CreatePoll(client) => Some(client),
            Communication::Register(client, _) => Some(client),
            Communication::Poll(client) => Some(client),
            Communication::Dispatch(client) => Some(client),
            Communication::Handle(client) => Some(client),
            _ => None,
        }
    }

    fn give_up(error: SetupError) -> (next: (Communication<'a>, Action))
        ensures
            (next.0@, next.1@) == give_up(error),
    {
        let action = Action::Finish { stdout: Vec::new(), stderr: Vec::new(), result: Err(error) };
        (Communication::Finished, action)
    }

    fn next_round(client: SubprocessClient) -> (next: (Communication<'a>, Action))
        ensures
            (next.0@, next.1@) == next_round(client@),
    {
        if client.child_shutdown() {
            let (stdout, stderr) = client.into_outputs();
            (Communication::Finished, Action::Finish { stdout, stderr, result: Ok(()) })
        } else {
            (Communication::Poll(client), Action::Poll)
        }
    }

    fn register_stdin(client: SubprocessClient) -> (next: (Communication<'a>, Action))
        ensures
            (next.0@, next.1@) == register_stdin(client@),
    {
        if !client.is_open(Stream::Stdin) {
            return Communication::next_round(client);
        }
        let stream = Stream::Stdin;
        let action = Action::Register {
            stream,
            token: client.token(stream),
            interest: Interest::Writable,
        };
        (Communication::Register(client, stream), action)
    }

    fn register_stderr(client: SubprocessClient) -> (next: (Communication<'a>, Action))
        ensures
            (next.0@, next.1@) == register_stderr(client@),
    {
        if !client.is_open(Stream::Stderr) {
            return Communication::register_stdin(client);
        }
        let stream = Stream::Stderr;
        let action = Action::Register {
            stream,
            token: client.token(stream),
            interest: Interest::Readable,
        };
        (Communication::Register(client, stream), action)
    }

    fn register_stdout(client: SubprocessClient) -> (next: (Communication<'a>, Action))
        ensures
            (next.0@, next.1@) == register_stdout(client@),
    {
        if !client.is_open(Stream::Stdout) {
            return Communication::register_stderr(client);
        }
        let stream = Stream::Stdout;
        let action = Action::Register {
            stream,
            token: client.token(stream),
            interest: Interest::Readable,
        };
        (Communication::Register(client, stream), action)
    }

    fn handled(client: SubprocessClient, step: Step) -> (next: (Communication<'a>, Action))
        ensures
            (next.0@, next.1@) == handled((client@, step)),
    {
        match step {
            Step::Io(io) => (Communication::Handle(client), Action::Io(io)),
            Step::Done(_) => (Communication::Dispatch(client), Action::NextEvent),
        }
    }
}

} // verus!
