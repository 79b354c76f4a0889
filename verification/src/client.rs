//! The event handlers of a conversation with a child process.
//!
//! A handler cannot read, write or close a pipe itself. It is suspended at each
//! of these: it returns a [`Step`] that says what to do with which pipe, and
//! [`SubprocessClient::resume`] carries on with what came of it.

use crate::capture::{Capture, CaptureState};
use vstd::prelude::*;
use vstd::slice::slice_to_vec;

verus! {

/// The token under which standard input is registered.
pub const STDIN_TOKEN: usize = 0;

/// The token under which standard output is registered.
pub const STDOUT_TOKEN: usize = 1;

/// The token under which standard error is registered.
pub const STDERR_TOKEN: usize = 2;

/// A standard pipe of the child.
#[derive(Clone, Copy, Debug, PartialEq, Eq, Structural)]
pub enum Stream {
    Stdin,
    Stdout,
    Stderr,
}

/// Something to do with a pipe.
#[derive(Clone, Copy, Debug, PartialEq, Eq)]
pub enum Io {
    /// Read from the stream, without blocking, at most so many bytes.
    Read(Stream, usize),
    /// Write to standard input, without blocking, the input from this offset on.
    Write(usize),
    /// Take the stream out of the poll and, if that succeeds, drop it.
    Close(Stream),
}

/// Why a handler gave up.
#[derive(Clone, Copy, Debug, PartialEq, Eq)]
pub enum Failure {
    /// The stream could not be read.
    Read(Stream),
    /// The stream could not be taken out of the poll.
    Close(Stream),
}

/// Where a handler has come to.
#[derive(Clone, Copy, Debug, PartialEq, Eq)]
pub enum Step {
    /// It waits for the reply to this.
    Io(Io),
    /// It is over.
    Done(Result<(), Failure>),
}

/// What came of an [`Io`].
#[derive(Clone, Copy, Debug, PartialEq, Eq)]
pub enum Reply<'a> {
    /// These bytes were read; none at the end of the stream.
    Data(&'a [u8]),
    /// So many bytes were written.
    Written(usize),
    /// The read or the write would have blocked.
    Blocked,
    /// The stream was closed.
    Closed,
    /// The read, the write or the closing failed.
    Failed,
}

/// What a [`Reply`] stands for.
#[verifier::ext_equal]
pub enum Answer {
    Data(Seq<u8>),
    Written(usize),
    Blocked,
    Closed,
    Failed,
}

impl<'a> View for Reply<'a> {
    type V = Answer;

    open spec fn view(&self) -> Answer {
        match *self {
            Reply::Data(bytes) => Answer::Data(bytes@),
            Reply::Written(n) => Answer::Written(n),
            Reply::Blocked => Answer::Blocked,
            Reply::Closed => Answer::Closed,
            Reply::Failed => Answer::Failed,
        }
    }
}

/// The point at which the client is suspended. `write_after` says that standard
/// input is to be written to once the present handler is over.
#[derive(Clone, Copy, Debug, PartialEq, Eq)]
pub enum Task {
    /// No handler is running.
    Idle,
    /// Standard output is being read.
    ReadStdout { write_after: bool },
    /// Standard output has reached its bound: standard error is being closed,
    /// standard output comes next.
    CloseStderrFirst { write_after: bool },
    /// Standard output is being closed.
    CloseStdout { write_after: bool },
    /// Standard error is being read.
    ReadStderr,
    /// Standard output is at its bound and standard error need not be waited for
    /// any more: standard output is being closed, standard error comes next.
    CloseStdoutFirst,
    /// Standard error is being closed.
    CloseStderr,
    /// Standard input is being written to.
    WriteStdin,
    /// Standard input is being closed.
    CloseStdin,
}

/// The state of a conversation with a child process.
#[derive(Debug)]
pub struct SubprocessClient {
    stdin: bool,
    stdout: Capture,
    stderr: Capture,
    stdin_token: usize,
    stdout_token: usize,
    stderr_token: usize,
    input: Vec<u8>,
    input_offset: usize,
    return_on_stdout_fill: bool,
    has_shutdown: bool,
    child_shutdown: bool,
    task: Task,
}

/// What a [`SubprocessClient`] stands for.
#[verifier::ext_equal]
pub struct ClientState {
    /// Whether standard input is still held.
    pub stdin: bool,
    pub stdout: CaptureState,
    pub stderr: CaptureState,
    pub stdin_token: usize,
    pub stdout_token: usize,
    pub stderr_token: usize,
    /// All that the child is to be sent.
    pub input: Seq<u8>,
    /// How much of the input the child has been sent.
    pub input_offset: usize,
    /// Whether standard error is given up once standard output reaches its bound.
    pub return_on_stdout_fill: bool,
    /// Whether the handlers have nothing left to do.
    pub has_shutdown: bool,
    /// Whether the conversation is over.
    pub child_shutdown: bool,
    pub task: Task,
}

impl ClientState {
    /// The state in which a conversation begins.
    pub open spec fn fresh(
        stdin: bool,
        stdout: bool,
        stderr: bool,
        input: Seq<u8>,
        stdout_bound: Option<usize>,
        stderr_bound: Option<usize>,
        return_on_stdout_fill: bool,
    ) -> ClientState {
        ClientState {
            stdin,
            stdout: CaptureState::fresh(stdout, stdout_bound),
            stderr: CaptureState::fresh(stderr, stderr_bound),
            stdin_token: STDIN_TOKEN,
            stdout_token: STDOUT_TOKEN,
            stderr_token: STDERR_TOKEN,
            input,
            input_offset: 0,
            return_on_stdout_fill,
            has_shutdown: false,
            child_shutdown: false,
            task: Task::Idle,
        }
    }

    /// What holds of every state that a conversation comes to.
    pub open spec fn wf(self) -> bool {
        &&& self.stdin_token == STDIN_TOKEN
        &&& self.stdout_token == STDOUT_TOKEN
        &&& self.stderr_token == STDERR_TOKEN
        &&& self.has_shutdown == self.child_shutdown
        &&& !(self.stdout.open && self.stdout.given_up)
        &&& !(self.stderr.open && self.stderr.given_up)
        &&& self.has_shutdown ==> !self.stdout.open && !self.stderr.open && self.task is Idle
        &&& self.input_offset <= self.input.len() <= usize::MAX
        &&& match self.task {
            Task::Idle => true,
            Task::ReadStdout { .. } | Task::CloseStdout { .. } => self.stdout.open,
            Task::ReadStderr | Task::CloseStderr => self.stderr.open,
            Task::CloseStderrFirst { .. } | Task::CloseStdoutFirst => self.stdout.open
                && self.stderr.open,
            Task::WriteStdin | Task::CloseStdin => self.stdin,
        }
    }

    /// The state with another point of suspension.
    pub open spec fn at(self, task: Task) -> ClientState {
        ClientState { task, ..self }
    }

    /// The state once the conversation is over, if no output pipe is held any
    /// more; otherwise the same state.
    pub open spec fn shut_down_if_deaf(self) -> ClientState {
        if !self.stdout.open && !self.stderr.open {
            ClientState { has_shutdown: true, child_shutdown: true, ..self }
        } else {
            self
        }
    }

    /// Whether standard output has reached its bound and nothing more is to be
    /// waited for: standard error is not to be waited for, has been closed, or is
    /// held and has reached its bound too.
    pub open spec fn stdout_fill_returns(self) -> bool {
        self.stdout.full() && (self.return_on_stdout_fill || self.stderr.given_up || (
        self.stderr.open && self.stderr.full()))
    }

    /// Whether standard error, having been waited for while standard output is
    /// at its bound, has ended or has reached its own bound.
    pub open spec fn stderr_wait_returns(self, ended: bool) -> bool {
        self.stdout.full() && (ended || self.stderr.full())
    }

    /// How the handler for standard output begins: with a read, unless the
    /// conversation is over.
    pub open spec fn readable(self, write_after: bool) -> (ClientState, Step) {
        if self.has_shutdown {
            (self.at(Task::Idle), Step::Done(Ok(())))
        } else {
            (
                self.at(Task::ReadStdout { write_after }),
                Step::Io(Io::Read(Stream::Stdout, self.stdout.read_len())),
            )
        }
    }

    /// How the handler for standard error begins.
    pub open spec fn readable_stderr(self) -> (ClientState, Step) {
        if self.has_shutdown {
            (self.at(Task::Idle), Step::Done(Ok(())))
        } else {
            (
                self.at(Task::ReadStderr),
                Step::Io(Io::Read(Stream::Stderr, self.stderr.read_len())),
            )
        }
    }

    /// How the handler for standard input begins.
    pub open spec fn writable(self) -> (ClientState, Step) {
        if self.has_shutdown {
            (self.at(Task::Idle), Step::Done(Ok(())))
        } else {
            (self.at(Task::WriteStdin), Step::Io(Io::Write(self.input_offset)))
        }
    }

    /// How an event is taken up: the token of standard error has it read; any
    /// other has standard output read, and that of standard input has standard
    /// input written to after that.
    pub open spec fn ready(self, token: usize) -> (ClientState, Step) {
        if token == self.stderr_token {
            self.readable_stderr()
        } else {
            self.readable(token == self.stdin_token)
        }
    }

    /// Whether a handler may be started for an event with this token: the pipe
    /// that it reads is held, unless the conversation is over.
    pub open spec fn can_take(self, token: usize) -> bool {
        &&& self.task is Idle
        &&& self.has_shutdown || (if token == self.stderr_token {
            self.stderr.open
        } else {
            self.stdout.open
        })
    }

    /// The handler for standard output is over with `result`.
    pub open spec fn stdout_over(self, write_after: bool, result: Result<(), Failure>) -> (
        ClientState,
        Step,
    ) {
        if write_after {
            self.writable()
        } else {
            (self.at(Task::Idle), Step::Done(result))
        }
    }

    /// A handler other than that for standard output is over with `result`.
    pub open spec fn over(self, result: Result<(), Failure>) -> (ClientState, Step) {
        (self.at(Task::Idle), Step::Done(result))
    }

    /// The closing of `stream` is asked for.
    pub open spec fn closing(self, task: Task, stream: Stream) -> (ClientState, Step) {
        (self.at(task), Step::Io(Io::Close(stream)))
    }

    /// What follows a read of standard output. What was read is taken in. If
    /// nothing more is to be waited for, standard error, if held, and standard
    /// output are closed. Otherwise standard output is closed at its end, and
    /// where it overruns its bound while standard error is not held.
    pub open spec fn stdout_read(self, write_after: bool, answer: Answer) -> (ClientState, Step) {
        match answer {
            Answer::Data(data) => {
                let next = ClientState { stdout: self.stdout.absorb(data), ..self };
                if next.stdout_fill_returns() && next.stderr.open {
                    next.closing(Task::CloseStderrFirst { write_after }, Stream::Stderr)
                } else if next.stdout_fill_returns() || data.len() == 0 || (
                self.stdout.overruns(data) && !next.stderr.open) {
                    next.closing(Task::CloseStdout { write_after }, Stream::Stdout)
                } else {
                    next.stdout_over(write_after, Ok(()))
                }
            },
            Answer::Failed => self.stdout_over(write_after, Err(Failure::Read(Stream::Stdout))),
            _ => self.stdout_over(write_after, Ok(())),
        }
    }

    /// What follows a read of standard error. What was read is taken in. If
    /// standard output is at its bound, and standard error has ended or is at its
    /// own, standard output, if held, and standard error are closed. Otherwise
    /// standard error is closed at its end, and where it overruns its bound while
    /// standard output is not held.
    pub open spec fn stderr_read(self, answer: Answer) -> (ClientState, Step) {
        match answer {
            Answer::Data(data) => {
                let next = ClientState { stderr: self.stderr.absorb(data), ..self };
                let ended = data.len() == 0;
                if next.stderr_wait_returns(ended) && next.stdout.open {
                    next.closing(Task::CloseStdoutFirst, Stream::Stdout)
                } else if next.stderr_wait_returns(ended) || ended || (self.stderr.overruns(data)
                    && !next.stdout.open) {
                    next.closing(Task::CloseStderr, Stream::Stderr)
                } else {
                    next.over(Ok(()))
                }
            },
            Answer::Failed => self.over(Err(Failure::Read(Stream::Stderr))),
            _ => self.over(Ok(())),
        }
    }

    /// What follows a write to standard input: what was written is counted, and
    /// standard input is closed once all is written, or the write failed or
    /// wrote nothing.
    pub open spec fn stdin_written(self, answer: Answer) -> (ClientState, Step) {
        let next = match answer {
            Answer::Written(n) => ClientState {
                input_offset: (self.input_offset + n) as usize,
                ..self
            },
            _ => self,
        };
        if next.input_offset == next.input.len() || answer is Failed || answer == Answer::Written(
            0,
        ) {
            next.closing(Task::CloseStdin, Stream::Stdin)
        } else {
            next.over(Ok(()))
        }
    }

    /// How a suspended handler goes on with the answer to what it asked for.
    pub open spec fn resume(self, answer: Answer) -> (ClientState, Step) {
        let closed = answer is Closed;
        match self.task {
            Task::ReadStdout { write_after } => self.stdout_read(write_after, answer),
            Task::CloseStderrFirst { write_after } => if closed {
                ClientState { stderr: self.stderr.closed(), ..self }.closing(
                    Task::CloseStdout { write_after },
                    Stream::Stdout,
                )
            } else {
                self.stdout_over(write_after, Err(Failure::Close(Stream::Stderr)))
            },
            Task::CloseStdout { write_after } => if closed {
                ClientState {
                    stdout: self.stdout.closed(),
                    ..self
                }.shut_down_if_deaf().stdout_over(write_after, Ok(()))
            } else {
                self.stdout_over(write_after, Err(Failure::Close(Stream::Stdout)))
            },
            Task::ReadStderr => self.stderr_read(answer),
            Task::CloseStdoutFirst => if closed {
                ClientState { stdout: self.stdout.closed(), ..self }.closing(
                    Task::CloseStderr,
                    Stream::Stderr,
                )
            } else {
                self.over(Err(Failure::Close(Stream::Stdout)))
            },
            Task::CloseStderr => if closed {
                ClientState { stderr: self.stderr.closed(), ..self }.shut_down_if_deaf().over(
                    Ok(()),
                )
            } else {
                self.over(Err(Failure::Close(Stream::Stderr)))
            },
            Task::WriteStdin => self.stdin_written(answer),
            Task::CloseStdin => if closed {
                ClientState { stdin: false, ..self }.shut_down_if_deaf().over(Ok(()))
            } else {
                self.over(Err(Failure::Close(Stream::Stdin)))
            },
            Task::Idle => self.over(Ok(())),
        }
    }

    /// Whether this answers what the suspended handler asked for. A write
    /// cannot have written more than it was given.
    pub open spec fn answers(self, answer: Answer) -> bool {
        match self.task {
            Task::Idle => false,
            Task::ReadStdout { .. } | Task::ReadStderr => answer is Data || answer is Blocked
                || answer is Failed,
            Task::WriteStdin => answer is Blocked || answer is Failed || (answer is Written
                && answer->Written_0 <= self.input.len() - self.input_offset),
            _ => answer is Closed || answer is Failed,
        }
    }

    /// Whether the handler can go on with this answer: it answers what was
    /// asked for, and standard input is held if it is to be written to next.
    pub open spec fn accepts(self, answer: Answer) -> bool {
        &&& self.answers(answer)
        &&& self.resume(answer).0.task is WriteStdin ==> self.stdin
    }
}

impl View for SubprocessClient {
    type V = ClientState;

    closed spec fn view(&self) -> ClientState {
        ClientState {
            stdin: self.stdin,
            stdout: self.stdout@,
            stderr: self.stderr@,
            stdin_token: self.stdin_token,
            stdout_token: self.stdout_token,
            stderr_token: self.stderr_token,
            input: self.input@,
            input_offset: self.input_offset,
            return_on_stdout_fill: self.return_on_stdout_fill,
            has_shutdown: self.has_shutdown,
            child_shutdown: self.child_shutdown,
            task: self.task,
        }
    }
}

impl SubprocessClient {
    /// The client at the start of a conversation. The first three parameters say
    /// which pipes there are; `data` is what the child is to be sent; the bounds
    /// say how much of each output is kept at most.
    pub fn new(
        stdin: bool,
        stdout: bool,
        stderr: bool,
        data: &[u8],
        stdout_bound: Option<usize>,
        stderr_bound: Option<usize>,
        return_on_stdout_fill: bool,
    ) -> (client: SubprocessClient)
        ensures
            client@ == ClientState::fresh(
                stdin,
                stdout,
                stderr,
                data@,
                stdout_bound,
                stderr_bound,
                return_on_stdout_fill,
            ),
            client@.wf(),
    {
        let input: Vec<u8> = slice_to_vec(data);
        assert(input@.len() == input.len());
        SubprocessClient {
            stdin,
            stdout: Capture::new(stdout, stdout_bound),
            stderr: Capture::new(stderr, stderr_bound),
            stdin_token: STDIN_TOKEN,
            stdout_token: STDOUT_TOKEN,
            stderr_token: STDERR_TOKEN,
            input,
            input_offset: 0,
            return_on_stdout_fill,
            has_shutdown: false,
            child_shutdown: false,
            task: Task::Idle,
        }
    }

    /// Starts the handler for a readable standard output.
    pub fn readable(&mut self) -> (step: Step)
        requires
            old(self)@.wf(),
            old(self)@.task is Idle,
            old(self)@.has_shutdown || old(self)@.stdout.open,
        ensures
            (final(self)@, step) == old(self)@.readable(false),
            final(self)@.wf(),
    {
        self.read_stdout(false)
    }

    /// Starts the handler for a readable standard error.
    pub fn readable_stderr(&mut self) -> (step: Step)
        requires
            old(self)@.wf(),
            old(self)@.task is Idle,
            old(self)@.has_shutdown || old(self)@.stderr.open,
        ensures
            (final(self)@, step) == old(self)@.readable_stderr(),
            final(self)@.wf(),
    {
        if self.has_shutdown {
            return self.finish(Ok(()));
        }
        self.task = Task::ReadStderr;
        Step::Io(Io::Read(Stream::Stderr, self.stderr.read_len()))
    }

    /// Starts the handler for a writable standard input.
    pub fn writable(&mut self) -> (step: Step)
        requires
            old(self)@.wf(),
            old(self)@.task is Idle,
            old(self)@.has_shutdown || old(self)@.stdin,
        ensures
            (final(self)@, step) == old(self)@.writable(),
            final(self)@.wf(),
    {
        self.write_stdin()
    }

    /// Takes up an event of the poll with this token. The result in the last
    /// step is that of the last handler; nothing depends on it.
    pub fn ready(&mut self, token: usize) -> (step: Step)
        requires
            old(self)@.wf(),
            old(self)@.can_take(token),
        ensures
            (final(self)@, step) == old(self)@.ready(token),
            final(self)@.wf(),
    {
        if token == self.stderr_token {
            self.readable_stderr()
        } else {
            self.read_stdout(token == self.stdin_token)
        }
    }

    /// Goes on with the suspended handler.
    pub fn resume(&mut self, reply: Reply) -> (step: Step)
        requires
            old(self)@.wf(),
            old(self)@.accepts(reply@),
        ensures
            (final(self)@, step) == old(self)@.resume(reply@),
            final(self)@.wf(),
    {
        let closed = matches!(reply, Reply::Closed);
        match self.task {
            Task::Idle => self.finish(Ok(())),
            Task::ReadStdout { write_after } => self.stdout_read(write_after, reply),
            Task::CloseStderrFirst { write_after } => {
                if !closed {
                    return self.stdout_over(write_after, Err(Failure::Close(Stream::Stderr)));
                }
                self.stderr.close();
                self.close(Task::CloseStdout { write_after }, Stream::Stdout)
            },
            Task::CloseStdout { write_after } => {
                if !closed {
                    return self.stdout_over(write_after, Err(Failure::Close(Stream::Stdout)));
                }
                self.stdout.close();
                self.shut_down_if_deaf();
                self.stdout_over(write_after, Ok(()))
            },
            Task::ReadStderr => self.stderr_read(reply),
            Task::CloseStdoutFirst => {
                if !closed {
                    return self.finish(Err(Failure::Close(Stream::Stdout)));
                }
                self.stdout.close();
                self.close(Task::CloseStderr, Stream::Stderr)
            },
            Task::CloseStderr => {
                if !closed {
                    return self.finish(Err(Failure::Close(Stream::Stderr)));
                }
                self.stderr.close();
                self.shut_down_if_deaf();
                self.finish(Ok(()))
            },
            Task::WriteStdin => self.stdin_written(reply),
            Task::CloseStdin => {
                if !closed {
                    return self.finish(Err(Failure::Close(Stream::Stdin)));
                }
                self.stdin = false;
                self.shut_down_if_deaf();
                self.finish(Ok(()))
            },
        }
    }

    fn read_stdout(&mut self, write_after: bool) -> (step: Step)
        ensures
            (final(self)@, step) == old(self)@.readable(write_after),
    {
        if self.has_shutdown {
            return self.finish(Ok(()));
        }
        self.task = Task::ReadStdout { write_after };
        Step::Io(Io::Read(Stream::Stdout, self.stdout.read_len()))
    }

    fn write_stdin(&mut self) -> (step: Step)
        ensures
            (final(self)@, step) == old(self)@.writable(),
    {
        if self.has_shutdown {
            return self.finish(Ok(()));
        }
        self.task = Task::WriteStdin;
        Step::Io(Io::Write(self.input_offset))
    }

    fn finish(&mut self, result: Result<(), Failure>) -> (step: Step)
        ensures
            (final(self)@, step) == old(self)@.over(result),
    {
        self.task = Task::Idle;
        Step::Done(result)
    }

    fn close(&mut self, task: Task, stream: Stream) -> (step: Step)
        ensures
            (final(self)@, step) == old(self)@.closing(task, stream),
    {
        self.task = task;
        Step::Io(Io::Close(stream))
    }

    fn stdout_over(&mut self, write_after: bool, result: Result<(), Failure>) -> (step: Step)
        ensures
            (final(self)@, step) == old(self)@.stdout_over(write_after, result),
    {
        if write_after {
            self.write_stdin()
        } else {
            self.finish(result)
        }
    }

    fn shut_down_if_deaf(&mut self)
        ensures
            final(self)@ == old(self)@.shut_down_if_deaf(),
    {
        if !self.stdout.is_open() && !self.stderr.is_open() {
            self.has_shutdown = true;
            self.child_shutdown = true;
        }
    }

    fn stdout_read(&mut self, write_after: bool, reply: Reply) -> (step: Step)
        ensures
            (final(self)@, step) == old(self)@.stdout_read(write_after, reply@),
    {
        match reply {
            Reply::Data(data) => {
                let over = self.stdout.absorb(data);
                let held = self.stderr.is_open();
                let done = self.stdout.is_full() && self.stdout_fill_suffices();
                if done && held {
                    self.close(Task::CloseStderrFirst { write_after }, Stream::Stderr)
                } else if done || data.len() == 0 || (over && !held) {
                    self.close(Task::CloseStdout { write_after }, Stream::Stdout)
                } else {
                    self.stdout_over(write_after, Ok(()))
                }
            },
            Reply::Failed => self.stdout_over(write_after, Err(Failure::Read(Stream::Stdout))),
            _ => self.stdout_over(write_after, Ok(())),
        }
    }

    fn stderr_read(&mut self, reply: Reply) -> (step: Step)
        ensures
            (final(self)@, step) == old(self)@.stderr_read(reply@),
    {
        match reply {
            Reply::Data(data) => {
                let over = self.stderr.absorb(data);
                let held = self.stdout.is_open();
                let ended = data.len() == 0;
                let done = self.stdout.is_full() && (ended || self.stderr.is_full());
                if done && held {
                    self.close(Task::CloseStdoutFirst, Stream::Stdout)
                } else if done || ended || (over && !held) {
                    self.close(Task::CloseStderr, Stream::Stderr)
                } else {
                    self.finish(Ok(()))
                }
            },
            Reply::Failed => self.finish(Err(Failure::Read(Stream::Stderr))),
            _ => self.finish(Ok(())),
        }
    }

    fn stdin_written(&mut self, reply: Reply) -> (step: Step)
        requires
            reply@ is Written ==> old(self)@.input_offset + reply@->Written_0
                <= old(self)@.input.len(),
        ensures
            (final(self)@, step) == old(self)@.stdin_written(reply@),
    {
        let len: usize = self.input.len();
        let mut ok = true;
        match reply {
            Reply::Written(n) => {
                if n == 0 {
                    ok = false;
                } else {
                    self.input_offset = self.input_offset + n;
                }
            },
            Reply::Failed => {
                ok = false;
            },
            _ => {},
        }
        if self.input_offset == len || !ok {
            self.close(Task::CloseStdin, Stream::Stdin)
        } else {
            self.finish(Ok(()))
        }
    }

    /// Whether standard output need only reach its bound for the conversation to end.
    fn stdout_fill_suffices(&self) -> (yes: bool)
        ensures
            yes == (self@.return_on_stdout_fill || self@.stderr.given_up || (self@.stderr.open
                && self@.stderr.full())),
    {
        self.return_on_stdout_fill || self.stderr.is_given_up() || (self.stderr.is_open()
            && self.stderr.is_full())
    }

    /// Whether a handler may be started for an event with this token.
    pub fn can_take(&self, token: usize) -> (yes: bool)
        ensures
            yes == self@.can_take(token),
    {
        matches!(self.task, Task::Idle) && (self.has_shutdown || if token == self.stderr_token {
            self.stderr.is_open()
        } else {
            self.stdout.is_open()
        })
    }

    /// Whether the suspended handler can go on with this reply.
    pub fn accepts(&self, reply: Reply) -> (yes: bool)
        requires
            self@.wf(),
        ensures
            yes == self@.accepts(reply@),
    {
        let closed = matches!(reply, Reply::Closed);
        let failed = matches!(reply, Reply::Failed);
        let read = failed || matches!(reply, Reply::Data(_) | Reply::Blocked);
        match self.task {
            Task::Idle => false,
            Task::ReadStdout { write_after } => {
                let closes = match reply {
                    Reply::Data(data) => data.len() == 0 || (self.stdout.fills(data)
                        && self.stdout_fill_suffices()) || (self.stdout.overruns(data)
                        && !self.stderr.is_open()),
                    _ => false,
                };
                read && (self.stdin || !write_after || closes)
            },
            Task::CloseStderrFirst { write_after } => closed || (failed && (self.stdin
                || !write_after)),
            Task::CloseStdout { write_after } => (closed && !self.stderr.is_open()) || ((closed
                || failed) && (self.stdin || !write_after)),
            Task::ReadStderr => read,
            Task::WriteStdin => match reply {
                Reply::Written(n) => n <= self.input.len() - self.input_offset,
                _ => failed || matches!(reply, Reply::Blocked),
            },
            _ => closed || failed,
        }
    }

    /// Whether the conversation is over.
    pub fn child_shutdown(&self) -> (over: bool)
        ensures
            over == self@.child_shutdown,
    {
        self.child_shutdown
    }

    /// Whether the pipe is still held.
    pub fn is_open(&self, stream: Stream) -> (open: bool)
        ensures
            open == match stream {
                Stream::Stdin => self@.stdin,
                Stream::Stdout => self@.stdout.open,
                Stream::Stderr => self@.stderr.open,
            },
    {
        match stream {
            Stream::Stdin => self.stdin,
            Stream::Stdout => self.stdout.is_open(),
            Stream::Stderr => self.stderr.is_open(),
        }
    }

    /// What is kept of standard output.
    pub fn stdout(&self) -> (capture: &Capture)
        ensures
            capture@ == self@.stdout,
    {
        &self.stdout
    }

    /// What is kept of standard error.
    pub fn stderr(&self) -> (capture: &Capture)
        ensures
            capture@ == self@.stderr,
    {
        &self.stderr
    }

    /// The token under which the pipe is registered.
    pub fn token(&self, stream: Stream) -> (token: usize)
        ensures
            token == match stream {
                Stream::Stdin => self@.stdin_token,
                Stream::Stdout => self@.stdout_token,
                Stream::Stderr => self@.stderr_token,
            },
    {
        match stream {
            Stream::Stdin => self.stdin_token,
            Stream::Stdout => self.stdout_token,
            Stream::Stderr => self.stderr_token,
        }
    }

    /// What was kept of standard output and of standard error.
    pub fn into_outputs(self) -> (outputs: (Vec<u8>, Vec<u8>))
        ensures
            outputs.0@ == self@.stdout.output,
            outputs.1@ == self@.stderr.output,
    {
        (self.stdout.into_output(), self.stderr.into_output())
    }
}

} // verus!
