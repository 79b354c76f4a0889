//! What a whole conversation comes to, whatever happens in it.

use crate::capture::{CaptureState, BUF_LEN};
use crate::client::{
    Answer, ClientState, Io, Stream, Task, STDERR_TOKEN, STDIN_TOKEN, STDOUT_TOKEN,
};
use crate::communicate::{
    Action, Directive, Event, Interest, Occurrence, SetupError, Stage, Terms,
};
use vstd::prelude::*;

verus! {

/// What has passed between the conversation and the world, told from the actions
/// that were asked for and what came of them alone.
#[verifier::ext_equal]
pub struct History {
    /// The pipes that were asked for and taken, or found missing, in order.
    pub taken: Seq<Stream>,
    /// The pipes that the child turned out to have.
    pub present: Set<Stream>,
    /// The pipes that were registered with the poll.
    pub registered: Set<Stream>,
    /// The pipes that were closed.
    pub closed: Set<Stream>,
    /// The token of the last event of the poll.
    pub token: Option<usize>,
    /// The pipe that was read or written to last.
    pub served: Option<Stream>,
    /// All bytes read from standard output, kept or not.
    pub stdout: Seq<u8>,
    /// All bytes read from standard error, kept or not.
    pub stderr: Seq<u8>,
    /// All bytes that standard input accepted.
    pub stdin: Seq<u8>,
    /// Whether standard output gave data or ended.
    pub stdout_heard: bool,
    /// Whether standard error gave data or ended.
    pub stderr_heard: bool,
    /// Whether the end of standard output was read.
    pub stdout_ended: bool,
    /// Whether the end of standard error was read.
    pub stderr_ended: bool,
    /// Whether a write to standard input failed or wrote nothing.
    pub stdin_refused: bool,
    /// Whether an output pipe could not be closed when it was to be.
    pub close_failed: bool,
}

impl History {
    /// The history before anything happened.
    pub open spec fn empty() -> History {
        History {
            taken: Seq::empty(),
            present: Set::empty(),
            registered: Set::empty(),
            closed: Set::empty(),
            token: None,
            served: None,
            stdout: Seq::empty(),
            stderr: Seq::empty(),
            stdin: Seq::empty(),
            stdout_heard: false,
            stderr_heard: false,
            stdout_ended: false,
            stderr_ended: false,
            stdin_refused: false,
            close_failed: false,
        }
    }

    /// The history after it turned out whether the child has this pipe.
    pub open spec fn adopt(self, stream: Stream, present: bool) -> History {
        History {
            taken: self.taken.push(stream),
            present: if present {
                self.present.insert(stream)
            } else {
                self.present
            },
            ..self
        }
    }

    /// The history after this answer to `io`, where `input` is being sent.
    pub open spec fn answered(self, input: Seq<u8>, io: Io, answer: Answer) -> History {
        match (io, answer) {
            (Io::Read(Stream::Stdout, _), Answer::Data(data)) => History {
                stdout: self.stdout + data,
                stdout_heard: true,
                stdout_ended: self.stdout_ended || data.len() == 0,
                served: Some(Stream::Stdout),
                ..self
            },
            (Io::Read(Stream::Stderr, _), Answer::Data(data)) => History {
                stderr: self.stderr + data,
                stderr_heard: true,
                stderr_ended: self.stderr_ended || data.len() == 0,
                served: Some(Stream::Stderr),
                ..self
            },
            (Io::Read(stream, _), _) => History { served: Some(stream), ..self },
            (Io::Write(offset), Answer::Written(n)) => History {
                stdin: self.stdin + input.skip(offset as int).take(n as int),
                stdin_refused: self.stdin_refused || n == 0,
                served: Some(Stream::Stdin),
                ..self
            },
            (Io::Write(_), _) => History {
                stdin_refused: self.stdin_refused || answer is Failed,
                served: Some(Stream::Stdin),
                ..self
            },
            (Io::Close(stream), Answer::Closed) => History {
                closed: self.closed.insert(stream),
                ..self
            },
            (Io::Close(stream), _) => History {
                close_failed: self.close_failed || stream != Stream::Stdin,
                ..self
            },
        }
    }

    /// The history after `event` came of `asked`, where `input` is being sent.
    pub open spec fn record(self, input: Seq<u8>, asked: Directive, event: Occurrence) -> History {
        match (asked, event) {
            (Directive::Adopt(stream), Occurrence::Adopted(present)) => self.adopt(stream, present),
            (Directive::Register { stream, .. }, Occurrence::Succeeded) => History {
                registered: self.registered.insert(stream),
                ..self
            },
            (Directive::NextEvent, Occurrence::Ready(token)) => History {
                token: Some(token),
                ..self
            },
            (Directive::Io(io), Occurrence::Reply(answer)) => self.answered(input, io, answer),
            _ => self,
        }
    }

    /// Whether the child has this pipe and it has not been closed.
    pub open spec fn held(self, stream: Stream) -> bool {
        self.present.contains(stream) && !self.closed.contains(stream)
    }

    /// Whether the child had an output pipe, and all that it had are closed.
    pub open spec fn over(self) -> bool {
        &&& self.present.contains(Stream::Stdout) || self.present.contains(Stream::Stderr)
        &&& !self.held(Stream::Stdout)
        &&& !self.held(Stream::Stderr)
    }
}

/// A conversation on the way: its stage, what it asks for, and what has passed.
#[verifier::ext_equal]
pub struct Moment {
    pub stage: Stage,
    pub asked: Directive,
    pub history: History,
}

/// The conversation on these terms after these events.
pub open spec fn replay(terms: Terms, events: Seq<Occurrence>) -> Moment
    decreases events.len(),
{
    if events.len() == 0 {
        Moment {
            stage: Stage::AdoptStdin(terms),
            asked: Directive::Adopt(Stream::Stdin),
            history: History::empty(),
        }
    } else {
        let before = replay(terms, events.drop_last());
        let (stage, asked) = before.stage.advance(events.last());
        Moment {
            stage,
            asked,
            history: before.history.record(terms.input, before.asked, events.last()),
        }
    }
}

/// Whether a read handed over no more than it was asked for.
pub open spec fn within_request(asked: Directive, event: Occurrence) -> bool {
    match (asked, event) {
        (Directive::Io(Io::Read(_, len)), Occurrence::Reply(Answer::Data(data))) => data.len()
            <= len,
        _ => true,
    }
}

/// Whether each of the events could come of what was asked for.
pub open spec fn possible(terms: Terms, events: Seq<Occurrence>) -> bool
    decreases events.len(),
{
    events.len() > 0 ==> {
        let before = replay(terms, events.drop_last());
        &&& possible(terms, events.drop_last())
        &&& before.stage.accepts(events.last())
        &&& within_request(before.asked, events.last())
    }
}

/// The first `bound` bytes; all of them where there is no bound or fewer bytes.
pub open spec fn clip(bytes: Seq<u8>, bound: Option<usize>) -> Seq<u8> {
    match bound {
        Some(n) if n < bytes.len() => bytes.take(n as int),
        _ => bytes,
    }
}

/// Whether more bytes came than the bound allows.
pub open spec fn beyond(bytes: Seq<u8>, bound: Option<usize>) -> bool {
    bound is Some && bound->0 < bytes.len()
}

/// Whether so many bytes came as the bound allows.
pub open spec fn filled(bytes: Seq<u8>, bound: Option<usize>) -> bool {
    bound is Some && bound->0 <= bytes.len()
}

/// What a suspended handler asks for.
spec fn pending(client: ClientState) -> Directive {
    match client.task {
        Task::Idle => Directive::NextEvent,
        Task::ReadStdout { .. } => Directive::Io(
            Io::Read(Stream::Stdout, client.stdout.read_len()),
        ),
        Task::ReadStderr => Directive::Io(Io::Read(Stream::Stderr, client.stderr.read_len())),
        Task::WriteStdin => Directive::Io(Io::Write(client.input_offset)),
        Task::CloseStdin => Directive::Io(Io::Close(Stream::Stdin)),
        Task::CloseStdout { .. } | Task::CloseStdoutFirst => Directive::Io(
            Io::Close(Stream::Stdout),
        ),
        Task::CloseStderr | Task::CloseStderrFirst { .. } => Directive::Io(
            Io::Close(Stream::Stderr),
        ),
    }
}

/// Whether `client` holds the pipe.
pub open spec fn holds(client: ClientState, stream: Stream) -> bool {
    match stream {
        Stream::Stdin => client.stdin,
        Stream::Stdout => client.stdout.open,
        Stream::Stderr => client.stderr.open,
    }
}

/// The capture holds the first bytes of all that were read, and has room for
/// the rest up to the bound.
pub open spec fn captured(capture: CaptureState, bytes: Seq<u8>, bound: Option<usize>) -> bool {
    &&& capture.output == clip(bytes, bound)
    &&& match bound {
        None => capture.bound is None,
        Some(n) => capture.bound is Some && capture.bound->0 == n - capture.output.len(),
    }
}

/// Why standard output may be closed.
spec fn stdout_settled(terms: Terms, history: History) -> bool {
    history.stdout_ended || filled(history.stdout, terms.stdout_bound)
}

/// Why standard error may be closed.
spec fn stderr_settled(terms: Terms, history: History) -> bool {
    ||| history.stderr_ended
    ||| filled(history.stderr, terms.stderr_bound)
    ||| terms.return_on_stdout_fill && filled(history.stdout, terms.stdout_bound)
}

/// Why standard input may be closed.
spec fn stdin_settled(terms: Terms, history: History) -> bool {
    history.stdin == terms.input || history.stdin_refused
}

/// Once the bounds end the conversation, the client has shut down or is about to.
spec fn prompt(client: ClientState, history: History) -> bool {
    let closing = client.has_shutdown || match client.task {
        Task::CloseStderrFirst { .. } | Task::CloseStdoutFirst => true,
        Task::CloseStdout { .. } => !client.stderr.open,
        Task::CloseStderr => !client.stdout.open,
        _ => false,
    };
    &&& history.stdout_heard && client.stdout.full() && client.return_on_stdout_fill ==> closing
    &&& (history.stdout_heard || history.stderr_heard) && client.stdout.full()
        && history.present.contains(Stream::Stderr) && (history.stderr_ended
        || client.stderr.full()) ==> closing
    &&& history.stderr_ended ==> client.stderr.given_up || client.task is CloseStderr
        || client.task is CloseStdoutFirst
}

/// The handler that runs is the one for the last event of the poll.
spec fn in_turn(client: ClientState, history: History) -> bool {
    match client.task {
        Task::Idle => true,
        Task::ReadStdout { write_after } => history.token is Some && history.token
            != Some(STDERR_TOKEN) && write_after == (history.token == Some(STDIN_TOKEN)),
        Task::CloseStderrFirst { write_after } | Task::CloseStdout { write_after } => history.token
            is Some && history.token != Some(STDERR_TOKEN) && write_after == (history.token
            == Some(STDIN_TOKEN)) && history.served == Some(Stream::Stdout),
        Task::ReadStderr => history.token == Some(STDERR_TOKEN),
        Task::CloseStdoutFirst | Task::CloseStderr => history.token == Some(STDERR_TOKEN)
            && history.served == Some(Stream::Stderr),
        Task::WriteStdin => history.token == Some(STDIN_TOKEN),
        Task::CloseStdin => history.token == Some(STDIN_TOKEN) && history.served == Some(
            Stream::Stdin,
        ),
    }
}

/// What ties the state of the client to what has passed.
spec fn client_consistent(terms: Terms, client: ClientState, history: History) -> bool {
    &&& client.wf()
    &&& client.input == terms.input
    &&& client.return_on_stdout_fill == terms.return_on_stdout_fill
    &&& captured(client.stdout, history.stdout, terms.stdout_bound)
    &&& captured(client.stderr, history.stderr, terms.stderr_bound)
    &&& history.stdin == terms.input.take(client.input_offset as int)
    &&& !history.present.contains(Stream::Stdout) ==> history.stdout.len() == 0
    &&& !history.present.contains(Stream::Stderr) ==> history.stderr.len() == 0
    &&& client.stdin == history.held(Stream::Stdin)
    &&& client.stdout.open == history.held(Stream::Stdout)
    &&& client.stderr.open == history.held(Stream::Stderr)
    &&& client.stderr.given_up <==> history.present.contains(Stream::Stderr)
        && !client.stderr.open
    &&& history.closed.subset_of(history.present)
    &&& client.has_shutdown == history.over()
    &&& history.taken == seq![Stream::Stdin, Stream::Stdout, Stream::Stderr]
    &&& !(client.task is Idle) ==> history.present.contains(Stream::Stdout)
        || history.present.contains(Stream::Stderr)
    &&& in_turn(client, history)
    &&& history.present.contains(Stream::Stdin) && !client.stdin ==> stdin_settled(terms, history)
    &&& history.present.contains(Stream::Stdout) && !client.stdout.open ==> stdout_settled(
        terms,
        history,
    )
    &&& history.present.contains(Stream::Stderr) && !client.stderr.open ==> stderr_settled(
        terms,
        history,
    )
    &&& !history.close_failed ==> prompt(client, history)
    &&& match client.task {
        Task::CloseStdin => stdin_settled(terms, history),
        Task::CloseStdout { .. } => stdout_settled(terms, history),
        Task::CloseStderr => stderr_settled(terms, history),
        Task::CloseStderrFirst { .. } => stdout_settled(terms, history) && stderr_settled(
            terms,
            history,
        ),
        Task::CloseStdoutFirst => stdout_settled(terms, history) && stderr_settled(terms, history),
        _ => true,
    }
}

/// Nothing has been read or written.
spec fn untouched(history: History) -> bool {
    &&& history.stdout.len() == 0
    &&& history.stderr.len() == 0
    &&& history.stdin.len() == 0
    &&& !history.stdout_ended
    &&& !history.stderr_ended
    &&& !history.stdin_refused
    &&& !history.stdout_heard
    &&& !history.stderr_heard
    &&& history.closed == Set::<Stream>::empty()
}

/// What is returned at the end of a conversation that began.
spec fn returned(terms: Terms, history: History, stdout: Seq<u8>, stderr: Seq<u8>) -> bool {
    &&& stdout == clip(history.stdout, terms.stdout_bound)
    &&& stderr == clip(history.stderr, terms.stderr_bound)
    &&& history.present.contains(Stream::Stdout) ==> stdout_settled(terms, history)
    &&& history.present.contains(Stream::Stderr) ==> stderr_settled(terms, history)
    &&& !history.present.contains(Stream::Stdout) ==> stdout.len() == 0
    &&& !history.present.contains(Stream::Stderr) ==> stderr.len() == 0
}

/// All pipes that the client holds are registered.
spec fn all_registered(client: ClientState, history: History) -> bool {
    forall|stream: Stream| holds(client, stream) ==> #[trigger] history.registered.contains(stream)
}

/// What holds at every moment of a conversation.
spec fn consistent(terms: Terms, moment: Moment) -> bool {
    let history = moment.history;
    match moment.stage {
        Stage::AdoptStdin(own) => {
            &&& own == terms
            &&& moment.asked == Directive::Adopt(Stream::Stdin)
            &&& history == History::empty()
        },
        Stage::AdoptStdout(own, stdin) => {
            &&& own == terms
            &&& moment.asked == Directive::Adopt(Stream::Stdout)
            &&& untouched(history)
            &&& stdin == history.present.contains(Stream::Stdin)
            &&& !history.present.contains(Stream::Stdout)
            &&& !history.present.contains(Stream::Stderr)
            &&& history.registered == Set::<Stream>::empty()
            &&& history.taken == seq![Stream::Stdin]
        },
        Stage::AdoptStderr(own, stdin, stdout) => {
            &&& own == terms
            &&& moment.asked == Directive::Adopt(Stream::Stderr)
            &&& untouched(history)
            &&& stdin == history.present.contains(Stream::Stdin)
            &&& stdout == history.present.contains(Stream::Stdout)
            &&& !history.present.contains(Stream::Stderr)
            &&& history.registered == Set::<Stream>::empty()
            &&& history.taken == seq![Stream::Stdin, Stream::Stdout]
        },
        Stage::CreatePoll(client) => {
            &&& moment.asked == Directive::CreatePoll
            &&& client_consistent(terms, client, history)
            &&& untouched(history)
            &&& history.registered == Set::<Stream>::empty()
            &&& client.task is Idle
            &&& !client.has_shutdown
        },
        Stage::Register(client, stream) => {
            &&& moment.asked == (Directive::Register {
                stream,
                token: match stream {
                    Stream::Stdin => STDIN_TOKEN,
                    Stream::Stdout => STDOUT_TOKEN,
                    Stream::Stderr => STDERR_TOKEN,
                },
                interest: if stream == Stream::Stdin {
                    Interest::Writable
                } else {
                    Interest::Readable
                },
            })
            &&& !history.registered.contains(Stream::Stdin)
            &&& stream != Stream::Stdin ==> !history.registered.contains(Stream::Stderr)
            &&& stream == Stream::Stdout ==> !history.registered.contains(Stream::Stdout)
            &&& client_consistent(terms, client, history)
            &&& untouched(history)
            &&& client.task is Idle
            &&& !client.has_shutdown
            &&& holds(client, stream)
            &&& stream != Stream::Stdout && client.stdout.open ==> history.registered.contains(
                Stream::Stdout,
            )
            &&& stream == Stream::Stdin && client.stderr.open ==> history.registered.contains(
                Stream::Stderr,
            )
        },
        Stage::Poll(client) => {
            &&& moment.asked == Directive::Poll
            &&& client_consistent(terms, client, history)
            &&& all_registered(client, history)
            &&& client.task is Idle
            &&& !client.has_shutdown
        },
        Stage::Dispatch(client) => {
            &&& moment.asked == Directive::NextEvent
            &&& client_consistent(terms, client, history)
            &&& all_registered(client, history)
            &&& client.task is Idle
        },
        Stage::Handle(client) => {
            &&& moment.asked == pending(client)
            &&& client_consistent(terms, client, history)
            &&& all_registered(client, history)
            &&& !(client.task is Idle)
        },
        Stage::Finished => match moment.asked {
            Directive::Finish { stdout, stderr, result } => match result {
                Ok(_) => {
                    &&& returned(terms, history, stdout, stderr)
                    &&& history.taken == seq![Stream::Stdin, Stream::Stdout, Stream::Stderr]
                },
                Err(_) => stdout.len() == 0 && stderr.len() == 0 && untouched(history),
            },
            _ => false,
        },
    }
}

proof fn lemma_captured(
    capture: CaptureState,
    bytes: Seq<u8>,
    bound: Option<usize>,
    data: Seq<u8>,
)
    requires
        captured(capture, bytes, bound),
        data.len() <= capture.read_len(),
        data.len() > 0,
    ensures
        captured(capture.absorb(data), bytes + data, bound),
        capture.overruns(data) ==> capture.full(),
{
    assert(capture.absorb(data).output =~= clip(bytes + data, bound));
}

/// A suspended handler that goes on keeps the client in step with the history.
#[verifier::rlimit(80)]
proof fn lemma_answered(terms: Terms, client: ClientState, history: History, answer: Answer)
    requires
        client_consistent(terms, client, history),
        !(client.task is Idle),
        client.accepts(answer),
        within_request(pending(client), Occurrence::Reply(answer)),
    ensures
        client_consistent(
            terms,
            client.resume(answer).0,
            history.answered(terms.input, pending(client)->Io_0, answer),
        ),
{
    let after = client.resume(answer).0;
    let told = history.answered(terms.input, pending(client)->Io_0, answer);
    match (client.task, answer) {
        (Task::ReadStdout { .. }, Answer::Data(data)) => {
            if data.len() == 0 {
                assert(told.stdout =~= history.stdout);
            } else {
                lemma_captured(client.stdout, history.stdout, terms.stdout_bound, data);
            }
        },
        (Task::ReadStderr, Answer::Data(data)) => {
            if data.len() == 0 {
                assert(told.stderr =~= history.stderr);
            } else {
                lemma_captured(client.stderr, history.stderr, terms.stderr_bound, data);
            }
        },
        (Task::WriteStdin, Answer::Written(n)) => {
            assert(told.stdin =~= terms.input.take(client.input_offset + n));
        },
        _ => {},
    }
    if after.input_offset == terms.input.len() {
        assert(told.stdin =~= terms.input);
    }
}

#[verifier::rlimit(80)]
proof fn lemma_step(terms: Terms, before: Moment, event: Occurrence)
    requires
        terms.input.len() <= usize::MAX,
        consistent(terms, before),
        before.stage.accepts(event),
        within_request(before.asked, event),
    ensures
        ({
            let (stage, asked) = before.stage.advance(event);
            let history = before.history.record(terms.input, before.asked, event);
            consistent(terms, Moment { stage, asked, history })
        }),
{
    match before.stage {
        Stage::Handle(client) => {
            lemma_answered(terms, client, before.history, event->Reply_0);
        },
        Stage::AdoptStdin(own) => {
            let history = before.history.record(terms.input, before.asked, event);
            assert(event is Adopted ==> history.taken =~= seq![Stream::Stdin]);
        },
        Stage::AdoptStdout(own, stdin) => {
            let history = before.history.record(terms.input, before.asked, event);
            assert(event is Adopted ==> history.taken =~= seq![Stream::Stdin, Stream::Stdout]);
        },
        Stage::AdoptStderr(own, stdin, stdout) => {
            let history = before.history.record(terms.input, before.asked, event);
            assert(event is Adopted ==> history.taken =~= seq![
                Stream::Stdin,
                Stream::Stdout,
                Stream::Stderr,
            ]);
            assert(history.stdin =~= terms.input.take(0));
            assert(history.stdout =~= Seq::<u8>::empty());
            assert(history.stderr =~= Seq::<u8>::empty());
        },
        _ => {},
    }
}

proof fn lemma_replay(terms: Terms, events: Seq<Occurrence>)
    requires
        terms.input.len() <= usize::MAX,
        possible(terms, events),
    ensures
        consistent(terms, replay(terms, events)),
    decreases events.len(),
{
    if events.len() > 0 {
        lemma_replay(terms, events.drop_last());
        lemma_step(terms, replay(terms, events.drop_last()), events.last());
    }
}

/// A conversation that ends well returns, of each output, the first bytes that
/// the child wrote, up to the bound: all of them if there is no bound or if it
/// was not reached.
///
/// Of a pipe that the child has, reading stopped for one of these reasons: it
/// ended; it gave as many bytes as its bound allows; or, for standard error,
/// standard output reached its bound and `return_on_stdout_fill` holds.
pub proof fn output_is_complete_up_to_the_bound(
    terms: Terms,
    events: Seq<Occurrence>,
    stdout: Seq<u8>,
    stderr: Seq<u8>,
)
    requires
        terms.input.len() <= usize::MAX,
        possible(terms, events),
        replay(terms, events).asked == (Directive::Finish { stdout, stderr, result: Ok(()) }),
    ensures
        ({
            let history = replay(terms, events).history;
            &&& stdout == clip(history.stdout, terms.stdout_bound)
            &&& stderr == clip(history.stderr, terms.stderr_bound)
            &&& history.present.contains(Stream::Stdout) ==> history.stdout_ended || filled(
                history.stdout,
                terms.stdout_bound,
            )
            &&& history.present.contains(Stream::Stderr) ==> history.stderr_ended || filled(
                history.stderr,
                terms.stderr_bound,
            ) || (terms.return_on_stdout_fill && filled(history.stdout, terms.stdout_bound))
            &&& !history.present.contains(Stream::Stdout) ==> stdout.len() == 0
            &&& !history.present.contains(Stream::Stderr) ==> stderr.len() == 0
        }),
{
    lemma_replay(terms, events);
}

/// Without bounds, everything up to the end of both outputs is returned.
pub proof fn unbounded_output_is_complete(
    terms: Terms,
    events: Seq<Occurrence>,
    stdout: Seq<u8>,
    stderr: Seq<u8>,
)
    requires
        terms.input.len() <= usize::MAX,
        terms.stdout_bound is None,
        terms.stderr_bound is None,
        possible(terms, events),
        replay(terms, events).asked == (Directive::Finish { stdout, stderr, result: Ok(()) }),
    ensures
        ({
            let history = replay(terms, events).history;
            &&& stdout == history.stdout
            &&& stderr == history.stderr
            &&& history.present.contains(Stream::Stdout) ==> history.stdout_ended
            &&& history.present.contains(Stream::Stderr) ==> history.stderr_ended
        }),
{
    lemma_replay(terms, events);
}

/// Where standard error is to be waited for, a conversation ends only once
/// standard error ended or gave as many bytes as its bound allows, however much
/// standard output gave.
pub proof fn stderr_is_waited_for(
    terms: Terms,
    events: Seq<Occurrence>,
    stdout: Seq<u8>,
    stderr: Seq<u8>,
)
    requires
        terms.input.len() <= usize::MAX,
        !terms.return_on_stdout_fill,
        possible(terms, events),
        replay(terms, events).asked == (Directive::Finish { stdout, stderr, result: Ok(()) }),
        replay(terms, events).history.present.contains(Stream::Stderr),
    ensures
        replay(terms, events).history.stderr_ended || filled(
            replay(terms, events).history.stderr,
            terms.stderr_bound,
        ),
{
    lemma_replay(terms, events);
}

/// At every moment, no more is kept of an output than its bound allows, what is
/// kept is the beginning of what the child wrote, and the room left is what the
/// bound allows beyond that.
pub proof fn kept_output_is_bounded(terms: Terms, events: Seq<Occurrence>)
    requires
        terms.input.len() <= usize::MAX,
        possible(terms, events),
        replay(terms, events).stage.client() is Some,
    ensures
        ({
            let history = replay(terms, events).history;
            let client = replay(terms, events).stage.client()->0;
            &&& captured(client.stdout, history.stdout, terms.stdout_bound)
            &&& captured(client.stderr, history.stderr, terms.stderr_bound)
            &&& terms.stdout_bound is Some ==> client.stdout.output.len() <= terms.stdout_bound->0
            &&& terms.stderr_bound is Some ==> client.stderr.output.len() <= terms.stderr_bound->0
        }),
{
    lemma_replay(terms, events);
}

/// At every moment, the child has been sent the beginning of the input, nothing
/// left out and nothing twice. Its standard input is closed only once it has
/// been sent all of it, or has refused more.
pub proof fn input_is_sent_in_order(terms: Terms, events: Seq<Occurrence>)
    requires
        terms.input.len() <= usize::MAX,
        possible(terms, events),
        replay(terms, events).stage.client() is Some,
    ensures
        ({
            let history = replay(terms, events).history;
            let client = replay(terms, events).stage.client()->0;
            &&& client.input == terms.input
            &&& history.stdin == terms.input.take(client.input_offset as int)
            &&& history.present.contains(Stream::Stdin) && !client.stdin ==> history.stdin
                == terms.input || history.stdin_refused
        }),
{
    lemma_replay(terms, events);
}

/// A conversation that could not begin returns no output and the reason, and
/// nothing has been read or written.
pub proof fn failed_setup_returns_nothing(
    terms: Terms,
    events: Seq<Occurrence>,
    stdout: Seq<u8>,
    stderr: Seq<u8>,
    error: SetupError,
)
    requires
        terms.input.len() <= usize::MAX,
        possible(terms, events),
        replay(terms, events).asked == (Directive::Finish { stdout, stderr, result: Err(error) }),
    ensures
        stdout.len() == 0,
        stderr.len() == 0,
        replay(terms, events).history.stdout.len() == 0,
        replay(terms, events).history.stderr.len() == 0,
        replay(terms, events).history.stdin.len() == 0,
{
    lemma_replay(terms, events);
}

/// Once events are waited for, nothing can make the conversation end with an
/// error.
pub proof fn a_begun_conversation_cannot_fail(
    terms: Terms,
    events: Seq<Occurrence>,
    event: Occurrence,
)
    requires
        terms.input.len() <= usize::MAX,
        possible(terms, events.push(event)),
        ({
            let stage = replay(terms, events).stage;
            stage is Poll || stage is Dispatch || stage is Handle
        }),
    ensures
        ({
            let after = replay(terms, events.push(event));
            ||| after.stage is Poll || after.stage is Dispatch || after.stage is Handle
            ||| after.asked is Finish && after.asked->result is Ok
        }),
{
    assert(events.push(event).drop_last() =~= events);
}

/// Only pipes that are held are registered, read, written to or closed, and
/// events are waited for only once all pipes that are held are registered.
pub proof fn only_held_pipes_are_used(terms: Terms, events: Seq<Occurrence>)
    requires
        terms.input.len() <= usize::MAX,
        possible(terms, events),
    ensures
        ({
            let moment = replay(terms, events);
            let client = moment.stage.client();
            match moment.asked {
                Directive::Register { stream, .. } => client is Some && holds(client->0, stream),
                Directive::Io(Io::Read(stream, len)) => client is Some && holds(client->0, stream)
                    && 0 < len <= BUF_LEN,
                Directive::Io(Io::Write(offset)) => client is Some && holds(
                    client->0,
                    Stream::Stdin,
                ) && offset == client->0.input_offset <= terms.input.len(),
                Directive::Io(Io::Close(stream)) => client is Some && holds(client->0, stream),
                Directive::Poll => client is Some && forall|stream: Stream|
                    holds(client->0, stream) ==> #[trigger] moment.history.registered.contains(
                        stream,
                    ),
                _ => true,
            }
        }),
{
    lemma_replay(terms, events);
}

/// At the end of a batch of events the conversation ends, and with it returns
/// what was kept, exactly where the client has shut down; and it has shut down
/// only where it holds neither output pipe.
pub proof fn conversation_ends_with_shutdown(terms: Terms, events: Seq<Occurrence>)
    requires
        terms.input.len() <= usize::MAX,
        possible(terms, events),
        replay(terms, events).stage is Dispatch,
    ensures
        ({
            let client = replay(terms, events).stage->Dispatch_0;
            let after = replay(terms, events.push(Occurrence::BatchEnd));
            &&& possible(terms, events.push(Occurrence::BatchEnd))
            &&& client.child_shutdown ==> !client.stdout.open && !client.stderr.open && after.asked
                == (Directive::Finish {
                stdout: client.stdout.output,
                stderr: client.stderr.output,
                result: Ok(()),
            })
            &&& !client.child_shutdown ==> after.asked == Directive::Poll
        }),
{
    lemma_replay(terms, events);
    assert(events.push(Occurrence::BatchEnd).drop_last() =~= events);
}

/// Where `return_on_stdout_fill` holds, the rest of standard error is not waited
/// for: once standard output has been read up to its bound, events are not
/// waited for again, unless an output pipe could not be closed.
pub proof fn full_stdout_is_not_waited_past(terms: Terms, events: Seq<Occurrence>)
    requires
        terms.input.len() <= usize::MAX,
        possible(terms, events),
        terms.return_on_stdout_fill,
        replay(terms, events).history.stdout_heard,
        filled(replay(terms, events).history.stdout, terms.stdout_bound),
        !replay(terms, events).history.close_failed,
    ensures
        replay(terms, events).asked != Directive::Poll,
        replay(terms, events).stage is Dispatch ==> replay(
            terms,
            events,
        ).stage->Dispatch_0.child_shutdown,
{
    lemma_replay(terms, events);
}

/// Whatever `return_on_stdout_fill` says, and in whatever order it came about:
/// once standard output has been read up to its bound, and standard error to its
/// end or up to its own bound, events are not waited for again, unless an output
/// pipe could not be closed.
pub proof fn settled_outputs_are_not_waited_past(terms: Terms, events: Seq<Occurrence>)
    requires
        terms.input.len() <= usize::MAX,
        possible(terms, events),
        ({
            let history = replay(terms, events).history;
            &&& history.present.contains(Stream::Stderr)
            &&& history.stdout_heard || history.stderr_heard
            &&& filled(history.stdout, terms.stdout_bound)
            &&& history.stderr_ended || filled(history.stderr, terms.stderr_bound)
            &&& !history.close_failed
        }),
    ensures
        replay(terms, events).asked != Directive::Poll,
        replay(terms, events).stage is Dispatch ==> replay(
            terms,
            events,
        ).stage->Dispatch_0.child_shutdown,
{
    lemma_replay(terms, events);
}

/// Events are waited for only while there is output to come: a child that had an
/// output pipe still has one that is held.
pub proof fn ended_outputs_are_not_waited_past(terms: Terms, events: Seq<Occurrence>)
    requires
        terms.input.len() <= usize::MAX,
        possible(terms, events),
        replay(terms, events).asked == Directive::Poll,
        ({
            let present = replay(terms, events).history.present;
            present.contains(Stream::Stdout) || present.contains(Stream::Stderr)
        }),
    ensures
        ({
            let client = replay(terms, events).stage.client();
            client is Some && (client->0.stdout.open || client->0.stderr.open)
        }),
{
    lemma_replay(terms, events);
}

/// Standard output is read up to its bound while standard error is held but not
/// to be waited for: both are closed, and at the end of the batch the
/// conversation returns what is kept.
pub proof fn stdout_fill_ends_the_conversation(client: ClientState, data: Seq<u8>)
    requires
        client.wf(),
        client.task is Idle,
        client.stdout.open,
        client.stderr.open,
        client.return_on_stdout_fill,
        client.stdout.absorb(data).full(),
    ensures
        ({
            let reading = Stage::Dispatch(client).advance(Occurrence::Ready(client.stdout_token));
            let first = reading.0.advance(Occurrence::Reply(Answer::Data(data)));
            let second = first.0.advance(Occurrence::Reply(Answer::Closed));
            let handled = second.0.advance(Occurrence::Reply(Answer::Closed));
            let last = handled.0.advance(Occurrence::BatchEnd);
            &&& reading.1 == Directive::Io(Io::Read(Stream::Stdout, client.stdout.read_len()))
            &&& first.1 == Directive::Io(Io::Close(Stream::Stderr))
            &&& second.1 == Directive::Io(Io::Close(Stream::Stdout))
            &&& handled.1 == Directive::NextEvent
            &&& last.1 == (Directive::Finish {
                stdout: client.stdout.absorb(data).output,
                stderr: client.stderr.output,
                result: Ok(()),
            })
        }),
{
}

/// One event more.
proof fn lemma_next(terms: Terms, events: Seq<Occurrence>, event: Occurrence)
    requires
        terms.input.len() <= usize::MAX,
        possible(terms, events.push(event)),
    ensures
        ({
            let before = replay(terms, events);
            let after = replay(terms, events.push(event));
            &&& possible(terms, events)
            &&& before.stage.accepts(event)
            &&& within_request(before.asked, event)
            &&& consistent(terms, before)
            &&& consistent(terms, after)
            &&& (after.stage, after.asked) == before.stage.advance(event)
            &&& after.history == before.history.record(terms.input, before.asked, event)
        }),
{
    assert(events.push(event).drop_last() =~= events);
    lemma_replay(terms, events);
    lemma_replay(terms, events.push(event));
}

/// Each of the three pipes is asked for once, whichever of them the child has:
/// standard input, standard output, standard error. Then the poll is created,
/// and no pipe is asked for again.
pub proof fn each_pipe_is_asked_for_once(terms: Terms, events: Seq<Occurrence>)
    requires
        terms.input.len() <= usize::MAX,
        possible(terms, events),
    ensures
        ({
            let asked = replay(terms, events).asked;
            let taken = replay(terms, events).history.taken;
            match asked {
                Directive::Adopt(stream) => {
                    &&& taken.len() < 3
                    &&& !taken.contains(stream)
                    &&& taken.push(stream) == seq![
                        Stream::Stdin,
                        Stream::Stdout,
                        Stream::Stderr,
                    ].take(taken.len() as int + 1)
                },
                Directive::Finish { result: Err(_), .. } => true,
                _ => taken == seq![Stream::Stdin, Stream::Stdout, Stream::Stderr],
            }
        }),
{
    lemma_replay(terms, events);
    let all = seq![Stream::Stdin, Stream::Stdout, Stream::Stderr];
    let taken = replay(terms, events).history.taken;
    match replay(terms, events).asked {
        Directive::Adopt(stream) => {
            assert(taken.push(stream) =~= all.take(taken.len() as int + 1));
        },
        _ => {},
    }
}

/// While the child's pipes are found one by one, the next is asked for, whether
/// or not the child had the ones before.
pub proof fn pipes_are_asked_for_in_order(terms: Terms, events: Seq<Occurrence>)
    requires
        terms.input.len() <= usize::MAX,
        events.len() <= 3,
        forall|i: int| 0 <= i < events.len() ==> #[trigger] events[i] is Adopted,
    ensures
        possible(terms, events),
        replay(terms, events).asked == seq![
            Directive::Adopt(Stream::Stdin),
            Directive::Adopt(Stream::Stdout),
            Directive::Adopt(Stream::Stderr),
            Directive::CreatePoll,
        ][events.len() as int],
        ({
            let present = replay(terms, events).history.present;
            let yes = Occurrence::Adopted(true);
            &&& present.contains(Stream::Stdin) <==> events.len() > 0 && events[0] == yes
            &&& present.contains(Stream::Stdout) <==> events.len() > 1 && events[1] == yes
            &&& present.contains(Stream::Stderr) <==> events.len() > 2 && events[2] == yes
        }),
    decreases events.len(),
{
    if events.len() > 0 {
        let fewer = events.drop_last();
        assert forall|i: int| 0 <= i < fewer.len() implies #[trigger] fewer[i] is Adopted by {
            assert(fewer[i] == events[i]);
        }
        pipes_are_asked_for_in_order(terms, fewer);
        lemma_replay(terms, fewer);
        assert(events[events.len() - 1] is Adopted);
    }
}

/// A pipe is registered under the token by which its events are told, for what
/// it is to be watched for: writing for standard input, reading for the others.
/// It is held and was not registered before; the outputs come first.
pub proof fn pipes_are_registered_for_their_use(terms: Terms, events: Seq<Occurrence>)
    requires
        terms.input.len() <= usize::MAX,
        possible(terms, events),
    ensures
        STDIN_TOKEN != STDOUT_TOKEN && STDOUT_TOKEN != STDERR_TOKEN && STDERR_TOKEN != STDIN_TOKEN,
        ({
            let history = replay(terms, events).history;
            match replay(terms, events).asked {
                Directive::Register { stream, token, interest } => {
                    &&& history.held(stream)
                    &&& !history.registered.contains(stream)
                    &&& match stream {
                        Stream::Stdin => token == STDIN_TOKEN && interest == Interest::Writable,
                        Stream::Stdout => token == STDOUT_TOKEN && interest == Interest::Readable,
                        Stream::Stderr => token == STDERR_TOKEN && interest == Interest::Readable,
                    }
                    &&& stream != Stream::Stdout && history.held(Stream::Stdout)
                        ==> history.registered.contains(Stream::Stdout)
                    &&& stream == Stream::Stdin && history.held(Stream::Stderr)
                        ==> history.registered.contains(Stream::Stderr)
                },
                Directive::Poll | Directive::NextEvent | Directive::Io(_) => forall|stream: Stream|
                    history.held(stream) ==> #[trigger] history.registered.contains(stream),
                _ => true,
            }
        }),
{
    lemma_replay(terms, events);
}

/// Setting up goes on until all pipes are registered: while one that the child
/// has is not, the next action registers one; once all are, events are waited
/// for. A failure ends the conversation with no output and the error that names
/// what failed.
pub proof fn setting_up_goes_on(terms: Terms, events: Seq<Occurrence>, event: Occurrence)
    requires
        terms.input.len() <= usize::MAX,
        possible(terms, events.push(event)),
    ensures
        ({
            let asked = replay(terms, events).asked;
            let after = replay(terms, events.push(event));
            let error = match asked {
                Directive::Adopt(stream) => Some(SetupError::Pipe(stream)),
                Directive::CreatePoll => Some(SetupError::Poll),
                Directive::Register { stream, .. } => Some(SetupError::Register(stream)),
                _ => None,
            };
            &&& error is Some && event is Failed ==> after.asked == (Directive::Finish {
                stdout: Seq::empty(),
                stderr: Seq::empty(),
                result: Err(error->0),
            })
            &&& after.asked is Finish && after.asked->result is Err ==> error is Some && event
                is Failed
            &&& (asked is CreatePoll || asked is Register) && event is Succeeded
                ==> if exists|stream: Stream|
                after.history.present.contains(stream)
                    && !#[trigger] after.history.registered.contains(stream) {
                after.asked is Register
            } else {
                after.asked is Poll
            }
        }),
{
    lemma_next(terms, events, event);
    let after = replay(terms, events.push(event));
    let asked = replay(terms, events).asked;
    if (asked is CreatePoll || asked is Register) && event is Succeeded {
        assert(forall|stream: Stream| #[trigger]
            after.history.present.contains(stream) ==> after.history.held(stream));
        assert(after.history.registered.contains(Stream::Stdin)
            || !after.history.registered.contains(Stream::Stdin));
        match after.asked {
            Directive::Register { stream, .. } => {
                assert(after.history.present.contains(stream)
                    && !after.history.registered.contains(stream));
            },
            _ => {},
        }
    }
}

/// What can happen, told from what is asked for and what has passed alone. A pipe
/// that is to be read must be held, and standard input must be held where it is
/// to be written to next.
pub open spec fn may_happen(terms: Terms, moment: Moment, event: Occurrence) -> bool {
    let history = moment.history;
    let after = history.record(terms.input, moment.asked, event);
    match moment.asked {
        Directive::Adopt(_) => event is Adopted || event is Failed,
        Directive::CreatePoll | Directive::Register { .. } => event is Succeeded || event is Failed,
        Directive::Poll => event is Succeeded,
        Directive::NextEvent => match event {
            Occurrence::BatchEnd => true,
            Occurrence::Ready(token) => history.over() || history.held(
                if token == STDERR_TOKEN {
                    Stream::Stderr
                } else {
                    Stream::Stdout
                },
            ),
            _ => false,
        },
        Directive::Io(io) => event is Reply && ({
            let answer = event->Reply_0;
            &&& match io {
                Io::Read(..) => answer is Data || answer is Blocked || answer is Failed,
                Io::Write(offset) => answer is Blocked || answer is Failed || (answer is Written
                    && answer->Written_0 <= terms.input.len() - offset),
                Io::Close(_) => answer is Closed || answer is Failed,
            }
            &&& stdin_is_next(terms, io, answer, after) ==> after.held(Stream::Stdin)
        }),
        Directive::Finish { .. } => false,
    }
}

/// Which pipe, if any, is to be closed once `data` has come from standard output;
/// `history` has it already. Standard output is at its bound, and standard error
/// is not to be waited for, is closed, or is at its own bound: both are closed,
/// standard error first. Standard output has ended, or went beyond its bound with
/// no standard error to wait for: it is closed.
pub open spec fn closed_after_stdout(terms: Terms, history: History, data: Seq<u8>) -> Option<
    Stream,
> {
    let enough = filled(history.stdout, terms.stdout_bound) && (terms.return_on_stdout_fill
        || history.closed.contains(Stream::Stderr) || (history.held(Stream::Stderr) && filled(
        history.stderr,
        terms.stderr_bound,
    )));
    if enough && history.held(Stream::Stderr) {
        Some(Stream::Stderr)
    } else if enough || data.len() == 0 || (beyond(history.stdout, terms.stdout_bound)
        && !history.held(Stream::Stderr)) {
        Some(Stream::Stdout)
    } else {
        None
    }
}

/// Which pipe, if any, is to be closed once `data` has come from standard error;
/// `history` has it already. Standard output is at its bound, and standard error
/// has ended or is at its own: both are closed, standard output first. Standard
/// error has ended, or went beyond its bound with no standard output to wait for:
/// it is closed.
pub open spec fn closed_after_stderr(terms: Terms, history: History, data: Seq<u8>) -> Option<
    Stream,
> {
    let enough = filled(history.stdout, terms.stdout_bound) && (data.len() == 0 || filled(
        history.stderr,
        terms.stderr_bound,
    ));
    if enough && history.held(Stream::Stdout) {
        Some(Stream::Stdout)
    } else if enough || data.len() == 0 || (beyond(history.stderr, terms.stderr_bound)
        && !history.held(Stream::Stdout)) {
        Some(Stream::Stderr)
    } else {
        None
    }
}

/// Whether standard input is written to next, after `answer` to `io`: the last
/// event was that of standard input, standard output has been seen to, and the
/// conversation is not over. `history` has the answer already.
pub open spec fn stdin_is_next(terms: Terms, io: Io, answer: Answer, history: History) -> bool {
    &&& history.token == Some(STDIN_TOKEN)
    &&& history.served == Some(Stream::Stdout)
    &&& !history.over()
    &&& match io {
        Io::Read(..) => answer is Data ==> closed_after_stdout(
            terms,
            history,
            answer->Data_0,
        ) is None,
        Io::Close(Stream::Stderr) => answer is Failed,
        Io::Close(_) => true,
        Io::Write(_) => false,
    }
}

/// A conversation accepts exactly what can happen.
pub proof fn what_can_happen_is_accepted(terms: Terms, events: Seq<Occurrence>, event: Occurrence)
    requires
        terms.input.len() <= usize::MAX,
        possible(terms, events),
        within_request(replay(terms, events).asked, event),
    ensures
        replay(terms, events).stage.accepts(event) <==> may_happen(
            terms,
            replay(terms, events),
            event,
        ),
{
    lemma_replay(terms, events);
    let moment = replay(terms, events);
    match (moment.stage, event) {
        (Stage::Handle(client), Occurrence::Reply(answer)) => {
            lemma_decision(terms, client, moment.history, answer);
        },
        _ => {},
    }
}

/// The bounds as the client counts them are the bounds on what has been read.
proof fn lemma_decision(terms: Terms, client: ClientState, history: History, answer: Answer)
    requires
        client_consistent(terms, client, history),
        !(client.task is Idle),
        within_request(pending(client), Occurrence::Reply(answer)),
    ensures
        ({
            let told = history.answered(terms.input, pending(client)->Io_0, answer);
            &&& client.stdout.full() == filled(history.stdout, terms.stdout_bound)
            &&& client.stderr.full() == filled(history.stderr, terms.stderr_bound)
            &&& answer is Data && client.task is ReadStdout ==> {
                &&& client.stdout.absorb(answer->Data_0).full() == filled(
                    told.stdout,
                    terms.stdout_bound,
                )
                &&& answer->Data_0.len() > 0 ==> client.stdout.overruns(answer->Data_0) == beyond(
                    told.stdout,
                    terms.stdout_bound,
                )
            }
            &&& answer is Data && client.task is ReadStderr ==> {
                &&& client.stderr.absorb(answer->Data_0).full() == filled(
                    told.stderr,
                    terms.stderr_bound,
                )
                &&& answer->Data_0.len() > 0 ==> client.stderr.overruns(answer->Data_0) == beyond(
                    told.stderr,
                    terms.stderr_bound,
                )
            }
        }),
{
}

/// Every event of the poll is acted on until the conversation is over: that of
/// standard error has standard error read, any other has standard output read.
/// Once it is over, events are passed by. A batch that has been gone through is
/// followed by another wait, or, once it is over, by the end, with what was read
/// of each output, up to its bound.
pub proof fn every_event_is_acted_on(terms: Terms, events: Seq<Occurrence>, event: Occurrence)
    requires
        terms.input.len() <= usize::MAX,
        possible(terms, events.push(event)),
    ensures
        ({
            let before = replay(terms, events);
            let after = replay(terms, events.push(event));
            let history = before.history;
            &&& before.asked is Poll ==> after.asked is NextEvent
            &&& before.asked is NextEvent && event is Ready ==> if history.over() {
                after.asked is NextEvent
            } else if event->Ready_0 == STDERR_TOKEN {
                after.asked is Io && after.asked->Io_0 is Read && after.asked->Io_0->Read_0
                    == Stream::Stderr
            } else {
                after.asked is Io && after.asked->Io_0 is Read && after.asked->Io_0->Read_0
                    == Stream::Stdout
            }
            &&& before.asked is NextEvent && event is BatchEnd ==> if history.over() {
                after.asked == (Directive::Finish {
                    stdout: clip(history.stdout, terms.stdout_bound),
                    stderr: clip(history.stderr, terms.stderr_bound),
                    result: Ok(()),
                })
            } else {
                after.asked is Poll
            }
        }),
{
    lemma_next(terms, events, event);
}

/// A read asks for as much as may still be kept, but for no more than a buffer;
/// where nothing more may be kept, for a buffer.
pub proof fn reads_ask_for_the_room_left(terms: Terms, events: Seq<Occurrence>)
    requires
        terms.input.len() <= usize::MAX,
        possible(terms, events),
    ensures
        ({
            let history = replay(terms, events).history;
            match replay(terms, events).asked {
                Directive::Io(Io::Read(stream, len)) => {
                    let bytes = if stream == Stream::Stdout {
                        history.stdout
                    } else {
                        history.stderr
                    };
                    let bound = if stream == Stream::Stdout {
                        terms.stdout_bound
                    } else {
                        terms.stderr_bound
                    };
                    &&& stream != Stream::Stdin
                    &&& history.held(stream)
                    &&& bound is None || filled(bytes, bound) ==> len == BUF_LEN
                    &&& bound is Some && !filled(bytes, bound) ==> {
                        &&& bound->0 - bytes.len() <= BUF_LEN ==> len == bound->0 - bytes.len()
                        &&& bound->0 - bytes.len() > BUF_LEN ==> len == BUF_LEN
                    }
                },
                Directive::Io(Io::Write(offset)) => {
                    &&& history.held(Stream::Stdin)
                    &&& history.token == Some(STDIN_TOKEN)
                    &&& offset == history.stdin.len()
                    &&& history.stdin == terms.input.take(offset as int)
                },
                Directive::Io(Io::Close(stream)) => history.held(stream),
                _ => true,
            }
        }),
{
    lemma_replay(terms, events);
}

/// What follows a read. Data or an end may have pipes closed. Otherwise the event
/// is done with, but for that of standard input, which has standard input
/// written to next. A read that would block or fails changes nothing of that.
pub proof fn what_follows_a_read(terms: Terms, events: Seq<Occurrence>, answer: Answer)
    requires
        terms.input.len() <= usize::MAX,
        possible(terms, events.push(Occurrence::Reply(answer))),
        replay(terms, events).asked is Io,
        replay(terms, events).asked->Io_0 is Read,
    ensures
        ({
            let stream = replay(terms, events).asked->Io_0->Read_0;
            let after = replay(terms, events.push(Occurrence::Reply(answer)));
            let closed = if !(answer is Data) {
                None
            } else if stream == Stream::Stdout {
                closed_after_stdout(terms, after.history, answer->Data_0)
            } else {
                closed_after_stderr(terms, after.history, answer->Data_0)
            };
            match closed {
                Some(pipe) => after.asked == Directive::Io(Io::Close(pipe)),
                None => if stream == Stream::Stdout && after.history.token == Some(STDIN_TOKEN) {
                    after.asked is Io && after.asked->Io_0 is Write
                } else {
                    after.asked is NextEvent
                },
            }
        }),
{
    let before = replay(terms, events);
    lemma_next(terms, events, Occurrence::Reply(answer));
    lemma_decision(terms, before.stage->Handle_0, before.history, answer);
}

/// What follows a write: standard input is closed once all of the input has been
/// sent, or the write failed or wrote nothing. Otherwise the event is done with.
pub proof fn what_follows_a_write(terms: Terms, events: Seq<Occurrence>, answer: Answer)
    requires
        terms.input.len() <= usize::MAX,
        possible(terms, events.push(Occurrence::Reply(answer))),
        replay(terms, events).asked is Io,
        replay(terms, events).asked->Io_0 is Write,
    ensures
        ({
            let after = replay(terms, events.push(Occurrence::Reply(answer)));
            if after.history.stdin.len() == terms.input.len() || answer is Failed || answer
                == Answer::Written(0) {
                after.asked == Directive::Io(Io::Close(Stream::Stdin))
            } else {
                after.asked is NextEvent
            }
        }),
{
    lemma_next(terms, events, Occurrence::Reply(answer));
    let before = replay(terms, events);
    assert(before.stage is Handle);
    assert(replay(terms, events.push(Occurrence::Reply(answer))).history.stdin
        == terms.input.take(
        replay(
            terms,
            events.push(Occurrence::Reply(answer)),
        ).stage.client()->0.input_offset as int,
    ));
}

/// What follows the closing of a pipe. Where the pipe that was read gave the
/// reason to close the other one, it is closed next. Otherwise, or where the
/// closing failed, the event is done with, but for that of standard input, which
/// has standard input written to next unless the conversation is over.
pub proof fn what_follows_a_close(terms: Terms, events: Seq<Occurrence>, answer: Answer)
    requires
        terms.input.len() <= usize::MAX,
        possible(terms, events.push(Occurrence::Reply(answer))),
        replay(terms, events).asked is Io,
        replay(terms, events).asked->Io_0 is Close,
    ensures
        ({
            let stream = replay(terms, events).asked->Io_0->Close_0;
            let after = replay(terms, events.push(Occurrence::Reply(answer)));
            let served = after.history.served;
            &&& served is Some
            &&& stream == Stream::Stdin <==> served == Some(Stream::Stdin)
            &&& if answer is Closed && served != Some(stream) {
                after.asked == Directive::Io(Io::Close(served->0))
            } else if served == Some(Stream::Stdout) && after.history.token == Some(STDIN_TOKEN)
                && !after.history.over() {
                after.asked is Io && after.asked->Io_0 is Write
            } else {
                after.asked is NextEvent
            }
        }),
{
    lemma_next(terms, events, Occurrence::Reply(answer));
}

/// From the creation of the poll to the end, the client can be looked at, and it
/// shows what has passed: what it holds, what it has kept, how much it has sent,
/// and whether the conversation is over.
pub proof fn the_client_shows_what_has_passed(terms: Terms, events: Seq<Occurrence>)
    requires
        terms.input.len() <= usize::MAX,
        possible(terms, events),
    ensures
        ({
            let moment = replay(terms, events);
            let history = moment.history;
            let client = moment.stage.client();
            &&& client is None <==> moment.asked is Adopt || moment.asked is Finish
            &&& client is Some ==> {
                &&& client->0.stdin == history.held(Stream::Stdin)
                &&& client->0.stdout.open == history.held(Stream::Stdout)
                &&& client->0.stderr.open == history.held(Stream::Stderr)
                &&& client->0.stderr.given_up == (history.present.contains(Stream::Stderr)
                    && !history.held(Stream::Stderr))
                &&& client->0.stdout.output == clip(history.stdout, terms.stdout_bound)
                &&& client->0.stderr.output == clip(history.stderr, terms.stderr_bound)
                &&& client->0.input == terms.input
                &&& client->0.input_offset == history.stdin.len()
                &&& client->0.child_shutdown == history.over()
                &&& client->0.has_shutdown == history.over()
                &&& client->0.stdin_token == STDIN_TOKEN
                &&& client->0.stdout_token == STDOUT_TOKEN
                &&& client->0.stderr_token == STDERR_TOKEN
            }
        }),
{
    lemma_replay(terms, events);
}

/// An action means what it says: above all, what is returned as standard output
/// is what was kept of standard output, and likewise for standard error.
pub proof fn actions_mean_what_they_say(action: Action)
    ensures
        match action {
            Action::Adopt(stream) => action@ == Directive::Adopt(stream),
            Action::CreatePoll => action@ is CreatePoll,
            Action::Register { stream, token, interest } => action@ == (Directive::Register {
                stream,
                token,
                interest,
            }),
            Action::Poll => action@ is Poll,
            Action::NextEvent => action@ is NextEvent,
            Action::Io(io) => action@ == Directive::Io(io),
            Action::Finish { stdout, stderr, result } => action@ == (Directive::Finish {
                stdout: stdout@,
                stderr: stderr@,
                result,
            }),
        },
{
}

/// An event is taken for what it is.
pub proof fn events_mean_what_they_say(event: Event<'_>)
    ensures
        match event {
            Event::Adopted(present) => event@ == Occurrence::Adopted(present),
            Event::Succeeded => event@ is Succeeded,
            Event::Failed => event@ is Failed,
            Event::Ready(token) => event@ == Occurrence::Ready(token),
            Event::BatchEnd => event@ is BatchEnd,
            Event::Reply(reply) => event@ == Occurrence::Reply(reply@),
        },
{
}

} // verus!
