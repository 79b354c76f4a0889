//! What the handlers do as a whole, and what follows from it.

use crate::capture::{CaptureState, BUF_LEN};
use crate::client::{
    Answer, ClientState, Failure, Io, Reply, Step, Stream, Task, STDERR_TOKEN, STDIN_TOKEN,
};
use vstd::prelude::*;

verus! {

/// How the world answers while one event is handled: what comes of reading the
/// output pipe, of writing to standard input, and of closing each pipe.
pub struct World {
    pub read: Answer,
    pub write: Answer,
    pub closes: spec_fn(Stream) -> bool,
}

impl World {
    /// The answer to `io`.
    pub open spec fn answer(self, io: Io) -> Answer {
        match io {
            Io::Read(..) => self.read,
            Io::Write(_) => self.write,
            Io::Close(stream) => if (self.closes)(stream) {
                Answer::Closed
            } else {
                Answer::Failed
            },
        }
    }

    /// Whether the read is answered as a read can be.
    pub open spec fn answers_read(self) -> bool {
        self.read is Data || self.read is Blocked || self.read is Failed
    }

    /// Whether the write is answered as it can be in the state `client`: it
    /// cannot have written more than it was given.
    pub open spec fn answers_write(self, client: ClientState) -> bool {
        self.write is Blocked || self.write is Failed || (self.write is Written
            && self.write->Written_0 <= client.input.len() - client.input_offset)
    }
}

/// How many more actions the handlers can ask for at most.
pub open spec fn actions_left(task: Task) -> nat {
    match task {
        Task::Idle => 0,
        Task::CloseStdin => 1,
        Task::WriteStdin => 2,
        Task::CloseStdout { .. } => 3,
        Task::CloseStderrFirst { .. } => 4,
        Task::ReadStdout { .. } => 5,
        Task::CloseStderr => 1,
        Task::CloseStdoutFirst => 2,
        Task::ReadStderr => 3,
    }
}

/// Each answer brings the handlers closer to their end: an event is handled in
/// at most five actions.
pub proof fn handlers_come_to_an_end(client: ClientState, answer: Answer)
    requires
        !(client.task is Idle),
    ensures
        actions_left(client.resume(answer).0.task) < actions_left(client.task) <= 5,
        client.resume(answer).1 is Done <==> client.resume(answer).0.task is Idle,
{
}

/// Carries a handler that has come to `moved` on to its end.
pub open spec fn play(moved: (ClientState, Step), world: World) -> (
    ClientState,
    Result<(), Failure>,
)
    decreases actions_left(moved.0.task),
{
    let (client, step) = moved;
    match step {
        Step::Done(result) => (client, result),
        Step::Io(io) => if client.task is Idle {
            (client, Ok(()))
        } else {
            proof {
                handlers_come_to_an_end(client, world.answer(io));
            }
            play(client.resume(world.answer(io)), world)
        },
    }
}

/// Standard output is closed. The conversation is over if standard error is not
/// held either.
pub open spec fn after_stdout_end(client: ClientState, world: World) -> (
    ClientState,
    Result<(), Failure>,
) {
    if (world.closes)(Stream::Stdout) {
        (ClientState { stdout: client.stdout.closed(), ..client }.shut_down_if_deaf(), Ok(()))
    } else {
        (client, Err(Failure::Close(Stream::Stdout)))
    }
}

/// Standard error is closed. The conversation is over if standard output is not
/// held either.
pub open spec fn after_stderr_end(client: ClientState, world: World) -> (
    ClientState,
    Result<(), Failure>,
) {
    if (world.closes)(Stream::Stderr) {
        (ClientState { stderr: client.stderr.closed(), ..client }.shut_down_if_deaf(), Ok(()))
    } else {
        (client, Err(Failure::Close(Stream::Stderr)))
    }
}

/// What the handler for standard output does as a whole.
pub open spec fn after_readable(client: ClientState, world: World) -> (
    ClientState,
    Result<(), Failure>,
) {
    if client.has_shutdown {
        (client, Ok(()))
    } else if world.read is Failed {
        (client, Err(Failure::Read(Stream::Stdout)))
    } else if world.read is Data {
        let data = world.read->Data_0;
        let fed = ClientState { stdout: client.stdout.absorb(data), ..client };
        if fed.stdout_fill_returns() {
            if client.stderr.open && !(world.closes)(Stream::Stderr) {
                (fed, Err(Failure::Close(Stream::Stderr)))
            } else {
                after_stdout_end(ClientState { stderr: client.stderr.closed(), ..fed }, world)
            }
        } else if data.len() == 0 || (client.stdout.overruns(data) && !client.stderr.open) {
            after_stdout_end(fed, world)
        } else {
            (fed, Ok(()))
        }
    } else {
        (client, Ok(()))
    }
}

/// What the handler for standard error does as a whole.
pub open spec fn after_readable_stderr(client: ClientState, world: World) -> (
    ClientState,
    Result<(), Failure>,
) {
    if client.has_shutdown {
        (client, Ok(()))
    } else if world.read is Failed {
        (client, Err(Failure::Read(Stream::Stderr)))
    } else if world.read is Data {
        let data = world.read->Data_0;
        let fed = ClientState { stderr: client.stderr.absorb(data), ..client };
        if fed.stderr_wait_returns(data.len() == 0) {
            if client.stdout.open && !(world.closes)(Stream::Stdout) {
                (fed, Err(Failure::Close(Stream::Stdout)))
            } else {
                after_stderr_end(ClientState { stdout: client.stdout.closed(), ..fed }, world)
            }
        } else if data.len() == 0 || (client.stderr.overruns(data) && !client.stdout.open) {
            after_stderr_end(fed, world)
        } else {
            (fed, Ok(()))
        }
    } else {
        (client, Ok(()))
    }
}

/// What the handler for standard input does as a whole.
pub open spec fn after_writable(client: ClientState, world: World) -> (
    ClientState,
    Result<(), Failure>,
) {
    let written: usize = if world.write is Written {
        world.write->Written_0
    } else {
        0
    };
    let fed = ClientState { input_offset: (client.input_offset + written) as usize, ..client };
    if client.has_shutdown {
        (client, Ok(()))
    } else if fed.input_offset < fed.input.len() && (world.write is Blocked || written > 0) {
        (fed, Ok(()))
    } else if (world.closes)(Stream::Stdin) {
        (ClientState { stdin: false, ..fed }.shut_down_if_deaf(), Ok(()))
    } else {
        (fed, Err(Failure::Close(Stream::Stdin)))
    }
}

/// What is done about an event as a whole.
pub open spec fn after_ready(client: ClientState, token: usize, world: World) -> ClientState {
    if token == client.stderr_token {
        after_readable_stderr(client, world).0
    } else if token == client.stdin_token {
        after_writable(after_readable(client, world).0, world).0
    } else {
        after_readable(client, world).0
    }
}

/// The handler for standard output, carried through all its steps, does what
/// [`after_readable`] says.
pub proof fn readable_as_a_whole(client: ClientState, world: World)
    requires
        client.wf(),
        client.task is Idle,
        client.has_shutdown || client.stdout.open,
        world.answers_read(),
    ensures
        play(client.readable(false), world) == after_readable(client, world),
{
    reveal_with_fuel(play, 4);
}

/// The handler for standard error, carried through all its steps, does what
/// [`after_readable_stderr`] says.
pub proof fn readable_stderr_as_a_whole(client: ClientState, world: World)
    requires
        client.wf(),
        client.task is Idle,
        client.has_shutdown || client.stderr.open,
        world.answers_read(),
    ensures
        play(client.readable_stderr(), world) == after_readable_stderr(client, world),
{
    reveal_with_fuel(play, 4);
}

/// The handler for standard input, carried through all its steps, does what
/// [`after_writable`] says.
pub proof fn writable_as_a_whole(client: ClientState, world: World)
    requires
        client.wf(),
        client.task is Idle,
        client.has_shutdown || client.stdin,
        world.answers_write(client),
    ensures
        play(client.writable(), world) == after_writable(client, world),
{
    reveal_with_fuel(play, 3);
}

/// Where standard input is to be written to as well, the handler for standard
/// output leads on to that for standard input.
proof fn lemma_readable_leads_on(client: ClientState, world: World)
    requires
        client.wf(),
        client.task is Idle,
        client.has_shutdown || client.stdout.open,
        world.answers_read(),
        world.answers_write(client),
    ensures
        play(client.readable(true), world) == play(
            after_readable(client, world).0.writable(),
            world,
        ),
        after_readable(client, world).0.wf(),
        after_readable(client, world).0.task is Idle,
        world.answers_write(after_readable(client, world).0),
{
    if !client.has_shutdown {
        let reading = client.readable(true).0;
        let first = reading.resume(world.read);
        assert(play(client.readable(true), world) == play(first, world));
        if first.1 == Step::Io(Io::Close(Stream::Stderr)) {
            let second = first.0.resume(world.answer(Io::Close(Stream::Stderr)));
            assert(play(first, world) == play(second, world));
            if second.1 == Step::Io(Io::Close(Stream::Stdout)) {
                let third = second.0.resume(world.answer(Io::Close(Stream::Stdout)));
                assert(play(second, world) == play(third, world));
            }
        } else if first.1 == Step::Io(Io::Close(Stream::Stdout)) {
            let second = first.0.resume(world.answer(Io::Close(Stream::Stdout)));
            assert(play(first, world) == play(second, world));
        }
    }
}

/// An event, carried through all its steps, has the effect of its handlers one
/// after the other: for standard input, first that for standard output.
pub proof fn ready_as_a_whole(client: ClientState, token: usize, world: World)
    requires
        client.wf(),
        client.can_take(token),
        token == client.stdin_token ==> client.stdin || after_readable(client, world).0.has_shutdown,
        world.answers_read(),
        token == client.stdin_token ==> world.answers_write(client),
    ensures
        play(client.ready(token), world).0 == after_ready(client, token, world),
{
    if token == client.stderr_token {
        readable_stderr_as_a_whole(client, world);
    } else if token == client.stdin_token {
        lemma_readable_leads_on(client, world);
        writable_as_a_whole(after_readable(client, world).0, world);
    } else {
        readable_as_a_whole(client, world);
    }
}

/// Once the conversation is over, events change nothing and ask for nothing.
pub proof fn shutdown_is_final(client: ClientState, token: usize)
    requires
        client.wf(),
        client.has_shutdown,
    ensures
        client.can_take(token),
        client.ready(token) == (client, Step::Done(Ok(()))),
{
}

/// An answer ends the conversation only where it leaves no output pipe held.
pub proof fn shutdown_is_for_want_of_output(client: ClientState, answer: Answer)
    requires
        client.wf(),
        client.accepts(answer),
        !client.has_shutdown,
        client.resume(answer).0.has_shutdown,
    ensures
        client.resume(answer).0.child_shutdown,
        !client.resume(answer).0.stdout.open,
        !client.resume(answer).0.stderr.open,
{
}

/// Standard output reaches its bound, or ends at it, and standard error is not to
/// be waited for: the conversation is over, and standard error is given up as
/// it is.
pub proof fn stdout_fill_returns(client: ClientState, data: Seq<u8>, world: World)
    requires
        client.wf(),
        client.task is Idle,
        client.stdout.open,
        client.return_on_stdout_fill,
        client.stdout.absorb(data).full(),
        world.read == Answer::Data(data),
        (world.closes)(Stream::Stdout) && (world.closes)(Stream::Stderr),
    ensures
        play(client.readable(false), world).0 == (ClientState {
            stdout: client.stdout.absorb(data).closed(),
            stderr: client.stderr.closed(),
            has_shutdown: true,
            child_shutdown: true,
            ..client
        }),
{
    readable_as_a_whole(client, world);
}

/// Standard output reaches its bound while standard error is to be waited for,
/// is held and may still be kept: what overruns the bound is thrown away, both
/// pipes stay and the conversation goes on.
pub proof fn stdout_fill_waits_for_stderr(client: ClientState, data: Seq<u8>, world: World)
    requires
        client.wf(),
        client.task is Idle,
        client.stdout.open,
        client.stderr.open,
        !client.return_on_stdout_fill,
        !client.stderr.full(),
        data.len() > 0,
        client.stdout.absorb(data).full(),
        world.read == Answer::Data(data),
    ensures
        play(client.readable(false), world).0 == (ClientState {
            stdout: client.stdout.absorb(data),
            ..client
        }),
{
    readable_as_a_whole(client, world);
}

/// Once `data` is taken in, standard output is at its bound, and standard error
/// has been closed, ends, or is at its own bound: the conversation is over,
/// whichever of the two came last, and whether or not standard error was to be
/// waited for.
pub proof fn settled_outputs_return(client: ClientState, data: Seq<u8>, world: World)
    requires
        client.wf(),
        client.task is Idle,
        world.read == Answer::Data(data),
        (world.closes)(Stream::Stdout) && (world.closes)(Stream::Stderr),
    ensures
        client.stdout.open && client.stdout.absorb(data).full() && (client.stderr.given_up || (
        client.stderr.open && client.stderr.full())) ==> play(
            client.readable(false),
            world,
        ).0.child_shutdown,
        client.stderr.open && (data.len() == 0 || client.stderr.absorb(data).full())
            && client.stdout.full() ==> play(client.readable_stderr(), world).0.child_shutdown,
{
    if client.stdout.open {
        readable_as_a_whole(client, world);
    }
    if client.stderr.open {
        readable_stderr_as_a_whole(client, world);
    }
}

/// An output pipe overruns its bound while the other is not held: the
/// conversation is over.
pub proof fn overrun_of_the_last_output_returns(
    client: ClientState,
    data: Seq<u8>,
    world: World,
)
    requires
        client.wf(),
        client.task is Idle,
        world.read == Answer::Data(data),
        (world.closes)(Stream::Stdout) && (world.closes)(Stream::Stderr),
    ensures
        client.stdout.open && client.stdout.overruns(data) && !client.stderr.open ==> play(
            client.readable(false),
            world,
        ).0.child_shutdown,
        client.stderr.open && client.stderr.overruns(data) && !client.stdout.open ==> play(
            client.readable_stderr(),
            world,
        ).0.child_shutdown,
{
    if client.stdout.open {
        readable_as_a_whole(client, world);
    }
    if client.stderr.open {
        readable_stderr_as_a_whole(client, world);
    }
}

/// A pipe ends, and the bounds do not end the conversation: it is closed, and
/// the conversation is over exactly where the other output pipe is not held.
pub proof fn end_of_output(client: ClientState, world: World)
    requires
        client.wf(),
        client.task is Idle,
        world.read == Answer::Data(Seq::empty()),
        (world.closes)(Stream::Stdout) && (world.closes)(Stream::Stderr),
    ensures
        client.stdout.open && !client.stdout_fill_returns() ==> ({
            let after = play(client.readable(false), world).0;
            &&& after.stdout == client.stdout.closed()
            &&& after.stderr == client.stderr
            &&& after.child_shutdown <==> !client.stderr.open
        }),
        client.stderr.open && !client.stdout.full() ==> ({
            let after = play(client.readable_stderr(), world).0;
            &&& after.stderr == client.stderr.closed()
            &&& after.stdout == client.stdout
            &&& after.child_shutdown <==> !client.stdout.open
        }),
{
    lemma_nothing_to_absorb(client.stdout);
    lemma_nothing_to_absorb(client.stderr);
    if client.stdout.open {
        readable_as_a_whole(client, world);
    }
    if client.stderr.open {
        readable_stderr_as_a_whole(client, world);
    }
}

proof fn lemma_nothing_to_absorb(capture: CaptureState)
    ensures
        capture.absorb(Seq::empty()) == capture,
{
    assert(capture.output + Seq::<u8>::empty() =~= capture.output);
}

/// Data that does not overrun the bound is kept to the last byte. It closes
/// nothing unless it uses the bound up and so ends the conversation.
pub proof fn data_within_the_bound_is_kept(client: ClientState, data: Seq<u8>, world: World)
    requires
        client.wf(),
        client.task is Idle,
        data.len() > 0,
        world.read == Answer::Data(data),
    ensures
        client.stdout.open && !client.stdout.overruns(data) ==> ({
            let fed = ClientState { stdout: client.stdout.absorb(data), ..client };
            let after = play(client.readable(false), world).0;
            &&& after.stdout.output == client.stdout.output + data
            &&& !fed.stdout_fill_returns() ==> after == fed
        }),
        client.stderr.open && !client.stderr.overruns(data) ==> ({
            let fed = ClientState { stderr: client.stderr.absorb(data), ..client };
            let after = play(client.readable_stderr(), world).0;
            &&& after.stderr.output == client.stderr.output + data
            &&& !fed.stderr_wait_returns(false) ==> after == fed
        }),
{
    if client.stdout.open {
        readable_as_a_whole(client, world);
    }
    if client.stderr.open {
        readable_stderr_as_a_whole(client, world);
    }
}

/// A pipe that cannot be taken out of the poll stays held, and the conversation
/// goes on.
pub proof fn failed_close_keeps_the_pipe(client: ClientState, token: usize, world: World)
    requires
        client.wf(),
        client.can_take(token),
        token == client.stdin_token ==> client.stdin && world.answers_write(client),
        !client.has_shutdown,
        forall|stream: Stream| !(#[trigger] (world.closes)(stream)),
        world.answers_read(),
    ensures
        ({
            let after = play(client.ready(token), world).0;
            &&& after.stdin == client.stdin
            &&& after.stdout.open == client.stdout.open
            &&& after.stderr.open == client.stderr.open
            &&& !after.child_shutdown
        }),
{
    ready_as_a_whole(client, token, world);
}

/// Standard input is closed exactly when all of the input has been written, the
/// write failed, or it wrote nothing.
pub proof fn stdin_is_closed_when_done(client: ClientState, world: World)
    requires
        client.wf(),
        client.task is Idle,
        client.stdin,
        !client.has_shutdown,
        (world.closes)(Stream::Stdin),
        world.answers_write(client),
    ensures
        ({
            let after = play(client.writable(), world).0;
            !after.stdin <==> after.input_offset == after.input.len() || world.write is Failed
                || world.write == Answer::Written(0)
        }),
{
    writable_as_a_whole(client, world);
}

/// No read asks for nothing, for more than a buffer, or, while there is room
/// left, for more than may be kept; and it asks for no less than that allows.
pub proof fn reads_are_bounded(capture: CaptureState)
    ensures
        0 < capture.read_len() <= BUF_LEN,
        capture.bound is Some && !capture.full() ==> capture.read_len() <= capture.bound->0,
        capture.read_len() < BUF_LEN ==> capture.bound == Some(capture.read_len()),
{
}

/// What fits into the room left is kept, behind what was kept before, and takes
/// up as much of the room. What does not fit leaves what was kept as it is, and
/// no room. A capture is full where no room is left.
pub proof fn a_capture_keeps_what_fits(capture: CaptureState, data: Seq<u8>)
    ensures
        ({
            let next = capture.absorb(data);
            &&& next.open == capture.open && next.given_up == capture.given_up
            &&& match capture.bound {
                None => {
                    &&& !capture.overruns(data)
                    &&& !capture.full()
                    &&& next.output == capture.output + data
                    &&& next.bound is None
                },
                Some(room) => {
                    &&& capture.overruns(data) <==> data.len() > room
                    &&& capture.full() <==> room == 0
                    &&& next.bound is Some
                    &&& data.len() <= room ==> next.output == capture.output + data
                        && next.bound->0 + data.len() == room
                    &&& data.len() > room ==> next.output == capture.output && next.bound->0 == 0
                },
            }
        }),
{
}

/// A conversation begins with the pipes that there are, all of the input to be
/// sent, nothing kept, and all of the bounds left.
pub proof fn a_conversation_begins_afresh(
    stdin: bool,
    stdout: bool,
    stderr: bool,
    input: Seq<u8>,
    stdout_bound: Option<usize>,
    stderr_bound: Option<usize>,
    return_on_stdout_fill: bool,
)
    ensures
        ({
            let client = ClientState::fresh(
                stdin,
                stdout,
                stderr,
                input,
                stdout_bound,
                stderr_bound,
                return_on_stdout_fill,
            );
            &&& client.stdin == stdin
            &&& client.stdout.open == stdout && client.stderr.open == stderr
            &&& !client.stdout.given_up && !client.stderr.given_up
            &&& client.stdout.output == Seq::<u8>::empty()
            &&& client.stderr.output == Seq::<u8>::empty()
            &&& client.stdout.bound == stdout_bound && client.stderr.bound == stderr_bound
            &&& client.input == input && client.input_offset == 0
            &&& client.return_on_stdout_fill == return_on_stdout_fill
            &&& !client.has_shutdown && !client.child_shutdown
            &&& client.task is Idle
        }),
{
}

/// Starting a handler changes nothing but the point of suspension. Once the
/// conversation is over it asks for nothing; before, it asks for the pipe that it
/// is for: a read of the output, or a write of what has not been sent.
pub proof fn a_handler_starts_with_its_pipe(client: ClientState, token: usize, write_after: bool)
    requires
        client.wf(),
        client.task is Idle,
    ensures
        ({
            let (reading, read) = client.readable(write_after);
            let (reading_err, read_err) = client.readable_stderr();
            let (writing, write) = client.writable();
            &&& reading == (ClientState { task: reading.task, ..client })
            &&& reading_err == (ClientState { task: reading_err.task, ..client })
            &&& writing == (ClientState { task: writing.task, ..client })
            &&& client.has_shutdown ==> read == Step::Done(Ok(())) && read_err == Step::Done(Ok(()))
                && write == Step::Done(Ok(())) && reading == client && reading_err == client
                && writing == client
            &&& !client.has_shutdown ==> {
                &&& reading.task == (Task::ReadStdout { write_after })
                &&& read is Io && read->Io_0 is Read && read->Io_0->Read_0 == Stream::Stdout
                &&& reading_err.task is ReadStderr
                &&& read_err is Io && read_err->Io_0 is Read && read_err->Io_0->Read_0
                    == Stream::Stderr
                &&& writing.task is WriteStdin
                &&& write == Step::Io(Io::Write(client.input_offset))
            }
            &&& token == STDERR_TOKEN ==> client.ready(token) == client.readable_stderr()
            &&& token == STDIN_TOKEN ==> client.ready(token) == client.readable(true)
            &&& token != STDERR_TOKEN && token != STDIN_TOKEN ==> client.ready(token)
                == client.readable(false)
        }),
{
}

/// An answer changes only what it is about. Data goes to the output that was
/// read, as far as it fits; what was written is counted; a pipe that was closed
/// is no longer held. The conversation is over once a closing leaves neither
/// output pipe held.
pub proof fn an_answer_changes_what_it_is_about(client: ClientState, answer: Answer)
    requires
        client.wf(),
        client.accepts(answer),
    ensures
        ({
            let next = client.resume(answer).0;
            let closed = answer is Closed;
            let out = if client.task is ReadStdout && answer is Data {
                answer->Data_0
            } else {
                Seq::<u8>::empty()
            };
            let err = if client.task is ReadStderr && answer is Data {
                answer->Data_0
            } else {
                Seq::<u8>::empty()
            };
            let out_fits = client.stdout.bound is None || out.len() <= client.stdout.bound->0;
            let err_fits = client.stderr.bound is None || err.len() <= client.stderr.bound->0;
            &&& next.input == client.input
            &&& next.return_on_stdout_fill == client.return_on_stdout_fill
            &&& next.stdin == (client.stdin && !(client.task is CloseStdin && closed))
            &&& next.stdout.open == (client.stdout.open && !((client.task is CloseStdout
                || client.task is CloseStdoutFirst) && closed))
            &&& next.stderr.open == (client.stderr.open && !((client.task is CloseStderr
                || client.task is CloseStderrFirst) && closed))
            &&& next.stdout.given_up == (client.stdout.given_up || (client.stdout.open
                && !next.stdout.open))
            &&& next.stderr.given_up == (client.stderr.given_up || (client.stderr.open
                && !next.stderr.open))
            &&& next.input_offset == client.input_offset + (if client.task is WriteStdin && answer
                is Written {
                answer->Written_0 as int
            } else {
                0
            })
            &&& next.stdout.output == (if out_fits {
                client.stdout.output + out
            } else {
                client.stdout.output
            })
            &&& next.stderr.output == (if err_fits {
                client.stderr.output + err
            } else {
                client.stderr.output
            })
            &&& next.stdout.bound is Some <==> client.stdout.bound is Some
            &&& next.stderr.bound is Some <==> client.stderr.bound is Some
            &&& client.stdout.bound is Some ==> next.stdout.bound->0 == (if out_fits {
                client.stdout.bound->0 - out.len()
            } else {
                0
            })
            &&& client.stderr.bound is Some ==> next.stderr.bound->0 == (if err_fits {
                client.stderr.bound->0 - err.len()
            } else {
                0
            })
            &&& next.has_shutdown == (closed && !next.stdout.open && !next.stderr.open)
            &&& next.child_shutdown == next.has_shutdown
        }),
{
    lemma_nothing_to_absorb(client.stdout);
    lemma_nothing_to_absorb(client.stderr);
    assert(client.stdout.output + Seq::<u8>::empty() =~= client.stdout.output);
    assert(client.stderr.output + Seq::<u8>::empty() =~= client.stderr.output);
}

/// A client takes up an event where no handler runs and the pipe that is to be
/// read is held, or the conversation is over. A suspended handler goes on with
/// whatever can come of what it asked for, but needs standard input where it
/// turns to that next.
pub proof fn what_a_client_can_go_on_with(client: ClientState, token: usize, answer: Answer)
    requires
        client.wf(),
    ensures
        client.can_take(token) <==> client.task is Idle && (client.has_shutdown || (token
            == STDERR_TOKEN && client.stderr.open) || (token != STDERR_TOKEN
            && client.stdout.open)),
        client.answers(answer) <==> match client.task {
            Task::Idle => false,
            Task::ReadStdout { .. } | Task::ReadStderr => match answer {
                Answer::Data(_) | Answer::Blocked | Answer::Failed => true,
                _ => false,
            },
            Task::WriteStdin => match answer {
                Answer::Written(n) => client.input_offset + n <= client.input.len(),
                Answer::Blocked | Answer::Failed => true,
                _ => false,
            },
            _ => match answer {
                Answer::Closed | Answer::Failed => true,
                _ => false,
            },
        },
        client.accepts(answer) <==> client.answers(answer) && (client.stdin || !(client.resume(
            answer,
        ).0.task is WriteStdin)),
{
}

/// Where a handler goes with an answer, from the room left once the answer is
/// taken in.
pub proof fn where_a_handler_goes(client: ClientState, answer: Answer)
    requires
        client.wf(),
        client.answers(answer),
    ensures
        ({
            let next = client.resume(answer).0;
            let done = |write_after: bool|
                if write_after && !next.has_shutdown {
                    Task::WriteStdin
                } else {
                    Task::Idle
                };
            let ended = answer is Data && answer->Data_0.len() == 0;
            let out_full = next.stdout.bound == Some(0usize);
            let err_full = next.stderr.bound == Some(0usize);
            match client.task {
                Task::ReadStdout { write_after } => {
                    let over = answer is Data && client.stdout.bound is Some
                        && client.stdout.bound->0 < answer->Data_0.len();
                    let enough = answer is Data && out_full && (client.return_on_stdout_fill
                        || client.stderr.given_up || (client.stderr.open && err_full));
                    next.task == (if enough && client.stderr.open {
                        Task::CloseStderrFirst { write_after }
                    } else if enough || ended || (over && !client.stderr.open) {
                        Task::CloseStdout { write_after }
                    } else {
                        done(write_after)
                    })
                },
                Task::CloseStderrFirst { write_after } => next.task == (if answer is Closed {
                    Task::CloseStdout { write_after }
                } else {
                    done(write_after)
                }),
                Task::CloseStdout { write_after } => next.task == done(write_after),
                Task::ReadStderr => {
                    let over = answer is Data && client.stderr.bound is Some
                        && client.stderr.bound->0 < answer->Data_0.len();
                    let enough = answer is Data && out_full && (ended || err_full);
                    next.task == (if enough && client.stdout.open {
                        Task::CloseStdoutFirst
                    } else if enough || ended || (over && !client.stdout.open) {
                        Task::CloseStderr
                    } else {
                        Task::Idle
                    })
                },
                Task::CloseStdoutFirst => next.task == (if answer is Closed {
                    Task::CloseStderr
                } else {
                    Task::Idle
                }),
                Task::WriteStdin => next.task == (if next.input_offset == next.input.len()
                    || answer is Failed || answer == Answer::Written(0) {
                    Task::CloseStdin
                } else {
                    Task::Idle
                }),
                _ => next.task is Idle,
            }
        }),
{
}

/// What a suspended handler asks for is for the pipe that it is suspended at.
pub proof fn a_handler_asks_for_its_pipe(client: ClientState, answer: Answer)
    requires
        client.wf(),
        client.accepts(answer),
    ensures
        ({
            let (next, step) = client.resume(answer);
            match next.task {
                Task::Idle => step is Done,
                Task::WriteStdin => step == Step::Io(Io::Write(next.input_offset)),
                Task::CloseStdin => step == Step::Io(Io::Close(Stream::Stdin)),
                Task::CloseStdout { .. } | Task::CloseStdoutFirst => step == Step::Io(
                    Io::Close(Stream::Stdout),
                ),
                Task::CloseStderr | Task::CloseStderrFirst { .. } => step == Step::Io(
                    Io::Close(Stream::Stderr),
                ),
                _ => false,
            }
        }),
{
}

/// A handler ends with an error exactly where it could not read the output or
/// could not close a pipe, and the error names which. A write that fails is no
/// error, nor is what came before standard input was turned to.
pub proof fn a_handler_reports_its_failure(client: ClientState, answer: Answer)
    requires
        client.wf(),
        client.accepts(answer),
        client.resume(answer).1 is Done,
    ensures
        client.resume(answer).1->Done_0 == match (client.task, answer) {
            (Task::ReadStdout { .. }, Answer::Failed) => Err(Failure::Read(Stream::Stdout)),
            (Task::ReadStderr, Answer::Failed) => Err(Failure::Read(Stream::Stderr)),
            (Task::CloseStdin, Answer::Failed) => Err(Failure::Close(Stream::Stdin)),
            (Task::CloseStdout { .. } | Task::CloseStdoutFirst, Answer::Failed) => Err(
                Failure::Close(Stream::Stdout),
            ),
            (Task::CloseStderr | Task::CloseStderrFirst { .. }, Answer::Failed) => Err(
                Failure::Close(Stream::Stderr),
            ),
            _ => Ok(()),
        },
{
}

/// A reply is taken for what it is.
pub proof fn replies_mean_what_they_say(reply: Reply<'_>)
    ensures
        match reply {
            Reply::Data(bytes) => reply@ == Answer::Data(bytes@),
            Reply::Written(n) => reply@ == Answer::Written(n),
            Reply::Blocked => reply@ is Blocked,
            Reply::Closed => reply@ is Closed,
            Reply::Failed => reply@ is Failed,
        },
{
}

} // verus!
