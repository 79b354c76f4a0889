use std::collections::VecDeque;

use subprocess_communicate::client::{Io, Reply, Stream, STDERR_TOKEN, STDIN_TOKEN, STDOUT_TOKEN};
use subprocess_communicate::communicate::{
    subprocess_communicate, Action, Communication, Event, Interest, SetupError,
};

const PIPE: usize = 65536;

/// What a child does with its pipes.
enum Program {
    /// Copies standard input to standard output.
    Cat,
    /// Writes "y\n" for ever.
    Yes,
    /// Writes these bytes, a chunk at a time, and ends both outputs.
    Says(VecDeque<Vec<u8>>, VecDeque<Vec<u8>>),
    /// Writes these bytes to standard output and ends it, but not standard error.
    SaysThenHolds(Vec<u8>),
}

/// A child with pipes of a fixed capacity.
struct Child {
    program: Program,
    stdin: VecDeque<u8>,
    stdout: VecDeque<u8>,
    stderr: VecDeque<u8>,
    stdin_open: bool,
    stdout_open: bool,
    stderr_open: bool,
    has_stderr: bool,
    written: usize,
    received: Vec<u8>,
    registered: Vec<(Stream, usize, Interest)>,
    largest_read: usize,
}

impl Child {
    fn new(program: Program, has_stderr: bool) -> Child {
        Child {
            program,
            stdin: VecDeque::new(),
            stdout: VecDeque::new(),
            stderr: VecDeque::new(),
            stdin_open: true,
            stdout_open: true,
            stderr_open: has_stderr,
            has_stderr,
            written: 0,
            received: Vec::new(),
            registered: Vec::new(),
            largest_read: 0,
        }
    }

    /// Lets the child run; it says whether it has exited.
    fn run(&mut self) -> bool {
        match &mut self.program {
            Program::Cat => {
                while self.stdout.len() < PIPE {
                    match self.stdin.pop_front() {
                        Some(byte) => self.stdout.push_back(byte),
                        None => break,
                    }
                }
                !self.stdin_open && self.stdin.is_empty()
            }
            Program::Yes => {
                while self.stdout.len() < PIPE {
                    self.stdout.push_back(if self.written % 2 == 0 { b'y' } else { b'\n' });
                    self.written += 1;
                }
                false
            }
            Program::Says(out, err) => {
                if self.stdout.is_empty() {
                    self.stdout.extend(out.pop_front().unwrap_or_default());
                }
                if self.stderr.is_empty() {
                    self.stderr.extend(err.pop_front().unwrap_or_default());
                }
                self.stdin.clear();
                out.is_empty() && err.is_empty()
            }
            Program::SaysThenHolds(out) => {
                self.stdout.extend(out.drain(..));
                false
            }
        }
    }

    fn is_registered(&self, stream: Stream) -> bool {
        self.registered.iter().any(|entry| entry.0 == stream)
    }

    fn poll(&mut self) -> VecDeque<usize> {
        let exited = self.run();
        let ended = exited || matches!(self.program, Program::SaysThenHolds(_));
        let mut tokens = VecDeque::new();
        if self.is_registered(Stream::Stdout) && (ended || !self.stdout.is_empty()) {
            tokens.push_back(STDOUT_TOKEN);
        }
        if self.is_registered(Stream::Stderr) && (exited || !self.stderr.is_empty()) {
            tokens.push_back(STDERR_TOKEN);
        }
        if self.is_registered(Stream::Stdin) && (exited || self.stdin.len() < PIPE) {
            tokens.push_back(STDIN_TOKEN);
        }
        tokens
    }

    fn read<'a>(&mut self, stream: Stream, buf: &'a mut [u8]) -> Reply<'a> {
        let exited = self.run()
            || (stream == Stream::Stdout && matches!(self.program, Program::SaysThenHolds(_)));
        self.largest_read = self.largest_read.max(buf.len());
        let pipe = if stream == Stream::Stdout { &mut self.stdout } else { &mut self.stderr };
        if pipe.is_empty() && !exited {
            return Reply::Blocked;
        }
        let len = buf.len().min(pipe.len());
        for (slot, byte) in buf.iter_mut().zip(pipe.drain(..len)) {
            *slot = byte;
        }
        Reply::Data(&buf[..len])
    }

    fn write(&mut self, bytes: &[u8]) -> Reply<'static> {
        let len = bytes.len().min(PIPE - self.stdin.len());
        if len == 0 && !bytes.is_empty() {
            return Reply::Blocked;
        }
        self.stdin.extend(&bytes[..len]);
        self.received.extend_from_slice(&bytes[..len]);
        Reply::Written(len)
    }

    fn close(&mut self, stream: Stream) -> Reply<'static> {
        assert!(self.is_registered(stream));
        self.registered.retain(|entry| entry.0 != stream);
        match stream {
            Stream::Stdin => self.stdin_open = false,
            Stream::Stdout => self.stdout_open = false,
            Stream::Stderr => self.stderr_open = false,
        }
        Reply::Closed
    }
}

type Outcome = (Vec<u8>, Vec<u8>, Result<(), SetupError>);

fn converse(
    child: &mut Child,
    input: &[u8],
    stdout_bound: Option<usize>,
    stderr_bound: Option<usize>,
    return_on_stdout_fill: bool,
) -> Outcome {
    let (mut conversation, mut action) =
        subprocess_communicate(input, stdout_bound, stderr_bound, return_on_stdout_fill);
    let mut tokens: VecDeque<usize> = VecDeque::new();
    let mut buf = vec![0u8; PIPE];
    let mut idle = 0;
    loop {
        let event = match action {
            Action::Adopt(Stream::Stderr) => Event::Adopted(child.has_stderr),
            Action::Adopt(_) => Event::Adopted(true),
            Action::CreatePoll => Event::Succeeded,
            Action::Register { stream, token, interest } => {
                child.registered.push((stream, token, interest));
                Event::Succeeded
            }
            Action::Poll => {
                tokens = child.poll();
                idle = if tokens.is_empty() { idle + 1 } else { 0 };
                assert!(idle < 3, "the conversation hangs");
                Event::Succeeded
            }
            Action::NextEvent => match tokens.pop_front() {
                Some(token) => Event::Ready(token),
                None => Event::BatchEnd,
            },
            Action::Io(Io::Read(stream, len)) => Event::Reply(child.read(stream, &mut buf[..len])),
            Action::Io(Io::Write(offset)) => Event::Reply(child.write(&input[offset..])),
            Action::Io(Io::Close(stream)) => Event::Reply(child.close(stream)),
            Action::Finish { stdout, stderr, result } => return (stdout, stderr, result),
        };
        assert!(conversation.accepts(event));
        let next = conversation.step(event);
        conversation = next.0;
        action = next.1;
    }
}

fn test_data() -> Vec<u8> {
    vec![42; 1024 * 4096]
}

fn assert_yes(bytes: &[u8]) {
    for (i, item) in bytes.iter().enumerate() {
        let val = if (i & 1) == 1 { b'\n' } else { b'y' };
        assert_eq!(*item, val);
    }
}

#[test]
fn test_subprocess_pipe() {
    let data = test_data();
    let mut process = Child::new(Program::Cat, true);
    let (ret_stdout, ret_stderr, err) = converse(&mut process, &data[..], None, None, true);
    err.unwrap();
    assert_eq!(data.len(), ret_stdout.len());
    assert_eq!(0usize, ret_stderr.len());
    for (i, item) in data.iter().enumerate() {
        assert_eq!(*item, ret_stdout[i]);
    }
}

#[test]
fn test_subprocess_bounded_pipe() {
    let data = test_data();
    let mut process = Child::new(Program::Cat, true);
    let (ret_stdout, ret_stderr, err) =
        converse(&mut process, &data[..], Some(data.len() - 1), None, true);
    err.unwrap();
    assert_eq!(data.len() - 1, ret_stdout.len());
    assert_eq!(0usize, ret_stderr.len());
    for (i, item) in data[0..data.len() - 1].iter().enumerate() {
        assert_eq!(*item, ret_stdout[i]);
    }
}

#[test]
fn test_subprocess_bounded_yes_stderr0() {
    let mut process = Child::new(Program::Yes, true);
    let bound: usize = 130000;
    let (ret_stdout, ret_stderr, err) =
        converse(&mut process, &test_data()[..], Some(bound), Some(0), false);
    err.unwrap();
    assert_eq!(bound, ret_stdout.len());
    assert_eq!(0usize, ret_stderr.len());
    assert_yes(&ret_stdout);
}

#[test]
fn test_subprocess_bounded_yes() {
    let mut process = Child::new(Program::Yes, true);
    let bound: usize = 130000;
    let (ret_stdout, ret_stderr, err) =
        converse(&mut process, &test_data()[..], Some(bound), Some(bound), true);
    err.unwrap();
    assert_eq!(bound, ret_stdout.len());
    assert_eq!(0usize, ret_stderr.len());
    assert_yes(&ret_stdout);
}

#[test]
fn test_subprocess_bounded_yes_no_stderr() {
    let mut process = Child::new(Program::Yes, false);
    let bound: usize = 130000;
    let (ret_stdout, ret_stderr, err) =
        converse(&mut process, &test_data()[..], Some(bound), None, false);
    err.unwrap();
    assert_eq!(bound, ret_stdout.len());
    assert_eq!(0usize, ret_stderr.len());
    assert_yes(&ret_stdout);
}

#[test]
fn bound_equal_to_the_output_keeps_all_of_it() {
    let data = test_data();
    let mut process = Child::new(Program::Cat, true);
    let (ret_stdout, ret_stderr, err) =
        converse(&mut process, &data[..], Some(data.len()), None, true);
    assert_eq!(err, Ok(()));
    assert_eq!(ret_stdout, data);
    assert!(ret_stderr.is_empty());
}

#[test]
fn input_is_sent_whole_and_in_order() {
    let data: Vec<u8> = (0..200000u32).map(|i| (i % 251) as u8).collect();
    let mut process = Child::new(Program::Cat, true);
    let (ret_stdout, _, err) = converse(&mut process, &data[..], None, None, false);
    assert_eq!(err, Ok(()));
    assert_eq!(process.received, data);
    assert_eq!(ret_stdout, data);
    assert!(!process.stdin_open && !process.stdout_open && !process.stderr_open);
    assert!(process.registered.is_empty());
    assert_eq!(process.largest_read, PIPE);
}

#[test]
fn empty_input_closes_standard_input() {
    let mut process = Child::new(Program::Cat, true);
    let (ret_stdout, ret_stderr, err) = converse(&mut process, &[], None, None, false);
    assert_eq!((ret_stdout, ret_stderr, err), (vec![], vec![], Ok(())));
    assert!(!process.stdin_open);
}

fn chunks(texts: &[&str]) -> VecDeque<Vec<u8>> {
    texts.iter().map(|text| text.as_bytes().to_vec()).collect()
}

#[test]
fn both_outputs_are_returned() {
    let program = Program::Says(chunks(&["ab", "cd"]), chunks(&["x", "yz"]));
    let mut process = Child::new(program, true);
    let (ret_stdout, ret_stderr, err) = converse(&mut process, b"hello", None, None, true);
    assert_eq!(err, Ok(()));
    assert_eq!(ret_stdout, b"abcd");
    assert_eq!(ret_stderr, b"xyz");
}

#[test]
fn both_outputs_are_clipped_to_their_bounds() {
    let program = Program::Says(chunks(&["abc", "def"]), chunks(&["uvw", "xyz"]));
    let mut process = Child::new(program, true);
    let (ret_stdout, ret_stderr, err) = converse(&mut process, b"hello", Some(4), Some(2), false);
    assert_eq!(err, Ok(()));
    assert_eq!(ret_stdout, b"abcd");
    assert_eq!(ret_stderr, b"uv");
}

#[test]
fn standard_error_is_awaited_unless_told_otherwise() {
    let err_chunks = ["1", "2", "3", "4", "5", "6"];
    let program = Program::Says(chunks(&["abc", "def"]), chunks(&err_chunks));
    let mut process = Child::new(program, true);
    let (ret_stdout, ret_stderr, err) = converse(&mut process, b"", Some(2), None, false);
    assert_eq!((&ret_stdout[..], &ret_stderr[..], err), (&b"ab"[..], &b"123456"[..], Ok(())));

    let program = Program::Says(chunks(&["abc", "def"]), chunks(&err_chunks));
    let mut process = Child::new(program, true);
    let (ret_stdout, ret_stderr, err) = converse(&mut process, b"", Some(2), None, true);
    assert_eq!(err, Ok(()));
    assert_eq!(ret_stdout, b"ab");
    assert!(ret_stderr.len() < err_chunks.len());
}

/// Drives a conversation through these events and gives the last action.
fn drive<'a>(
    started: (Communication<'a>, Action),
    events: &[Event],
) -> (Communication<'a>, Action) {
    let (mut conversation, mut action) = started;
    for event in events {
        assert!(conversation.accepts(*event));
        let next = conversation.step(*event);
        conversation = next.0;
        action = next.1;
    }
    (conversation, action)
}

fn failed(error: SetupError) -> Action {
    Action::Finish { stdout: vec![], stderr: vec![], result: Err(error) }
}

#[test]
fn failures_before_the_first_round_are_returned() {
    let start = || subprocess_communicate(b"in", None, None, false);
    let here = Event::Adopted(true);
    assert_eq!(drive(start(), &[]).1, Action::Adopt(Stream::Stdin));
    assert_eq!(drive(start(), &[Event::Failed]).1, failed(SetupError::Pipe(Stream::Stdin)));
    assert_eq!(drive(start(), &[here]).1, Action::Adopt(Stream::Stdout));
    assert_eq!(drive(start(), &[here, Event::Failed]).1, failed(SetupError::Pipe(Stream::Stdout)));
    assert_eq!(
        drive(start(), &[here, here, Event::Failed]).1,
        failed(SetupError::Pipe(Stream::Stderr))
    );
    assert_eq!(drive(start(), &[here, here, here]).1, Action::CreatePoll);
    assert_eq!(drive(start(), &[here, here, here, Event::Failed]).1, failed(SetupError::Poll));
    let ok = Event::Succeeded;
    let no = Event::Failed;
    for (oks, stream) in [(1, Stream::Stdout), (2, Stream::Stderr), (3, Stream::Stdin)] {
        let mut events = vec![here; 3];
        events.extend(vec![ok; oks]);
        events.push(no);
        let (conversation, action) = drive(start(), &events);
        assert_eq!(action, failed(SetupError::Register(stream)));
        assert!(!conversation.accepts(ok));
        assert!(conversation.client().is_none());
    }
}

#[test]
fn only_pipes_that_exist_are_registered() {
    let ok = Event::Succeeded;
    let expected = [
        (Stream::Stdout, STDOUT_TOKEN, Interest::Readable),
        (Stream::Stderr, STDERR_TOKEN, Interest::Readable),
        (Stream::Stdin, STDIN_TOKEN, Interest::Writable),
    ];
    for mask in 0..8 {
        let (stdin, stdout, stderr) = (mask & 1 != 0, mask & 2 != 0, mask & 4 != 0);
        let mut next = drive(
            subprocess_communicate(b"", None, None, false),
            &[Event::Adopted(stdin), Event::Adopted(stdout), Event::Adopted(stderr), ok],
        );
        for ((stream, token, interest), there) in expected.iter().zip([stdout, stderr, stdin]) {
            if there {
                let (stream, token, interest) = (*stream, *token, *interest);
                assert_eq!(next.1, Action::Register { stream, token, interest });
                next = drive(next, &[ok]);
            }
        }
        assert_eq!(next.1, Action::Poll);
    }
}

#[test]
fn events_without_their_pipe_are_not_accepted() {
    let ok = Event::Succeeded;
    let start = drive(
        subprocess_communicate(b"in", None, None, false),
        &[Event::Adopted(true), Event::Adopted(false), Event::Adopted(true), ok, ok, ok, ok],
    );
    assert_eq!(start.1, Action::NextEvent);
    assert!(!start.0.accepts(Event::Ready(STDIN_TOKEN)));
    assert!(!start.0.accepts(Event::Ready(STDOUT_TOKEN)));
    assert!(start.0.accepts(Event::Ready(STDERR_TOKEN)));
    assert!(!start.0.accepts(Event::Reply(Reply::Closed)));
    assert_eq!(drive(start, &[Event::BatchEnd]).1, Action::Poll);
}

#[test]
fn reached_bound_closes_both_outputs_and_returns() {
    let ok = Event::Succeeded;
    let here = Event::Adopted(true);
    let next = drive(
        subprocess_communicate(b"in", Some(2), None, true),
        &[here, here, here, ok, ok, ok, ok, ok, Event::Ready(STDOUT_TOKEN)],
    );
    assert_eq!(next.1, Action::Io(Io::Read(Stream::Stdout, 2)));
    let next = drive(next, &[Event::Reply(Reply::Data(b"ab"))]);
    assert_eq!(next.1, Action::Io(Io::Close(Stream::Stderr)));
    let next = drive(next, &[Event::Reply(Reply::Closed)]);
    assert_eq!(next.1, Action::Io(Io::Close(Stream::Stdout)));
    let next = drive(next, &[Event::Reply(Reply::Closed)]);
    assert_eq!(next.1, Action::NextEvent);
    let next = drive(next, &[Event::Ready(STDIN_TOKEN)]);
    assert_eq!(next.1, Action::NextEvent);
    let next = drive(next, &[Event::BatchEnd]);
    assert_eq!(
        next.1,
        Action::Finish { stdout: b"ab".to_vec(), stderr: vec![], result: Ok(()) }
    );
}

#[test]
fn both_bounds_reached_returns_without_the_flag() {
    let ok = Event::Succeeded;
    let here = Event::Adopted(true);
    let next = drive(
        subprocess_communicate(b"in", Some(2), Some(1), false),
        &[here, here, here, ok, ok, ok, ok, ok, Event::Ready(STDOUT_TOKEN)],
    );
    let next = drive(next, &[Event::Reply(Reply::Data(b"ab")), Event::Ready(STDERR_TOKEN)]);
    assert_eq!(next.1, Action::Io(Io::Read(Stream::Stderr, 1)));
    let closed = Event::Reply(Reply::Closed);
    let next = drive(next, &[Event::Reply(Reply::Data(b"e")), closed, closed, Event::BatchEnd]);
    assert_eq!(
        next.1,
        Action::Finish { stdout: b"ab".to_vec(), stderr: b"e".to_vec(), result: Ok(()) }
    );
}

#[test]
fn end_of_standard_error_returns_once_standard_output_is_full() {
    let ok = Event::Succeeded;
    let here = Event::Adopted(true);
    let closed = Event::Reply(Reply::Closed);
    let next = drive(
        subprocess_communicate(b"in", Some(3), None, false),
        &[here, here, here, ok, ok, ok, ok, ok, Event::Ready(STDOUT_TOKEN)],
    );
    let next = drive(next, &[Event::Reply(Reply::Data(b"abc")), Event::BatchEnd]);
    assert_eq!(next.1, Action::Poll);
    let next = drive(next, &[ok, Event::Ready(STDERR_TOKEN), Event::Reply(Reply::Data(b""))]);
    assert_eq!(next.1, Action::Io(Io::Close(Stream::Stdout)));
    let next = drive(next, &[closed, closed, Event::BatchEnd]);
    assert_eq!(
        next.1,
        Action::Finish { stdout: b"abc".to_vec(), stderr: vec![], result: Ok(()) }
    );
}

/// The child gives exactly the bound, ends standard output, and keeps standard
/// error open and silent for ever.
#[test]
fn silent_standard_error_is_not_awaited() {
    let mut process = Child::new(Program::SaysThenHolds(b"exactly".to_vec()), true);
    let (ret_stdout, ret_stderr, err) = converse(&mut process, b"in", Some(7), None, true);
    assert_eq!((ret_stdout, ret_stderr, err), (b"exactly".to_vec(), vec![], Ok(())));
}
