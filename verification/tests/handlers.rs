use subprocess_communicate::capture::{Capture, BUF_LEN};
use subprocess_communicate::client::{
    Failure, Io, Reply, Step, Stream, SubprocessClient, STDERR_TOKEN, STDIN_TOKEN, STDOUT_TOKEN,
};

fn client(stdout_bound: Option<usize>, stderr_bound: Option<usize>, fill: bool) -> SubprocessClient {
    SubprocessClient::new(true, true, true, b"input", stdout_bound, stderr_bound, fill)
}

fn reply(client: &mut SubprocessClient, reply: Reply) -> Step {
    assert!(client.accepts(reply));
    client.resume(reply)
}

const OK: Step = Step::Done(Ok(()));

fn close(stream: Stream) -> Step {
    Step::Io(Io::Close(stream))
}

fn failed(failure: Failure) -> Step {
    Step::Done(Err(failure))
}

#[test]
fn read_length_follows_the_bound() {
    assert_eq!(Capture::new(true, None).read_len(), 65536);
    assert_eq!(Capture::new(true, Some(0)).read_len(), 65536);
    assert_eq!(Capture::new(true, Some(1)).read_len(), 1);
    assert_eq!(Capture::new(true, Some(65535)).read_len(), 65535);
    assert_eq!(Capture::new(true, Some(65536)).read_len(), 65536);
    assert_eq!(Capture::new(true, Some(65537)).read_len(), 65536);
}

#[test]
fn capture_keeps_up_to_its_bound() {
    let mut capture = Capture::new(true, Some(5));
    assert!(!capture.absorb(b"abc"));
    assert_eq!((capture.output(), capture.remaining()), (&b"abc"[..], Some(2)));
    assert!(!capture.absorb(b"de"));
    assert_eq!((capture.output(), capture.remaining()), (&b"abcde"[..], Some(0)));
    assert!(capture.is_full());
    assert!(capture.overruns(b"f"));
    assert!(capture.absorb(b"f"));
    assert_eq!((capture.output(), capture.remaining()), (&b"abcde"[..], Some(0)));
    capture.close();
    assert!(!capture.is_open());
    assert_eq!(capture.into_output(), b"abcde");
}

#[test]
fn capture_tells_what_fills_it() {
    let capture = Capture::new(true, Some(2));
    assert!(!capture.fills(b"a") && capture.fills(b"ab") && capture.fills(b"abc"));
    assert!(!capture.overruns(b"ab") && capture.overruns(b"abc"));
    assert!(!Capture::new(true, None).fills(b"abc"));
    assert!(Capture::new(true, Some(0)).fills(b""));
}

#[test]
fn capture_without_bound_keeps_everything() {
    let mut capture = Capture::new(true, None);
    assert!(!capture.absorb(&[7; 100000]));
    assert!(!capture.absorb(&[8; 3]));
    assert_eq!(capture.output().len(), 100003);
    assert_eq!(capture.remaining(), None);
    assert!(!capture.is_full());
}

#[test]
fn data_larger_than_the_room_is_dropped_whole() {
    let mut capture = Capture::new(true, Some(3));
    assert!(capture.absorb(b"abcd"));
    assert_eq!((capture.output(), capture.remaining()), (&b""[..], Some(0)));
}

#[test]
fn readable_keeps_data() {
    let mut c = client(Some(10), None, false);
    assert_eq!(c.readable(), Step::Io(Io::Read(Stream::Stdout, 10)));
    assert_eq!(reply(&mut c, Reply::Data(b"abc")), OK);
    assert_eq!(c.stdout().output(), b"abc");
    assert_eq!(c.stdout().remaining(), Some(7));
    assert_eq!(c.readable(), Step::Io(Io::Read(Stream::Stdout, 7)));
    assert_eq!(reply(&mut c, Reply::Blocked), OK);
    assert_eq!(c.readable(), Step::Io(Io::Read(Stream::Stdout, 7)));
    assert_eq!(reply(&mut c, Reply::Failed), failed(Failure::Read(Stream::Stdout)));
    assert_eq!(c.stdout().output(), b"abc");
    assert!(!c.child_shutdown());
}

#[test]
fn readable_stderr_keeps_data() {
    let mut c = client(None, Some(4), false);
    assert_eq!(c.readable_stderr(), Step::Io(Io::Read(Stream::Stderr, 4)));
    assert_eq!(reply(&mut c, Reply::Data(b"xy")), OK);
    assert_eq!(c.stderr().output(), b"xy");
    assert_eq!(c.readable_stderr(), Step::Io(Io::Read(Stream::Stderr, 2)));
    assert_eq!(reply(&mut c, Reply::Failed), failed(Failure::Read(Stream::Stderr)));
    assert_eq!(c.readable_stderr(), Step::Io(Io::Read(Stream::Stderr, 2)));
    assert_eq!(reply(&mut c, Reply::Blocked), OK);
    assert_eq!(c.stdout().output(), b"");
}

#[test]
fn conversation_is_over_when_both_outputs_end() {
    let mut c = client(None, None, false);
    c.readable();
    assert_eq!(reply(&mut c, Reply::Data(b"")), close(Stream::Stdout));
    assert_eq!(reply(&mut c, Reply::Closed), OK);
    assert!(!c.child_shutdown());
    assert!(!c.is_open(Stream::Stdout) && c.is_open(Stream::Stderr));
    assert!(!c.can_take(STDOUT_TOKEN) && !c.can_take(STDIN_TOKEN) && c.can_take(STDERR_TOKEN));
    c.readable_stderr();
    assert_eq!(reply(&mut c, Reply::Data(b"")), close(Stream::Stderr));
    assert_eq!(reply(&mut c, Reply::Closed), OK);
    assert!(c.child_shutdown());
    assert!(c.can_take(STDOUT_TOKEN));
    assert_eq!(c.readable(), OK);
    assert_eq!(c.readable_stderr(), OK);
    assert_eq!(c.writable(), OK);
    assert_eq!(c.ready(STDIN_TOKEN), OK);
    assert!(c.is_open(Stream::Stdin));
}

#[test]
fn standard_error_may_end_first() {
    let mut c = client(None, None, false);
    c.readable_stderr();
    reply(&mut c, Reply::Data(b""));
    reply(&mut c, Reply::Closed);
    assert!(!c.child_shutdown());
    c.readable();
    reply(&mut c, Reply::Data(b""));
    assert_eq!(reply(&mut c, Reply::Closed), OK);
    assert!(c.child_shutdown());
}

#[test]
fn stdout_overrun_returns_when_asked_to() {
    let mut c = client(Some(0), None, true);
    assert_eq!(c.readable(), Step::Io(Io::Read(Stream::Stdout, BUF_LEN)));
    assert_eq!(reply(&mut c, Reply::Data(b"a")), close(Stream::Stderr));
    assert_eq!(reply(&mut c, Reply::Closed), close(Stream::Stdout));
    assert_eq!(reply(&mut c, Reply::Closed), OK);
    assert!(c.child_shutdown());
    assert_eq!(c.into_outputs(), (vec![], vec![]));
}

#[test]
fn stdout_overrun_waits_for_stderr_otherwise() {
    let mut c = client(Some(0), Some(2), false);
    c.readable();
    assert_eq!(reply(&mut c, Reply::Data(b"a")), OK);
    assert!(c.is_open(Stream::Stdout) && c.is_open(Stream::Stderr) && !c.child_shutdown());
    c.readable_stderr();
    assert_eq!(reply(&mut c, Reply::Data(b"e")), OK);
    c.readable_stderr();
    assert_eq!(reply(&mut c, Reply::Data(b"f")), close(Stream::Stdout));
    assert_eq!(reply(&mut c, Reply::Closed), close(Stream::Stderr));
    assert_eq!(reply(&mut c, Reply::Closed), OK);
    assert!(c.child_shutdown());
    assert_eq!(c.into_outputs(), (vec![], b"ef".to_vec()));
}

#[test]
fn stdout_overrun_returns_when_stderr_is_full_or_absent() {
    let mut c = client(Some(0), Some(0), false);
    c.readable();
    assert_eq!(reply(&mut c, Reply::Data(b"a")), close(Stream::Stderr));

    let mut c = SubprocessClient::new(true, true, false, b"", Some(0), None, false);
    c.readable();
    assert_eq!(reply(&mut c, Reply::Data(b"a")), close(Stream::Stdout));
    assert_eq!(reply(&mut c, Reply::Closed), OK);
    assert!(c.child_shutdown());
}

#[test]
fn stderr_overrun_waits_for_stdout() {
    let mut c = client(Some(3), Some(0), true);
    c.readable_stderr();
    assert_eq!(reply(&mut c, Reply::Data(b"e")), OK);
    assert!(!c.child_shutdown());
    let mut c = SubprocessClient::new(false, false, true, b"", None, Some(0), true);
    c.readable_stderr();
    assert_eq!(reply(&mut c, Reply::Data(b"e")), close(Stream::Stderr));
    assert_eq!(reply(&mut c, Reply::Closed), OK);
    assert!(c.child_shutdown());
}

#[test]
fn exact_fill_returns_when_asked_to() {
    let mut c = client(Some(3), None, true);
    c.readable();
    assert_eq!(reply(&mut c, Reply::Data(b"ab")), OK);
    c.readable();
    assert_eq!(reply(&mut c, Reply::Data(b"c")), close(Stream::Stderr));
    assert_eq!(reply(&mut c, Reply::Closed), close(Stream::Stdout));
    assert_eq!(reply(&mut c, Reply::Closed), OK);
    assert!(c.child_shutdown());
    assert_eq!(c.into_outputs(), (b"abc".to_vec(), vec![]));

    let mut c = SubprocessClient::new(true, true, false, b"", Some(3), None, true);
    c.readable();
    assert_eq!(reply(&mut c, Reply::Data(b"abc")), close(Stream::Stdout));
    assert_eq!(reply(&mut c, Reply::Closed), OK);
    assert!(c.child_shutdown());
}

#[test]
fn end_at_a_reached_bound_returns_when_asked_to() {
    let mut c = client(Some(0), None, true);
    c.readable();
    assert_eq!(reply(&mut c, Reply::Data(b"")), close(Stream::Stderr));
    assert_eq!(reply(&mut c, Reply::Closed), close(Stream::Stdout));
    assert_eq!(reply(&mut c, Reply::Closed), OK);
    assert!(c.child_shutdown());
}

#[test]
fn exact_fill_waits_for_stderr_otherwise() {
    let mut c = client(Some(3), None, false);
    c.readable();
    assert_eq!(reply(&mut c, Reply::Data(b"abc")), OK);
    assert!(c.stdout().is_full());
    assert!(c.is_open(Stream::Stdout) && c.is_open(Stream::Stderr) && !c.child_shutdown());
    c.readable();
    assert_eq!(reply(&mut c, Reply::Data(b"")), close(Stream::Stdout));
    assert_eq!(reply(&mut c, Reply::Closed), OK);
    assert!(c.is_open(Stream::Stderr) && !c.child_shutdown());
}

#[test]
fn exact_fill_of_both_bounds_returns() {
    let mut c = client(Some(1), Some(2), false);
    c.readable();
    assert_eq!(reply(&mut c, Reply::Data(b"a")), OK);
    c.readable_stderr();
    assert_eq!(reply(&mut c, Reply::Data(b"ef")), close(Stream::Stdout));
    assert_eq!(reply(&mut c, Reply::Closed), close(Stream::Stderr));
    assert_eq!(reply(&mut c, Reply::Closed), OK);
    assert!(c.child_shutdown());

    let mut c = client(Some(1), Some(2), false);
    c.readable_stderr();
    assert_eq!(reply(&mut c, Reply::Data(b"ef")), OK);
    c.readable();
    assert_eq!(reply(&mut c, Reply::Data(b"a")), close(Stream::Stderr));
    assert_eq!(reply(&mut c, Reply::Closed), close(Stream::Stdout));
    assert_eq!(reply(&mut c, Reply::Closed), OK);
    assert!(c.child_shutdown());
    assert_eq!(c.into_outputs(), (b"a".to_vec(), b"ef".to_vec()));

    let mut c = client(Some(1), Some(2), false);
    c.readable();
    assert_eq!(reply(&mut c, Reply::Data(b"a")), OK);
    c.readable();
    assert_eq!(reply(&mut c, Reply::Data(b"")), close(Stream::Stdout));
    assert_eq!(reply(&mut c, Reply::Closed), OK);
    c.readable_stderr();
    assert_eq!(reply(&mut c, Reply::Data(b"ef")), close(Stream::Stderr));
    assert_eq!(reply(&mut c, Reply::Closed), OK);
    assert!(c.child_shutdown());
}

#[test]
fn end_of_stderr_returns_once_stdout_is_full() {
    let mut c = client(Some(3), None, false);
    c.readable();
    assert_eq!(reply(&mut c, Reply::Data(b"abc")), OK);
    c.readable_stderr();
    assert_eq!(reply(&mut c, Reply::Data(b"e")), OK);
    c.readable_stderr();
    assert_eq!(reply(&mut c, Reply::Data(b"")), close(Stream::Stdout));
    assert_eq!(reply(&mut c, Reply::Closed), close(Stream::Stderr));
    assert_eq!(reply(&mut c, Reply::Closed), OK);
    assert!(c.child_shutdown());
    assert_eq!(c.into_outputs(), (b"abc".to_vec(), b"e".to_vec()));
}

#[test]
fn exact_fill_returns_once_stderr_has_ended() {
    for stderr_bound in [None, Some(1)] {
        let mut c = client(Some(3), stderr_bound, false);
        c.readable_stderr();
        assert_eq!(reply(&mut c, Reply::Data(b"e")), OK);
        c.readable_stderr();
        assert_eq!(reply(&mut c, Reply::Data(b"")), close(Stream::Stderr));
        assert_eq!(reply(&mut c, Reply::Closed), OK);
        assert!(c.stderr().is_given_up() && !c.stdout().is_given_up());
        assert!(!c.child_shutdown());
        c.readable();
        assert_eq!(reply(&mut c, Reply::Data(b"abc")), close(Stream::Stdout));
        assert_eq!(reply(&mut c, Reply::Closed), OK);
        assert!(c.child_shutdown());
    }
}

#[test]
fn fill_without_the_other_output_waits_for_more() {
    let mut c = SubprocessClient::new(true, true, false, b"", Some(3), None, false);
    c.readable();
    assert_eq!(reply(&mut c, Reply::Data(b"abc")), OK);
    assert!(c.is_open(Stream::Stdout) && !c.child_shutdown());
    c.readable();
    assert_eq!(reply(&mut c, Reply::Data(b"d")), close(Stream::Stdout));

    let mut c = SubprocessClient::new(true, false, true, b"", None, Some(2), true);
    c.readable_stderr();
    assert_eq!(reply(&mut c, Reply::Data(b"ef")), OK);
    c.readable_stderr();
    assert_eq!(reply(&mut c, Reply::Data(b"g")), close(Stream::Stderr));
}

#[test]
fn failed_closing_keeps_the_pipe() {
    let mut c = client(Some(0), None, true);
    c.readable();
    reply(&mut c, Reply::Data(b"a"));
    assert_eq!(reply(&mut c, Reply::Failed), failed(Failure::Close(Stream::Stderr)));
    assert!(c.is_open(Stream::Stdout) && c.is_open(Stream::Stderr) && !c.child_shutdown());
    c.readable();
    reply(&mut c, Reply::Data(b"a"));
    assert_eq!(reply(&mut c, Reply::Closed), close(Stream::Stdout));
    assert_eq!(reply(&mut c, Reply::Failed), failed(Failure::Close(Stream::Stdout)));
    assert!(c.is_open(Stream::Stdout) && !c.is_open(Stream::Stderr) && !c.child_shutdown());

    let mut c = client(Some(0), Some(0), false);
    c.readable_stderr();
    assert_eq!(reply(&mut c, Reply::Data(b"a")), close(Stream::Stdout));
    assert_eq!(reply(&mut c, Reply::Failed), failed(Failure::Close(Stream::Stdout)));
    c.readable_stderr();
    assert_eq!(reply(&mut c, Reply::Data(b"")), close(Stream::Stdout));
    assert_eq!(reply(&mut c, Reply::Failed), failed(Failure::Close(Stream::Stdout)));

    let mut c = client(Some(1), Some(0), false);
    c.readable_stderr();
    assert_eq!(reply(&mut c, Reply::Data(b"")), close(Stream::Stderr));
    assert_eq!(reply(&mut c, Reply::Failed), failed(Failure::Close(Stream::Stderr)));
    c.writable();
    assert_eq!(reply(&mut c, Reply::Written(0)), close(Stream::Stdin));
    assert_eq!(reply(&mut c, Reply::Failed), failed(Failure::Close(Stream::Stdin)));
    assert!(c.is_open(Stream::Stdin) && c.is_open(Stream::Stdout) && c.is_open(Stream::Stderr));
}

#[test]
fn writable_sends_the_input() {
    let mut c = client(None, None, false);
    assert_eq!(c.writable(), Step::Io(Io::Write(0)));
    assert_eq!(reply(&mut c, Reply::Written(2)), OK);
    assert_eq!(c.writable(), Step::Io(Io::Write(2)));
    assert_eq!(reply(&mut c, Reply::Blocked), OK);
    assert_eq!(c.writable(), Step::Io(Io::Write(2)));
    assert!(!c.accepts(Reply::Written(4)));
    assert_eq!(reply(&mut c, Reply::Written(3)), close(Stream::Stdin));
    assert_eq!(reply(&mut c, Reply::Closed), OK);
    assert!(!c.is_open(Stream::Stdin));
    assert!(!c.child_shutdown());
}

#[test]
fn writable_gives_up_on_a_refusal() {
    for refusal in [Reply::Failed, Reply::Written(0)] {
        let mut c = client(None, None, false);
        c.writable();
        assert_eq!(reply(&mut c, refusal), close(Stream::Stdin));
        assert_eq!(reply(&mut c, Reply::Closed), OK);
        assert!(!c.is_open(Stream::Stdin));
    }
}

#[test]
fn closing_standard_input_ends_a_conversation_without_outputs() {
    let mut c = SubprocessClient::new(true, false, false, b"", None, None, false);
    assert_eq!(c.writable(), Step::Io(Io::Write(0)));
    assert_eq!(reply(&mut c, Reply::Blocked), close(Stream::Stdin));
    assert_eq!(reply(&mut c, Reply::Closed), OK);
    assert!(c.child_shutdown());
}

#[test]
fn ready_reads_standard_output_before_writing() {
    let mut c = client(None, None, false);
    assert_eq!(c.ready(STDIN_TOKEN), Step::Io(Io::Read(Stream::Stdout, BUF_LEN)));
    assert_eq!(reply(&mut c, Reply::Failed), Step::Io(Io::Write(0)));
    assert_eq!(reply(&mut c, Reply::Written(1)), OK);
    assert_eq!(c.ready(STDOUT_TOKEN), Step::Io(Io::Read(Stream::Stdout, BUF_LEN)));
    assert_eq!(reply(&mut c, Reply::Data(b"o")), OK);
    assert_eq!(c.ready(STDERR_TOKEN), Step::Io(Io::Read(Stream::Stderr, BUF_LEN)));
    assert_eq!(reply(&mut c, Reply::Data(b"e")), OK);
    assert_eq!(c.ready(99), Step::Io(Io::Read(Stream::Stdout, BUF_LEN)));
    assert_eq!(reply(&mut c, Reply::Blocked), OK);
    assert_eq!(c.into_outputs(), (b"o".to_vec(), b"e".to_vec()));
}

#[test]
fn ready_does_not_write_once_the_conversation_is_over() {
    let mut c = SubprocessClient::new(true, true, false, b"in", None, None, false);
    c.ready(STDIN_TOKEN);
    assert_eq!(reply(&mut c, Reply::Data(b"")), close(Stream::Stdout));
    assert_eq!(reply(&mut c, Reply::Closed), OK);
    assert!(c.child_shutdown() && c.is_open(Stream::Stdin));
}

#[test]
fn writing_needs_standard_input() {
    let mut c = SubprocessClient::new(false, true, false, b"in", None, None, false);
    c.ready(STDIN_TOKEN);
    assert!(!c.accepts(Reply::Blocked));
    assert!(!c.accepts(Reply::Failed));
    assert!(!c.accepts(Reply::Data(b"x")));
    assert!(!c.accepts(Reply::Closed));
    assert_eq!(reply(&mut c, Reply::Data(b"")), close(Stream::Stdout));
    assert!(!c.accepts(Reply::Failed));
    assert_eq!(reply(&mut c, Reply::Closed), OK);
    assert!(c.child_shutdown());
}

#[test]
fn tokens_are_fixed() {
    let c = client(None, None, false);
    assert_eq!(c.token(Stream::Stdin), 0);
    assert_eq!(c.token(Stream::Stdout), 1);
    assert_eq!(c.token(Stream::Stderr), 2);
}
