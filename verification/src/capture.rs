//! One output pipe of the child and the bytes kept of it.

use vstd::prelude::*;

verus! {

/// The most bytes that are asked of a pipe in one read.
pub const BUF_LEN: usize = 65536;

/// An output pipe (standard output or standard error), what has been kept of
/// it, and how many more bytes may be kept.
#[derive(Debug)]
pub struct Capture {
    /// Whether the pipe is still held.
    open: bool,
    /// Whether the pipe was held once and is no more.
    given_up: bool,
    /// The bytes kept so far.
    output: Vec<u8>,
    /// How many more bytes may be kept; `None` where there is no limit.
    bound: Option<usize>,
}

/// What a [`Capture`] stands for.
#[verifier::ext_equal]
pub struct CaptureState {
    pub open: bool,
    /// Whether the pipe was held once and is no more.
    pub given_up: bool,
    pub output: Seq<u8>,
    pub bound: Option<usize>,
}

impl CaptureState {
    /// A pipe of which nothing has been read.
    pub open spec fn fresh(open: bool, bound: Option<usize>) -> CaptureState {
        CaptureState { open, given_up: false, output: Seq::empty(), bound }
    }

    /// Whether nothing more may be kept.
    pub open spec fn full(self) -> bool {
        self.bound == Some(0usize)
    }

    /// How many bytes the next read asks for: what may still be kept, but at
    /// most [`BUF_LEN`]. A full capture asks for [`BUF_LEN`] bytes, to be
    /// thrown away.
    pub open spec fn read_len(self) -> usize {
        match self.bound {
            Some(n) if 0 < n < BUF_LEN => n,
            _ => BUF_LEN,
        }
    }

    /// Whether `data` is more than may still be kept.
    pub open spec fn overruns(self, data: Seq<u8>) -> bool {
        self.bound is Some && self.bound->0 < data.len()
    }

    /// The capture after `data` was read: all of it is kept, or, where it
    /// overruns the limit, none of it, and then nothing will be kept again.
    pub open spec fn absorb(self, data: Seq<u8>) -> CaptureState {
        if self.overruns(data) {
            CaptureState { bound: Some(0usize), ..self }
        } else {
            CaptureState {
                output: self.output + data,
                bound: match self.bound {
                    Some(n) => Some((n - data.len()) as usize),
                    None => None,
                },
                ..self
            }
        }
    }

    /// The capture after its pipe was given up.
    pub open spec fn closed(self) -> CaptureState {
        CaptureState { open: false, given_up: self.given_up || self.open, ..self }
    }
}

impl View for Capture {
    type V = CaptureState;

    closed spec fn view(&self) -> CaptureState {
        CaptureState {
            open: self.open,
            given_up: self.given_up,
            output: self.output@,
            bound: self.bound,
        }
    }
}

impl Capture {
    /// A capture that holds nothing yet.
    pub fn new(open: bool, bound: Option<usize>) -> (capture: Capture)
        ensures
            capture@ == CaptureState::fresh(open, bound),
    {
        Capture { open, given_up: false, output: Vec::new(), bound }
    }

    /// Whether the pipe is still held.
    pub fn is_open(&self) -> (open: bool)
        ensures
            open == self@.open,
    {
        self.open
    }

    /// Whether the pipe was held once and is no more.
    pub fn is_given_up(&self) -> (given_up: bool)
        ensures
            given_up == self@.given_up,
    {
        self.given_up
    }

    /// Whether nothing more may be kept.
    pub fn is_full(&self) -> (full: bool)
        ensures
            full == self@.full(),
    {
        match self.bound {
            Some(n) => n == 0,
            None => false,
        }
    }

    /// The bytes kept so far.
    pub fn output(&self) -> (bytes: &[u8])
        ensures
            bytes@ == self@.output,
    {
        self.output.as_slice()
    }

    /// How many more bytes may be kept.
    pub fn remaining(&self) -> (bound: Option<usize>)
        ensures
            bound == self@.bound,
    {
        self.bound
    }

    /// How many bytes to ask for in the next read.
    pub fn read_len(&self) -> (len: usize)
        ensures
            len == self@.read_len(),
            0 < len <= BUF_LEN,
    {
        match self.bound {
            Some(n) if 0 < n && n < BUF_LEN => n,
            _ => BUF_LEN,
        }
    }

    /// Whether `data` is more than may still be kept.
    pub fn overruns(&self, data: &[u8]) -> (over: bool)
        ensures
            over == self@.overruns(data@),
    {
        match self.bound {
            Some(n) => n < data.len(),
            None => false,
        }
    }

    /// Whether nothing more may be kept once `data` is taken in.
    pub fn fills(&self, data: &[u8]) -> (full: bool)
        ensures
            full == self@.absorb(data@).full(),
    {
        match self.bound {
            Some(n) => n <= data.len(),
            None => false,
        }
    }

    /// Takes in `data`, just read from the pipe, and says whether it overran
    /// the limit.
    pub fn absorb(&mut self, data: &[u8]) -> (over: bool)
        ensures
            over == old(self)@.overruns(data@),
            final(self)@ == old(self)@.absorb(data@),
    {
        let over = self.overruns(data);
        if over {
            self.bound = Some(0);
        } else {
            if let Some(n) = self.bound {
                self.bound = Some(n - data.len());
            }
            self.output.extend_from_slice(data);
        }
        over
    }

    /// Gives the pipe up.
    pub fn close(&mut self)
        ensures
            final(self)@ == old(self)@.closed(),
    {
        if self.open {
            self.given_up = true;
        }
        self.open = false;
    }

    /// The bytes kept, without the pipe.
    pub fn into_output(self) -> (bytes: Vec<u8>)
        ensures
            bytes@ == self@.output,
    {
        self.output
    }
}

} // verus!
