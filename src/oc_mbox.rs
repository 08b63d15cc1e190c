//! The overclocking mailbox protocol: request and response words, status
//! decoding, and the exchange of one command as a state machine.
//!
//! One exchange waits for the mailbox to be idle, writes the request with
//! the busy bit set, then waits for the busy bit to clear and decodes the
//! response. The wait before writing is not atomic with the write: another
//! agent on the machine may issue a command to the same register in
//! between. No lock is available to user space to prevent this.
use vstd::prelude::*;

verus! {

/// Command code: read the voltage/frequency override of a domain.
pub const CMD_VF_OVERRIDE_READ: u8 = 0x10;

/// A power/clock domain, passed as the first parameter of a command.
#[derive(Clone, Copy, Debug, PartialEq, Eq, Structural)]
pub enum Domain {
    IaCore,
    GtSlices,
    CboLlcRing,
    GtUnslice,
    SystemAgent,
}

impl Domain {
    /// The number that stands for the domain in a command.
    pub open spec fn spec_index(self) -> u8 {
        match self {
            Domain::IaCore => 0,
            Domain::GtSlices => 1,
            Domain::CboLlcRing => 2,
            Domain::GtUnslice => 3,
            Domain::SystemAgent => 4,
        }
    }

    /// The number that stands for the domain in a command.
    #[verifier::when_used_as_spec(spec_index)]
    pub fn index(self) -> (r: u8)
        ensures
            r == self.spec_index(),
    {
        match self {
            Domain::IaCore => 0,
            Domain::GtSlices => 1,
            Domain::CboLlcRing => 2,
            Domain::GtUnslice => 3,
            Domain::SystemAgent => 4,
        }
    }
}

/// Every domain, in increasing order of index.
pub fn all_domains() -> (r: [Domain; 5])
    ensures
        r@ == seq![
            Domain::IaCore,
            Domain::GtSlices,
            Domain::CboLlcRing,
            Domain::GtUnslice,
            Domain::SystemAgent,
        ],
        forall|i: int| 0 <= i < 5 ==> (#[trigger] r@[i]).spec_index() == i,
{
    [Domain::IaCore, Domain::GtSlices, Domain::CboLlcRing, Domain::GtUnslice, Domain::SystemAgent]
}

/// The busy bit (bit 63) of a mailbox word: set while a request is pending.
pub open spec fn busy(w: u64) -> bool {
    w >> 63 == 1
}

/// Bits 32 to 39: the command of a request, the status of a response.
pub open spec fn status_of(w: u64) -> u8 {
    ((w >> 32) & 0xff) as u8
}

/// Bits 40 to 47: the first parameter of a request.
pub open spec fn param1_of(w: u64) -> u8 {
    ((w >> 40) & 0xff) as u8
}

/// Bits 48 to 55: the second parameter of a request.
pub open spec fn param2_of(w: u64) -> u8 {
    ((w >> 48) & 0xff) as u8
}

/// Bits 0 to 31: the data word of a request or a response.
pub open spec fn data_of(w: u64) -> u32 {
    (w & 0xffff_ffff) as u32
}

/// The request word for a command: busy bit set, the second parameter in
/// bits 48 to 55, the first in bits 40 to 47, the command in bits 32 to 39,
/// the data in bits 0 to 31, and every other bit clear.
pub open spec fn request_word(command: u8, param1: u8, param2: u8, data: u32) -> u64 {
    (data as u64) | ((command as u64) << 32) | ((param1 as u64) << 40) | ((param2 as u64) << 48)
        | (1u64 << 63)
}

/// Encodes a command as a request word.
pub fn encode_request(command: u8, param1: u8, param2: u8, data: u32) -> (r: u64)
    ensures
        r == request_word(command, param1, param2, data),
{
    (data as u64) | ((command as u64) << 32) | ((param1 as u64) << 40) | ((param2 as u64) << 48)
        | (1u64 << 63)
}

/// Encoding a command and taking the fields of the request word apart gives
/// back the command, both parameters and the data, with the busy bit set and
/// bits 56 to 62 clear.
pub proof fn lemma_request_round_trip(command: u8, param1: u8, param2: u8, data: u32)
    ensures
        busy(request_word(command, param1, param2, data)),
        status_of(request_word(command, param1, param2, data)) == command,
        param1_of(request_word(command, param1, param2, data)) == param1,
        param2_of(request_word(command, param1, param2, data)) == param2,
        data_of(request_word(command, param1, param2, data)) == data,
        (request_word(command, param1, param2, data) >> 56) & 0x7f == 0,
{
    let w = request_word(command, param1, param2, data);
    assert(busy(w) && status_of(w) == command && param1_of(w) == param1 && param2_of(w) == param2
        && data_of(w) == data && (w >> 56) & 0x7f == 0) by (bit_vector)
        requires
            w == (data as u64) | ((command as u64) << 32) | ((param1 as u64) << 40) | ((
            param2 as u64) << 48) | (1u64 << 63),
    ;
}

/// A non-zero status in a mailbox response.
#[derive(Clone, Copy, Debug, PartialEq, Eq, Structural)]
pub enum MboxError {
    /// Status 1: overclocking is locked.
    Locked,
    /// Status 0x1f: the command was not recognized.
    UnrecognizedCommand,
    /// Any other non-zero status, with its raw code.
    Unknown(u8),
}

/// The outcome that a response with `status` and `data` reports.
pub open spec fn status_result(status: u8, data: u32) -> Result<u32, MboxError> {
    if status == 0 {
        Ok(data)
    } else if status == 1 {
        Err(MboxError::Locked)
    } else if status == 0x1f {
        Err(MboxError::UnrecognizedCommand)
    } else {
        Err(MboxError::Unknown(status))
    }
}

/// Decodes the status and data of a completed response.
pub fn decode_status(status: u8, data: u32) -> (r: Result<u32, MboxError>)
    ensures
        r == status_result(status, data),
{
    match status {
        0 => Ok(data),
        1 => Err(MboxError::Locked),
        0x1f => Err(MboxError::UnrecognizedCommand),
        c => Err(MboxError::Unknown(c)),
    }
}

/// What one read of the mailbox register shows.
#[derive(Clone, Copy, Debug, PartialEq, Eq)]
pub enum Poll {
    /// The busy bit is set: a request is in flight.
    Busy,
    /// The busy bit is clear: the outcome of the last response.
    Done(Result<u32, MboxError>),
}

/// What a mailbox word `w` shows when read.
pub open spec fn poll_of(w: u64) -> Poll {
    if busy(w) {
        Poll::Busy
    } else {
        Poll::Done(status_result(status_of(w), data_of(w)))
    }
}

/// Interprets a word read from the mailbox register.
pub fn poll(w: u64) -> (r: Poll)
    ensures
        r == poll_of(w),
{
    if w >> 63 == 1 {
        Poll::Busy
    } else {
        let status = ((w >> 32) & 0xff) as u8;
        let data = (w & 0xffff_ffff) as u32;
        Poll::Done(decode_status(status, data))
    }
}

/// How a completed response word decodes: with status 0 the low 32 bits
/// come back unchanged as the result; status 1 reports that overclocking is
/// locked, status 0x1f an unrecognized command, and any other status an
/// error that carries that code.
pub proof fn lemma_response_decoding(w: u64)
    requires
        !busy(w),
    ensures
        status_of(w) == 0 ==> poll_of(w) == Poll::Done(Ok(w as u32)),
        status_of(w) == 1 ==> poll_of(w) == Poll::Done(Err(MboxError::Locked)),
        status_of(w) == 0x1f ==> poll_of(w) == Poll::Done(Err(MboxError::UnrecognizedCommand)),
        status_of(w) != 0 && status_of(w) != 1 && status_of(w) != 0x1f ==> poll_of(w)
            == Poll::Done(Err(MboxError::Unknown(status_of(w)))),
{
    assert(data_of(w) == w as u32) by (bit_vector);
}

/// Where one command exchange stands.
#[derive(Clone, Copy, Debug, PartialEq, Eq, Structural)]
pub enum Phase {
    /// Reading the register until it is idle, before the request is written.
    Drain,
    /// The request is to be written.
    Issue,
    /// Reading the register until the busy bit clears after the write.
    Await,
    /// The response has been decoded.
    Done,
}

/// What the caller does next in an exchange: read the register, write a
/// word to it, or stop with the outcome.
#[derive(Clone, Copy, Debug, PartialEq, Eq)]
pub enum Action {
    Read,
    Write(u64),
    Finish(Result<u32, MboxError>),
}

/// One command exchange with the mailbox. The caller performs each action
/// on the register and hands back what happened; the exchange decides what
/// comes next. A register failure aborts the exchange on the caller's side.
pub struct Exchange {
    phase: Phase,
    request: u64,
}

impl Exchange {
    /// Where the exchange stands.
    pub closed spec fn spec_phase(&self) -> Phase {
        self.phase
    }

    /// The request word that the exchange writes.
    pub closed spec fn spec_request(&self) -> u64 {
        self.request
    }

    /// Where the exchange stands.
    #[verifier::when_used_as_spec(spec_phase)]
    pub fn phase(&self) -> (r: Phase)
        ensures
            r == self.spec_phase(),
    {
        self.phase
    }

    /// The request word that the exchange writes.
    #[verifier::when_used_as_spec(spec_request)]
    pub fn request(&self) -> (r: u64)
        ensures
            r == self.spec_request(),
    {
        self.request
    }

    /// Starts the exchange of one command. Its first action is a read of the
    /// register.
    pub fn new(command: u8, param1: u8, param2: u8, data: u32) -> (r: Exchange)
        ensures
            r.phase() == Phase::Drain,
            r.request() == request_word(command, param1, param2, data),
    {
        Exchange { phase: Phase::Drain, request: encode_request(command, param1, param2, data) }
    }

    /// Takes the word just read from the register. While draining, an idle
    /// word (whatever response it holds) leads to the write of the request;
    /// while awaiting, an idle word is the response and ends the exchange.
    /// A busy word leads to another read.
    pub fn on_read(&mut self, w: u64) -> (r: Action)
        requires
            old(self).phase() == Phase::Drain || old(self).phase() == Phase::Await,
        ensures
            final(self).request() == old(self).request(),
            busy(w) ==> final(self).phase() == old(self).phase() && r == Action::Read,
            !busy(w) && old(self).phase() == Phase::Drain ==> final(self).phase() == Phase::Issue
                && r == Action::Write(old(self).request()),
            !busy(w) && old(self).phase() == Phase::Await ==> final(self).phase() == Phase::Done
                && r == Action::Finish(status_result(status_of(w), data_of(w))),
    {
        match poll(w) {
            Poll::Busy => Action::Read,
            Poll::Done(res) => {
                match self.phase {
                    Phase::Drain => {
                        self.phase = Phase::Issue;
                        Action::Write(self.request)
                    },
                    _ => {
                        self.phase = Phase::Done;
                        Action::Finish(res)
                    },
                }
            },
        }
    }

    /// Takes the news that the request was written; the next action is a
    /// read of the register.
    pub fn on_written(&mut self) -> (r: Action)
        requires
            old(self).phase() == Phase::Issue,
        ensures
            final(self).request() == old(self).request(),
            final(self).phase() == Phase::Await,
            r == Action::Read,
    {
        self.phase = Phase::Await;
        Action::Read
    }
}

/// The index of the first idle word of `s` at or after `k`, or `s.len()`
/// where there is none.
pub open spec fn first_idle(s: Seq<u64>, k: int) -> int
    decreases s.len() - k,
{
    if k < 0 || k >= s.len() {
        s.len() as int
    } else if !busy(s[k]) {
        k
    } else {
        first_idle(s, k + 1)
    }
}

/// Runs one command exchange against a register whose successive reads give
/// `reads`. The first idle read ends the drain; the first idle read after it
/// is the response. Returns how many reads were used and the outcome, or
/// `None` where `reads` ends before the response.
pub fn cmd_on_reads(command: u8, param1: u8, param2: u8, data: u32, reads: &Vec<u64>) -> (r:
    Option<(usize, Result<u32, MboxError>)>)
    ensures
        ({
            let s = reads@;
            let a = first_idle(s, first_idle(s, 0) + 1);
            &&& r is Some <==> a < s.len()
            &&& r matches Some((n, res)) ==> n == a + 1 && res == status_result(
                status_of(s[a]),
                data_of(s[a]),
            )
        }),
{
    let ghost s = reads@;
    let ghost d = first_idle(s, 0);
    let mut ex = Exchange::new(command, param1, param2, data);
    let mut i: usize = 0;
    while i < reads.len()
        invariant
            s == reads@,
            d == first_idle(s, 0),
            i <= s.len(),
            ex.phase() == Phase::Drain || ex.phase() == Phase::Await,
            ex.phase() == Phase::Drain ==> first_idle(s, i as int) == d,
            ex.phase() == Phase::Await ==> d < i && first_idle(s, i as int) == first_idle(s, d + 1),
        decreases s.len() - i,
    {
        let w = reads[i];
        let act = ex.on_read(w);
        i = i + 1;
        match act {
            Action::Read => {},
            Action::Write(_) => {
                ex.on_written();
            },
            Action::Finish(res) => {
                return Some((i, res));
            },
        }
    }
    None
}

} // verus!
