//! The command orchestrator: write a command, then read until a condition
//! matches, under an optional deadline.
//!
//! One command is in flight at a time; responses are matched strictly in
//! issuance order. A read that ends — with a match, a full buffer, a
//! transport failure or a timeout — releases the reply buffer whole, so the
//! next command never scans stale bytes.

use vstd::prelude::*;

use crate::clock::{Deadline, SimpleClock};
use crate::conditions::{
    condition_matched, condition_output, lemma_completion_output_tagged, Condition, MatchedOutput,
    OutputModel,
};
use crate::error::Error;
use crate::parser::{cifsr_spec, CifsrModel, CifsrResponse};
use crate::reader_part::{PumpOutcome, ReaderPart};
use crate::serial::{SerialRead, SerialWrite, WriteOutcome};
use crate::storage::BUF_CAPACITY;

verus! {

/// Raw response to a sent AT command: the reply content before the
/// terminator, tagged by whether the device reported success. A
/// device-reported failure is not a local error; callers must inspect it.
pub type RawResponse = core::result::Result<Vec<u8>, Vec<u8>>;

/// How long the device is given to power-cycle after a reset command before
/// its boot banner is awaited, in microseconds.
pub const RESET_DELAY_US: u64 = 2_000_000;

/// A raw response seen as sequences.
pub open spec fn raw_view(raw: RawResponse) -> core::result::Result<Seq<u8>, Seq<u8>> {
    match raw {
        Ok(v) => Ok(v@),
        Err(v) => Err(v@),
    }
}

/// `raw` is what a completion scan slices out of reply bytes `s`: the content
/// before the earliest terminator, tagged success exactly when that
/// terminator is the success token.
pub open spec fn is_reply_of(s: Seq<u8>, raw: core::result::Result<Seq<u8>, Seq<u8>>) -> bool {
    condition_matched(Condition::Completion, s) && match (condition_output(
        Condition::Completion,
        s,
    ), raw) {
        (OutputModel::Success(m), Ok(v)) => v == m,
        (OutputModel::Failure(m), Err(v)) => v == m,
        _ => false,
    }
}

/// `info` is what the IP-configuration recognizer reads out of reply bytes
/// `s`.
pub open spec fn cifsr_yields(s: Seq<u8>, info: CifsrResponse) -> bool {
    match cifsr_spec(s) {
        CifsrModel::Matched(n, resp) => resp == info,
        _ => false,
    }
}


/// The device completed a reply and tagged it success.
pub open spec fn acknowledged(s: Seq<u8>) -> bool {
    condition_matched(Condition::Completion, s) && condition_output(
        Condition::Completion,
        s,
    ) is Success
}

/// A success-tagged raw reply comes from an acknowledged reply buffer.
pub proof fn lemma_reply_ok_acknowledged(raw: RawResponse)
    requires
        raw is Ok,
        exists|s: Seq<u8>| is_reply_of(s, raw_view(raw)),
    ensures
        exists|s: Seq<u8>| acknowledged(s),
{
    let s = choose|s: Seq<u8>| is_reply_of(s, raw_view(raw));
    assert(acknowledged(s));
}


/// The device completed a reply and tagged it as a failure.
pub open spec fn refused(s: Seq<u8>) -> bool {
    condition_matched(Condition::Completion, s) && condition_output(
        Condition::Completion,
        s,
    ) is Failure
}

/// A failure-tagged raw reply comes from a refused reply buffer.
pub proof fn lemma_reply_err_refused(raw: RawResponse)
    requires
        raw is Err,
        exists|s: Seq<u8>| is_reply_of(s, raw_view(raw)),
    ensures
        exists|s: Seq<u8>| refused(s),
{
    let s = choose|s: Seq<u8>| is_reply_of(s, raw_view(raw));
    assert(refused(s));
}

/// A success-tagged condition output comes from an acknowledged reply
/// buffer.
pub proof fn lemma_output_success_acknowledged(om: OutputModel)
    requires
        om is Success,
        exists|s: Seq<u8>|
            condition_matched(Condition::Completion, s) && om == condition_output(
                Condition::Completion,
                s,
            ),
    ensures
        exists|s: Seq<u8>| acknowledged(s),
{
    let s = choose|s: Seq<u8>|
        condition_matched(Condition::Completion, s) && om == condition_output(
            Condition::Completion,
            s,
        );
    assert(acknowledged(s));
}

/// Writer half of the driver: the byte sink.
pub struct WriterPart<Tx: SerialWrite> {
    pub(crate) tx: Tx,
}

impl<Tx: SerialWrite> WriterPart<Tx> {
    /// One non-blocking write attempt.
    pub fn write_byte(&mut self, byte: u8) -> (r: WriteOutcome) {
        self.tx.write_byte(byte)
    }

    /// Writes one byte, retrying until the sink accepts it. Writes carry no
    /// deadline.
    pub fn write_byte_blocking(&mut self, byte: u8) -> (r: Result<(), Error>)
        ensures
            r matches Err(e) ==> e == Error::WriteBuffer,
    {
        let mut attempts: u64 = 0;
        loop
            decreases u64::MAX - attempts,
        {
            match self.tx.write_byte(byte) {
                WriteOutcome::Accepted => {
                    return Ok(());
                },
                WriteOutcome::WouldBlock => {
                    if attempts == u64::MAX {
                        return Err(Error::WriteBuffer);
                    }
                    attempts = attempts + 1;
                },
                WriteOutcome::Failed => {
                    return Err(Error::WriteBuffer);
                },
            }
        }
    }

    /// Writes all bytes in order, each retried until accepted.
    pub fn write_bytes(&mut self, bytes: &[u8]) -> (r: Result<(), Error>)
        ensures
            r matches Err(e) ==> e == Error::WriteBuffer,
    {
        let mut k: usize = 0;
        while k < bytes.len()
            invariant
                0 <= k <= bytes@.len(),
            decreases bytes@.len() - k,
        {
            match self.write_byte_blocking(bytes[k]) {
                Ok(()) => {},
                Err(e) => {
                    return Err(e);
                },
            }
            k = k + 1;
        }
        Ok(())
    }
}

/// Basic communication interface with the WiFi module: sends AT commands and
/// collects the corresponding replies.
pub struct Module<Rx: SerialRead, Tx: SerialWrite, C: SimpleClock> {
    pub(crate) reader: ReaderPart<Rx>,
    pub(crate) writer: WriterPart<Tx>,
    pub(crate) clock: C,
    pub(crate) timeout: Option<u64>,
}

impl<Rx: SerialRead, Tx: SerialWrite, C: SimpleClock> Module<Rx, Tx, C> {
    /// The bytes currently accumulated in the reply buffer.
    pub open(crate) spec fn buffer(&self) -> Seq<u8> {
        self.reader.bytes()
    }

    /// The reply buffer is within its fixed capacity.
    pub open(crate) spec fn wf(&self) -> bool {
        self.reader.wf()
    }

    /// The configured operation timeout.
    pub open(crate) spec fn timeout_spec(&self) -> Option<u64> {
        self.timeout
    }

    /// Establishes communication with the module: pairs the transport halves
    /// with an empty buffer and disables local command echo, so that replies
    /// are not polluted by mirrored input.
    pub fn new(rx: Rx, tx: Tx, clock: C) -> (r: Result<Module<Rx, Tx, C>, Error>)
        ensures
            r matches Ok(m) ==> m.wf() && m.buffer() == Seq::<u8>::empty() && m.timeout_spec()
                is None,
            r matches Err(e) ==> e == Error::WriteBuffer || e == Error::ReadBuffer || e
                == Error::BufferFull || e == Error::Timeout,
    {
        let mut module = Module {
            reader: ReaderPart::new(rx),
            writer: WriterPart { tx },
            clock,
            timeout: None,
        };
        match module.init() {
            Ok(()) => Ok(module),
            Err(e) => Err(e),
        }
    }

    /// Disables echo once, as the construction-time initialization step.
    fn init(&mut self) -> (r: Result<(), Error>)
        requires
            old(self).wf(),
        ensures
            final(self).wf(),
            final(self).timeout_spec() == old(self).timeout_spec(),
            r is Ok ==> final(self).buffer() == Seq::<u8>::empty(),
            r matches Err(e) ==> e == Error::WriteBuffer || e == Error::ReadBuffer || e
                == Error::BufferFull || e == Error::Timeout,
    {
        self.disable_echo()
    }

    /// Sets the operation timeout. `None` lets every read block indefinitely.
    pub fn set_timeout(&mut self, us: Option<u64>)
        ensures
            final(self).timeout_spec() == us,
            final(self).buffer() == old(self).buffer(),
            final(self).wf() == old(self).wf(),
    {
        self.timeout = us;
    }

    /// Sends the echo-disable command; any completed reply counts.
    fn disable_echo(&mut self) -> (r: Result<(), Error>)
        requires
            old(self).wf(),
        ensures
            final(self).wf(),
            final(self).timeout_spec() == old(self).timeout_spec(),
            r is Ok ==> final(self).buffer() == Seq::<u8>::empty(),
            r matches Err(e) ==> e == Error::WriteBuffer || e == Error::ReadBuffer || e
                == Error::BufferFull || e == Error::Timeout,
    {
        match self.send_at_command("ATE0".as_bytes()) {
            Ok(_) => Ok(()),
            Err(e) => Err(e),
        }
    }

    /// Writes the command bytes followed by the line terminator. The reply
    /// buffer is left untouched.
    pub fn write_command(&mut self, cmd: &[u8]) -> (r: Result<(), Error>)
        ensures
            final(self).buffer() == old(self).buffer(),
            final(self).wf() == old(self).wf(),
            final(self).timeout_spec() == old(self).timeout_spec(),
            r matches Err(e) ==> e == Error::WriteBuffer,
    {
        match self.writer.write_bytes(cmd) {
            Ok(()) => {},
            Err(e) => {
                return Err(e);
            },
        }
        self.writer.write_bytes("\r\n".as_bytes())
    }

    /// Pumps the buffer until the condition matches, the buffer fills, the
    /// transport fails, or the optional deadline passes. Every exit path
    /// releases the buffer whole, so the next read never scans stale bytes.
    /// A match is never reported on partial data: a returned output is the
    /// condition's slice of a buffer state that really matched it.
    pub fn read_until(&mut self, condition: Condition) -> (r: Result<MatchedOutput, Error>)
        requires
            old(self).wf(),
        ensures
            final(self).wf(),
            final(self).timeout_spec() == old(self).timeout_spec(),
            final(self).buffer() == Seq::<u8>::empty(),
            match r {
                Ok(out) => (exists|s: Seq<u8>|
                    condition_matched(condition, s) && out@ == condition_output(condition, s)) && (
                condition == Condition::Completion ==> (out is Success || out is Failure)),
                Err(e) => (e == Error::ReadBuffer || e == Error::BufferFull || e == Error::Timeout)
                    && (e == Error::BufferFull ==> exists|s: Seq<u8>|
                    s.len() == BUF_CAPACITY && !condition_matched(condition, s)),
            },
    {
        let deadline: Option<Deadline> = match self.timeout {
            Some(t) => {
                let now = self.clock.now_us();
                Some(Deadline::new(now, t))
            },
            None => None,
        };
        let mut attempts: u64 = 0;
        loop
            invariant
                self.wf(),
                self.timeout == old(self).timeout,
            decreases u64::MAX - attempts,
        {
            match self.reader.read_bytes() {
                PumpOutcome::Failed => {
                    self.reader.buf.clear();
                    return Err(Error::ReadBuffer);
                },
                PumpOutcome::Drained => {},
                PumpOutcome::Filled => {},
            }
            let contents = self.reader.buf.to_vec();
            if condition.is_performed(contents.as_slice()) {
                let out = condition.output(contents.as_slice());
                proof {
                    if condition == Condition::Completion {
                        lemma_completion_output_tagged(contents@);
                    }
                    assert(condition_matched(condition, contents@) && out@ == condition_output(
                        condition,
                        contents@,
                    ));
                }
                self.reader.buf.clear();
                return Ok(out);
            }
            if self.reader.buf.is_full() {
                proof {
                    assert(contents@.len() == BUF_CAPACITY && !condition_matched(
                        condition,
                        contents@,
                    ));
                }
                self.reader.buf.clear();
                return Err(Error::BufferFull);
            }
            match &deadline {
                Some(d) => {
                    let now = self.clock.now_us();
                    if d.reached(now) {
                        self.reader.buf.clear();
                        return Err(Error::Timeout);
                    }
                },
                None => {},
            }
            if attempts == u64::MAX {
                self.reader.buf.clear();
                return Err(Error::Timeout);
            }
            attempts = attempts + 1;
        }
    }

    /// Sends an AT command and collects the reply up to a terminal token.
    /// The reply content is tagged by whether the device reported success;
    /// the device reporting failure is not a local error.
    pub fn send_at_command(&mut self, cmd: &[u8]) -> (r: Result<RawResponse, Error>)
        requires
            old(self).wf(),
        ensures
            final(self).wf(),
            final(self).timeout_spec() == old(self).timeout_spec(),
            match r {
                Ok(raw) => final(self).buffer() == Seq::<u8>::empty() && (exists|s: Seq<u8>|
                    is_reply_of(s, raw_view(raw))),
                Err(e) => e == Error::WriteBuffer || e == Error::ReadBuffer || e
                    == Error::BufferFull || e == Error::Timeout,
            },
    {
        match self.write_command(cmd) {
            Ok(()) => {},
            Err(e) => {
                return Err(e);
            },
        }
        let out = self.read_until(Condition::Completion);
        match out {
            Ok(matched) => {
                let ghost om = matched@;
                let raw: RawResponse = match matched {
                    MatchedOutput::Success(v) => Ok(v),
                    MatchedOutput::Failure(v) => Err(v),
                    // never reached: a completion output is always tagged
                    MatchedOutput::Content(v) => Ok(v),
                };
                proof {
                    let s = choose|s: Seq<u8>|
                        condition_matched(Condition::Completion, s) && om == condition_output(
                            Condition::Completion,
                            s,
                        );
                    assert(is_reply_of(s, raw_view(raw)));
                    assert(exists|t: Seq<u8>| is_reply_of(t, raw_view(raw))) by {
                        assert(is_reply_of(s, raw_view(raw)));
                    }
                }
                Ok(raw)
            },
            Err(e) => Err(e),
        }
    }

    /// Sends a command whose reply must be success-tagged; a failure-tagged
    /// reply is an unexpected-reply error.
    pub(crate) fn send_expecting_success(&mut self, cmd: &[u8]) -> (r: Result<(), Error>)
        requires
            old(self).wf(),
        ensures
            final(self).wf(),
            final(self).timeout_spec() == old(self).timeout_spec(),
            r is Ok ==> final(self).buffer() == Seq::<u8>::empty() && (exists|s: Seq<u8>|
                acknowledged(s)),
            r matches Err(e) ==> e == Error::WriteBuffer || e == Error::ReadBuffer || e
                == Error::BufferFull || e == Error::Timeout || e == Error::UnexpectedReply,
    {
        match self.send_at_command(cmd) {
            Ok(raw) => {
                let ok = raw.is_ok();
                proof {
                    if ok {
                        lemma_reply_ok_acknowledged(raw);
                    }
                }
                if ok {
                    Ok(())
                } else {
                    Err(Error::UnexpectedReply)
                }
            },
            Err(e) => Err(e),
        }
    }

    /// Performs the module resetting routine: issue the reset command, give
    /// the device its power-cycle settle time, await the boot banner while
    /// tolerating transport noise, then disable echo again. Only a failure
    /// to complete the echo-disable exchange is surfaced.
    pub fn reset(&mut self) -> (r: Result<(), Error>)
        requires
            old(self).wf(),
        ensures
            final(self).wf(),
            final(self).timeout_spec() == old(self).timeout_spec(),
            r is Ok ==> final(self).buffer() == Seq::<u8>::empty(),
            r matches Err(e) ==> e == Error::WriteBuffer || e == Error::ReadBuffer || e
                == Error::BufferFull || e == Error::Timeout,
    {
        // Transport noise such as framing garbage is expected while the
        // device power-cycles; the reset exchange's own outcome is ignored.
        let _ = self.reset_cmd();
        self.reader.buf.clear();
        self.disable_echo()
    }

    /// Issues the reset command and waits for the boot banner.
    fn reset_cmd(&mut self) -> (r: Result<(), Error>)
        requires
            old(self).wf(),
        ensures
            final(self).wf(),
            final(self).timeout_spec() == old(self).timeout_spec(),
    {
        match self.write_command("AT+RST".as_bytes()) {
            Ok(()) => {},
            Err(e) => {
                return Err(e);
            },
        }
        // Give the device a fixed settle delay before scanning for the boot
        // banner, so that power-cycle garbage is not mistaken for it.
        let start = self.clock.now_us();
        let mut attempts: u64 = 0;
        loop
            decreases u64::MAX - attempts,
        {
            let now = self.clock.now_us();
            let settled = if now >= start {
                now - start >= RESET_DELAY_US
            } else {
                false
            };
            if settled || attempts == u64::MAX {
                break ;
            }
            attempts = attempts + 1;
        }
        match self.read_until(Condition::Ready) {
            Ok(_) => Ok(()),
            Err(e) => Err(e),
        }
    }

    /// Queries the device for its current IP configuration.
    pub fn get_network_info(&mut self) -> (r: Result<CifsrResponse, Error>)
        requires
            old(self).wf(),
        ensures
            final(self).wf(),
            final(self).timeout_spec() == old(self).timeout_spec(),
            match r {
                Ok(info) => final(self).buffer() == Seq::<u8>::empty() && (exists|s: Seq<u8>|
                    cifsr_yields(s, info)),
                Err(e) => e == Error::WriteBuffer || e == Error::ReadBuffer || e
                    == Error::BufferFull || e == Error::Timeout || e == Error::UnexpectedReply,
            },
    {
        let raw = match self.send_at_command("AT+CIFSR".as_bytes()) {
            Ok(raw) => raw,
            Err(e) => {
                return Err(e);
            },
        };
        match raw {
            Ok(content) => {
                match CifsrResponse::parse(content.as_slice()) {
                    Some(p) => {
                        proof {
                            assert(cifsr_yields(content@, p.1));
                        }
                        Ok(p.1)
                    },
                    None => Err(Error::UnexpectedReply),
                }
            },
            Err(_) => Err(Error::UnexpectedReply),
        }
    }
}

} // verus!
