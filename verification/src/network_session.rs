//! The session event loop and the typical network operations: listen,
//! connect, poll for events, send payloads.

use vstd::prelude::*;
use vstd::string::StringSliceAdditionalSpecFns;

use crate::clock::SimpleClock;
use crate::conditions::{Condition, MatchedOutput};
use crate::encode::{dec_digits_of, push_str, push_u64};
use crate::error::Error;
use crate::module::{acknowledged, cifsr_yields, Module};
use crate::parser::{
    parse_outcome, parse_spec, CommandResponse, Ipv4Addr, ParseModel, ParseOutcome,
};
use crate::reader_part::PumpOutcome;
use crate::serial::{ReadOutcome, SerialRead, SerialWrite};

verus! {

/// No more than this many payload bytes can be sent in one call; the wire
/// protocol caps a single send request.
pub const MAX_SEND_BYTES: usize = 2048;

/// A TCP endpoint: an IPv4 address and a port.
#[derive(Debug, Clone, Copy, PartialEq, Eq, Structural)]
pub struct SocketAddr {
    pub ip: Ipv4Addr,
    pub port: u16,
}

/// Addresses reported by the device for an established session.
#[derive(Debug, Clone, Copy, PartialEq, Eq)]
pub struct SessionInfo {
    /// The address of the device's own access point, when one is up.
    pub softap_address: Option<Ipv4Addr>,
    /// The station-facing address the device listens on, when assigned.
    pub listen_address: Option<Ipv4Addr>,
}

/// An incoming network event.
#[derive(Debug, PartialEq, Eq)]
pub enum NetworkEvent {
    /// A new peer connected.
    Connected { link_id: usize },
    /// The connection with the peer was closed.
    Closed { link_id: usize },
    /// Bytes received from the peer: exactly the declared payload.
    DataAvailable { link_id: usize, data: Vec<u8> },
}

/// The dotted-quad notation of an address.
pub open spec fn ip_bytes(ip: Ipv4Addr) -> Seq<u8> {
    dec_digits_of(ip.a as nat) + seq!['.' as u8] + dec_digits_of(ip.b as nat) + seq!['.' as u8]
        + dec_digits_of(ip.c as nat) + seq!['.' as u8] + dec_digits_of(ip.d as nat)
}

/// The command that starts a TCP server on `port`.
pub open spec fn cipserver_cmd(port: u16) -> Seq<u8> {
    ("AT+CIPSERVER=1,").spec_bytes() + dec_digits_of(port as nat)
}

/// The command that opens TCP connection `link_id` to `address`.
pub open spec fn cipstart_cmd(link_id: usize, address: SocketAddr) -> Seq<u8> {
    ("AT+CIPSTART=").spec_bytes() + dec_digits_of(link_id as nat) + (",\"TCP\",\"").spec_bytes()
        + ip_bytes(address.ip) + ("\",").spec_bytes() + dec_digits_of(address.port as nat)
}

/// The command that announces a payload of `len` bytes on `link_id`.
pub open spec fn cipsend_cmd(link_id: usize, len: usize) -> Seq<u8> {
    ("AT+CIPSEND=").spec_bytes() + dec_digits_of(link_id as nat) + seq![',' as u8]
        + dec_digits_of(len as nat)
}

/// Builds the server command bytes.
fn build_cipserver(port: u16) -> (r: Vec<u8>)
    ensures
        r@ == cipserver_cmd(port),
{
    let mut v: Vec<u8> = Vec::new();
    push_str(&mut v, "AT+CIPSERVER=1,");
    push_u64(&mut v, port as u64);
    v
}

/// Appends the dotted-quad notation of `ip`.
fn push_ip(out: &mut Vec<u8>, ip: Ipv4Addr)
    ensures
        final(out)@ == old(out)@ + ip_bytes(ip),
{
    push_u64(out, ip.a as u64);
    push_str(out, ".");
    push_u64(out, ip.b as u64);
    push_str(out, ".");
    push_u64(out, ip.c as u64);
    push_str(out, ".");
    push_u64(out, ip.d as u64);
    proof {
        vstd::string::is_ascii_spec_bytes(".");
        reveal_strlit(".");
        assert((".").spec_bytes() =~= seq!['.' as u8]);
        assert(out@ =~= old(out)@ + ip_bytes(ip));
    }
}

/// Builds the connect command bytes.
fn build_cipstart(link_id: usize, address: SocketAddr) -> (r: Vec<u8>)
    ensures
        r@ == cipstart_cmd(link_id, address),
{
    let mut v: Vec<u8> = Vec::new();
    push_str(&mut v, "AT+CIPSTART=");
    push_u64(&mut v, link_id as u64);
    push_str(&mut v, ",\"TCP\",\"");
    push_ip(&mut v, address.ip);
    push_str(&mut v, "\",");
    push_u64(&mut v, address.port as u64);
    assert(v@ =~= cipstart_cmd(link_id, address));
    v
}

/// Builds the send-request command bytes.
fn build_cipsend(link_id: usize, len: usize) -> (r: Vec<u8>)
    ensures
        r@ == cipsend_cmd(link_id, len),
{
    let mut v: Vec<u8> = Vec::new();
    push_str(&mut v, "AT+CIPSEND=");
    push_u64(&mut v, link_id as u64);
    push_str(&mut v, ",");
    push_u64(&mut v, len as u64);
    proof {
        vstd::string::is_ascii_spec_bytes(",");
        reveal_strlit(",");
        assert((",").spec_bytes() =~= seq![',' as u8]);
        assert(v@ =~= cipsend_cmd(link_id, len));
    }
    v
}

/// A session with the typical network operations. It owns the module — and
/// with it the buffer — exclusively; the command path and the event loop
/// never run concurrently on one instance.
pub struct NetworkSession<Rx: SerialRead, Tx: SerialWrite, C: SimpleClock> {
    pub(crate) module: Module<Rx, Tx, C>,
}

impl<Rx: SerialRead, Tx: SerialWrite, C: SimpleClock> NetworkSession<Rx, Tx, C> {
    /// The bytes currently accumulated in the reply buffer.
    pub open(crate) spec fn buffer(&self) -> Seq<u8> {
        self.module.buffer()
    }

    /// The reply buffer is within its fixed capacity.
    pub open(crate) spec fn wf(&self) -> bool {
        self.module.wf()
    }

    /// The configured operation timeout.
    pub open(crate) spec fn timeout_spec(&self) -> Option<u64> {
        self.module.timeout_spec()
    }

    /// Wraps an established module into a session.
    pub(crate) fn new(module: Module<Rx, Tx, C>) -> (r: NetworkSession<Rx, Tx, C>)
        ensures
            r.buffer() == module.buffer(),
            r.wf() == module.wf(),
            r.timeout_spec() == module.timeout_spec(),
    {
        NetworkSession { module }
    }

    /// Begins to listen for incoming TCP connections on the given port. The
    /// device must acknowledge the command; a failure-tagged reply is
    /// surfaced as an error.
    pub fn listen(&mut self, port: u16) -> (r: Result<(), Error>)
        requires
            old(self).wf(),
        ensures
            final(self).wf(),
            final(self).timeout_spec() == old(self).timeout_spec(),
            r is Ok ==> final(self).buffer() == Seq::<u8>::empty() && (exists|s: Seq<u8>|
                acknowledged(s)),
            r matches Err(e) ==> e == Error::WriteBuffer || e == Error::ReadBuffer || e
                == Error::BufferFull || e == Error::Timeout || e == Error::UnexpectedReply,
    {
        let cmd = build_cipserver(port);
        self.module.send_expecting_success(cmd.as_slice())
    }

    /// Establishes a TCP connection to `address` under the given link
    /// identifier; data can then be [sent](Self::send) on that link.
    pub fn connect(&mut self, link_id: usize, address: SocketAddr) -> (r: Result<(), Error>)
        requires
            old(self).wf(),
        ensures
            final(self).wf(),
            final(self).timeout_spec() == old(self).timeout_spec(),
            r is Ok ==> final(self).buffer() == Seq::<u8>::empty() && (exists|s: Seq<u8>|
                acknowledged(s)),
            r matches Err(e) ==> e == Error::WriteBuffer || e == Error::ReadBuffer || e
                == Error::BufferFull || e == Error::Timeout || e == Error::UnexpectedReply,
    {
        let cmd = build_cipstart(link_id, address);
        self.module.send_expecting_success(cmd.as_slice())
    }

    /// Non-blocking poll for the next network event: one call, one attempt.
    ///
    /// When no notification is recognized in the buffered bytes — including
    /// when they are only a prefix of one — a round of new bytes is pumped in
    /// and "no event yet" is reported; nothing already buffered is lost. A
    /// recognized notification is consumed from the buffer exactly; for a
    /// data notification the declared payload is accumulated, blocking, and
    /// handed out whole, and the buffer is released afterwards. A link-layer
    /// disconnect is swallowed: it reports "no event yet" rather than an
    /// event or an error.
    pub fn poll_network_event(&mut self) -> (r: Result<Option<NetworkEvent>, Error>)
        requires
            old(self).wf(),
        ensures
            final(self).wf(),
            final(self).timeout_spec() == old(self).timeout_spec(),
            match parse_spec(old(self).buffer()) {
                ParseModel::More => old(self).buffer().is_prefix_of(final(self).buffer()) && match r {
                    Ok(o) => o is None,
                    Err(e) => e == Error::ReadBuffer,
                },
                ParseModel::Fail => old(self).buffer().is_prefix_of(final(self).buffer()) && match r {
                    Ok(o) => o is None,
                    Err(e) => e == Error::ReadBuffer,
                },
                ParseModel::Matched(n, resp) => match resp {
                    CommandResponse::Connected { link_id } => final(self).buffer() == old(self).buffer().skip(n) && r == Ok::<Option<NetworkEvent>, Error>(
                        Some(NetworkEvent::Connected { link_id: link_id as usize }),
                    ),
                    CommandResponse::Closed { link_id } => final(self).buffer() == old(self).buffer().skip(n) && r == Ok::<Option<NetworkEvent>, Error>(
                        Some(NetworkEvent::Closed { link_id: link_id as usize }),
                    ),
                    CommandResponse::WifiDisconnect => final(self).buffer() == old(self).buffer().skip(n) && r == Ok::<Option<NetworkEvent>, Error>(None),
                    CommandResponse::DataAvailable { link_id, size } => (match r {
                        Ok(o) => match o {
                            Some(ev) => match ev {
                                NetworkEvent::DataAvailable { link_id: lid, data } => lid
                                    == link_id as usize && data@.len() == size && final(self).buffer() == Seq::<u8>::empty() && (size <= old(self).buffer().skip(n).len() ==> data@ == old(self).buffer().skip(
                                    n,
                                ).take(size as int)) && (old(self).buffer().skip(n).len() < size
                                    ==> old(self).buffer().skip(n).is_prefix_of(data@)),
                                _ => false,
                            },
                            None => false,
                        },
                        Err(e) => e == Error::ReadBuffer || e == Error::BufferFull,
                    }) && (size <= old(self).buffer().skip(n).len() ==> r is Ok),
                },
            },
    {
        let contents = self.module.reader.buf.to_vec();
        match parse_outcome(contents.as_slice()) {
            ParseOutcome::More | ParseOutcome::Fail => {
                match self.module.reader.read_bytes() {
                    PumpOutcome::Failed => Err(Error::ReadBuffer),
                    PumpOutcome::Drained => Ok(None),
                    PumpOutcome::Filled => Ok(None),
                }
            },
            ParseOutcome::Matched(n, resp) => {
                self.module.reader.buf.truncate_front(n);
                match resp {
                    CommandResponse::Connected { link_id } => Ok(
                        Some(NetworkEvent::Connected { link_id: link_id as usize }),
                    ),
                    CommandResponse::Closed { link_id } => Ok(
                        Some(NetworkEvent::Closed { link_id: link_id as usize }),
                    ),
                    CommandResponse::WifiDisconnect => Ok(None),
                    CommandResponse::DataAvailable { link_id, size } => {
                        self.accumulate_payload(link_id, size)
                    },
                }
            },
        }
    }

    /// Accumulates the declared payload, blocking per byte, then hands it
    /// out whole and releases the buffer.
    fn accumulate_payload(&mut self, link_id: u16, size: u64) -> (r: Result<
        Option<NetworkEvent>,
        Error,
    >)
        requires
            old(self).wf(),
        ensures
            final(self).wf(),
            final(self).timeout_spec() == old(self).timeout_spec(),
            match r {
                Ok(o) => match o {
                    Some(ev) => match ev {
                        NetworkEvent::DataAvailable { link_id: lid, data } => lid
                            == link_id as usize && data@.len() == size && final(self).buffer()
                            == Seq::<u8>::empty() && (size <= old(self).buffer().len() ==> data@
                            == old(self).buffer().take(size as int)) && (old(self).buffer().len()
                            < size ==> old(self).buffer().is_prefix_of(data@)),
                        _ => false,
                    },
                    None => false,
                },
                Err(e) => e == Error::ReadBuffer || e == Error::BufferFull,
            },
            size <= old(self).buffer().len() ==> r is Ok,
    {
        let ghost rem = self.buffer();
        let mut attempts: u64 = 0;
        loop
            invariant
                self.wf(),
                self.module.timeout == old(self).module.timeout,
                rem == old(self).buffer(),
                rem.is_prefix_of(self.module.reader.bytes()),
            ensures
                self.wf(),
                self.module.timeout == old(self).module.timeout,
                rem.is_prefix_of(self.module.reader.bytes()),
                self.module.reader.bytes().len() >= size,
            decreases size - self.module.reader.bytes().len(), u64::MAX - attempts,
        {
            let len = self.module.reader.buf.len();
            if (len as u64) >= size {
                break ;
            }
            if self.module.reader.buf.is_full() {
                return Err(Error::BufferFull);
            }
            match self.module.reader.read_byte() {
                ReadOutcome::Byte(b) => {
                    let pushed = self.module.reader.buf.push(b);
                    assert(pushed is Ok);
                    attempts = 0;
                },
                ReadOutcome::WouldBlock => {
                    if attempts == u64::MAX {
                        return Err(Error::ReadBuffer);
                    }
                    attempts = attempts + 1;
                },
                ReadOutcome::Failed => {
                    return Err(Error::ReadBuffer);
                },
            }
        }
        proof {
            assert(self.module.reader.bytes().len() <= crate::storage::BUF_CAPACITY);
            assert(size <= crate::storage::BUF_CAPACITY as u64);
        }
        let sz: usize = size as usize;
        let all = self.module.reader.buf.to_vec();
        let payload_slice = vstd::slice::slice_subrange(all.as_slice(), 0, sz);
        let payload = vstd::slice::slice_to_vec(payload_slice);
        proof {
            let whole = self.module.reader.bytes();
            assert(payload@ == whole.take(size as int));
            assert(rem == whole.subrange(0, rem.len() as int));
            if size <= rem.len() {
                assert(payload@ =~= rem.take(size as int));
            } else {
                assert(rem =~= payload@.subrange(0, rem.len() as int));
            }
        }
        self.module.reader.buf.clear();
        Ok(Some(NetworkEvent::DataAvailable { link_id: link_id as usize, data: payload }))
    }

    /// Sends a data packet on the given link. The buffer must be empty:
    /// residual bytes would corrupt the prompt and completion scans.
    pub fn send(&mut self, link_id: usize, bytes: &[u8]) -> (r: Result<(), Error>)
        requires
            old(self).wf(),
            old(self).buffer().len() == 0,
            bytes@.len() < MAX_SEND_BYTES,
        ensures
            final(self).wf(),
            final(self).timeout_spec() == old(self).timeout_spec(),
            r is Ok ==> final(self).buffer() == Seq::<u8>::empty() && (exists|s: Seq<u8>|
                acknowledged(s)),
            r matches Err(e) ==> e == Error::WriteBuffer || e == Error::ReadBuffer || e
                == Error::BufferFull || e == Error::Timeout || e == Error::UnexpectedReply,
    {
        let cmd = build_cipsend(link_id, bytes.len());
        match self.module.write_command(cmd.as_slice()) {
            Ok(()) => {},
            Err(e) => {
                return Err(e);
            },
        }
        match self.module.read_until(Condition::Prompt) {
            Ok(_) => {},
            Err(e) => {
                return Err(e);
            },
        }
        match self.module.writer.write_bytes(bytes) {
            Ok(()) => {},
            Err(e) => {
                return Err(e);
            },
        }
        match self.module.read_until(Condition::Completion) {
            Ok(out) => {
                let ghost om = out@;
                match out {
                    MatchedOutput::Success(_) => {
                        proof {
                            crate::module::lemma_output_success_acknowledged(om);
                        }
                        Ok(())
                    },
                    MatchedOutput::Failure(_) => Err(Error::UnexpectedReply),
                    // never reached: a completion output is always tagged
                    MatchedOutput::Content(_) => Err(Error::UnexpectedReply),
                }
            },
            Err(e) => Err(e),
        }
    }

    /// Queries the current session addresses.
    pub fn get_info(&mut self) -> (r: Result<SessionInfo, Error>)
        requires
            old(self).wf(),
        ensures
            final(self).wf(),
            final(self).timeout_spec() == old(self).timeout_spec(),
            match r {
                Ok(info) => exists|s: Seq<u8>|
                    cifsr_yields(
                        s,
                        crate::parser::CifsrResponse {
                            ap_ip: info.softap_address,
                            sta_ip: info.listen_address,
                        },
                    ),
                Err(e) => e == Error::WriteBuffer || e == Error::ReadBuffer || e
                    == Error::BufferFull || e == Error::Timeout || e == Error::UnexpectedReply,
            },
    {
        match self.module.get_network_info() {
            Ok(info) => Ok(
                SessionInfo { softap_address: info.ap_ip, listen_address: info.sta_ip },
            ),
            Err(e) => Err(e),
        }
    }

    /// A reference to the underlying clock instance.
    pub fn clock(&self) -> &C {
        &self.module.clock
    }

    /// The configured operation timeout.
    pub fn timeout(&self) -> (r: Option<u64>)
        ensures
            r == self.timeout_spec(),
    {
        self.module.timeout
    }
}

} // verus!
