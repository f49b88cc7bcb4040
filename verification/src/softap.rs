//! Access-point configuration: starting a software access point and joining
//! an existing one. These are thin builders around the command orchestrator;
//! they issue fixed configuration commands and establish a session.

use vstd::prelude::*;
use vstd::string::StringSliceAdditionalSpecFns;

use crate::clock::SimpleClock;
use crate::encode::{dec_digits_of, push_str, push_u64};
use crate::error::Error;
use crate::module::{acknowledged, refused, Module};
use crate::network_session::NetworkSession;
use crate::serial::{SerialRead, SerialWrite};

verus! {

/// WiFi encryption modes the device supports.
#[derive(Debug, PartialEq, Eq, Clone, Copy, Structural)]
pub enum WifiMode {
    /// Open network mode without any encryption.
    Open,
    /// WPA PSK encryption mode.
    WpaPsk,
    /// WPA2 PSK encryption mode.
    Wpa2Psk,
    /// Both WPA PSK and WPA2 PSK encryption modes.
    WpaWpa2Psk,
}

/// The numeric code the wire protocol uses for each encryption mode.
pub open spec fn mode_code(m: WifiMode) -> nat {
    match m {
        WifiMode::Open => 0,
        WifiMode::WpaPsk => 2,
        WifiMode::Wpa2Psk => 3,
        WifiMode::WpaWpa2Psk => 4,
    }
}

impl WifiMode {
    /// The numeric code of this mode on the wire.
    pub fn code(&self) -> (r: u8)
        ensures
            r == mode_code(*self),
    {
        match self {
            WifiMode::Open => 0,
            WifiMode::WpaPsk => 2,
            WifiMode::Wpa2Psk => 3,
            WifiMode::WpaWpa2Psk => 4,
        }
    }
}

/// The command that configures and starts the software access point.
pub open spec fn cwsap_cmd(ssid: Seq<u8>, password: Seq<u8>, channel: u8, mode: WifiMode) -> Seq<
    u8,
> {
    ("AT+CWSAP=\"").spec_bytes() + ssid + ("\",\"").spec_bytes() + password + ("\",").spec_bytes()
        + dec_digits_of(channel as nat) + seq![',' as u8] + dec_digits_of(mode_code(mode))
}

/// The command that joins an existing access point.
pub open spec fn cwjap_cmd(ssid: Seq<u8>, password: Seq<u8>) -> Seq<u8> {
    ("AT+CWJAP=\"").spec_bytes() + ssid + ("\",\"").spec_bytes() + password + ("\"").spec_bytes()
}

/// Builds the access-point configuration command.
fn build_cwsap(ssid: &str, password: &str, channel: u8, mode: WifiMode) -> (r: Vec<u8>)
    ensures
        r@ == cwsap_cmd(ssid.spec_bytes(), password.spec_bytes(), channel, mode),
{
    let mut v: Vec<u8> = Vec::new();
    push_str(&mut v, "AT+CWSAP=\"");
    push_str(&mut v, ssid);
    push_str(&mut v, "\",\"");
    push_str(&mut v, password);
    push_str(&mut v, "\",");
    push_u64(&mut v, channel as u64);
    push_str(&mut v, ",");
    push_u64(&mut v, mode.code() as u64);
    proof {
        vstd::string::is_ascii_spec_bytes(",");
        reveal_strlit(",");
        assert((",").spec_bytes() =~= seq![',' as u8]);
        assert(v@ =~= cwsap_cmd(ssid.spec_bytes(), password.spec_bytes(), channel, mode));
    }
    v
}

/// Builds the join command.
fn build_cwjap(ssid: &str, password: &str) -> (r: Vec<u8>)
    ensures
        r@ == cwjap_cmd(ssid.spec_bytes(), password.spec_bytes()),
{
    let mut v: Vec<u8> = Vec::new();
    push_str(&mut v, "AT+CWJAP=\"");
    push_str(&mut v, ssid);
    push_str(&mut v, "\",\"");
    push_str(&mut v, password);
    push_str(&mut v, "\"");
    assert(v@ =~= cwjap_cmd(ssid.spec_bytes(), password.spec_bytes()));
    v
}

/// Software access point configuration parameters.
#[derive(Debug, PartialEq, Eq, Clone, Copy)]
pub struct SoftApConfig<'a> {
    /// Access point SSID.
    pub ssid: &'a str,
    /// Access point password; ignored when the mode is open.
    pub password: &'a str,
    /// Channel number.
    pub channel: u8,
    /// WiFi encryption mode.
    pub mode: WifiMode,
}

impl<'a> SoftApConfig<'a> {
    /// Creates a software access point with these parameters and establishes
    /// a session. The device must acknowledge every configuration command; a
    /// failure-tagged reply aborts the call with an error, never a crash.
    pub fn start<Rx: SerialRead, Tx: SerialWrite, C: SimpleClock>(
        self,
        module: Module<Rx, Tx, C>,
    ) -> (r: Result<NetworkSession<Rx, Tx, C>, Error>)
        requires
            module.wf(),
        ensures
            r matches Ok(sess) ==> sess.wf() && sess.buffer() == Seq::<u8>::empty()
                && sess.timeout_spec() == module.timeout_spec() && (exists|s: Seq<u8>|
                acknowledged(s)),
            r matches Err(e) ==> e == Error::WriteBuffer || e == Error::ReadBuffer || e
                == Error::BufferFull || e == Error::Timeout || e == Error::UnexpectedReply,
    {
        let mut module = module;
        match self.init(&mut module) {
            Ok(()) => Ok(NetworkSession::new(module)),
            Err(e) => Err(e),
        }
    }

    /// Enables the combined station and access-point mode, allows multiple
    /// connections, and starts the access point.
    fn init<Rx: SerialRead, Tx: SerialWrite, C: SimpleClock>(
        &self,
        module: &mut Module<Rx, Tx, C>,
    ) -> (r: Result<(), Error>)
        requires
            old(module).wf(),
        ensures
            final(module).wf(),
            final(module).timeout_spec() == old(module).timeout_spec(),
            r is Ok ==> final(module).buffer() == Seq::<u8>::empty() && (exists|s: Seq<u8>|
                acknowledged(s)),
            r matches Err(e) ==> e == Error::WriteBuffer || e == Error::ReadBuffer || e
                == Error::BufferFull || e == Error::Timeout || e == Error::UnexpectedReply,
    {
        match module.send_expecting_success("AT+CWMODE=3".as_bytes()) {
            Ok(()) => {},
            Err(e) => {
                return Err(e);
            },
        }
        match module.send_expecting_success("AT+CIPMUX=1".as_bytes()) {
            Ok(()) => {},
            Err(e) => {
                return Err(e);
            },
        }
        let cmd = build_cwsap(self.ssid, self.password, self.channel, self.mode);
        module.send_expecting_success(cmd.as_slice())
    }
}

/// Configuration parameters for a connection to an existing access point.
#[derive(Debug, PartialEq, Eq, Clone, Copy)]
pub struct JoinApConfig<'a> {
    /// Access point SSID.
    pub ssid: &'a str,
    /// Access point password.
    pub password: &'a str,
}

impl<'a> JoinApConfig<'a> {
    /// Joins the given access point and establishes a session. A device
    /// reply that reports failure to join is surfaced as [`Error::JoinApError`],
    /// never a crash.
    pub fn join<Rx: SerialRead, Tx: SerialWrite, C: SimpleClock>(
        self,
        module: Module<Rx, Tx, C>,
    ) -> (r: Result<NetworkSession<Rx, Tx, C>, Error>)
        requires
            module.wf(),
        ensures
            r matches Ok(sess) ==> sess.wf() && sess.buffer() == Seq::<u8>::empty()
                && sess.timeout_spec() == module.timeout_spec() && (exists|s: Seq<u8>|
                acknowledged(s)),
            r matches Err(e) ==> e == Error::WriteBuffer || e == Error::ReadBuffer || e
                == Error::BufferFull || e == Error::Timeout || e == Error::UnexpectedReply || e
                == Error::JoinApError,
            r == Err::<NetworkSession<Rx, Tx, C>, Error>(Error::JoinApError) ==> exists|s: Seq<u8>|
                refused(s),
    {
        let mut module = module;
        match self.init(&mut module) {
            Ok(()) => Ok(NetworkSession::new(module)),
            Err(e) => Err(e),
        }
    }

    /// Enables station mode, allows multiple connections, and joins the
    /// access point.
    fn init<Rx: SerialRead, Tx: SerialWrite, C: SimpleClock>(
        &self,
        module: &mut Module<Rx, Tx, C>,
    ) -> (r: Result<(), Error>)
        requires
            old(module).wf(),
        ensures
            final(module).wf(),
            final(module).timeout_spec() == old(module).timeout_spec(),
            r is Ok ==> final(module).buffer() == Seq::<u8>::empty() && (exists|s: Seq<u8>|
                acknowledged(s)),
            r matches Err(e) ==> e == Error::WriteBuffer || e == Error::ReadBuffer || e
                == Error::BufferFull || e == Error::Timeout || e == Error::UnexpectedReply || e
                == Error::JoinApError,
            r == Err::<(), Error>(Error::JoinApError) ==> exists|s: Seq<u8>| refused(s),
    {
        match module.send_expecting_success("AT+CWMODE=1".as_bytes()) {
            Ok(()) => {},
            Err(e) => {
                return Err(e);
            },
        }
        match module.send_expecting_success("AT+CIPMUX=1".as_bytes()) {
            Ok(()) => {},
            Err(e) => {
                return Err(e);
            },
        }
        let cmd = build_cwjap(self.ssid, self.password);
        match module.send_at_command(cmd.as_slice()) {
            Ok(raw) => {
                let ok = raw.is_ok();
                proof {
                    if ok {
                        crate::module::lemma_reply_ok_acknowledged(raw);
                    } else {
                        crate::module::lemma_reply_err_refused(raw);
                    }
                }
                if ok {
                    Ok(())
                } else {
                    Err(Error::JoinApError)
                }
            },
            Err(e) => Err(e),
        }
    }
}

} // verus!
