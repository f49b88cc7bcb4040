//! Tests that drive the module and the session event loop against a
//! simulated device wired to the serial traits.

use std::cell::RefCell;
use std::collections::VecDeque;
use std::rc::Rc;

use esp8266_wifi_serial::clock::SimpleClock;
use esp8266_wifi_serial::serial::{ReadOutcome, SerialRead, SerialWrite, WriteOutcome};
use esp8266_wifi_serial::{
    Error, JoinApConfig, Module, NetworkEvent, SoftApConfig, WifiMode,
};

const RESET_TIMEOUT_US: u64 = 500_000;
const DEFAULT_TIMEOUT_US: u64 = 15_000_000;

/// The device half of the simulated serial link. Each complete command line
/// written by the driver is answered with the next scripted reply; a
/// send-request command elicits the payload prompt, and the payload bytes
/// themselves elicit the final acknowledgment.
struct DeviceState {
    /// Bytes waiting to be read by the driver.
    to_driver: VecDeque<u8>,
    /// The command line accumulated so far.
    line: Vec<u8>,
    /// Scripted replies, one per complete command line.
    replies: VecDeque<Vec<u8>>,
    /// Payload bytes still expected after a send request.
    pending_payload: usize,
    /// Payload bytes collected after a send request.
    payload: Vec<u8>,
    /// Command lines the device has seen.
    lines_seen: Vec<Vec<u8>>,
    /// When set, every read attempt fails.
    fail_reads: bool,
    /// When set, every write attempt fails.
    fail_writes: bool,
}

impl DeviceState {
    fn new(replies: Vec<&[u8]>) -> Rc<RefCell<DeviceState>> {
        Rc::new(RefCell::new(DeviceState {
            to_driver: VecDeque::new(),
            line: Vec::new(),
            replies: replies.into_iter().map(|r| r.to_vec()).collect(),
            pending_payload: 0,
            payload: Vec::new(),
            lines_seen: Vec::new(),
            fail_reads: false,
            fail_writes: false,
        }))
    }

    fn push_reply(&mut self, reply: &[u8]) {
        for b in reply {
            self.to_driver.push_back(*b);
        }
    }
}

struct SimRx(Rc<RefCell<DeviceState>>);

impl SerialRead for SimRx {
    fn read_byte(&mut self) -> ReadOutcome {
        let mut dev = self.0.borrow_mut();
        if dev.fail_reads {
            return ReadOutcome::Failed;
        }
        match dev.to_driver.pop_front() {
            Some(b) => ReadOutcome::Byte(b),
            None => ReadOutcome::WouldBlock,
        }
    }
}

struct SimTx(Rc<RefCell<DeviceState>>);

impl SerialWrite for SimTx {
    fn write_byte(&mut self, byte: u8) -> WriteOutcome {
        let mut dev = self.0.borrow_mut();
        if dev.fail_writes {
            return WriteOutcome::Failed;
        }
        if dev.pending_payload > 0 {
            dev.pending_payload -= 1;
            dev.payload.push(byte);
            if dev.pending_payload == 0 {
                dev.push_reply(b"SEND OK\r\n");
            }
            return WriteOutcome::Accepted;
        }
        dev.line.push(byte);
        if dev.line.ends_with(b"\r\n") {
            let line = std::mem::take(&mut dev.line);
            if let Some(arg) = line.strip_prefix(b"AT+CIPSEND=") {
                // `<link>,<len>`: remember the declared payload length and
                // hand out the payload prompt
                let text = std::str::from_utf8(arg).unwrap();
                let len: usize = text
                    .trim_end()
                    .split(',')
                    .nth(1)
                    .unwrap()
                    .parse()
                    .unwrap();
                dev.pending_payload = len;
                dev.lines_seen.push(line);
                dev.push_reply(b"> ");
            } else {
                dev.lines_seen.push(line);
                if let Some(reply) = dev.replies.pop_front() {
                    let reply = reply.clone();
                    dev.push_reply(&reply);
                }
            }
        }
        WriteOutcome::Accepted
    }
}

/// A clock that advances by a fixed step on every reading.
struct SimClock {
    now: Rc<RefCell<u64>>,
    step: u64,
}

impl SimpleClock for SimClock {
    fn now_us(&self) -> u64 {
        let mut now = self.now.borrow_mut();
        *now += self.step;
        *now
    }
}

fn sim_clock(step: u64) -> SimClock {
    SimClock {
        now: Rc::new(RefCell::new(0)),
        step,
    }
}

/// Builds a module over the simulated device, mirroring the usual bring-up:
/// construct, reset with a short timeout, then widen the timeout.
fn default_sim_module(
    dev: &Rc<RefCell<DeviceState>>,
) -> Result<Module<SimRx, SimTx, SimClock>, Error> {
    let rx = SimRx(Rc::clone(dev));
    let tx = SimTx(Rc::clone(dev));
    let mut module = Module::new(rx, tx, sim_clock(100_000))?;
    module.set_timeout(Some(RESET_TIMEOUT_US));
    module.reset()?;
    module.set_timeout(Some(DEFAULT_TIMEOUT_US));
    Ok(module)
}

/// The reply script for the usual bring-up: echo-disable at construction,
/// the boot banner after the reset command, then echo-disable again.
fn bring_up_replies() -> Vec<&'static [u8]> {
    vec![b"OK\r\n", b"ready\r\n", b"OK\r\n"]
}

#[test]
fn integration_test_init() {
    let dev = DeviceState::new(bring_up_replies());
    default_sim_module(&dev).map(drop).unwrap()
}

#[test]
fn integration_test_softap() {
    let mut replies = bring_up_replies();
    // CWMODE, CIPMUX, CWSAP, CIPSERVER
    replies.extend([b"OK\r\n".as_ref(), b"OK\r\n".as_ref(), b"OK\r\n".as_ref(), b"OK\r\n".as_ref()]);
    let dev = DeviceState::new(replies);
    let module = default_sim_module(&dev).expect("unable to create module");

    let mut session = SoftApConfig {
        ssid: "test_network",
        password: "12345678",
        channel: 4,
        mode: WifiMode::Open,
    }
    .start(module)
    .expect("unable to start network sesstion");

    session.listen(2048).unwrap();

    let lines = dev.borrow().lines_seen.clone();
    assert!(lines.contains(&b"AT+CWMODE=3\r\n".to_vec()));
    assert!(lines.contains(&b"AT+CWSAP=\"test_network\",\"12345678\",4,0\r\n".to_vec()));
    assert!(lines.contains(&b"AT+CIPSERVER=1,2048\r\n".to_vec()));
}

#[test]
fn integration_test_joinap_fail() {
    let mut replies = bring_up_replies();
    // CWMODE and CIPMUX succeed; the join itself is refused
    replies.extend([b"OK\r\n".as_ref(), b"OK\r\n".as_ref(), b"FAIL\r\n".as_ref()]);
    let dev = DeviceState::new(replies);
    let module = default_sim_module(&dev).expect("unable to create module");

    let err = match (JoinApConfig {
        ssid: "some weird network",
        password: "my password aaaa",
    })
    .join(module)
    {
        Err(e) => e,
        Ok(_) => panic!("joining to the AP should fail"),
    };

    assert_eq!(err, Error::JoinApError);
}

#[test]
fn join_sends_exact_command() {
    let mut replies = bring_up_replies();
    replies.extend([b"OK\r\n".as_ref(), b"OK\r\n".as_ref(), b"OK\r\n".as_ref()]);
    let dev = DeviceState::new(replies);
    let module = default_sim_module(&dev).expect("unable to create module");

    JoinApConfig {
        ssid: "net",
        password: "pw",
    }
    .join(module)
    .unwrap();

    let lines = dev.borrow().lines_seen.clone();
    assert!(lines.contains(&b"AT+CWMODE=1\r\n".to_vec()));
    assert!(lines.contains(&b"AT+CIPMUX=1\r\n".to_vec()));
    assert!(lines.contains(&b"AT+CWJAP=\"net\",\"pw\"\r\n".to_vec()));
}

/// A command whose reply never contains a terminator runs into the deadline,
/// never into a false match on the partial data.
#[test]
fn command_without_terminator_times_out() {
    let dev = DeviceState::new(vec![b"OK\r\n", b"partial reply without end"]);
    let rx = SimRx(Rc::clone(&dev));
    let tx = SimTx(Rc::clone(&dev));
    let mut module = Module::new(rx, tx, sim_clock(100_000)).unwrap();
    module.set_timeout(Some(1_000_000));

    let err = module.send_at_command(b"AT+CWMODE=3").unwrap_err();
    assert_eq!(err, Error::Timeout);
}

/// A reply that floods the buffer without ever matching reports a full
/// buffer, not a bogus reply.
#[test]
fn overlong_reply_reports_buffer_full() {
    let noise = vec![b'x'; 4096];
    let dev = DeviceState::new(vec![b"OK\r\n"]);
    let rx = SimRx(Rc::clone(&dev));
    let tx = SimTx(Rc::clone(&dev));
    let mut module = Module::new(rx, tx, sim_clock(100)).unwrap();
    dev.borrow_mut().replies.push_back(noise);

    let err = module.send_at_command(b"AT+CWMODE=3").unwrap_err();
    assert_eq!(err, Error::BufferFull);
}

#[test]
fn failing_transport_reports_read_and_write_errors() {
    let dev = DeviceState::new(vec![b"OK\r\n", b"OK\r\n"]);
    let rx = SimRx(Rc::clone(&dev));
    let tx = SimTx(Rc::clone(&dev));
    let mut module = Module::new(rx, tx, sim_clock(100)).unwrap();

    dev.borrow_mut().fail_reads = true;
    assert_eq!(module.send_at_command(b"AT"), Err(Error::ReadBuffer));
    dev.borrow_mut().fail_reads = false;

    dev.borrow_mut().fail_writes = true;
    assert_eq!(module.send_at_command(b"AT"), Err(Error::WriteBuffer));
}

/// A failure-tagged reply to a configuration command is surfaced as an
/// error, never a crash.
#[test]
fn refused_listen_is_an_error() {
    let mut replies = bring_up_replies();
    replies.extend([b"OK\r\n".as_ref(), b"OK\r\n".as_ref(), b"OK\r\n".as_ref(), b"ERROR\r\n".as_ref()]);
    let dev = DeviceState::new(replies);
    let module = default_sim_module(&dev).expect("unable to create module");
    let mut session = SoftApConfig {
        ssid: "n",
        password: "p",
        channel: 1,
        mode: WifiMode::Wpa2Psk,
    }
    .start(module)
    .unwrap();

    assert_eq!(session.listen(80), Err(Error::UnexpectedReply));
}

fn joined_session(
    dev: &Rc<RefCell<DeviceState>>,
) -> esp8266_wifi_serial::NetworkSession<SimRx, SimTx, SimClock> {
    JoinApConfig {
        ssid: "net",
        password: "pw",
    }
    .join(default_sim_module(dev).expect("unable to create module"))
    .unwrap()
}

fn join_replies() -> Vec<&'static [u8]> {
    let mut replies = bring_up_replies();
    replies.extend([b"OK\r\n".as_ref(), b"OK\r\n".as_ref(), b"OK\r\n".as_ref()]);
    replies
}

/// Polls with no data arrival yield "no event" and lose nothing: bytes that
/// arrived before or between polls are still there for a later poll to
/// complete the notification.
#[test]
fn polls_preserve_buffered_bytes() {
    let dev = DeviceState::new(join_replies());
    let mut session = joined_session(&dev);

    dev.borrow_mut().push_reply(b"1,CONN");
    assert_eq!(session.poll_network_event(), Ok(None));
    // nothing new arrives; the partial notification must survive this poll
    assert_eq!(session.poll_network_event(), Ok(None));
    dev.borrow_mut().push_reply(b"ECT\r\n");
    assert_eq!(session.poll_network_event(), Ok(None));
    assert_eq!(
        session.poll_network_event(),
        Ok(Some(NetworkEvent::Connected { link_id: 1 }))
    );
}

#[test]
fn poll_yields_closed_event() {
    let dev = DeviceState::new(join_replies());
    let mut session = joined_session(&dev);

    dev.borrow_mut().push_reply(b"2,CLOSED\r\n");
    assert_eq!(session.poll_network_event(), Ok(None));
    assert_eq!(
        session.poll_network_event(),
        Ok(Some(NetworkEvent::Closed { link_id: 2 }))
    );
}

/// The declared payload is framed exactly: the data event carries the six
/// bytes that followed the colon, no more.
#[test]
fn poll_frames_declared_payload() {
    let dev = DeviceState::new(join_replies());
    let mut session = joined_session(&dev);

    dev.borrow_mut().push_reply(b"+IPD,12,6:hello\r");
    assert_eq!(session.poll_network_event(), Ok(None));
    match session.poll_network_event() {
        Ok(Some(NetworkEvent::DataAvailable { link_id, data })) => {
            assert_eq!(link_id, 12);
            assert_eq!(data, b"hello\r".to_vec());
        }
        other => panic!("expected a data event, got {:?}", other),
    }
}

/// A payload split across arrivals is accumulated until the declared size is
/// reached.
#[test]
fn poll_accumulates_split_payload() {
    let dev = DeviceState::new(join_replies());
    let mut session = joined_session(&dev);

    dev.borrow_mut().push_reply(b"+IPD,3,5:ab");
    assert_eq!(session.poll_network_event(), Ok(None));
    // the header parses; the remaining payload bytes arrive while the event
    // loop is already blocking for them
    dev.borrow_mut().push_reply(b"cde");
    match session.poll_network_event() {
        Ok(Some(NetworkEvent::DataAvailable { link_id, data })) => {
            assert_eq!(link_id, 3);
            assert_eq!(data, b"abcde".to_vec());
        }
        other => panic!("expected a data event, got {:?}", other),
    }
}

/// A link-layer disconnect is swallowed: it reports "no event yet".
#[test]
fn poll_swallows_wifi_disconnect() {
    let dev = DeviceState::new(join_replies());
    let mut session = joined_session(&dev);

    dev.borrow_mut().push_reply(b"WIFI DISCONNECT\r\n3,CONNECT\r\n");
    assert_eq!(session.poll_network_event(), Ok(None));
    assert_eq!(session.poll_network_event(), Ok(None));
    assert_eq!(
        session.poll_network_event(),
        Ok(Some(NetworkEvent::Connected { link_id: 3 }))
    );
}

#[test]
fn connect_sends_exact_command() {
    let dev = DeviceState::new(join_replies());
    let mut session = joined_session(&dev);
    dev.borrow_mut().replies.push_back(b"OK\r\n".to_vec());

    session
        .connect(
            0,
            esp8266_wifi_serial::SocketAddr {
                ip: esp8266_wifi_serial::Ipv4Addr {
                    a: 10,
                    b: 0,
                    c: 0,
                    d: 1,
                },
                port: 8080,
            },
        )
        .unwrap();

    let lines = dev.borrow().lines_seen.clone();
    assert!(lines.contains(&b"AT+CIPSTART=0,\"TCP\",\"10.0.0.1\",8080\r\n".to_vec()));
}

#[test]
fn send_streams_payload_after_prompt() {
    let dev = DeviceState::new(join_replies());
    let mut session = joined_session(&dev);

    session.send(1, b"hello").unwrap();
    let dev_ref = dev.borrow();
    assert!(dev_ref.lines_seen.contains(&b"AT+CIPSEND=1,5\r\n".to_vec()));
    assert_eq!(dev_ref.payload, b"hello".to_vec());
}

#[test]
fn get_info_reads_addresses() {
    let dev = DeviceState::new(join_replies());
    let mut session = joined_session(&dev);
    dev.borrow_mut()
        .replies
        .push_back(b"+CIFSR:STAIP,\"10.0.0.7\"\r\nOK\r\n".to_vec());

    let info = session.get_info().unwrap();
    assert_eq!(info.softap_address, None);
    assert_eq!(
        info.listen_address,
        Some(esp8266_wifi_serial::Ipv4Addr {
            a: 10,
            b: 0,
            c: 0,
            d: 7
        })
    );
}
