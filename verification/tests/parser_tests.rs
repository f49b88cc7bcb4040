//! Tests for the notification parser, the number reader, the subsequence
//! search, the conditions, and the buffer engine.

use esp8266_wifi_serial::buffer::ByteBuffer;
use esp8266_wifi_serial::conditions::{Condition, MatchedOutput};
use esp8266_wifi_serial::conditions::find_subsequence;
use esp8266_wifi_serial::parser::atoi;
use esp8266_wifi_serial::{CifsrResponse, CommandResponse, Error, Ipv4Addr, BUF_CAPACITY};

#[test]
fn parser_test_parse_connect() {
    let raw = b"1,CONNECT\r\n";
    let event = CommandResponse::parse(raw.as_ref()).unwrap().1;

    assert_eq!(event, CommandResponse::Connected { link_id: 1 })
}

#[test]
fn parser_test_parse_close() {
    let raw = b"1,CLOSED\r\n";
    let event = CommandResponse::parse(raw.as_ref()).unwrap().1;

    assert_eq!(event, CommandResponse::Closed { link_id: 1 })
}

#[test]
fn parser_test_parse_data_available() {
    let raw = b"+IPD,12,6:hello\r\n";
    let event = CommandResponse::parse(raw.as_ref()).unwrap().1;

    assert_eq!(
        event,
        CommandResponse::DataAvailable {
            link_id: 12,
            size: 6
        }
    )
}

#[test]
fn tests_test_parse_connect() {
    let raw = b"1,CONNECT\r\n";
    let event = CommandResponse::parse(raw.as_ref()).unwrap().1;

    assert_eq!(event, CommandResponse::Connected { link_id: 1 })
}

#[test]
fn tests_test_parse_close() {
    let raw = b"1,CLOSED\r\n";
    let event = CommandResponse::parse(raw.as_ref()).unwrap().1;

    assert_eq!(event, CommandResponse::Closed { link_id: 1 })
}

#[test]
fn tests_test_parse_data_available() {
    let raw = b"+IPD,12,6:hello\r\n";
    let event = CommandResponse::parse(raw.as_ref()).unwrap().1;

    assert_eq!(
        event,
        CommandResponse::DataAvailable {
            link_id: 12,
            size: 6
        }
    )
}

#[test]
fn parse_leaves_exact_remainder() {
    let raw = b"+IPD,12,6:hello\r\n";
    let (rest, _) = CommandResponse::parse(raw.as_ref()).unwrap();
    assert_eq!(rest, b"hello\r\n");

    let raw = b"\r\n3,CONNECT\r\ntrailing";
    let (rest, event) = CommandResponse::parse(raw.as_ref()).unwrap();
    assert_eq!(event, CommandResponse::Connected { link_id: 3 });
    assert_eq!(rest, b"trailing");
}

#[test]
fn parse_needs_more_bytes_on_prefix() {
    assert!(CommandResponse::parse(b"".as_ref()).is_none());
    assert!(CommandResponse::parse(b"1,CONN".as_ref()).is_none());
    assert!(CommandResponse::parse(b"+IPD,12".as_ref()).is_none());
    assert!(CommandResponse::parse(b"WIFI DIS".as_ref()).is_none());
}

#[test]
fn parse_rejects_mismatches() {
    assert!(CommandResponse::parse(b"GARBAGE\r\n".as_ref()).is_none());
    assert!(CommandResponse::parse(b"1,CONNECX\r\n".as_ref()).is_none());
    // a link identifier too large for sixteen bits is a mismatch
    assert!(CommandResponse::parse(b"99999,CONNECT\r\n".as_ref()).is_none());
}

#[test]
fn parse_wifi_disconnect() {
    let raw = b"WIFI DISCONNECT\r\n";
    let event = CommandResponse::parse(raw.as_ref()).unwrap().1;
    assert_eq!(event, CommandResponse::WifiDisconnect);
}

#[test]
fn parse_cifsr_both_addresses() {
    let raw = b"+CIFSR:APIP,\"192.168.4.1\"\r\n+CIFSR:STAIP,\"10.0.0.7\"\r\nOK\r\n";
    let (rest, resp) = CifsrResponse::parse(raw.as_ref()).unwrap();
    assert_eq!(
        resp.ap_ip,
        Some(Ipv4Addr {
            a: 192,
            b: 168,
            c: 4,
            d: 1
        })
    );
    assert_eq!(
        resp.sta_ip,
        Some(Ipv4Addr {
            a: 10,
            b: 0,
            c: 0,
            d: 7
        })
    );
    assert_eq!(rest, b"OK\r\n");
}

#[test]
fn parse_cifsr_station_only() {
    let raw = b"+CIFSR:STAIP,\"10.1.2.3\"\r\nrest";
    let (rest, resp) = CifsrResponse::parse(raw.as_ref()).unwrap();
    assert_eq!(resp.ap_ip, None);
    assert_eq!(
        resp.sta_ip,
        Some(Ipv4Addr {
            a: 10,
            b: 1,
            c: 2,
            d: 3
        })
    );
    assert_eq!(rest, b"rest");
}

#[test]
fn atoi_reads_exact_values() {
    assert_eq!(atoi(b"0".as_ref()), Some(0));
    assert_eq!(atoi(b"123".as_ref()), Some(123));
    assert_eq!(atoi(b"007".as_ref()), Some(7));
    assert_eq!(atoi(b"18446744073709551615".as_ref()), Some(u64::MAX));
}

#[test]
fn atoi_rejects_bad_numerals() {
    assert_eq!(atoi(b"".as_ref()), None);
    assert_eq!(atoi(b"12a".as_ref()), None);
    assert_eq!(atoi(b"-3".as_ref()), None);
    // one past the largest value that fits
    assert_eq!(atoi(b"18446744073709551616".as_ref()), None);
}

#[test]
fn find_subsequence_first_occurrence() {
    assert_eq!(find_subsequence(b"abcabc".as_ref(), b"abc".as_ref()), Some(0));
    assert_eq!(find_subsequence(b"xxabc".as_ref(), b"abc".as_ref()), Some(2));
    assert_eq!(find_subsequence(b"xxab".as_ref(), b"abc".as_ref()), None);
    assert_eq!(find_subsequence(b"".as_ref(), b"a".as_ref()), None);
}

#[test]
fn completion_excludes_trailing_terminator() {
    let cond = Condition::Completion;
    let buf = b"data\r\nOK\r\n";
    assert!(cond.is_performed(buf.as_ref()));
    match cond.output(buf.as_ref()) {
        MatchedOutput::Success(content) => assert_eq!(content, b"data\r\n"),
        other => panic!("expected a success-tagged output, got {:?}", other),
    }
}

#[test]
fn completion_picks_earliest_terminator() {
    let cond = Condition::Completion;
    // the failure token comes first in the buffer, so the reply is
    // failure-tagged even though a success token follows
    let buf = b"a\r\nFAIL\r\nOK\r\n";
    assert!(cond.is_performed(buf.as_ref()));
    match cond.output(buf.as_ref()) {
        MatchedOutput::Failure(content) => assert_eq!(content, b"a\r\n"),
        other => panic!("expected a failure-tagged output, got {:?}", other),
    }
    // trailing noise after the terminal token is tolerated
    let buf = b"x\r\nERROR\r\nnoise";
    assert!(cond.is_performed(buf.as_ref()));
    match cond.output(buf.as_ref()) {
        MatchedOutput::Failure(content) => assert_eq!(content, b"x\r\n"),
        other => panic!("expected a failure-tagged output, got {:?}", other),
    }
}

#[test]
fn completion_ignores_partial_terminators() {
    let cond = Condition::Completion;
    assert!(!cond.is_performed(b"data\r\nOK\r".as_ref()));
    assert!(!cond.is_performed(b"".as_ref()));
    assert!(!cond.is_performed(b"ERRO".as_ref()));
}

#[test]
fn ready_and_prompt_are_suffix_checks() {
    let ready = Condition::Ready;
    assert!(ready.is_performed(b"boot noise\r\nready\r\n".as_ref()));
    assert!(!ready.is_performed(b"ready\r\nmore".as_ref()));
    match ready.output(b"boot\r\nready\r\n".as_ref()) {
        MatchedOutput::Content(content) => assert_eq!(content, b"boot\r\n"),
        other => panic!("expected plain content, got {:?}", other),
    }

    let prompt = Condition::Prompt;
    assert!(prompt.is_performed(b"AT+CIPSEND\r\n> ".as_ref()));
    assert!(!prompt.is_performed(b"> extra".as_ref()));
    match prompt.output(b"> ".as_ref()) {
        MatchedOutput::Content(content) => assert_eq!(content, b""),
        other => panic!("expected plain content, got {:?}", other),
    }
}

#[test]
fn buffer_never_exceeds_capacity() {
    let mut buf = ByteBuffer::new();
    for i in 0..BUF_CAPACITY {
        assert_eq!(buf.push((i % 251) as u8), Ok(()));
    }
    assert_eq!(buf.len(), BUF_CAPACITY);
    // the push past capacity fails and leaves the contents unchanged
    let before = buf.to_vec();
    assert_eq!(buf.push(0xab), Err(Error::BufferFull));
    assert_eq!(buf.len(), BUF_CAPACITY);
    assert_eq!(buf.to_vec(), before);
}

#[test]
fn buffer_clear_is_idempotent() {
    let mut buf = ByteBuffer::new();
    buf.push(1).unwrap();
    buf.push(2).unwrap();
    buf.clear();
    assert_eq!(buf.len(), 0);
    assert!(buf.is_empty());
    // clearing a second time is a no-op
    buf.clear();
    assert_eq!(buf.len(), 0);
    assert_eq!(buf.to_vec(), Vec::<u8>::new());
}

#[test]
fn buffer_compact_by_zero_is_noop() {
    let mut buf = ByteBuffer::new();
    for b in b"hello" {
        buf.push(*b).unwrap();
    }
    buf.truncate_front(0);
    assert_eq!(buf.to_vec(), b"hello".to_vec());
    buf.truncate_front(2);
    assert_eq!(buf.to_vec(), b"llo".to_vec());
    assert_eq!(buf.byte_at(0), b'l');
    assert_eq!(buf.byte_at(2), b'o');
}
