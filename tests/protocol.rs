use std::collections::VecDeque;

use chip_tester::chip::SoftTypes;
use chip_tester::command::build_ping;
use chip_tester::expect::{is_blank, Expectation, MAX_ATTEMPTS, MAX_BLANK_RUN};
use chip_tester::link::Action;
use chip_tester::numeric::{decimal_string, parse_i32};
use chip_tester::reframer::LineBuffer;
use chip_tester::rssi::{average, extract_samples, samples_from_numerals};
use chip_tester::sampler::Sampler;
use chip_tester::session::Handshake;

/// A board on the other end of a link: it answers each ping with a fixed
/// list of chunks.
struct SimulatedBoard {
    pending: VecDeque<Vec<u8>>,
    answer: Vec<Vec<u8>>,
    sent: Vec<Vec<u8>>,
    reads: usize,
    flushes: usize,
    backoffs: usize,
}

impl SimulatedBoard {
    fn new(boot: &[&str], answer: &[&str]) -> Self {
        SimulatedBoard {
            pending: boot.iter().map(|s| s.as_bytes().to_vec()).collect(),
            answer: answer.iter().map(|s| s.as_bytes().to_vec()).collect(),
            sent: Vec::new(),
            reads: 0,
            flushes: 0,
            backoffs: 0,
        }
    }

    fn read(&mut self) -> Vec<u8> {
        self.reads += 1;
        self.pending.pop_front().unwrap_or_default()
    }

    fn send(&mut self, frame: Vec<u8>) {
        self.sent.push(frame);
        for chunk in &self.answer {
            self.pending.push_back(chunk.clone());
        }
    }
}

fn run_handshake(role: SoftTypes, board: &mut SimulatedBoard, buf: &mut LineBuffer) -> bool {
    let mut hs = Handshake::new(role);
    for _ in 0..1000 {
        match hs.next_action(buf) {
            Action::Flush => board.flushes += 1,
            Action::Send(frame) => board.send(frame),
            Action::Read => {
                let chunk = board.read();
                hs.on_chunk(buf, &chunk);
            }
            Action::Backoff => board.backoffs += 1,
            Action::Done => return hs.banner_seen(),
        }
    }
    panic!("handshake did not finish");
}

fn run_sampler(times: u32, target: i32, board: &mut SimulatedBoard, buf: &mut LineBuffer) -> Sampler {
    let mut sampler = Sampler::new(times, target);
    for _ in 0..100000 {
        match sampler.next_action(buf) {
            Action::Flush => {
                board.flushes += 1;
                board.pending.clear();
            }
            Action::Send(frame) => board.send(frame),
            Action::Read => {
                let chunk = board.read();
                sampler.on_chunk(buf, &chunk);
            }
            Action::Backoff => board.backoffs += 1,
            Action::Done => return sampler,
        }
    }
    panic!("sampler did not finish");
}

#[test]
fn reframer_splits_at_first_terminator_and_keeps_rest() {
    let mut buf = LineBuffer::new();
    buf.push_chunk(b"A\nBC");
    assert_eq!(buf.take_line(), Some(b"A\n".to_vec()));
    assert_eq!(buf.pending(), b"BC".to_vec());
    assert_eq!(buf.take_line(), None);
    buf.push_chunk(b"D\n");
    assert_eq!(buf.take_line(), Some(b"BCD\n".to_vec()));
    assert_eq!(buf.pending(), Vec::<u8>::new());
    assert_eq!(buf.take_line(), None);
}

#[test]
fn reframer_drops_non_text_bytes() {
    let mut buf = LineBuffer::new();
    buf.push_chunk(&[b'o', 0xff, b'k', 0xc3, 0xa9, b'\n']);
    assert!(buf.has_line());
    assert_eq!(buf.take_line(), Some(b"ok\n".to_vec()));
    assert!(!buf.has_line());
}

#[test]
fn reframer_hands_out_several_lines_in_order() {
    let mut buf = LineBuffer::new();
    buf.push_chunk(b"one\ntwo\nthr");
    assert_eq!(buf.take_line(), Some(b"one\n".to_vec()));
    assert_eq!(buf.take_line(), Some(b"two\n".to_vec()));
    assert_eq!(buf.take_line(), None);
    assert_eq!(buf.pending(), b"thr".to_vec());
}

#[test]
fn ping_frame_of_ten_is_hex_a() {
    assert_eq!(build_ping(10), b">>p:a:4\n".to_vec());
}

#[test]
fn ping_frame_edge_identifiers() {
    assert_eq!(build_ping(0), b">>p:0:4\n".to_vec());
    assert_eq!(build_ping(255), b">>p:ff:4\n".to_vec());
    assert_eq!(build_ping(4096), b">>p:1000:4\n".to_vec());
    assert_eq!(build_ping(-1), b">>p:ffffffff:4\n".to_vec());
    assert_eq!(build_ping(i32::MAX), b">>p:7fffffff:4\n".to_vec());
}

#[test]
fn blank_lines() {
    assert!(is_blank(&b"".to_vec()));
    assert!(is_blank(&b"\n".to_vec()));
    assert!(is_blank(&b"\r".to_vec()));
    assert!(is_blank(&b"\r\n".to_vec()));
    assert!(!is_blank(&b" \n".to_vec()));
    assert!(!is_blank(&b"x".to_vec()));
}

#[test]
fn wait_gives_up_after_blank_run() {
    let mut wait = Expectation::standard(b"<<0".to_vec());
    for i in 0..MAX_BLANK_RUN {
        assert!(!wait.is_settled());
        if i % 2 == 0 {
            wait.observe(None);
        } else {
            wait.observe(Some(b"\n".to_vec()));
        }
    }
    assert!(wait.is_settled());
    assert_eq!(wait.matched_line(), None);
    assert_eq!(wait.attempts(), MAX_BLANK_RUN);
}

#[test]
fn wait_blank_run_resets_on_content() {
    let mut wait = Expectation::standard(b"<<0".to_vec());
    for _ in 0..3 {
        for _ in 0..MAX_BLANK_RUN - 1 {
            wait.observe(None);
        }
        wait.observe(Some(b"noise\n".to_vec()));
    }
    assert!(!wait.is_settled());
    assert_eq!(wait.attempts(), 3 * MAX_BLANK_RUN);
}

#[test]
fn wait_gives_up_after_max_attempts() {
    let mut wait = Expectation::standard(b"rssi is".to_vec());
    let mut used = 0;
    while !wait.is_settled() {
        wait.observe(Some(b"something else\n".to_vec()));
        used += 1;
        assert!(used <= MAX_ATTEMPTS);
    }
    assert_eq!(used, MAX_ATTEMPTS);
    assert_eq!(wait.matched_line(), None);
}

#[test]
fn wait_matches_substring() {
    let mut wait = Expectation::standard(b"rssi is".to_vec());
    wait.observe(Some(b"<<0\n".to_vec()));
    wait.observe(Some(b"the rssi is -42\n".to_vec()));
    assert!(wait.is_settled());
    assert_eq!(wait.matched_line(), Some(b"the rssi is -42\n".to_vec()));
    wait.observe(Some(b"rssi is 1\n".to_vec()));
    assert_eq!(wait.matched_line(), Some(b"the rssi is -42\n".to_vec()));
    assert_eq!(wait.attempts(), 2);
}

#[test]
fn wait_with_no_attempts_is_settled() {
    let wait = Expectation::new(b"x".to_vec(), 0, 5);
    assert!(wait.is_settled());
}

#[test]
fn samples_from_telemetry_lines() {
    let mut samples = Vec::new();
    extract_samples(&b"rssi is -42\n".to_vec(), &mut samples);
    assert_eq!(samples, vec![-42]);
    extract_samples(&b"rssi is +7 and 13\n".to_vec(), &mut samples);
    assert_eq!(samples, vec![-42, 7, 13]);
    extract_samples(&b"rssi is none\n".to_vec(), &mut samples);
    assert_eq!(samples, vec![-42, 7, 13]);
}

#[test]
fn numerals_that_do_not_fit_give_no_sample() {
    let numerals = vec![b"-42".to_vec(), b"99999999999".to_vec(), b"+5".to_vec()];
    assert_eq!(samples_from_numerals(&numerals), vec![-42, 5]);
}

#[test]
fn average_truncates_toward_zero() {
    assert_eq!(average(&vec![]), None);
    assert_eq!(average(&vec![-42]), Some(-42));
    assert_eq!(average(&vec![-42, -43]), Some(-42));
    assert_eq!(average(&vec![5, 6]), Some(5));
    assert_eq!(average(&vec![-1, 0, 0]), Some(0));
    assert_eq!(average(&vec![i32::MIN, i32::MIN]), Some(i32::MIN));
    assert_eq!(average(&vec![i32::MAX, i32::MAX, i32::MAX]), Some(i32::MAX));
}

#[test]
fn parse_decimal_identifiers() {
    assert_eq!(parse_i32(b"10"), Some(10));
    assert_eq!(parse_i32(b"-5"), Some(-5));
    assert_eq!(parse_i32(b"+3"), Some(3));
    assert_eq!(parse_i32(b"007"), Some(7));
    assert_eq!(parse_i32(b"2147483647"), Some(i32::MAX));
    assert_eq!(parse_i32(b"-2147483648"), Some(i32::MIN));
    assert_eq!(parse_i32(b"2147483648"), None);
    assert_eq!(parse_i32(b""), None);
    assert_eq!(parse_i32(b"-"), None);
    assert_eq!(parse_i32(b"1a"), None);
}

#[test]
fn decimal_text() {
    assert_eq!(decimal_string(-42), "-42");
    assert_eq!(decimal_string(0), "0");
    assert_eq!(decimal_string(1234), "1234");
    assert_eq!(decimal_string(i32::MIN), "-2147483648");
}

#[test]
fn master_banner_then_three_rounds_average_minus_42() {
    let mut board = SimulatedBoard::new(&["i'm a master\n"], &["<<0\n", "rssi is -42\n"]);
    let mut buf = LineBuffer::new();
    assert!(run_handshake(SoftTypes::Master, &mut board, &mut buf));
    let sampler = run_sampler(3, 1, &mut board, &mut buf);
    assert_eq!(sampler.average(), Some(-42));
    assert_eq!(sampler.samples(), vec![-42, -42, -42]);
    assert_eq!(board.sent, vec![build_ping(1); 3]);
}

#[test]
fn silent_board_uses_exactly_four_rounds_and_gives_no_data() {
    let mut board = SimulatedBoard::new(&[], &[]);
    let mut buf = LineBuffer::new();
    let sampler = run_sampler(4, 7, &mut board, &mut buf);
    assert_eq!(sampler.average(), None);
    assert_eq!(sampler.rounds_started(), 4);
    assert_eq!(board.sent.len(), 4);
    // Each round waits twice, each wait giving up after its blank run.
    assert_eq!(board.reads, 4 * 2 * MAX_BLANK_RUN as usize);
    assert_eq!(board.backoffs, board.reads);
}

#[test]
fn relay_handshake_only_flushes() {
    let mut board = SimulatedBoard::new(&["noise\n"], &[]);
    let mut buf = LineBuffer::new();
    assert!(!run_handshake(SoftTypes::Relay1, &mut board, &mut buf));
    assert_eq!(board.flushes, 1);
    assert_eq!(board.reads, 0);
}

#[test]
fn master_without_banner_proceeds() {
    let mut board = SimulatedBoard::new(&["booting\n"], &[]);
    let mut buf = LineBuffer::new();
    assert!(!run_handshake(SoftTypes::Master, &mut board, &mut buf));
}

#[test]
fn telemetry_split_across_chunks() {
    let mut board = SimulatedBoard::new(&[], &["<<", "0\nrssi ", "is -4", "0\n"]);
    let mut buf = LineBuffer::new();
    let sampler = run_sampler(2, 3, &mut board, &mut buf);
    assert_eq!(sampler.average(), Some(-40));
}

#[test]
fn missing_acknowledgement_is_not_fatal() {
    let mut board = SimulatedBoard::new(&[], &["rssi is -50\n"]);
    let mut buf = LineBuffer::new();
    let sampler = run_sampler(2, 3, &mut board, &mut buf);
    assert_eq!(sampler.rounds_started(), 2);
    assert!(sampler.is_done());
}
