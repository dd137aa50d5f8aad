use wifi_nina::error::TcpError;
use wifi_nina::socket::{flush_chunk, flush_step, TcpSocket, WriteStep, BUFFER_CAPACITY, MAX_CHUNK};
use wifi_nina::types::{ConnectionState, Socket};
use wifi_nina::wifi::{connection_poll_step, PollStep};

/// Writes `data` step by step; every flush sends its chunks, the coprocessor
/// taking `accept` bytes of each at most, and records them in `sent`.
fn write_all(s: &mut TcpSocket, data: &Vec<u8>, accept: usize, sent: &mut Vec<Vec<u8>>) {
    let mut step = s.write_step(data, 0);
    while let WriteStep::FlushThenContinue(w) = step {
        flush(s, accept, sent);
        step = s.write_step(data, w);
    }
    assert_eq!(step, WriteStep::Done(data.len()));
}

fn flush(s: &mut TcpSocket, accept: usize, sent: &mut Vec<Vec<u8>>) {
    let pending = s.pending_bytes();
    let (mut at, mut next) = flush_step(&pending, 0, 0);
    while let Some(chunk) = next {
        let n = chunk.len().min(accept);
        sent.push(chunk);
        let (a, c) = flush_step(&pending, at, n);
        at = a;
        next = c;
    }
    s.clear_pending();
}

#[test]
fn small_write_is_flushed_once() {
    let mut s = TcpSocket::new(Socket(1), 16);
    let data: Vec<u8> = (0..10u8).collect();
    let mut sent = Vec::new();
    write_all(&mut s, &data, usize::MAX, &mut sent);
    assert!(sent.is_empty());
    assert_eq!(s.pending_bytes(), data);
    flush(&mut s, usize::MAX, &mut sent);
    assert_eq!(sent, vec![data]);
    assert!(s.pending_bytes().is_empty());
}

#[test]
fn exact_capacity_write_stays_buffered() {
    let mut s = TcpSocket::new(Socket(1), 4);
    let mut sent = Vec::new();
    write_all(&mut s, &vec![1, 2, 3, 4], usize::MAX, &mut sent);
    assert!(sent.is_empty());
    assert_eq!(s.pending_bytes(), vec![1, 2, 3, 4]);
    write_all(&mut s, &vec![5], usize::MAX, &mut sent);
    assert_eq!(sent, vec![vec![1, 2, 3, 4]]);
    assert_eq!(s.pending_bytes(), vec![5]);
}

#[test]
fn write_step_keeps_bytes_until_cleared() {
    let mut s = TcpSocket::new(Socket(1), 4);
    let data: Vec<u8> = (0..6u8).collect();
    assert_eq!(s.write_step(&data, 0), WriteStep::FlushThenContinue(4));
    assert_eq!(s.pending_bytes(), vec![0, 1, 2, 3]);
    assert_eq!(s.write_step(&data, 4), WriteStep::FlushThenContinue(4));
    assert_eq!(s.pending_bytes(), vec![0, 1, 2, 3]);
    s.clear_pending();
    assert_eq!(s.write_step(&data, 4), WriteStep::Done(6));
    assert_eq!(s.pending_bytes(), vec![4, 5]);
}

#[test]
fn large_write_flushes_full_buffers() {
    let cap = 4;
    for n in [5usize, 8, 9, 13] {
        let mut s = TcpSocket::new(Socket(2), cap);
        let data: Vec<u8> = (0..n).map(|i| i as u8).collect();
        let mut sent = Vec::new();
        write_all(&mut s, &data, usize::MAX, &mut sent);
        let during = sent.len();
        flush(&mut s, usize::MAX, &mut sent);
        assert_eq!(during + 1, (n + cap - 1) / cap);
        assert_eq!(sent.len(), (n + cap - 1) / cap);
        assert!(sent[..during].iter().all(|f| f.len() == cap));
        assert!(!sent[during].is_empty() && sent[during].len() <= cap);
        assert_eq!(sent.concat(), data);
    }
}

#[test]
fn partial_sends_resend_the_rest() {
    let mut s = TcpSocket::new(Socket(2), 8);
    let data: Vec<u8> = (0..8u8).collect();
    let mut sent = Vec::new();
    write_all(&mut s, &data, 3, &mut sent);
    flush(&mut s, 3, &mut sent);
    assert_eq!(sent, vec![data.clone(), data[3..].to_vec(), data[6..].to_vec()]);
}

#[test]
fn empty_flush_sends_nothing() {
    let mut s = TcpSocket::with_default_capacity(Socket(0));
    let mut sent = Vec::new();
    write_all(&mut s, &vec![], usize::MAX, &mut sent);
    flush(&mut s, usize::MAX, &mut sent);
    assert!(sent.is_empty());
    assert_eq!(flush_step(&vec![], 0, 0), (0, None));
}

#[test]
fn flush_chunks_are_bounded() {
    let data = vec![7u8; MAX_CHUNK + 10];
    assert_eq!(flush_chunk(&data, 0).len(), MAX_CHUNK);
    assert_eq!(flush_chunk(&data, MAX_CHUNK).len(), 10);
    assert_eq!(flush_chunk(&data, data.len()).len(), 0);
    let (at, next) = flush_step(&data, 0, MAX_CHUNK);
    assert_eq!(at, MAX_CHUNK);
    assert_eq!(next.unwrap().len(), 10);
    assert_eq!(flush_step(&data, MAX_CHUNK, 10), (data.len(), None));
    assert_eq!(flush_step(&data, MAX_CHUNK, 500), (data.len(), None));
}

#[test]
fn refill_len_is_bounded_by_a_request() {
    let s = TcpSocket::new(Socket(1), 100_000);
    assert_eq!(s.refill_len(), MAX_CHUNK);
}

#[test]
fn read_consumes_prefetch_before_refill() {
    let mut s = TcpSocket::new(Socket(3), 8);
    assert!(s.needs_refill());
    assert_eq!(s.refill_len(), 8);
    assert!(s.refill(vec![1, 2, 3, 4, 5]).is_ok());
    assert!(!s.needs_refill());
    assert_eq!(s.read(3), vec![1, 2, 3]);
    assert_eq!(s.read(10), vec![4, 5]);
    assert!(s.needs_refill());
    assert_eq!(s.read(4), Vec::<u8>::new());
}

#[test]
fn refill_refuses_too_much() {
    let mut s = TcpSocket::new(Socket(3), 2);
    assert_eq!(s.refill(vec![1, 2, 3]), Err(TcpError::DataTooLong));
    assert!(s.needs_refill());
}

#[test]
fn default_capacity_is_four_kib() {
    let s = TcpSocket::with_default_capacity(Socket(9));
    assert_eq!(s.refill_len(), BUFFER_CAPACITY);
    assert_eq!(BUFFER_CAPACITY, 4096);
    assert_eq!(s.socket(), Socket(9));
}

#[test]
fn poll_reaches_state() {
    assert_eq!(
        connection_poll_step(ConnectionState::Connected, ConnectionState::Connected, 0, 100, 1000),
        PollStep::Reached
    );
}

#[test]
fn poll_waits_then_fails() {
    assert_eq!(
        connection_poll_step(ConnectionState::Connected, ConnectionState::Idle, 0, 100, 1000),
        PollStep::DelayThenPoll(100)
    );
    assert_eq!(
        connection_poll_step(ConnectionState::Connected, ConnectionState::Idle, 1000, 100, 1000),
        PollStep::DelayThenFail(TcpError::ConnectionFailure(ConnectionState::Idle))
    );
    assert_eq!(
        connection_poll_step(ConnectionState::Connected, ConnectionState::Idle, 900, 100, 1000),
        PollStep::DelayThenPoll(1000)
    );
}
