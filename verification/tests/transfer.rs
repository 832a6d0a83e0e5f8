//! The transfer channel: pipe allocation, handoff and the byte stream.

use data_device::receive;
use data_device::transfer::PendingTransfer;
use data_device::ReadPipe;

#[test]
fn receive_round_trip_preserves_the_bytes() {
    let (pending, request) = receive(7, String::from("text/plain")).unwrap();
    assert_eq!(request.offer_id, 7);
    assert_eq!(request.mime_type, "text/plain");
    assert_eq!(request.write_fd, pending.write_fd());
    // the simulated peer writes into the transfer's write side
    let written = nix::unistd::write(request.write_fd, b"hello world").unwrap();
    assert_eq!(written, 11);
    // the handoff closes the write side, exactly once
    let mut pipe = pending.finish_handoff();
    // the reader observes exactly the bytes written: no truncation, no
    // duplication, then end of stream
    let bytes = pipe.read_up_to(1024).unwrap();
    assert_eq!(bytes, b"hello world");
    let more = pipe.read_chunk(16).unwrap();
    assert_eq!(more.len(), 0);
    pipe.close().unwrap();
}

#[test]
fn handoff_closes_the_write_side() {
    let pending = PendingTransfer::create().unwrap();
    let write_fd = pending.write_fd();
    let pipe = pending.finish_handoff();
    // the descriptor is gone: a write through it is refused
    assert!(nix::unistd::write(write_fd, b"x").is_err());
    pipe.close().unwrap();
}

#[test]
fn chunked_reads_drain_the_stream_in_order() {
    let pending = PendingTransfer::create().unwrap();
    nix::unistd::write(pending.write_fd(), b"abcdef").unwrap();
    let mut pipe = pending.finish_handoff();
    let first = pipe.read_chunk(3).unwrap();
    assert_eq!(first, b"abc");
    let rest = pipe.read_chunk(16).unwrap();
    assert_eq!(rest, b"def");
    assert_eq!(pipe.read_chunk(16).unwrap().len(), 0);
    pipe.close().unwrap();
}

#[test]
fn read_up_to_stops_at_the_limit() {
    let pending = PendingTransfer::create().unwrap();
    nix::unistd::write(pending.write_fd(), b"abcdef").unwrap();
    let mut pipe = pending.finish_handoff();
    let head = pipe.read_up_to(4).unwrap();
    assert_eq!(head, b"abcd");
    let tail = pipe.read_up_to(16).unwrap();
    assert_eq!(tail, b"ef");
    pipe.close().unwrap();
}

#[test]
fn descriptors_can_be_handed_out_and_adopted() {
    let pending = PendingTransfer::create().unwrap();
    nix::unistd::write(pending.write_fd(), b"xy").unwrap();
    let pipe = pending.finish_handoff();
    let fd = pipe.raw_fd();
    // handing the descriptor out does not close it
    let raw = pipe.into_fd();
    assert_eq!(raw, fd);
    let mut adopted = ReadPipe::adopt_fd(raw);
    assert_eq!(adopted.read_up_to(16).unwrap(), b"xy");
    adopted.close().unwrap();
}
