//! The transfer channel: the byte-stream handoff for a `receive`
//! request.
//!
//! A fresh pipe is allocated; the write end is named in the request the
//! caller forwards to the transport layer, and `finish_handoff` then
//! closes it locally — consuming the channel, so the descriptor is
//! closed exactly once — leaving the read end for the application. The
//! byte stream is independent of the offer object's lifetime: a reader
//! keeps its end even if the offer is later superseded.
//!
//! The caller must not block-read before flushing pending outbound
//! requests on the thread that drives the protocol queue: compositor and
//! client could otherwise each wait on the other.

use vstd::prelude::*;

verus! {

/// Relies on nix::unistd::pipe2 with the close-on-exec flag: on success
/// the read and write ends of a fresh pipe, two distinct valid
/// (non-negative) descriptors; on failure the system error number.
#[verifier::external_body]
fn sys_pipe() -> (r: Result<(i32, i32), i32>)
    ensures
        r matches Ok(fds) ==> fds.0 >= 0 && fds.1 >= 0 && fds.0 != fds.1,
{
    match nix::unistd::pipe2(nix::fcntl::OFlag::O_CLOEXEC) {
        Ok((read_fd, write_fd)) => Ok((read_fd, write_fd)),
        Err(e) => Err(e as i32),
    }
}

/// Relies on nix::unistd::close: releases the descriptor; on failure the
/// system error number.
#[verifier::external_body]
fn sys_close(fd: i32) -> (r: Result<(), i32>)
{
    match nix::unistd::close(fd) {
        Ok(()) => Ok(()),
        Err(e) => Err(e as i32),
    }
}

/// Relies on nix::unistd::read: reads at most `max` bytes from the
/// descriptor, returning exactly the bytes read — empty means end of
/// stream; on failure the system error number.
#[verifier::external_body]
fn sys_read(fd: i32, max: usize) -> (r: Result<Vec<u8>, i32>)
    ensures
        r matches Ok(v) ==> v@.len() <= max,
{
    let mut buf = vec![0u8; max];
    match nix::unistd::read(fd, &mut buf) {
        Ok(n) => {
            buf.truncate(n);
            Ok(buf)
        },
        Err(e) => Err(e as i32),
    }
}

/// The two ends of a transfer pipe before the handoff completed.
#[verifier::ext_equal]
pub ghost struct PendingModel {
    pub read_fd: i32,
    pub write_fd: i32,
}

/// A freshly allocated transfer pipe, still holding both ends.
#[derive(Debug)]
pub struct PendingTransfer {
    read_fd: i32,
    write_fd: i32,
}

impl View for PendingTransfer {
    type V = PendingModel;

    closed spec fn view(&self) -> PendingModel {
        PendingModel { read_fd: self.read_fd, write_fd: self.write_fd }
    }
}

/// A read-only byte-stream endpoint: the local end of a transfer.
#[derive(Debug)]
pub struct ReadPipe {
    fd: i32,
}

impl View for ReadPipe {
    type V = i32;

    closed spec fn view(&self) -> i32 {
        self.fd
    }
}

impl PendingTransfer {
    /// Both ends are valid descriptors and distinct.
    pub open spec fn wf(&self) -> bool {
        self@.read_fd >= 0 && self@.write_fd >= 0 && self@.read_fd != self@.write_fd
    }

    /// Allocates a fresh pipe. Fails with the system error number when
    /// the process cannot allocate another descriptor pair — a
    /// recoverable condition: the transfer simply does not occur.
    pub fn create() -> (r: Result<PendingTransfer, i32>)
        ensures
            r matches Ok(p) ==> p.wf(),
    {
        match sys_pipe() {
            Ok((read_fd, write_fd)) => Ok(PendingTransfer { read_fd, write_fd }),
            Err(e) => Err(e),
        }
    }

    /// The write end, to be named in the request handed to the transport
    /// layer.
    pub fn write_fd(&self) -> (r: i32)
        ensures
            r == self@.write_fd,
    {
        self.write_fd
    }

    /// Completes the handoff once the transport layer has passed the
    /// write end to the remote peer: closes the local write end — the
    /// channel is consumed, so it is closed exactly once — and hands the
    /// read end to the application. A close failure is deliberately
    /// swallowed: the read end stays usable either way.
    pub fn finish_handoff(self) -> (r: ReadPipe)
        ensures
            r@ == self@.read_fd,
    {
        let _ = sys_close(self.write_fd);
        ReadPipe { fd: self.read_fd }
    }
}

impl ReadPipe {
    /// Adopts an externally obtained read descriptor.
    pub fn adopt_fd(fd: i32) -> (r: ReadPipe)
        requires
            fd >= 0,
        ensures
            r@ == fd,
    {
        ReadPipe { fd }
    }

    /// The underlying descriptor, for registration with a readiness
    /// multiplexer.
    pub fn raw_fd(&self) -> (r: i32)
        ensures
            r == self@,
    {
        self.fd
    }

    /// Hands the descriptor out without closing it; the caller takes over
    /// ownership.
    pub fn into_fd(self) -> (r: i32)
        ensures
            r == self@,
    {
        self.fd
    }

    /// Reads at most `max` bytes; an empty result means end of stream.
    pub fn read_chunk(&mut self, max: usize) -> (r: Result<Vec<u8>, i32>)
        ensures
            *final(self) == *old(self),
            r matches Ok(v) ==> v@.len() <= max,
    {
        sys_read(self.fd, max)
    }

    /// Reads until end of stream or until `limit` bytes have arrived,
    /// whichever comes first.
    pub fn read_up_to(&mut self, limit: usize) -> (r: Result<Vec<u8>, i32>)
        ensures
            *final(self) == *old(self),
            r matches Ok(v) ==> v@.len() <= limit,
    {
        let mut out: Vec<u8> = Vec::new();
        while out.len() < limit
            invariant
                *self == *old(self),
                out@.len() <= limit,
            decreases limit - out.len(),
        {
            let mut room = limit - out.len();
            if room > 4096 {
                room = 4096;
            }
            let mut chunk = match self.read_chunk(room) {
                Ok(c) => c,
                Err(e) => {
                    return Err(e);
                },
            };
            if chunk.len() == 0 {
                return Ok(out);
            }
            out.append(&mut chunk);
        }
        Ok(out)
    }

    /// Closes the read end; the endpoint is consumed, so it is closed
    /// exactly once.
    pub fn close(self) -> (r: Result<(), i32>)
    {
        sys_close(self.fd)
    }
}

/// A `receive` request to forward to the transport layer: ask the remote
/// source behind `offer_id` to write the data of `mime_type` into
/// `write_fd`.
#[derive(Debug)]
pub struct ReceiveRequest {
    pub offer_id: u32,
    pub mime_type: String,
    pub write_fd: i32,
}

/// Requests the data of a given mime type from an offer: allocates the
/// transfer pipe and names its write end in the returned request. The
/// caller forwards the request, then calls `finish_handoff` on the
/// channel and reads from the returned end. Fails with the system error
/// number only when no pipe could be allocated.
pub fn receive(offer_id: u32, mime_type: String) -> (r: Result<
    (PendingTransfer, ReceiveRequest),
    i32,
>)
    ensures
        r matches Ok(p) ==> {
            &&& p.0.wf()
            &&& p.1.offer_id == offer_id
            &&& p.1.mime_type@ == mime_type@
            &&& p.1.write_fd == p.0@.write_fd
        },
{
    let pending = match PendingTransfer::create() {
        Ok(p) => p,
        Err(e) => {
            return Err(e);
        },
    };
    let write_fd = pending.write_fd();
    Ok((pending, ReceiveRequest { offer_id, mime_type, write_fd }))
}

} // verus!
