//! The host-side buffers of a TCP socket: a write buffer that is flushed when
//! full, and a read buffer that is refilled from the coprocessor when empty.
//!
//! The read path does not poll how many bytes are waiting (`AvailDataTcp`)
//! before it refills: it asks for up to `refill_len` bytes with
//! `GetDatabufTcp` at once and takes the number of bytes that come back as
//! what is available. The poll would cost one more command exchange per
//! refill and tell nothing that the bulk fetch does not.
use vstd::prelude::*;

use crate::error::TcpError;
use crate::types::Socket;

verus! {

/// The capacity of the buffers of a socket made by `TcpSocket::with_default_capacity`.
pub const BUFFER_CAPACITY: usize = 4096;

/// The largest chunk that one send command carries.
pub const MAX_CHUNK: usize = 65535;

/// How many bytes of `remaining` go into a write buffer that holds `pending`
/// bytes of `cap`.
pub open spec fn fill_len(pending: nat, cap: nat, remaining: nat) -> nat {
    if cap - pending < remaining {
        (cap - pending) as nat
    } else {
        remaining
    }
}

/// How many times a write of `remaining` bytes, into a write buffer that holds
/// `pending` bytes of `cap`, stops to flush a full buffer before all of it is
/// buffered.
pub open spec fn write_flush_count(pending: nat, remaining: nat, cap: nat) -> nat
    decreases remaining, pending,
{
    if cap == 0 || pending > cap || remaining <= cap - pending {
        0
    } else {
        1 + write_flush_count(0, (remaining - (cap - pending)) as nat, cap)
    }
}

/// The next move of a write.
#[derive(Clone, Copy, Debug, PartialEq, Eq, Structural)]
pub enum WriteStep {
    /// Every byte is in the write buffer; the number of bytes written.
    Done(usize),
    /// The write buffer is full and bytes from this position on remain: flush
    /// the pending bytes, then take the next step from there.
    FlushThenContinue(usize),
}

/// Where a flush of `len` pending bytes stands after `reported` more of them
/// went out from `sent`.
pub open spec fn flush_advance(len: nat, sent: nat, reported: nat) -> nat {
    if sent + reported < len {
        sent + reported
    } else {
        len
    }
}

/// Where the chunk of a flush of `len` bytes that starts at `at` ends.
pub open spec fn chunk_end(len: nat, at: nat) -> int {
    if len - at < MAX_CHUNK {
        len as int
    } else {
        at + MAX_CHUNK
    }
}

/// A connected socket and its host-side buffers.
pub struct TcpSocket {
    socket: Socket,
    capacity: usize,
    write_buf: Vec<u8>,
    read_buf: Vec<u8>,
    read_offset: usize,
}

impl TcpSocket {
    pub closed spec fn handle(&self) -> Socket {
        self.socket
    }

    /// The capacity of each buffer.
    pub closed spec fn cap(&self) -> nat {
        self.capacity as nat
    }

    /// The bytes written and not yet flushed.
    pub closed spec fn pending(&self) -> Seq<u8> {
        self.write_buf@
    }

    /// The bytes fetched and not yet read.
    pub closed spec fn unread(&self) -> Seq<u8> {
        self.read_buf@.subrange(self.read_offset as int, self.read_buf@.len() as int)
    }

    pub closed spec fn wf(&self) -> bool {
        &&& self.capacity > 0
        &&& self.write_buf@.len() <= self.capacity
        &&& self.read_offset <= self.read_buf@.len() <= self.capacity
    }

    pub fn new(socket: Socket, capacity: usize) -> (r: TcpSocket)
        requires
            capacity > 0,
        ensures
            r.wf(),
            r.handle() == socket,
            r.cap() == capacity,
            r.pending() == Seq::<u8>::empty(),
            r.unread() == Seq::<u8>::empty(),
    {
        let r = TcpSocket {
            socket,
            capacity,
            write_buf: Vec::new(),
            read_buf: Vec::new(),
            read_offset: 0,
        };
        assert(r.unread() =~= Seq::<u8>::empty());
        r
    }

    pub fn with_default_capacity(socket: Socket) -> (r: TcpSocket)
        ensures
            r.wf(),
            r.handle() == socket,
            r.cap() == BUFFER_CAPACITY,
            r.pending() == Seq::<u8>::empty(),
            r.unread() == Seq::<u8>::empty(),
    {
        TcpSocket::new(socket, BUFFER_CAPACITY)
    }

    pub fn socket(&self) -> (r: Socket)
        ensures
            r == self.handle(),
    {
        self.socket
    }

    /// Copies as much of `data[from..]` as fits into the write buffer, and
    /// returns how much that was.
    fn fill(&mut self, data: &Vec<u8>, from: usize) -> (n: usize)
        requires
            old(self).wf(),
            from <= data@.len(),
        ensures
            final(self).wf(),
            final(self).socket == old(self).socket,
            final(self).capacity == old(self).capacity,
            final(self).read_buf == old(self).read_buf,
            final(self).read_offset == old(self).read_offset,
            n == if old(self).capacity - old(self).write_buf@.len() < data@.len() - from {
                old(self).capacity - old(self).write_buf@.len()
            } else {
                data@.len() - from
            },
            final(self).write_buf@ == old(self).write_buf@ + data@.subrange(
                from as int,
                from + n,
            ),
    {
        let room = self.capacity - self.write_buf.len();
        let rest = data.len() - from;
        let n = if room < rest {
            room
        } else {
            rest
        };
        let ghost start = self.write_buf@;
        let dl = data.len();
        let mut i: usize = 0;
        while i < n
            invariant
                i <= n,
                from + n <= dl,
                dl == data@.len(),
                self.write_buf@ == start + data@.subrange(from as int, from + i),
                self.socket == old(self).socket,
                self.capacity == old(self).capacity,
                self.read_buf == old(self).read_buf,
                self.read_offset == old(self).read_offset,
                start == old(self).write_buf@,
            decreases n - i,
        {
            self.write_buf.push(data[from + i]);
            i += 1;
            assert(self.write_buf@ =~= start + data@.subrange(from as int, from + i));
        }
        n
    }

    /// Takes one step of writing `data`, of which `written` bytes are in the
    /// buffer already: copies as much of the rest as fits. The pending bytes
    /// stay in the buffer until the caller has sent them and called
    /// `clear_pending`.
    pub fn write_step(&mut self, data: &Vec<u8>, written: usize) -> (r: WriteStep)
        requires
            old(self).wf(),
            written <= data@.len(),
        ensures
            final(self).wf(),
            final(self).handle() == old(self).handle(),
            final(self).cap() == old(self).cap(),
            final(self).unread() == old(self).unread(),
            ({
                let k = fill_len(
                    old(self).pending().len(),
                    old(self).cap(),
                    (data@.len() - written) as nat,
                );
                &&& final(self).pending() == old(self).pending() + data@.subrange(
                    written as int,
                    written + k,
                )
                &&& written + k == data@.len() ==> r == WriteStep::Done(data@.len() as usize)
                &&& written + k < data@.len() ==> r == WriteStep::FlushThenContinue(
                    (written + k) as usize,
                ) && final(self).pending().len() == final(self).cap()
            }),
    {
        let n = self.fill(data, written);
        if n == data.len() - written {
            WriteStep::Done(data.len())
        } else {
            WriteStep::FlushThenContinue(written + n)
        }
    }

    /// A copy of the bytes written and not yet flushed.
    pub fn pending_bytes(&self) -> (r: Vec<u8>)
        ensures
            r@ == self.pending(),
    {
        crate::handle::copy_bytes(&self.write_buf)
    }

    /// Forgets the pending bytes, once they have all been sent.
    pub fn clear_pending(&mut self)
        requires
            old(self).wf(),
        ensures
            final(self).wf(),
            final(self).handle() == old(self).handle(),
            final(self).cap() == old(self).cap(),
            final(self).unread() == old(self).unread(),
            final(self).pending() == Seq::<u8>::empty(),
    {
        self.write_buf = Vec::new();
    }

    /// Whether every fetched byte has been read.
    pub fn needs_refill(&self) -> (r: bool)
        requires
            self.wf(),
        ensures
            r == (self.unread().len() == 0),
    {
        self.read_offset == self.read_buf.len()
    }

    /// How many bytes to ask for when refilling: the capacity, but no more
    /// than one request can name.
    pub fn refill_len(&self) -> (r: usize)
        ensures
            r == if self.cap() < MAX_CHUNK {
                self.cap()
            } else {
                MAX_CHUNK as nat
            },
    {
        if self.capacity < MAX_CHUNK {
            self.capacity
        } else {
            MAX_CHUNK
        }
    }

    /// Takes the bytes fetched from the coprocessor as the new read buffer.
    /// More bytes than the buffer holds are refused.
    pub fn refill(&mut self, data: Vec<u8>) -> (r: Result<(), TcpError>)
        requires
            old(self).wf(),
        ensures
            final(self).wf(),
            final(self).handle() == old(self).handle(),
            final(self).cap() == old(self).cap(),
            final(self).pending() == old(self).pending(),
            data@.len() <= old(self).cap() ==> r is Ok && final(self).unread() == data@,
            data@.len() > old(self).cap() ==> r == Err::<(), TcpError>(TcpError::DataTooLong)
                && final(self).unread() == old(self).unread(),
    {
        if data.len() > self.capacity {
            return Err(TcpError::DataTooLong);
        }
        self.read_buf = data;
        self.read_offset = 0;
        assert(self.unread() =~= data@);
        Ok(())
    }

    /// Reads up to `n` fetched bytes: as many as there are, at most `n`.
    pub fn read(&mut self, n: usize) -> (r: Vec<u8>)
        requires
            old(self).wf(),
        ensures
            final(self).wf(),
            final(self).handle() == old(self).handle(),
            final(self).cap() == old(self).cap(),
            final(self).pending() == old(self).pending(),
            r@.len() == if n < old(self).unread().len() {
                n as int
            } else {
                old(self).unread().len() as int
            },
            r@ == old(self).unread().take(r@.len() as int),
            final(self).unread() == old(self).unread().skip(r@.len() as int),
    {
        let avail = self.read_buf.len() - self.read_offset;
        let k = if n < avail {
            n
        } else {
            avail
        };
        let start = self.read_offset;
        let rl = self.read_buf.len();
        let mut r: Vec<u8> = Vec::new();
        let mut i: usize = 0;
        while i < k
            invariant
                i <= k,
                start + k <= rl,
                rl == self.read_buf@.len(),
                r@ == self.read_buf@.subrange(start as int, start + i),
            decreases k - i,
        {
            r.push(self.read_buf[start + i]);
            i += 1;
            assert(r@ =~= self.read_buf@.subrange(start as int, start + i));
        }
        self.read_offset = start + k;
        assert(r@ =~= old(self).unread().take(k as int));
        assert(self.unread() =~= old(self).unread().skip(k as int));
        r
    }
}

/// The next chunk to send when flushing `data`, of which `sent` bytes went out
/// already: at most `MAX_CHUNK` bytes from `sent` on.
pub fn flush_chunk(data: &Vec<u8>, sent: usize) -> (r: Vec<u8>)
    requires
        sent <= data@.len(),
    ensures
        r@ == data@.subrange(sent as int, chunk_end(data@.len(), sent as nat)),
{
    let total = data.len();
    let n = if total - sent < MAX_CHUNK {
        total - sent
    } else {
        MAX_CHUNK
    };
    let mut r: Vec<u8> = Vec::new();
    let mut i: usize = 0;
    while i < n
        invariant
            i <= n,
            sent + n <= total,
            total == data@.len(),
            r@ == data@.subrange(sent as int, sent + i),
        decreases n - i,
    {
        r.push(data[sent + i]);
        i += 1;
        assert(r@ =~= data@.subrange(sent as int, sent + i));
    }
    r
}

/// Takes one step of flushing `pending`: `sent` bytes went out before, and the
/// coprocessor reports `reported` more for the last chunk (`0` to start).
/// Returns where the flush stands and the next chunk to send, `None` once
/// every pending byte went out. Each chunk sent is followed by a check that
/// the data went out.
pub fn flush_step(pending: &Vec<u8>, sent: usize, reported: usize) -> (r: (usize, Option<Vec<u8>>))
    requires
        sent <= pending@.len(),
    ensures
        r.0 == flush_advance(pending@.len(), sent as nat, reported as nat),
        r.0 == pending@.len() <==> r.1 is None,
        r.1 matches Some(c) ==> c@ == pending@.subrange(
            r.0 as int,
            chunk_end(pending@.len(), r.0 as nat),
        ),
{
    let len = pending.len();
    let at = if reported < len - sent {
        sent + reported
    } else {
        len
    };
    if at == len {
        (at, None)
    } else {
        (at, Some(flush_chunk(pending, at)))
    }
}

/// A write of `n` bytes stops to flush at most `k` full buffers, where `k`
/// buffers hold less than `n` bytes and `k + 1` hold all of them.
pub proof fn lemma_write_flush_count(n: nat, cap: nat)
    requires
        0 < cap,
        0 < n,
    ensures
        write_flush_count(0, n, cap) * cap < n <= (write_flush_count(0, n, cap) + 1) * cap,
    decreases n,
{
    if n > cap {
        let m = (n - cap) as nat;
        lemma_write_flush_count(m, cap);
        let k = write_flush_count(0, m, cap);
        assert(write_flush_count(0, n, cap) == k + 1);
        assert((k + 1) * cap < n <= (k + 2) * cap) by (nonlinear_arith)
            requires
                k * cap < m <= (k + 1) * cap,
                m == n - cap,
        ;
    } else {
        assert(0 * cap == 0 && 1 * cap == cap) by (nonlinear_arith);
    }
}

/// Writing at most a buffer's worth into an empty write buffer stops for no
/// flush, and the flush that follows sends all `n` bytes as one chunk: once
/// the coprocessor reports them sent, nothing is left to send.
pub proof fn lemma_small_write(n: nat, cap: nat)
    requires
        0 < n <= cap <= MAX_CHUNK,
    ensures
        write_flush_count(0, n, cap) == 0,
        fill_len(0, cap, n) == n,
        flush_advance(n, 0, 0) == 0 && flush_advance(n, 0, 0) < n,
        chunk_end(n, 0) == n,
        flush_advance(n, 0, n) == n,
{
}

/// Writing more than a buffer's worth into an empty write buffer, then
/// flushing, sends ceil(n / cap) buffers: the full ones flushed during the
/// write, then what is left, which is at most `cap` bytes.
pub proof fn lemma_large_write(n: nat, cap: nat)
    requires
        0 < cap < n,
    ensures
        write_flush_count(0, n, cap) + 1 == (n + cap - 1) / cap as int,
        0 < n - write_flush_count(0, n, cap) * cap <= cap,
{
    lemma_write_flush_count(n, cap);
    let k = write_flush_count(0, n, cap);
    assert((n + cap - 1) / cap as int == k + 1) by (nonlinear_arith)
        requires
            k * cap < n <= (k + 1) * cap,
            cap > 0,
    ;
    assert((k + 1) * cap == k * cap + cap) by (nonlinear_arith);
}

} // verus!
