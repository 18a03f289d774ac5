//! The bus capability consumed by the sensor driver, and a scripted
//! transport used to exercise the driver without hardware.

use vstd::prelude::*;

verus! {

/// An addressed "write N bytes, then read M bytes" bus channel.
///
/// A transport implementation performs the combined transaction as one
/// atomic exchange with the device at `address` and either hands back
/// the bytes that were read or its own error value. The only promise a
/// caller may rely on is that a successful exchange returns exactly the
/// number of bytes it asked for.
pub trait BusTransport {
    /// The transport's native error type.
    type BusFault;

    /// Write `command` to the device at `address`, then read back
    /// exactly `read_len` bytes in the same transaction.
    fn write_read(&mut self, address: u8, command: &Vec<u8>, read_len: usize) -> (r: Result<
        Vec<u8>,
        Self::BusFault,
    >)
        ensures
            r is Ok ==> r->Ok_0@.len() == read_len,
    ;
}

/// Error code a `ScriptedTransport` reports when its script holds no
/// further reply.
pub const SCRIPT_EXHAUSTED: u64 = 1;

/// Error code a `ScriptedTransport` reports when the scripted reply does
/// not hold exactly the number of bytes the caller asked to read.
pub const SCRIPT_BAD_LENGTH: u64 = 2;

/// A record of one bus transaction as a transport saw it.
pub struct Transaction {
    /// The 7-bit device address the transaction went to.
    pub address: u8,
    /// The bytes that were written.
    pub command: Vec<u8>,
    /// How many bytes the caller asked to read back.
    pub read_len: usize,
}

/// One scripted outcome for a `ScriptedTransport`.
pub enum ScriptedReply {
    /// The device answers with these bytes.
    Bytes(Vec<u8>),
    /// The transaction itself fails with this error code.
    Fault(u64),
}

/// A transport that plays back a fixed script of replies and records
/// every transaction it is asked to perform, so that a caller's command
/// framing can be checked without hardware.
pub struct ScriptedTransport {
    /// The scripted replies, consumed front to back.
    pub replies: Vec<ScriptedReply>,
    /// The index of the next reply to hand out.
    pub next: usize,
    /// Every transaction performed so far, oldest first.
    pub log: Vec<Transaction>,
}

/// Copy the bytes of a vector.
fn copy_bytes(v: &Vec<u8>) -> (r: Vec<u8>)
    ensures
        r@ == v@,
{
    let mut r: Vec<u8> = Vec::new();
    let mut i: usize = 0;
    while i < v.len()
        invariant
            i <= v@.len(),
            r@ == v@.subrange(0, i as int),
        decreases v@.len() - i,
    {
        r.push(v[i]);
        i = i + 1;
        proof {
            assert(r@ =~= v@.subrange(0, i as int));
        }
    }
    proof {
        assert(r@ =~= v@);
    }
    r
}

impl ScriptedTransport {
    /// A fresh transport that will answer with `replies`, in order.
    pub fn new(replies: Vec<ScriptedReply>) -> (t: Self)
        ensures
            t.replies == replies,
            t.next == 0,
            t.log@.len() == 0,
    {
        ScriptedTransport { replies, next: 0, log: Vec::new() }
    }

    /// Perform one scripted exchange: record the transaction, then hand
    /// out the next scripted reply. A missing reply or a scripted byte
    /// count that does not match `read_len` is reported as a fault, so
    /// that a successful result always holds exactly `read_len` bytes.
    pub fn scripted_write_read(&mut self, address: u8, command: &Vec<u8>, read_len: usize) -> (r:
        Result<Vec<u8>, u64>)
        ensures
            final(self).replies == old(self).replies,
            final(self).log@.len() == old(self).log@.len() + 1,
            final(self).log@.subrange(0, old(self).log@.len() as int) == old(self).log@,
            final(self).log@.last().address == address,
            final(self).log@.last().command@ == command@,
            final(self).log@.last().read_len == read_len,
            old(self).next < old(self).replies@.len() ==> final(self).next == old(self).next + 1,
            old(self).next >= old(self).replies@.len() ==> final(self).next == old(self).next && r
                == Err::<Vec<u8>, u64>(SCRIPT_EXHAUSTED),
            old(self).next < old(self).replies@.len() ==> match old(self).replies@[old(
                self,
            ).next as int] {
                ScriptedReply::Bytes(b) => if b@.len() == read_len {
                    r is Ok && r->Ok_0@ == b@
                } else {
                    r == Err::<Vec<u8>, u64>(SCRIPT_BAD_LENGTH)
                },
                ScriptedReply::Fault(code) => r == Err::<Vec<u8>, u64>(code),
            },
    {
        self.log.push(Transaction { address, command: copy_bytes(command), read_len });
        if self.next >= self.replies.len() {
            return Err(SCRIPT_EXHAUSTED);
        }
        let reply_index = self.next;
        self.next = self.next + 1;
        match &self.replies[reply_index] {
            ScriptedReply::Bytes(b) => {
                if b.len() == read_len {
                    Ok(copy_bytes(b))
                } else {
                    Err(SCRIPT_BAD_LENGTH)
                }
            },
            ScriptedReply::Fault(code) => Err(*code),
        }
    }
}

impl BusTransport for ScriptedTransport {
    type BusFault = u64;

    fn write_read(&mut self, address: u8, command: &Vec<u8>, read_len: usize) -> (r: Result<
        Vec<u8>,
        u64,
    >) {
        self.scripted_write_read(address, command, read_len)
    }
}

} // verus!
