//! The buffer that carries key bytes, and the access state that guards them.
//!
//! A buffer starts out closed. Its length and bytes are read through a read
//! lock or a write lock, and written through a write lock only; `release`
//! closes it again. The contracts carry the state, so verified code cannot
//! reach the bytes of a closed buffer, and a function that takes a buffer says
//! in which state it hands it back.

use vstd::prelude::*;

verus! {

/// How far the bytes of a buffer are open.
#[derive(Clone, Copy, Debug, PartialEq, Eq, Structural)]
pub enum ProtectState {
    /// Closed: neither read nor written.
    NoAccess,
    /// Open for reading.
    ReadOnly,
    /// Open for reading and writing.
    ReadWrite,
}

/// A byte buffer of fixed length with an access state.
#[derive(Debug)]
pub struct SecBuf {
    bytes: Vec<u8>,
    state: ProtectState,
    secure: bool,
}

impl View for SecBuf {
    type V = Seq<u8>;

    /// The bytes the buffer holds.
    closed spec fn view(&self) -> Seq<u8> {
        self.bytes@
    }
}

impl SecBuf {
    /// The access state the buffer is in.
    pub closed spec fn protection(&self) -> ProtectState {
        self.state
    }

    /// The buffer was made to hold secret material.
    pub closed spec fn is_secure(&self) -> bool {
        self.secure
    }

    /// The length and bytes can be read.
    pub open spec fn readable(&self) -> bool {
        self.protection() != ProtectState::NoAccess
    }

    /// The bytes can be written.
    pub open spec fn writable(&self) -> bool {
        self.protection() == ProtectState::ReadWrite
    }

    /// `after` is `before` moved to the access state `state`, with the same
    /// bytes and the same kind.
    pub open spec fn moved_to(before: SecBuf, after: SecBuf, state: ProtectState) -> bool {
        &&& after@ == before@
        &&& after.is_secure() == before.is_secure()
        &&& after.protection() == state
    }

    /// A closed buffer of `len` zero bytes for secret material.
    pub fn with_secure(len: usize) -> (buf: SecBuf)
        ensures
            buf@ == Seq::new(len as nat, |i: int| 0u8),
            buf.protection() == ProtectState::NoAccess,
            buf.is_secure(),
    {
        let bytes = zeros(len);
        SecBuf { bytes, state: ProtectState::NoAccess, secure: true }
    }

    /// A closed buffer of `len` zero bytes for material that is not secret.
    pub fn with_insecure(len: usize) -> (buf: SecBuf)
        ensures
            buf@ == Seq::new(len as nat, |i: int| 0u8),
            buf.protection() == ProtectState::NoAccess,
            !buf.is_secure(),
    {
        let bytes = zeros(len);
        SecBuf { bytes, state: ProtectState::NoAccess, secure: false }
    }

    /// Opens the buffer for reading.
    pub fn read_lock(&mut self)
        ensures
            Self::moved_to(*old(self), *final(self), ProtectState::ReadOnly),
    {
        self.state = ProtectState::ReadOnly;
    }

    /// Opens the buffer for reading and writing.
    pub fn write_lock(&mut self)
        ensures
            Self::moved_to(*old(self), *final(self), ProtectState::ReadWrite),
    {
        self.state = ProtectState::ReadWrite;
    }

    /// Closes the buffer.
    pub fn release(&mut self)
        ensures
            Self::moved_to(*old(self), *final(self), ProtectState::NoAccess),
    {
        self.state = ProtectState::NoAccess;
    }

    /// The number of bytes in the buffer.
    pub fn len(&self) -> (n: usize)
        requires
            self.readable(),
        ensures
            n == self@.len(),
    {
        self.bytes.len()
    }

    /// The bytes of the buffer, to read.
    pub fn as_slice(&self) -> (s: &[u8])
        requires
            self.readable(),
        ensures
            s@ == self@,
    {
        self.bytes.as_slice()
    }

    /// Copies `data` over the bytes that start at `offset`; the others stay.
    pub fn write(&mut self, offset: usize, data: &[u8])
        requires
            old(self).writable(),
            offset + data@.len() <= old(self)@.len(),
        ensures
            final(self)@ == old(self)@.subrange(0, offset as int) + data@ + old(self)@.subrange(
                offset + data@.len(),
                old(self)@.len() as int,
            ),
            final(self).protection() == old(self).protection(),
            final(self).is_secure() == old(self).is_secure(),
    {
        let n: usize = data.len();
        let total: usize = self.bytes.len();
        let mut i: usize = 0;
        while i < n
            invariant
                i <= n,
                n == data@.len(),
                offset + n <= total,
                total == old(self)@.len(),
                self.bytes@.len() == total,
                self.state == old(self).state,
                self.secure == old(self).secure,
                forall|j: int| 0 <= j < offset ==> self.bytes@[j] == old(self)@[j],
                forall|j: int| offset <= j < offset + i ==> self.bytes@[j] == data@[j - offset],
                forall|j: int| offset + i <= j < old(self)@.len() ==> self.bytes@[j] == old(self)@[j],
            decreases n - i,
        {
            self.bytes[offset + i] = data[i];
            i = i + 1;
        }
        assert(self@ =~= old(self)@.subrange(0, offset as int) + data@ + old(self)@.subrange(
            offset + data@.len(),
            old(self)@.len() as int,
        ));
    }

    /// The bytes of the buffer, to write in place. The length stays.
    pub fn as_mut_slice(&mut self) -> (s: &mut [u8])
        requires
            old(self).writable(),
        ensures
            s@ == old(self)@,
            final(self)@ == final(s)@,
            final(self).protection() == old(self).protection(),
            final(self).is_secure() == old(self).is_secure(),
    {
        self.bytes.as_mut_slice()
    }
}

/// A vector of `len` zero bytes.
fn zeros(len: usize) -> (v: Vec<u8>)
    ensures
        v@ == Seq::new(len as nat, |i: int| 0u8),
{
    let mut v: Vec<u8> = Vec::with_capacity(len);
    let mut i: usize = 0;
    while i < len
        invariant
            i <= len,
            v@ == Seq::new(i as nat, |j: int| 0u8),
        decreases len - i,
    {
        v.push(0u8);
        i = i + 1;
        assert(v@ =~= Seq::new(i as nat, |j: int| 0u8));
    }
    v
}

} // verus!
