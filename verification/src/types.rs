//! Plain values shared by every part of the library.

use crate::vec_map::MapKey;
use vstd::prelude::*;

verus! {

/// A block height.
#[derive(Copy, Clone, Debug, PartialEq, Eq, PartialOrd, Ord, Hash, Structural)]
pub struct Height(pub u32);

/// The larger of two heights.
pub fn max_height(a: Height, b: Height) -> (height: Height)
    ensures
        height.0 == (if a.0 >= b.0 { a.0 } else { b.0 }),
{
    if a.0 >= b.0 {
        a
    } else {
        b
    }
}

/// The smaller of two heights.
pub fn min_height(a: Height, b: Height) -> (height: Height)
    ensures
        height.0 == (if a.0 <= b.0 { a.0 } else { b.0 }),
{
    if a.0 <= b.0 {
        a
    } else {
        b
    }
}

/// Whether two 32-byte arrays hold the same bytes.
pub fn same_bytes_32(a: &[u8; 32], b: &[u8; 32]) -> (same: bool)
    ensures
        same == (*a == *b),
{
    let mut i: usize = 0;
    while i < 32
        invariant
            i <= 32,
            forall|j: int| 0 <= j < i ==> a@[j] == b@[j],
        decreases 32 - i,
    {
        if a[i] != b[i] {
            return false;
        }
        i = i + 1;
    }
    assert(*a =~= *b);
    true
}

/// A block hash.
#[derive(Copy, Clone, Debug, PartialEq, Eq, PartialOrd, Ord, Hash)]
pub struct BlockHash(pub [u8; 32]);

impl View for BlockHash {
    type V = BlockHash;

    open spec fn view(&self) -> BlockHash {
        *self
    }
}

impl MapKey for BlockHash {
    fn same_key(&self, other: &Self) -> (same: bool) {
        same_bytes_32(&self.0, &other.0)
    }

    fn duplicate(&self) -> (copy: Self) {
        *self
    }
}

/// Whether two byte strings are equal.
pub fn same_bytes(a: &[u8], b: &[u8]) -> (same: bool)
    ensures
        same == (a@ == b@),
{
    if a.len() != b.len() {
        return false;
    }
    let mut i: usize = 0;
    while i < a.len()
        invariant
            i <= a@.len(),
            a@.len() == b@.len(),
            forall|j: int| 0 <= j < i ==> a@[j] == b@[j],
        decreases a@.len() - i,
    {
        if a[i] != b[i] {
            return false;
        }
        i = i + 1;
    }
    assert(a@ =~= b@);
    true
}

/// A copy of a byte string.
pub fn copy_bytes(bytes: &[u8]) -> (copy: Vec<u8>)
    ensures
        copy@ == bytes@,
{
    let mut copy: Vec<u8> = Vec::new();
    let mut i: usize = 0;
    while i < bytes.len()
        invariant
            i <= bytes@.len(),
            copy@ == bytes@.take(i as int),
        decreases bytes@.len() - i,
    {
        copy.push(bytes[i]);
        i = i + 1;
        assert(copy@ =~= bytes@.take(i as int));
    }
    assert(bytes@.take(i as int) =~= bytes@);
    copy
}

/// The identity under which a peer authenticated.
#[derive(Clone, Debug, PartialEq, Eq, Hash)]
pub struct ZakuraPeerId {
    /// The raw identity bytes.
    pub bytes: Vec<u8>,
}

impl View for ZakuraPeerId {
    type V = Seq<u8>;

    open spec fn view(&self) -> Seq<u8> {
        self.bytes@
    }
}

impl ZakuraPeerId {
    /// A peer id over `bytes`.
    pub fn new(bytes: Vec<u8>) -> (peer: Self)
        ensures
            peer@ == bytes@,
    {
        ZakuraPeerId { bytes }
    }

    /// The identity bytes.
    pub fn as_bytes(&self) -> (bytes: &[u8])
        ensures
            bytes@ == self@,
    {
        self.bytes.as_slice()
    }
}

impl MapKey for ZakuraPeerId {
    fn same_key(&self, other: &Self) -> (same: bool) {
        same_bytes(self.bytes.as_slice(), other.bytes.as_slice())
    }

    fn duplicate(&self) -> (copy: Self) {
        ZakuraPeerId { bytes: copy_bytes(self.bytes.as_slice()) }
    }
}

/// An IP address as plain bits.
#[derive(Copy, Clone, Debug, PartialEq, Eq, Hash, Structural)]
pub enum IpAddr {
    /// An IPv4 address.
    V4(u32),
    /// An IPv6 address.
    V6(u128),
}

impl View for IpAddr {
    type V = IpAddr;

    open spec fn view(&self) -> IpAddr {
        *self
    }
}

impl MapKey for IpAddr {
    fn same_key(&self, other: &Self) -> (same: bool) {
        *self == *other
    }

    fn duplicate(&self) -> (copy: Self) {
        *self
    }
}

/// One application frame of a Zakura stream.
#[derive(Clone, Debug, PartialEq, Eq)]
pub struct Frame {
    /// The message type within the stream kind.
    pub message_type: u16,
    /// Reserved flags.
    pub flags: u16,
    /// The message payload.
    pub payload: Vec<u8>,
}

/// What a frame says, with its payload as a sequence.
pub struct FrameView {
    /// The message type.
    pub message_type: u16,
    /// The flags.
    pub flags: u16,
    /// The payload bytes.
    pub payload: Seq<u8>,
}

impl View for Frame {
    type V = FrameView;

    open spec fn view(&self) -> FrameView {
        FrameView { message_type: self.message_type, flags: self.flags, payload: self.payload@ }
    }
}

} // verus!
