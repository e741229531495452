use vstd::prelude::*;

verus! {

/// The chip-side address of a byte: `[high, low]`.
pub type MemoryAddress = [u8; 2];

/// Highest position that the chip's 16-bit address bus can reach.
pub const ADDRESS_MAX: u64 = 65535;

/// Where a seek is measured from, and by how much.
#[derive(Clone, Copy, Debug, PartialEq, Eq)]
pub enum SeekFrom {
    /// An absolute position.
    Start(u64),
    /// An offset from the capacity; only zero or a negative offset can succeed.
    End(i64),
    /// An offset from the current position.
    Current(i64),
}

/// The position that a seek asks for, before any bound is applied.
pub open spec fn seek_target(pos: int, cap: int, from: SeekFrom) -> int {
    match from {
        SeekFrom::Start(offset) => offset as int,
        SeekFrom::End(offset) => cap + offset,
        SeekFrom::Current(offset) => pos + offset,
    }
}

/// Big-endian encoding of a 16-bit position.
pub open spec fn address_bytes(pos: int) -> Seq<u8> {
    seq![(pos / 256) as u8, (pos % 256) as u8]
}

/// A movable read/write head over the positions `0..=N`.
///
/// `N == u64::MAX` gives a cursor bounded only by the integer type.
/// A seek that would leave `0..=N` fails; an advance saturates at `N`.
#[derive(Clone, Copy)]
pub struct Head<const N: u64>(u64);

impl<const N: u64> View for Head<N> {
    type V = u64;

    closed spec fn view(&self) -> u64 {
        self.0
    }
}

impl<const N: u64> Head<N> {
    /// The position never exceeds the capacity.
    pub open spec fn wf(&self) -> bool {
        self@ <= N
    }

    /// What a seek from `pos` returns: the new position, or `None` when the
    /// target lies outside `0..=N`.
    pub open spec fn seek_spec(pos: u64, from: SeekFrom) -> Option<u64> {
        let t = seek_target(pos as int, N as int, from);
        if 0 <= t && t <= N as int {
            Some(t as u64)
        } else {
            None
        }
    }

    /// The position after moving `bytes` forward from `pos`, capped at `N`.
    pub open spec fn advance_spec(pos: u64, bytes: int) -> u64 {
        if pos + bytes > N as int {
            N
        } else {
            (pos + bytes) as u64
        }
    }

    /// A head at position zero.
    pub fn new() -> (r: Self)
        ensures
            r@ == 0,
            r.wf(),
    {
        Head(0)
    }

    /// Moves the head as `pos` asks. Returns the new position, or `None`
    /// (out of range) with the head left where it was when the target is
    /// negative or beyond `N`.
    pub fn seek(&mut self, pos: SeekFrom) -> (r: Option<u64>)
        requires
            old(self).wf(),
        ensures
            r == Self::seek_spec(old(self)@, pos),
            final(self)@ == (match r {
                Some(p) => p,
                None => old(self)@,
            }),
            final(self).wf(),
    {
        let target: Option<u64> = match pos {
            SeekFrom::Start(offset) => Some(offset),
            SeekFrom::End(offset) => {
                if offset > 0 {
                    None
                } else if offset == 0 {
                    Some(N)
                } else {
                    let back: u64 = (-(offset + 1)) as u64 + 1;
                    N.checked_sub(back)
                }
            },
            SeekFrom::Current(offset) => {
                if offset >= 0 {
                    self.0.checked_add(offset as u64)
                } else {
                    let back: u64 = (-(offset + 1)) as u64 + 1;
                    self.0.checked_sub(back)
                }
            },
        };
        match target {
            Some(p) => {
                if p <= N {
                    self.0 = p;
                    Some(p)
                } else {
                    None
                }
            },
            None => None,
        }
    }

    /// Moves the head forward after `bytes` were transferred. Never fails:
    /// a move past `N` stops at `N`.
    pub fn advance(&mut self, bytes: usize)
        ensures
            final(self)@ == Self::advance_spec(old(self)@, bytes as int),
            final(self).wf(),
            old(self).wf() ==> old(self)@ <= final(self)@,
    {
        match self.0.checked_add(bytes as u64) {
            Some(sum) => {
                if sum > N {
                    self.0 = N;
                } else {
                    self.0 = sum;
                }
            },
            None => self.0 = N,
        }
    }

    /// The two-byte chip address of the current position, or `None` when the
    /// position lies beyond the 16-bit address space.
    pub fn memory_address(&self) -> (r: Option<MemoryAddress>)
        ensures
            self@ <= ADDRESS_MAX ==> r is Some && r->0@ == address_bytes(self@ as int),
            self@ > ADDRESS_MAX ==> r is None,
    {
        if self.0 > ADDRESS_MAX {
            return None;
        }
        let high: u8 = (self.0 / 256) as u8;
        let low: u8 = (self.0 % 256) as u8;
        let addr: MemoryAddress = [high, low];
        proof {
            assert(addr@ =~= address_bytes(self@ as int));
        }
        Some(addr)
    }
}

impl<const N: u64> Default for Head<N> {
    fn default() -> (r: Self)
        ensures
            r@ == 0,
    {
        Head::new()
    }
}

impl<const N: u64> From<Head<N>> for u64 {
    fn from(head: Head<N>) -> u64 {
        head.0
    }
}

impl<const N: u64> vstd::std_specs::convert::FromSpecImpl<Head<N>> for u64 {
    open spec fn obeys_from_spec() -> bool {
        true
    }

    open spec fn from_spec(v: Head<N>) -> u64 {
        v@
    }
}

/// Seeking from the start to any position within the capacity lands exactly
/// there, wherever the head stood.
pub proof fn lemma_seek_start_lands<const N: u64>(pos: u64, x: u64)
    requires
        x <= N,
    ensures
        Head::<N>::seek_spec(pos, SeekFrom::Start(x)) == Some(x),
{
}

/// Seeking by zero from the current position keeps the position and succeeds.
pub proof fn lemma_seek_current_zero<const N: u64>(pos: u64)
    requires
        pos <= N,
    ensures
        Head::<N>::seek_spec(pos, SeekFrom::Current(0)) == Some(pos),
{
}

/// Seeking forward past the capacity fails; with `N == u64::MAX` this is the
/// bound of the integer type.
pub proof fn lemma_seek_forward_past_capacity<const N: u64>(pos: u64, d: i64)
    requires
        d >= 0,
        pos + d > N,
    ensures
        Head::<N>::seek_spec(pos, SeekFrom::Current(d)) is None,
{
}

/// Seeking backward by more than the current position fails.
pub proof fn lemma_seek_back_before_zero<const N: u64>(pos: u64, d: i64)
    requires
        d > pos,
    ensures
        Head::<N>::seek_spec(pos, SeekFrom::Current((-d) as i64)) is None,
{
}

/// Seeking past the end fails for every positive offset.
pub proof fn lemma_seek_end_forward<const N: u64>(pos: u64, d: i64)
    requires
        d > 0,
    ensures
        Head::<N>::seek_spec(pos, SeekFrom::End(d)) is None,
{
}

/// Seeking back from the end by at most the capacity lands at `N - d`.
pub proof fn lemma_seek_end_back<const N: u64>(pos: u64, d: i64)
    requires
        0 <= d <= N,
    ensures
        Head::<N>::seek_spec(pos, SeekFrom::End((-d) as i64)) == Some((N - d) as u64),
{
}

/// Advancing never moves a well-formed head backward and never past `N`;
/// when the sum would exceed `N` the head stops at `N`.
pub proof fn lemma_advance_saturates<const N: u64>(pos: u64, bytes: nat)
    requires
        pos <= N,
    ensures
        pos <= Head::<N>::advance_spec(pos, bytes as int) <= N,
        pos + bytes <= N ==> Head::<N>::advance_spec(pos, bytes as int) == pos + bytes,
        pos + bytes > N ==> Head::<N>::advance_spec(pos, bytes as int) == N,
{
}

} // verus!
