use vstd::prelude::*;

use crate::head::{address_bytes, Head, MemoryAddress, SeekFrom, ADDRESS_MAX};

verus! {

/// Why a stream operation failed.
#[derive(Debug)]
pub enum MB85RCErrorType<E> {
    /// The bus reported an error; it is passed on unchanged.
    I2c(E),
    /// The head does not stand on a chip address, or a seek left the range.
    InvalidPosition,
}

/// A chip seen as a seekable byte stream of positions `0..=N`.
///
/// The stream decides what each read, write and seek does; the holder of
/// `dev` performs the bus transaction that a decision asks for and hands back
/// its outcome.
pub struct EmbedIODev<D, const N: u64> {
    pub dev: D,
    head: Head<N>,
}

impl<D, const N: u64> EmbedIODev<D, N> {
    /// The position of the stream.
    pub closed spec fn position(&self) -> u64 {
        self.head@
    }

    /// The device that the stream reads and writes.
    pub closed spec fn device(&self) -> D {
        self.dev
    }

    /// The position never exceeds `N`.
    pub closed spec fn wf(&self) -> bool {
        self.head.wf()
    }

    /// A stream over `dev`, at position zero.
    pub fn new(dev: D) -> (r: Self)
        ensures
            r.device() == dev,
            r.position() == 0,
            r.wf(),
    {
        EmbedIODev { dev, head: Head::new() }
    }

    /// The current position.
    pub fn stream_position(&self) -> (r: u64)
        ensures
            r == self.position(),
    {
        self.head.into()
    }

    /// Where a transfer of `len` bytes starts on the chip. `Ok(None)` means
    /// there is nothing to transfer, and no bus transaction is to be made;
    /// a position beyond the chip's address space is `InvalidPosition`,
    /// before the bus is touched.
    pub fn begin_read<E>(&self, len: usize) -> (r: Result<Option<MemoryAddress>, MB85RCErrorType<E>>)
        ensures
            len == 0 ==> r == Ok::<Option<MemoryAddress>, MB85RCErrorType<E>>(None),
            len > 0 && self.position() <= ADDRESS_MAX ==> r is Ok && r->Ok_0 is Some
                && r->Ok_0->0@ == address_bytes(self.position() as int),
            len > 0 && self.position() > ADDRESS_MAX ==> r == Err::<Option<MemoryAddress>, MB85RCErrorType<E>>(MB85RCErrorType::InvalidPosition),
    {
        if len == 0 {
            return Ok(None);
        }
        match self.head.memory_address() {
            Some(addr) => Ok(Some(addr)),
            None => Err(MB85RCErrorType::InvalidPosition),
        }
    }

    /// What a write of `buf` commits: its first byte, by a byte write at the
    /// returned address, so a longer buffer takes one call per byte.
    /// `Ok(None)` for an empty `buf`, with no bus transaction;
    /// `InvalidPosition` as for a read.
    pub fn begin_write<E>(&self, buf: &[u8]) -> (r: Result<Option<(MemoryAddress, u8)>, MB85RCErrorType<E>>)
        ensures
            buf@.len() == 0 ==> r == Ok::<Option<(MemoryAddress, u8)>, MB85RCErrorType<E>>(None),
            buf@.len() > 0 && self.position() <= ADDRESS_MAX ==> (match r {
                Ok(Some((addr, byte))) => addr@ == address_bytes(self.position() as int)
                    && byte == buf@[0],
                _ => false,
            }),
            buf@.len() > 0 && self.position() > ADDRESS_MAX ==> r == Err::<Option<(MemoryAddress, u8)>, MB85RCErrorType<E>>(MB85RCErrorType::InvalidPosition),
    {
        if buf.len() == 0 {
            return Ok(None);
        }
        match self.head.memory_address() {
            Some(addr) => Ok(Some((addr, buf[0]))),
            None => Err(MB85RCErrorType::InvalidPosition),
        }
    }

    /// Settles a transfer of `count` bytes whose bus transaction ended with
    /// `outcome`: on success the stream moves forward by `count` (stopping at
    /// `N`) and returns it; a bus error is passed on and the stream stays.
    pub fn finish<E>(&mut self, count: usize, outcome: Result<(), E>) -> (r: Result<usize, MB85RCErrorType<E>>)
        requires
            old(self).wf(),
        ensures
            final(self).wf(),
            final(self).device() == old(self).device(),
            outcome is Ok ==> r == Ok::<usize, MB85RCErrorType<E>>(count)
                && final(self).position() == Head::<N>::advance_spec(old(self).position(), count as int),
            outcome is Err ==> r == Err::<usize, MB85RCErrorType<E>>(MB85RCErrorType::I2c(outcome->Err_0))
                && final(self).position() == old(self).position(),
    {
        match outcome {
            Ok(()) => {
                self.head.advance(count);
                Ok(count)
            },
            Err(e) => Err(MB85RCErrorType::I2c(e)),
        }
    }

    /// Moves the stream as `pos` asks and returns the new position; a target
    /// outside `0..=N` is `InvalidPosition` and leaves the stream where it was.
    pub fn seek<E>(&mut self, pos: SeekFrom) -> (r: Result<u64, MB85RCErrorType<E>>)
        requires
            old(self).wf(),
        ensures
            final(self).wf(),
            final(self).device() == old(self).device(),
            (match Head::<N>::seek_spec(old(self).position(), pos) {
                Some(p) => r == Ok::<u64, MB85RCErrorType<E>>(p) && final(self).position() == p,
                None => r == Err::<u64, MB85RCErrorType<E>>(MB85RCErrorType::InvalidPosition)
                    && final(self).position() == old(self).position(),
            }),
    {
        match self.head.seek(pos) {
            Some(p) => Ok(p),
            None => Err(MB85RCErrorType::InvalidPosition),
        }
    }
}

} // verus!
