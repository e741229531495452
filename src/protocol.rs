use vstd::prelude::*;

use crate::head::MemoryAddress;

verus! {

/// Reserved bus address at which every chip of the family answers the
/// device-ID command (slave ID F9h without its read/write bit).
pub const DEVICE_ID_ADDRESS: u8 = 0x7C;

/// The one-byte request of the device-ID command: the chip's device address
/// with the read/write bit, whose value the chip ignores.
pub const DEVICE_ID_COMMAND: u8 = 0xA0;

/// Length in bytes of the device ID: manufacturer ID, then product ID.
pub const DEVICE_ID_LEN: usize = 3;

/// Most data bytes that one page write carries.
pub const PAGE_DATA_MAX: usize = 32000;

/// One chip on the bus: the bus handle and the chip's 7-bit bus address.
///
/// The bus transactions themselves are issued by whoever holds the handle;
/// this type fixes what those transactions carry.
pub struct MB85RC<T> {
    pub i2c: T,
    pub address: u8,
}

impl<T> MB85RC<T> {
    /// A driver for the chip at `address` on the bus `i2c`.
    pub fn new(i2c: T, address: u8) -> (r: Self)
        ensures
            r.i2c == i2c,
            r.address == address,
    {
        MB85RC { i2c, address }
    }
}

/// The request of the device-ID command.
pub fn device_id_request() -> (r: [u8; 1])
    ensures
        r@ == seq![DEVICE_ID_COMMAND],
{
    let r: [u8; 1] = [DEVICE_ID_COMMAND];
    proof {
        assert(r@ =~= seq![DEVICE_ID_COMMAND]);
    }
    r
}

/// What a byte write sends: the address, high byte first, then the data.
pub fn byte_write_payload(memory_address: &MemoryAddress, data: u8) -> (r: [u8; 3])
    ensures
        r@ == memory_address@.push(data),
{
    let r: [u8; 3] = [memory_address[0], memory_address[1], data];
    proof {
        assert(r@ =~= memory_address@.push(data));
    }
    r
}

/// What a page write sends: the address, high byte first, then every data
/// byte. The chip increments its address as the bytes arrive and rolls over
/// from the last address to zero.
pub fn page_write_payload(memory_address: &MemoryAddress, data: &[u8]) -> (r: Vec<u8>)
    requires
        data@.len() <= PAGE_DATA_MAX,
    ensures
        r@ == memory_address@ + data@,
{
    let mut payload: Vec<u8> = Vec::new();
    payload.push(memory_address[0]);
    payload.push(memory_address[1]);
    let mut i: usize = 0;
    while i < data.len()
        invariant
            i <= data@.len(),
            payload@ == memory_address@ + data@.subrange(0, i as int),
        decreases data@.len() - i,
    {
        payload.push(data[i]);
        i += 1;
        proof {
            assert(data@.subrange(0, i as int) =~= data@.subrange(0, i - 1).push(data@[i - 1]));
        }
    }
    proof {
        assert(data@.subrange(0, data@.len() as int) =~= data@);
    }
    payload
}

} // verus!
