//! Driver core for the MB85RC family of I2C FRAM chips.
//!
//! The chip is addressed with two big-endian bytes (16 bits). For the 16 Kbit
//! part only 11 of them are used; the 64 Kbit and 256 Kbit parts use all 16.
//! That difference is expressed as the capacity of the cursor in [`head`].

pub mod head;
pub mod protocol;
pub mod stream;

pub use head::{Head, MemoryAddress, SeekFrom};
pub use protocol::MB85RC;
pub use stream::{EmbedIODev, MB85RCErrorType};
