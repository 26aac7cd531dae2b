//! Decoding of a classic Master Boot Record partition table, and the
//! arithmetic of a bounded window over one partition of a block device.
//!
//! The crate holds no device handle. A caller reads the record region from
//! its device and hands the bytes to [`MBR::new`]; for each read, write or
//! seek on a partition it asks the [`Partition`] window what the device is
//! to be asked for, performs that, and reports the outcome back.

use vstd::prelude::*;

pub mod mbr;
pub mod partition;
pub mod record;
pub mod types;

pub use mbr::MBR;
pub use partition::{Partition, SeekFrom};
pub use record::{DecodeError, PartitionRecord};

verus! {

/// Length of each record in bytes
pub const RECORD_LEN: usize = 16;

/// Number of records in the partition table
pub const RECORD_COUNT: usize = 4;

/// Length of the whole record region in bytes
pub const TABLE_LEN: usize = 64;

/// Size of blocks in bytes
pub const BLOCK_SIZE: u64 = 512;

/// Offset to the start of the partition records
pub const RECORDS_START: u64 = 0x1be;

/// Offset of the relative sector field in a partition record
pub const RELATIVE_SECTOR_OFFSET: usize = 8;

/// Offset of the total sectors field in a partition record
pub const TOTAL_SECTORS_OFFSET: usize = 12;

/// Offset of the system id field in a partition record
pub const SYSTEM_ID_OFFSET: usize = 4;

/// Offset of the boot indicator flag in a partition record
pub const BOOT_FLAG_OFFSET: usize = 0;

/// Value of the boot indicator of an active partition
pub const BOOT_FLAG_ACTIVE: u8 = 0x80;

/// ID of each partition
#[derive(Debug, Clone, Copy, PartialEq, Eq, Structural)]
pub enum PartitionId {
    One,
    Two,
    Three,
    Four,
}

impl PartitionId {
    /// The slot of the table that this id names.
    pub open spec fn slot(self) -> int {
        match self {
            PartitionId::One => 0,
            PartitionId::Two => 1,
            PartitionId::Three => 2,
            PartitionId::Four => 3,
        }
    }

    /// The slot of the table that this id names, as an index.
    pub fn index(self) -> (i: usize)
        ensures
            i == self.slot(),
            i < RECORD_COUNT,
    {
        match self {
            PartitionId::One => 0,
            PartitionId::Two => 1,
            PartitionId::Three => 2,
            PartitionId::Four => 3,
        }
    }

    /// The id of a slot; none for an index past the last slot.
    pub fn from_index(index: usize) -> (id: Option<PartitionId>)
        ensures
            index < RECORD_COUNT <==> id is Some,
            id is Some ==> id->0.slot() == index,
    {
        if index == 0 {
            Some(PartitionId::One)
        } else if index == 1 {
            Some(PartitionId::Two)
        } else if index == 2 {
            Some(PartitionId::Three)
        } else if index == 3 {
            Some(PartitionId::Four)
        } else {
            None
        }
    }
}

/// Convert an LBA address to a byte offset
pub fn lba_to_u64(lba: u32) -> (offset: u64)
    ensures
        offset == lba * BLOCK_SIZE,
{
    (lba as u64) * BLOCK_SIZE
}

} // verus!
