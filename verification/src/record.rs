//! The 16-byte partition record and its decoding.
//!
//! | Offset | Width | Field                                   |
//! |--------|-------|-----------------------------------------|
//! | 0      | 1     | boot indicator, `0x80` for active       |
//! | 4      | 1     | system id                               |
//! | 8      | 4     | first sector of the partition           |
//! | 12     | 4     | number of sectors in the partition      |
//!
//! Both sector fields are little-endian.

use crate::types::PartitionType;
use crate::{
    lba_to_u64, BLOCK_SIZE, BOOT_FLAG_ACTIVE, BOOT_FLAG_OFFSET, RECORD_LEN,
    RELATIVE_SECTOR_OFFSET, SYSTEM_ID_OFFSET, TOTAL_SECTORS_OFFSET,
};
use vstd::prelude::*;

verus! {

/// Why a record region could not be decoded.
#[derive(Debug, Clone, Copy, PartialEq, Eq, Structural)]
pub enum DecodeError {
    /// The device returned fewer bytes than the record region holds.
    ShortRead,
    /// A record holds this system id byte, which names no known type.
    UnknownPartitionType(u8),
}

/// What a partition record says, as mathematical values.
pub struct RecordView {
    /// Whether the boot indicator holds the value of an active partition.
    pub bootable: bool,
    /// The system id byte.
    pub system_id: u8,
    /// The first sector of the partition.
    pub relative_sector: nat,
    /// The number of sectors in the partition.
    pub total_sectors: nat,
}

impl RecordView {
    /// The byte offset on the device at which the partition begins.
    pub open spec fn start_pos(self) -> nat {
        self.relative_sector * (BLOCK_SIZE as nat)
    }

    /// The length of the partition in bytes.
    pub open spec fn len(self) -> nat {
        self.total_sectors * (BLOCK_SIZE as nat)
    }

    /// The byte offset on the device just past the partition.
    pub open spec fn end_pos(self) -> nat {
        self.start_pos() + self.len()
    }
}

/// The number that four bytes of `s`, starting at `at`, hold in
/// little-endian order.
pub open spec fn le_u32(s: Seq<u8>, at: int) -> nat {
    (s[at] + 0x100 * s[at + 1] + 0x1_0000 * s[at + 2] + 0x100_0000 * s[at + 3]) as nat
}

/// The fields of the record that the 16 bytes of `s` hold.
pub open spec fn record_fields(s: Seq<u8>) -> RecordView {
    RecordView {
        bootable: s[BOOT_FLAG_OFFSET as int] == BOOT_FLAG_ACTIVE,
        system_id: s[SYSTEM_ID_OFFSET as int],
        relative_sector: le_u32(s, RELATIVE_SECTOR_OFFSET as int),
        total_sectors: le_u32(s, TOTAL_SECTORS_OFFSET as int),
    }
}

/// What decoding the 16 bytes of `s` gives: the record's fields, or the
/// system id byte that names no known type.
pub open spec fn decode_record(s: Seq<u8>) -> Result<RecordView, DecodeError> {
    if PartitionType::is_known(s[SYSTEM_ID_OFFSET as int]) {
        Ok(record_fields(s))
    } else {
        Err(DecodeError::UnknownPartitionType(s[SYSTEM_ID_OFFSET as int]))
    }
}

/// A record is bootable where its boot indicator holds `0x80`, and for no
/// other value of that byte, zero included.
pub proof fn lemma_boot_flag(s: Seq<u8>)
    ensures
        s[BOOT_FLAG_OFFSET as int] == 0x80 ==> record_fields(s).bootable,
        s[BOOT_FLAG_OFFSET as int] == 0x00 ==> !record_fields(s).bootable,
        s[BOOT_FLAG_OFFSET as int] != 0x80 ==> !record_fields(s).bootable,
{
}

/// Reads a little-endian 32-bit number from four bytes of `bytes`.
fn read_le_u32(bytes: &[u8], at: usize) -> (value: u32)
    requires
        at + 4 <= bytes.len(),
    ensures
        value == le_u32(bytes@, at as int),
{
    let b0: u32 = bytes[at] as u32;
    let b1: u32 = bytes[at + 1] as u32;
    let b2: u32 = bytes[at + 2] as u32;
    let b3: u32 = bytes[at + 3] as u32;
    b0 + 0x100 * b1 + 0x1_0000 * b2 + 0x100_0000 * b3
}

/// Used to store data about partitions in the MBR
#[derive(Debug, Clone, Copy)]
pub struct PartitionRecord {
    relative_sector: u32,
    total_sectors: u32,
    partition_type: PartitionType,
    boot_flag: bool,
}

impl View for PartitionRecord {
    type V = RecordView;

    closed spec fn view(&self) -> RecordView {
        RecordView {
            bootable: self.boot_flag,
            system_id: self.partition_type.spec_system_id(),
            relative_sector: self.relative_sector as nat,
            total_sectors: self.total_sectors as nat,
        }
    }
}

impl PartitionRecord {
    /// Decodes the record that begins at `at` in `bytes`.
    pub(crate) fn decode_at(bytes: &[u8], at: usize) -> (r: Result<PartitionRecord, DecodeError>)
        requires
            at + RECORD_LEN <= bytes.len(),
        ensures
            match r {
                Ok(record) => decode_record(bytes@.subrange(at as int, at + RECORD_LEN)) == Ok::<
                    RecordView,
                    DecodeError,
                >(record@),
                Err(e) => decode_record(bytes@.subrange(at as int, at + RECORD_LEN)) == Err::<
                    RecordView,
                    DecodeError,
                >(e),
            },
    {
        let relative_sector = read_le_u32(bytes, at + RELATIVE_SECTOR_OFFSET);
        let total_sectors = read_le_u32(bytes, at + TOTAL_SECTORS_OFFSET);
        let system_id: u8 = bytes[at + SYSTEM_ID_OFFSET];
        let boot_flag: bool = bytes[at + BOOT_FLAG_OFFSET] == BOOT_FLAG_ACTIVE;
        match PartitionType::from_system_id(system_id) {
            Some(partition_type) => Ok(
                PartitionRecord { relative_sector, total_sectors, partition_type, boot_flag },
            ),
            None => Err(DecodeError::UnknownPartitionType(system_id)),
        }
    }

    /// Create a partition record from bytes
    ///
    /// Fails on a system id byte that names no known type, and only then.
    pub fn from_bytes(bytes: &[u8; RECORD_LEN]) -> (r: Result<PartitionRecord, DecodeError>)
        ensures
            r is Ok <==> PartitionType::is_known(bytes@[SYSTEM_ID_OFFSET as int]),
            match r {
                Ok(record) => {
                    &&& record@ == record_fields(bytes@)
                    &&& record@.bootable <==> bytes@[BOOT_FLAG_OFFSET as int] == BOOT_FLAG_ACTIVE
                },
                Err(e) => e == DecodeError::UnknownPartitionType(bytes@[SYSTEM_ID_OFFSET as int]),
            },
    {
        assert(bytes@.subrange(0, RECORD_LEN as int) =~= bytes@);
        Self::decode_at(bytes.as_slice(), 0)
    }

    /// Get the starting position of a partition
    pub fn get_start_pos(&self) -> (pos: u64)
        ensures
            pos == self@.start_pos(),
    {
        lba_to_u64(self.relative_sector)
    }

    /// Get the end position of a partition
    pub fn get_end_pos(&self) -> (pos: u64)
        ensures
            pos == self@.end_pos(),
            pos >= self@.start_pos(),
    {
        lba_to_u64(self.relative_sector) + lba_to_u64(self.total_sectors)
    }

    /// Get the type of a partition
    pub fn get_partition_type(&self) -> (t: PartitionType)
        ensures
            t.system_id() == self@.system_id,
    {
        self.partition_type
    }

    /// Whether the partition's boot flag is set
    pub fn is_bootable(&self) -> (b: bool)
        ensures
            b == self@.bootable,
    {
        self.boot_flag
    }
}

impl Default for PartitionRecord {
    /// The record of an empty slot: every byte of it zero.
    fn default() -> (record: PartitionRecord)
        ensures
            record@ == (RecordView {
                bootable: false,
                system_id: 0,
                relative_sector: 0,
                total_sectors: 0,
            }),
    {
        PartitionRecord {
            relative_sector: 0,
            total_sectors: 0,
            partition_type: PartitionType::Unknown,
            boot_flag: false,
        }
    }
}

} // verus!
