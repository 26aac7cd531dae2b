//! The partition table of a Master Boot Record.
//!
//! The table is the region of four 16-byte records that begins at byte
//! `0x1be` of the first block of a device. It is decoded once, from the bytes
//! that a read of that region returned, and does not change afterwards.

use crate::partition::{Partition, WindowView};
use crate::record::{le_u32, record_fields, DecodeError, PartitionRecord, RecordView};
use crate::types::PartitionType;
use crate::{
    PartitionId, BLOCK_SIZE, RECORD_COUNT, RECORD_LEN, RELATIVE_SECTOR_OFFSET, SYSTEM_ID_OFFSET,
    TABLE_LEN, TOTAL_SECTORS_OFFSET,
};
use vstd::prelude::*;

verus! {

/// The 16 bytes of the record in `slot` of the record region `s`.
pub open spec fn record_bytes(s: Seq<u8>, slot: int) -> Seq<u8> {
    s.subrange(slot * RECORD_LEN, slot * RECORD_LEN + RECORD_LEN)
}

/// The system id byte of the record in `slot` of the record region `s`.
pub open spec fn system_id_at(s: Seq<u8>, slot: int) -> u8 {
    s[slot * RECORD_LEN + SYSTEM_ID_OFFSET]
}

/// The four records that the record region `s` holds, slot by slot.
pub open spec fn table_fields(s: Seq<u8>) -> Seq<RecordView> {
    Seq::new(RECORD_COUNT as nat, |slot: int| record_fields(record_bytes(s, slot)))
}

/// The window that opens on the partition of a record, with its cursor at
/// the start.
pub open spec fn window_of(record: RecordView) -> WindowView {
    WindowView { start_pos: record.start_pos(), end_pos: record.end_pos(), pos: 0 }
}

/// The window on the partition of any slot is as long as the sector count
/// of that slot's record times the block size, exactly.
pub proof fn lemma_partition_len(s: Seq<u8>, id: PartitionId)
    requires
        s.len() >= TABLE_LEN,
    ensures
        window_of(table_fields(s)[id.slot()]).wf(),
        window_of(table_fields(s)[id.slot()]).len() == le_u32(
            s,
            id.slot() * RECORD_LEN + TOTAL_SECTORS_OFFSET,
        ) * BLOCK_SIZE,
        window_of(table_fields(s)[id.slot()]).start_pos == le_u32(
            s,
            id.slot() * RECORD_LEN + RELATIVE_SECTOR_OFFSET,
        ) * BLOCK_SIZE,
{
}

/// Used to grab partitions from the MBR
#[derive(Debug, Clone, Copy)]
pub struct MBR {
    partitions: [PartitionRecord; RECORD_COUNT],
}

impl View for MBR {
    type V = Seq<RecordView>;

    closed spec fn view(&self) -> Seq<RecordView> {
        Seq::new(RECORD_COUNT as nat, |slot: int| self.partitions@[slot]@)
    }
}

impl MBR {
    /// Create a new MBR from the bytes that a read of the record region
    /// returned: up to 64 bytes, taken from offset `0x1be` of the device.
    ///
    /// Fails with a short read where fewer than 64 bytes came back. Fails
    /// with the system id byte of the first record whose byte names no known
    /// type. Decodes the first 64 bytes otherwise.
    pub fn new(bytes: &[u8]) -> (r: Result<MBR, DecodeError>)
        ensures
            match r {
                Ok(mbr) => {
                    &&& bytes@.len() >= TABLE_LEN
                    &&& forall|slot: int|
                        0 <= slot < RECORD_COUNT ==> PartitionType::is_known(
                            #[trigger] system_id_at(bytes@, slot),
                        )
                    &&& mbr@ == table_fields(bytes@)
                },
                Err(DecodeError::ShortRead) => bytes@.len() < TABLE_LEN,
                Err(DecodeError::UnknownPartitionType(id)) => {
                    &&& bytes@.len() >= TABLE_LEN
                    &&& !PartitionType::is_known(id)
                    &&& exists|slot: int|
                        {
                            &&& 0 <= slot < RECORD_COUNT
                            &&& id == #[trigger] system_id_at(bytes@, slot)
                            &&& forall|before: int|
                                0 <= before < slot ==> PartitionType::is_known(
                                    #[trigger] system_id_at(bytes@, before),
                                )
                        }
                },
            },
    {
        if bytes.len() < TABLE_LEN {
            return Err(DecodeError::ShortRead);
        }
        let empty = PartitionRecord::default();
        let mut partitions: [PartitionRecord; RECORD_COUNT] = [empty;RECORD_COUNT];
        let mut i: usize = 0;
        while i < RECORD_COUNT
            invariant
                i <= RECORD_COUNT,
                bytes@.len() >= TABLE_LEN,
                forall|slot: int|
                    0 <= slot < i ==> PartitionType::is_known(
                        #[trigger] system_id_at(bytes@, slot),
                    ),
                forall|slot: int|
                    0 <= slot < i ==> (#[trigger] partitions@[slot])@ == record_fields(
                        record_bytes(bytes@, slot),
                    ),
            decreases RECORD_COUNT - i,
        {
            let at = i * RECORD_LEN;
            match PartitionRecord::decode_at(bytes, at) {
                Ok(record) => {
                    partitions[i] = record;
                },
                Err(e) => {
                    assert(e == DecodeError::UnknownPartitionType(system_id_at(bytes@, i as int)));
                    return Err(e);
                },
            }
            i = i + 1;
        }
        let mbr = MBR { partitions };
        assert(mbr@ =~= table_fields(bytes@));
        Ok(mbr)
    }

    /// Get a partition from the MBR
    ///
    /// The window's cursor is at the start of the partition: the device is
    /// to be positioned at the window's device position before it is used.
    pub fn get_partition(&self, id: PartitionId) -> (partition: Partition)
        ensures
            self@.len() == RECORD_COUNT,
            partition@ == window_of(self@[id.slot()]),
            partition@.wf(),
            partition@.len() == self@[id.slot()].len(),
    {
        let record = self.partitions[id.index()];
        Partition::new(record.get_start_pos(), record.get_end_pos())
    }

    /// Get the partition type from the MBR
    pub fn get_partition_type(&self, id: PartitionId) -> (t: PartitionType)
        ensures
            self@.len() == RECORD_COUNT,
            t.system_id() == self@[id.slot()].system_id,
    {
        let record = self.partitions[id.index()];
        record.get_partition_type()
    }

    /// Whether a partition is bootable in the MBR
    pub fn is_partition_bootable(&self, id: PartitionId) -> (b: bool)
        ensures
            self@.len() == RECORD_COUNT,
            b == self@[id.slot()].bootable,
    {
        let record = self.partitions[id.index()];
        record.is_bootable()
    }
}

} // verus!
