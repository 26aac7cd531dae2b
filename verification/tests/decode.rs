//! Decoding of records and of the table, on bytes given by hand.

use ape_mbr::types::PartitionType;
use ape_mbr::{
    lba_to_u64, DecodeError, PartitionId, PartitionRecord, BLOCK_SIZE, BOOT_FLAG_ACTIVE,
    BOOT_FLAG_OFFSET, MBR, RECORDS_START, RECORD_COUNT, RECORD_LEN, RELATIVE_SECTOR_OFFSET,
    SYSTEM_ID_OFFSET, TABLE_LEN, TOTAL_SECTORS_OFFSET,
};

const IDS: [PartitionId; 4] = [
    PartitionId::One,
    PartitionId::Two,
    PartitionId::Three,
    PartitionId::Four,
];

fn record(boot: u8, system_id: u8, first_sector: u32, sectors: u32) -> [u8; 16] {
    let mut bytes = [0u8; 16];
    bytes[0] = boot;
    bytes[4] = system_id;
    bytes[8..12].copy_from_slice(&first_sector.to_le_bytes());
    bytes[12..16].copy_from_slice(&sectors.to_le_bytes());
    bytes
}

fn table(records: [[u8; 16]; 4]) -> Vec<u8> {
    let mut bytes = Vec::new();
    for r in records.iter() {
        bytes.extend_from_slice(r);
    }
    bytes
}

#[test]
fn constants_describe_the_layout() {
    assert_eq!(RECORD_LEN, 16);
    assert_eq!(RECORD_COUNT, 4);
    assert_eq!(TABLE_LEN, 64);
    assert_eq!(BLOCK_SIZE, 512);
    assert_eq!(RECORDS_START, 0x1be);
    assert_eq!(RELATIVE_SECTOR_OFFSET, 8);
    assert_eq!(TOTAL_SECTORS_OFFSET, 12);
    assert_eq!(SYSTEM_ID_OFFSET, 4);
    assert_eq!(BOOT_FLAG_OFFSET, 0);
    assert_eq!(BOOT_FLAG_ACTIVE, 0x80);
}

#[test]
fn lba_is_multiplied_by_the_block_size() {
    assert_eq!(lba_to_u64(0), 0);
    assert_eq!(lba_to_u64(1), 512);
    assert_eq!(lba_to_u64(17), 8704);
    assert_eq!(lba_to_u64(u32::MAX), 2_199_023_255_040);
}

#[test]
fn partition_ids_name_slots_zero_to_three() {
    for (i, id) in IDS.iter().enumerate() {
        assert_eq!(id.index(), i);
        assert_eq!(PartitionId::from_index(i), Some(*id));
    }
    assert_eq!(PartitionId::from_index(4), None);
    assert_eq!(PartitionId::from_index(usize::MAX), None);
}

#[test]
fn record_fields_are_read_at_their_offsets() {
    let bytes: [u8; 16] = [
        0x80, 0x01, 0x02, 0x03, 0x83, 0x05, 0x06, 0x07, 0x78, 0x56, 0x34, 0x12, 0x0d, 0xf0, 0xad,
        0x0b,
    ];
    let r = PartitionRecord::from_bytes(&bytes).unwrap();
    assert!(r.is_bootable());
    assert_eq!(r.get_partition_type(), PartitionType::Linux);
    assert_eq!(r.get_start_pos(), 0x1234_5678 * 512);
    assert_eq!(r.get_end_pos(), 0x1234_5678 * 512 + 0x0bad_f00d * 512);
}

#[test]
fn record_of_the_largest_sector_numbers() {
    let r = PartitionRecord::from_bytes(&record(0, 0xff, u32::MAX, u32::MAX)).unwrap();
    assert_eq!(r.get_partition_type(), PartitionType::Bbt);
    assert_eq!(r.get_start_pos(), 2_199_023_255_040);
    assert_eq!(r.get_end_pos(), 4_398_046_510_080);
}

#[test]
fn only_the_active_value_sets_the_boot_flag() {
    for boot in 0..=255u8 {
        let r = PartitionRecord::from_bytes(&record(boot, 0x0c, 63, 1000)).unwrap();
        assert_eq!(r.is_bootable(), boot == 0x80, "boot indicator {boot:#x}");
    }
    assert!(PartitionRecord::from_bytes(&record(0x80, 0x0c, 63, 1000))
        .unwrap()
        .is_bootable());
    assert!(!PartitionRecord::from_bytes(&record(0x00, 0x0c, 63, 1000))
        .unwrap()
        .is_bootable());
    assert!(!PartitionRecord::from_bytes(&record(0x81, 0x0c, 63, 1000))
        .unwrap()
        .is_bootable());
}

#[test]
fn unknown_system_id_is_a_decode_error() {
    let e = PartitionRecord::from_bytes(&record(0x80, 0x0d, 1, 1)).unwrap_err();
    assert_eq!(e, DecodeError::UnknownPartitionType(0x0d));
    let e = PartitionRecord::from_bytes(&record(0x00, 0x13, 1, 1)).unwrap_err();
    assert_eq!(e, DecodeError::UnknownPartitionType(0x13));
}

#[test]
fn default_record_is_empty() {
    let r = PartitionRecord::default();
    assert!(!r.is_bootable());
    assert_eq!(r.get_partition_type(), PartitionType::Unknown);
    assert_eq!(r.get_start_pos(), 0);
    assert_eq!(r.get_end_pos(), 0);
    assert_eq!(PartitionType::default(), PartitionType::Unknown);
}

#[test]
fn system_ids_round_trip() {
    let mut known = 0;
    for id in 0..=255u8 {
        match PartitionType::from_system_id(id) {
            Some(t) => {
                known += 1;
                assert_eq!(t.system_id(), id);
            }
            None => {}
        }
    }
    assert_eq!(known, 107);
}

#[test]
fn system_ids_of_some_types() {
    assert_eq!(PartitionType::from_system_id(0x00), Some(PartitionType::Unknown));
    assert_eq!(PartitionType::from_system_id(0x01), Some(PartitionType::Fat12));
    assert_eq!(PartitionType::from_system_id(0x06), Some(PartitionType::Fat16));
    assert_eq!(PartitionType::from_system_id(0x07), Some(PartitionType::Ntfs));
    assert_eq!(PartitionType::from_system_id(0x0b), Some(PartitionType::W95Fat32));
    assert_eq!(PartitionType::from_system_id(0x82), Some(PartitionType::LinuxSwap));
    assert_eq!(PartitionType::from_system_id(0x83), Some(PartitionType::Linux));
    assert_eq!(PartitionType::from_system_id(0xee), Some(PartitionType::GPT));
    assert_eq!(PartitionType::from_system_id(0xf2), Some(PartitionType::DosSecondary));
    assert_eq!(PartitionType::from_system_id(0xf4), Some(PartitionType::SpeedStor4));
    assert_eq!(PartitionType::from_system_id(0xff), Some(PartitionType::Bbt));
    assert_eq!(PartitionType::from_system_id(0x0d), None);
    assert_eq!(PartitionType::from_system_id(0x7f), None);
    assert_eq!(PartitionType::from_system_id(0xfa), None);
    assert_eq!(PartitionType::Extended.system_id(), 0x05);
    assert_eq!(PartitionType::LinuxLvm.system_id(), 0x8e);
    assert_eq!(PartitionType::EFI.system_id(), 0xef);
}

#[test]
fn table_decodes_each_slot_from_its_own_bytes() {
    let bytes = table([
        record(0x80, 0x01, 2048, 2000),
        record(0x00, 0x06, 4096, 5000),
        record(0x00, 0x0b, 10240, 68000),
        record(0x80, 0x83, 80000, 1),
    ]);
    let mbr = MBR::new(&bytes).unwrap();
    let types = [
        PartitionType::Fat12,
        PartitionType::Fat16,
        PartitionType::W95Fat32,
        PartitionType::Linux,
    ];
    let boots = [true, false, false, true];
    let starts: [u64; 4] = [2048, 4096, 10240, 80000];
    let sizes: [u64; 4] = [2000, 5000, 68000, 1];
    for i in 0..4 {
        assert_eq!(mbr.get_partition_type(IDS[i]), types[i]);
        assert_eq!(mbr.is_partition_bootable(IDS[i]), boots[i]);
        let p = mbr.get_partition(IDS[i]);
        assert_eq!(p.len(), sizes[i] * 512);
        assert_eq!(p.position(), 0);
        assert_eq!(p.device_position(), starts[i] * 512);
        assert_eq!(p.available(), sizes[i] * 512);
    }
}

#[test]
fn partition_lengths_are_sector_counts_times_block_size() {
    let bytes = table([
        record(0, 0x83, 1, 17),
        record(0, 0x83, 18, 33),
        record(0, 0x83, 51, 65),
        record(0, 0x83, 116, 84),
    ]);
    let mbr = MBR::new(&bytes).unwrap();
    assert_eq!(mbr.get_partition(PartitionId::One).len(), 8704);
    assert_eq!(mbr.get_partition(PartitionId::Two).len(), 16896);
    assert_eq!(mbr.get_partition(PartitionId::Three).len(), 33280);
    assert_eq!(mbr.get_partition(PartitionId::Four).len(), 43008);
}

#[test]
fn table_of_zeros_holds_four_empty_partitions() {
    let mbr = MBR::new(&[0u8; 64]).unwrap();
    for id in IDS {
        assert_eq!(mbr.get_partition_type(id), PartitionType::Unknown);
        assert!(!mbr.is_partition_bootable(id));
        assert_eq!(mbr.get_partition(id).len(), 0);
        assert_eq!(mbr.get_partition(id).device_position(), 0);
    }
}

#[test]
fn short_table_is_a_short_read() {
    let bytes = table([record(0, 0x83, 1, 17); 4]);
    assert_eq!(MBR::new(&bytes[..63]).unwrap_err(), DecodeError::ShortRead);
    assert_eq!(MBR::new(&bytes[..16]).unwrap_err(), DecodeError::ShortRead);
    assert_eq!(MBR::new(&[]).unwrap_err(), DecodeError::ShortRead);
    assert!(MBR::new(&bytes[..64]).is_ok());
}

#[test]
fn short_table_is_reported_before_an_unknown_type() {
    let bytes = table([record(0, 0x0d, 1, 17); 4]);
    assert_eq!(MBR::new(&bytes[..40]).unwrap_err(), DecodeError::ShortRead);
}

#[test]
fn bytes_past_the_table_are_ignored() {
    let mut bytes = table([record(0, 0x83, 1, 17); 4]);
    bytes.extend_from_slice(&[0x55, 0xaa, 0x0d, 0x0d, 0x0d, 0x0d, 0x0d]);
    let mbr = MBR::new(&bytes).unwrap();
    assert_eq!(mbr.get_partition_type(PartitionId::Four), PartitionType::Linux);
    assert_eq!(mbr.get_partition(PartitionId::Four).len(), 17 * 512);
}

#[test]
fn first_unknown_type_fails_the_table() {
    let bytes = table([
        record(0, 0x83, 1, 17),
        record(0, 0x83, 18, 33),
        record(0, 0x0d, 51, 65),
        record(0, 0x13, 116, 84),
    ]);
    assert_eq!(
        MBR::new(&bytes).unwrap_err(),
        DecodeError::UnknownPartitionType(0x0d)
    );
    let bytes = table([
        record(0, 0x83, 1, 17),
        record(0, 0x83, 18, 33),
        record(0, 0x83, 51, 65),
        record(0, 0x13, 116, 84),
    ]);
    assert_eq!(
        MBR::new(&bytes).unwrap_err(),
        DecodeError::UnknownPartitionType(0x13)
    );
    let bytes = table([
        record(0, 0xfa, 1, 17),
        record(0, 0x83, 18, 33),
        record(0, 0x83, 51, 65),
        record(0, 0x83, 116, 84),
    ]);
    assert_eq!(
        MBR::new(&bytes).unwrap_err(),
        DecodeError::UnknownPartitionType(0xfa)
    );
}
