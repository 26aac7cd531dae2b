//! Types of partitions that are detectable through the system id field.
//!
//! The table follows the one that the fdisk utility prints. It is not
//! complete: a byte that it does not hold names no type.

use vstd::prelude::*;

verus! {

/// The type of a partition, as the system id byte of its record names it.
#[derive(Debug, Clone, Copy, PartialEq, Eq, Structural)]
#[non_exhaustive]
pub enum PartitionType {
    Unknown,
    Fat12,
    XenixRoot,
    XenixUsr,
    Fat16Lt32,
    Extended,
    Fat16,
    Ntfs,
    Aix,
    AixBootable,
    Os2BootManag,
    W95Fat32,
    W95Fat32Lba,
    W95Fat16Lba,
    W95ExtendedLba,
    Opus,
    HiddenFat12,
    CompaqDiagnostic,
    HiddenFat16Lt32,
    HiddenFat16,
    HiddenNtfs,
    AstSmartsleep,
    HiddenW95Fat32,
    HiddenW95Fat32Lba,
    HiddenW95Fat16Lba,
    NecDos,
    HiddenWinNtfs,
    Plan9,
    PartitionMagic,
    Venix80286,
    PpcPrepBoot,
    Sfs,
    Qnx4X,
    Qnx4XPart2,
    Qnx4XPart3,
    OntrackDm,
    OntrackDm6Aux1,
    Cpm,
    OntrackDm6Aux3,
    OntrackDm6Ddo,
    EzDrive,
    GoldenBow,
    PriamEdisk,
    SpeedStor,
    GnuHurd,
    NovellNetware286,
    NovellNetware386,
    NovellSMS,
    NovellNetware5P,
    DiskSecureMultiBoot,
    Scramdisk,
    PcIx,
    OldMinix,
    Minix,
    LinuxSwap,
    Linux,
    Os2HiddenCDrive,
    LinuxExtended,
    NftsVolumeSet1,
    NftsVolumeSet2,
    LinuxKernelPartition,
    LegacyFaultTolerantFat32,
    LegacyFaultTolerantFat32Int13h,
    LinuxLvm,
    Amoeba,
    AmoebaBbt,
    BsdOs,
    ThinkpadHibernation,
    FreeBSD,
    OpenBSD,
    NeXTSTEP,
    DarwinUFS,
    NetBSD,
    DarwinBoot,
    HFS,
    BsdiFs,
    BsdiSwap,
    BootWizardHidden,
    AcronisFat32,
    Solaris8Boot,
    Solaris,
    DrDosSecFat12,
    DrDosSecFat16Lt32,
    DrDosSecExt,
    DrDosSecFat16,
    Syrinx,
    NoFsData,
    CpmCtos,
    DellUti,
    BootIt,
    DosAccess,
    DosRo,
    SpeedStor2,
    LinuxExtended2,
    BeOsFs,
    GPT,
    EFI,
    LinuxPaRiscBl,
    SpeedStor3,
    SpeedStor4,
    DosSecondary,
    EbbrProtective,
    VMWareVmfs,
    VMWareVmkcore,
    LinuxRaidAuto,
    LanStep,
    Bbt,
}

impl PartitionType {
    /// The system id byte that stands for this type in a partition record.
    pub open spec fn spec_system_id(self) -> u8 {
        match self {
            PartitionType::Unknown => 0x00,
            PartitionType::Fat12 => 0x01,
            PartitionType::XenixRoot => 0x02,
            PartitionType::XenixUsr => 0x03,
            PartitionType::Fat16Lt32 => 0x04,
            PartitionType::Extended => 0x05,
            PartitionType::Fat16 => 0x06,
            PartitionType::Ntfs => 0x07,
            PartitionType::Aix => 0x08,
            PartitionType::AixBootable => 0x09,
            PartitionType::Os2BootManag => 0x0a,
            PartitionType::W95Fat32 => 0x0b,
            PartitionType::W95Fat32Lba => 0x0c,
            PartitionType::W95Fat16Lba => 0x0e,
            PartitionType::W95ExtendedLba => 0x0f,
            PartitionType::Opus => 0x10,
            PartitionType::HiddenFat12 => 0x11,
            PartitionType::CompaqDiagnostic => 0x12,
            PartitionType::HiddenFat16Lt32 => 0x14,
            PartitionType::HiddenFat16 => 0x16,
            PartitionType::HiddenNtfs => 0x17,
            PartitionType::AstSmartsleep => 0x18,
            PartitionType::HiddenW95Fat32 => 0x1b,
            PartitionType::HiddenW95Fat32Lba => 0x1c,
            PartitionType::HiddenW95Fat16Lba => 0x1e,
            PartitionType::NecDos => 0x24,
            PartitionType::HiddenWinNtfs => 0x27,
            PartitionType::Plan9 => 0x39,
            PartitionType::PartitionMagic => 0x3c,
            PartitionType::Venix80286 => 0x40,
            PartitionType::PpcPrepBoot => 0x41,
            PartitionType::Sfs => 0x42,
            PartitionType::Qnx4X => 0x4d,
            PartitionType::Qnx4XPart2 => 0x4e,
            PartitionType::Qnx4XPart3 => 0x4f,
            PartitionType::OntrackDm => 0x50,
            PartitionType::OntrackDm6Aux1 => 0x51,
            PartitionType::Cpm => 0x52,
            PartitionType::OntrackDm6Aux3 => 0x53,
            PartitionType::OntrackDm6Ddo => 0x54,
            PartitionType::EzDrive => 0x55,
            PartitionType::GoldenBow => 0x56,
            PartitionType::PriamEdisk => 0x5c,
            PartitionType::SpeedStor => 0x61,
            PartitionType::GnuHurd => 0x63,
            PartitionType::NovellNetware286 => 0x64,
            PartitionType::NovellNetware386 => 0x65,
            PartitionType::NovellSMS => 0x66,
            PartitionType::NovellNetware5P => 0x69,
            PartitionType::DiskSecureMultiBoot => 0x70,
            PartitionType::Scramdisk => 0x74,
            PartitionType::PcIx => 0x75,
            PartitionType::OldMinix => 0x80,
            PartitionType::Minix => 0x81,
            PartitionType::LinuxSwap => 0x82,
            PartitionType::Linux => 0x83,
            PartitionType::Os2HiddenCDrive => 0x84,
            PartitionType::LinuxExtended => 0x85,
            PartitionType::NftsVolumeSet1 => 0x86,
            PartitionType::NftsVolumeSet2 => 0x87,
            PartitionType::LinuxKernelPartition => 0x8a,
            PartitionType::LegacyFaultTolerantFat32 => 0x8b,
            PartitionType::LegacyFaultTolerantFat32Int13h => 0x8c,
            PartitionType::LinuxLvm => 0x8e,
            PartitionType::Amoeba => 0x93,
            PartitionType::AmoebaBbt => 0x94,
            PartitionType::BsdOs => 0x9f,
            PartitionType::ThinkpadHibernation => 0xa0,
            PartitionType::FreeBSD => 0xa5,
            PartitionType::OpenBSD => 0xa6,
            PartitionType::NeXTSTEP => 0xa7,
            PartitionType::DarwinUFS => 0xa8,
            PartitionType::NetBSD => 0xa9,
            PartitionType::DarwinBoot => 0xab,
            PartitionType::HFS => 0xaf,
            PartitionType::BsdiFs => 0xb7,
            PartitionType::BsdiSwap => 0xb8,
            PartitionType::BootWizardHidden => 0xbb,
            PartitionType::AcronisFat32 => 0xbc,
            PartitionType::Solaris8Boot => 0xbe,
            PartitionType::Solaris => 0xbf,
            PartitionType::DrDosSecFat12 => 0xc1,
            PartitionType::DrDosSecFat16Lt32 => 0xc2,
            PartitionType::DrDosSecExt => 0xc5,
            PartitionType::DrDosSecFat16 => 0xc6,
            PartitionType::Syrinx => 0xc7,
            PartitionType::NoFsData => 0xda,
            PartitionType::CpmCtos => 0xdb,
            PartitionType::DellUti => 0xde,
            PartitionType::BootIt => 0xdf,
            PartitionType::DosAccess => 0xe1,
            PartitionType::DosRo => 0xe3,
            PartitionType::SpeedStor2 => 0xe4,
            PartitionType::LinuxExtended2 => 0xea,
            PartitionType::BeOsFs => 0xeb,
            PartitionType::GPT => 0xee,
            PartitionType::EFI => 0xef,
            PartitionType::LinuxPaRiscBl => 0xf0,
            PartitionType::SpeedStor3 => 0xf1,
            PartitionType::SpeedStor4 => 0xf4,
            PartitionType::DosSecondary => 0xf2,
            PartitionType::EbbrProtective => 0xf8,
            PartitionType::VMWareVmfs => 0xfb,
            PartitionType::VMWareVmkcore => 0xfc,
            PartitionType::LinuxRaidAuto => 0xfd,
            PartitionType::LanStep => 0xfe,
            PartitionType::Bbt => 0xff,
        }
    }

    /// Whether the table holds a type for this system id byte.
    pub open spec fn is_known(id: u8) -> bool {
        exists|t: PartitionType| t.spec_system_id() == id
    }

    /// The system id byte that stands for this type in a partition record.
    #[verifier::when_used_as_spec(spec_system_id)]
    pub fn system_id(self) -> (id: u8)
        ensures
            id == self.spec_system_id(),
    {
        match self {
            PartitionType::Unknown => 0x00,
            PartitionType::Fat12 => 0x01,
            PartitionType::XenixRoot => 0x02,
            PartitionType::XenixUsr => 0x03,
            PartitionType::Fat16Lt32 => 0x04,
            PartitionType::Extended => 0x05,
            PartitionType::Fat16 => 0x06,
            PartitionType::Ntfs => 0x07,
            PartitionType::Aix => 0x08,
            PartitionType::AixBootable => 0x09,
            PartitionType::Os2BootManag => 0x0a,
            PartitionType::W95Fat32 => 0x0b,
            PartitionType::W95Fat32Lba => 0x0c,
            PartitionType::W95Fat16Lba => 0x0e,
            PartitionType::W95ExtendedLba => 0x0f,
            PartitionType::Opus => 0x10,
            PartitionType::HiddenFat12 => 0x11,
            PartitionType::CompaqDiagnostic => 0x12,
            PartitionType::HiddenFat16Lt32 => 0x14,
            PartitionType::HiddenFat16 => 0x16,
            PartitionType::HiddenNtfs => 0x17,
            PartitionType::AstSmartsleep => 0x18,
            PartitionType::HiddenW95Fat32 => 0x1b,
            PartitionType::HiddenW95Fat32Lba => 0x1c,
            PartitionType::HiddenW95Fat16Lba => 0x1e,
            PartitionType::NecDos => 0x24,
            PartitionType::HiddenWinNtfs => 0x27,
            PartitionType::Plan9 => 0x39,
            PartitionType::PartitionMagic => 0x3c,
            PartitionType::Venix80286 => 0x40,
            PartitionType::PpcPrepBoot => 0x41,
            PartitionType::Sfs => 0x42,
            PartitionType::Qnx4X => 0x4d,
            PartitionType::Qnx4XPart2 => 0x4e,
            PartitionType::Qnx4XPart3 => 0x4f,
            PartitionType::OntrackDm => 0x50,
            PartitionType::OntrackDm6Aux1 => 0x51,
            PartitionType::Cpm => 0x52,
            PartitionType::OntrackDm6Aux3 => 0x53,
            PartitionType::OntrackDm6Ddo => 0x54,
            PartitionType::EzDrive => 0x55,
            PartitionType::GoldenBow => 0x56,
            PartitionType::PriamEdisk => 0x5c,
            PartitionType::SpeedStor => 0x61,
            PartitionType::GnuHurd => 0x63,
            PartitionType::NovellNetware286 => 0x64,
            PartitionType::NovellNetware386 => 0x65,
            PartitionType::NovellSMS => 0x66,
            PartitionType::NovellNetware5P => 0x69,
            PartitionType::DiskSecureMultiBoot => 0x70,
            PartitionType::Scramdisk => 0x74,
            PartitionType::PcIx => 0x75,
            PartitionType::OldMinix => 0x80,
            PartitionType::Minix => 0x81,
            PartitionType::LinuxSwap => 0x82,
            PartitionType::Linux => 0x83,
            PartitionType::Os2HiddenCDrive => 0x84,
            PartitionType::LinuxExtended => 0x85,
            PartitionType::NftsVolumeSet1 => 0x86,
            PartitionType::NftsVolumeSet2 => 0x87,
            PartitionType::LinuxKernelPartition => 0x8a,
            PartitionType::LegacyFaultTolerantFat32 => 0x8b,
            PartitionType::LegacyFaultTolerantFat32Int13h => 0x8c,
            PartitionType::LinuxLvm => 0x8e,
            PartitionType::Amoeba => 0x93,
            PartitionType::AmoebaBbt => 0x94,
            PartitionType::BsdOs => 0x9f,
            PartitionType::ThinkpadHibernation => 0xa0,
            PartitionType::FreeBSD => 0xa5,
            PartitionType::OpenBSD => 0xa6,
            PartitionType::NeXTSTEP => 0xa7,
            PartitionType::DarwinUFS => 0xa8,
            PartitionType::NetBSD => 0xa9,
            PartitionType::DarwinBoot => 0xab,
            PartitionType::HFS => 0xaf,
            PartitionType::BsdiFs => 0xb7,
            PartitionType::BsdiSwap => 0xb8,
            PartitionType::BootWizardHidden => 0xbb,
            PartitionType::AcronisFat32 => 0xbc,
            PartitionType::Solaris8Boot => 0xbe,
            PartitionType::Solaris => 0xbf,
            PartitionType::DrDosSecFat12 => 0xc1,
            PartitionType::DrDosSecFat16Lt32 => 0xc2,
            PartitionType::DrDosSecExt => 0xc5,
            PartitionType::DrDosSecFat16 => 0xc6,
            PartitionType::Syrinx => 0xc7,
            PartitionType::NoFsData => 0xda,
            PartitionType::CpmCtos => 0xdb,
            PartitionType::DellUti => 0xde,
            PartitionType::BootIt => 0xdf,
            PartitionType::DosAccess => 0xe1,
            PartitionType::DosRo => 0xe3,
            PartitionType::SpeedStor2 => 0xe4,
            PartitionType::LinuxExtended2 => 0xea,
            PartitionType::BeOsFs => 0xeb,
            PartitionType::GPT => 0xee,
            PartitionType::EFI => 0xef,
            PartitionType::LinuxPaRiscBl => 0xf0,
            PartitionType::SpeedStor3 => 0xf1,
            PartitionType::SpeedStor4 => 0xf4,
            PartitionType::DosSecondary => 0xf2,
            PartitionType::EbbrProtective => 0xf8,
            PartitionType::VMWareVmfs => 0xfb,
            PartitionType::VMWareVmkcore => 0xfc,
            PartitionType::LinuxRaidAuto => 0xfd,
            PartitionType::LanStep => 0xfe,
            PartitionType::Bbt => 0xff,
        }
    }

    /// The type that a system id byte names; none for a byte that the table
    /// does not hold.
    pub fn from_system_id(id: u8) -> (t: Option<PartitionType>)
        ensures
            t is Some <==> Self::is_known(id),
            t is Some ==> t->0.system_id() == id,
    {
        let t = match id {
            0x00 => Some(PartitionType::Unknown),
            0x01 => Some(PartitionType::Fat12),
            0x02 => Some(PartitionType::XenixRoot),
            0x03 => Some(PartitionType::XenixUsr),
            0x04 => Some(PartitionType::Fat16Lt32),
            0x05 => Some(PartitionType::Extended),
            0x06 => Some(PartitionType::Fat16),
            0x07 => Some(PartitionType::Ntfs),
            0x08 => Some(PartitionType::Aix),
            0x09 => Some(PartitionType::AixBootable),
            0x0a => Some(PartitionType::Os2BootManag),
            0x0b => Some(PartitionType::W95Fat32),
            0x0c => Some(PartitionType::W95Fat32Lba),
            0x0e => Some(PartitionType::W95Fat16Lba),
            0x0f => Some(PartitionType::W95ExtendedLba),
            0x10 => Some(PartitionType::Opus),
            0x11 => Some(PartitionType::HiddenFat12),
            0x12 => Some(PartitionType::CompaqDiagnostic),
            0x14 => Some(PartitionType::HiddenFat16Lt32),
            0x16 => Some(PartitionType::HiddenFat16),
            0x17 => Some(PartitionType::HiddenNtfs),
            0x18 => Some(PartitionType::AstSmartsleep),
            0x1b => Some(PartitionType::HiddenW95Fat32),
            0x1c => Some(PartitionType::HiddenW95Fat32Lba),
            0x1e => Some(PartitionType::HiddenW95Fat16Lba),
            0x24 => Some(PartitionType::NecDos),
            0x27 => Some(PartitionType::HiddenWinNtfs),
            0x39 => Some(PartitionType::Plan9),
            0x3c => Some(PartitionType::PartitionMagic),
            0x40 => Some(PartitionType::Venix80286),
            0x41 => Some(PartitionType::PpcPrepBoot),
            0x42 => Some(PartitionType::Sfs),
            0x4d => Some(PartitionType::Qnx4X),
            0x4e => Some(PartitionType::Qnx4XPart2),
            0x4f => Some(PartitionType::Qnx4XPart3),
            0x50 => Some(PartitionType::OntrackDm),
            0x51 => Some(PartitionType::OntrackDm6Aux1),
            0x52 => Some(PartitionType::Cpm),
            0x53 => Some(PartitionType::OntrackDm6Aux3),
            0x54 => Some(PartitionType::OntrackDm6Ddo),
            0x55 => Some(PartitionType::EzDrive),
            0x56 => Some(PartitionType::GoldenBow),
            0x5c => Some(PartitionType::PriamEdisk),
            0x61 => Some(PartitionType::SpeedStor),
            0x63 => Some(PartitionType::GnuHurd),
            0x64 => Some(PartitionType::NovellNetware286),
            0x65 => Some(PartitionType::NovellNetware386),
            0x66 => Some(PartitionType::NovellSMS),
            0x69 => Some(PartitionType::NovellNetware5P),
            0x70 => Some(PartitionType::DiskSecureMultiBoot),
            0x74 => Some(PartitionType::Scramdisk),
            0x75 => Some(PartitionType::PcIx),
            0x80 => Some(PartitionType::OldMinix),
            0x81 => Some(PartitionType::Minix),
            0x82 => Some(PartitionType::LinuxSwap),
            0x83 => Some(PartitionType::Linux),
            0x84 => Some(PartitionType::Os2HiddenCDrive),
            0x85 => Some(PartitionType::LinuxExtended),
            0x86 => Some(PartitionType::NftsVolumeSet1),
            0x87 => Some(PartitionType::NftsVolumeSet2),
            0x8a => Some(PartitionType::LinuxKernelPartition),
            0x8b => Some(PartitionType::LegacyFaultTolerantFat32),
            0x8c => Some(PartitionType::LegacyFaultTolerantFat32Int13h),
            0x8e => Some(PartitionType::LinuxLvm),
            0x93 => Some(PartitionType::Amoeba),
            0x94 => Some(PartitionType::AmoebaBbt),
            0x9f => Some(PartitionType::BsdOs),
            0xa0 => Some(PartitionType::ThinkpadHibernation),
            0xa5 => Some(PartitionType::FreeBSD),
            0xa6 => Some(PartitionType::OpenBSD),
            0xa7 => Some(PartitionType::NeXTSTEP),
            0xa8 => Some(PartitionType::DarwinUFS),
            0xa9 => Some(PartitionType::NetBSD),
            0xab => Some(PartitionType::DarwinBoot),
            0xaf => Some(PartitionType::HFS),
            0xb7 => Some(PartitionType::BsdiFs),
            0xb8 => Some(PartitionType::BsdiSwap),
            0xbb => Some(PartitionType::BootWizardHidden),
            0xbc => Some(PartitionType::AcronisFat32),
            0xbe => Some(PartitionType::Solaris8Boot),
            0xbf => Some(PartitionType::Solaris),
            0xc1 => Some(PartitionType::DrDosSecFat12),
            0xc2 => Some(PartitionType::DrDosSecFat16Lt32),
            0xc5 => Some(PartitionType::DrDosSecExt),
            0xc6 => Some(PartitionType::DrDosSecFat16),
            0xc7 => Some(PartitionType::Syrinx),
            0xda => Some(PartitionType::NoFsData),
            0xdb => Some(PartitionType::CpmCtos),
            0xde => Some(PartitionType::DellUti),
            0xdf => Some(PartitionType::BootIt),
            0xe1 => Some(PartitionType::DosAccess),
            0xe3 => Some(PartitionType::DosRo),
            0xe4 => Some(PartitionType::SpeedStor2),
            0xea => Some(PartitionType::LinuxExtended2),
            0xeb => Some(PartitionType::BeOsFs),
            0xee => Some(PartitionType::GPT),
            0xef => Some(PartitionType::EFI),
            0xf0 => Some(PartitionType::LinuxPaRiscBl),
            0xf1 => Some(PartitionType::SpeedStor3),
            0xf4 => Some(PartitionType::SpeedStor4),
            0xf2 => Some(PartitionType::DosSecondary),
            0xf8 => Some(PartitionType::EbbrProtective),
            0xfb => Some(PartitionType::VMWareVmfs),
            0xfc => Some(PartitionType::VMWareVmkcore),
            0xfd => Some(PartitionType::LinuxRaidAuto),
            0xfe => Some(PartitionType::LanStep),
            0xff => Some(PartitionType::Bbt),
            _ => None,
        };
        proof {
            if let Some(found) = t {
                assert(found.spec_system_id() == id);
            }
        }
        t
    }

    /// No two types share a system id byte: the byte decides the type.
    pub proof fn lemma_system_id_injective(a: PartitionType, b: PartitionType)
        requires
            a.system_id() == b.system_id(),
        ensures
            a == b,
    {
    }
}

impl Default for PartitionType {
    /// The type of an empty record, whose system id byte is zero.
    fn default() -> (t: PartitionType)
        ensures
            t == PartitionType::Unknown,
    {
        PartitionType::Unknown
    }
}

} // verus!
