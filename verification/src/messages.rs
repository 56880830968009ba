//! The error taxonomy: two disjoint numeric code spaces mapped to typed
//! values.
//!
//! Standard errno-style codes (0-133) map to [`ExtError`]; the
//! library-specific extended status block, a contiguous range of large
//! codes starting at [`EXT_ET_BASE`], maps to [`ExtEtMessage`].  The
//! classification function [`report`] selects the extended table exactly
//! when the code reaches the base of that block.

use vstd::prelude::*;

verus! {

/// First code of the extended status block; codes at or above this value
/// belong to the extended taxonomy, everything below is errno space.
pub const EXT_ET_BASE: i64 = 2133571328;

/// Number of codes in the extended status block.
pub const EXT_ET_COUNT: i64 = 183;

/// A status from the extended code block: structural corruption,
/// unsupported features, checksum mismatches, extent-tree and journal
/// trouble, and the magic-number tags of the in-memory structures.
#[derive(Clone, Copy, Debug, PartialEq, Eq, Structural)]
pub enum ExtEtMessage {
    Base,
    MagicExt2fsFilsys,
    MagicBadblocksList,
    MagicBadblocksIterate,
    MagicInodeScan,
    MagicIoChannel,
    MagicUnixIoChannel,
    MagicIoManager,
    MagicBlockBitmap,
    MagicInodeBitmap,
    MagicGenericBitmap,
    MagicTestIoChannel,
    MagicDbList,
    MagicIcount,
    MagicPqIoChannel,
    MagicExt2File,
    MagicE2Image,
    MagicInodeIoChannel,
    MagicExtentHandle,
    BadMagic,
    RevTooHigh,
    RoFilsys,
    GdescRead,
    GdescWrite,
    GdescBadBlockMap,
    GdescBadInodeMap,
    GdescBadInodeTable,
    InodeBitmapWrite,
    InodeBitmapRead,
    BlockBitmapWrite,
    BlockBitmapRead,
    InodeTableWrite,
    InodeTableRead,
    NextInodeRead,
    UnexpectedBlockSize,
    DirCorrupted,
    ShortRead,
    ShortWrite,
    DirNoSpace,
    NoInodeBitmap,
    NoBlockBitmap,
    BadInodeNumber,
    BadBlockNumber,
    ExpandDirError,
    TooSmall,
    BadBlockMark,
    BadBlockUnmark,
    BadBlockTest,
    BadInodeMark,
    BadInodeUnmark,
    BadInodeTest,
    FudgeBlockBitmapEnd,
    FudgeInodeBitmapEnd,
    BadIndBlock,
    BadDindBlock,
    BadTindBlock,
    NeqBlockBitmap,
    NeqInodeBitmap,
    BadDeviceName,
    MissingInodeTable,
    CorruptSuperblock,
    BadGenericMark,
    BadGenericUnmark,
    BadGenericTest,
    SymlinkLoop,
    CallbackNotHandled,
    BadBlockInInodeTable,
    UnsupportedFeature,
    ReadOnlyUnsupportedFeature,
    LlseekFailed,
    NoMemory,
    InvalidArgument,
    BlockAllocFail,
    InodeAllocFail,
    NoDirectory,
    TooManyRefs,
    FileNotFound,
    FileReadOnly,
    DbNotFound,
    DirExists,
    Unimplemented,
    CancelRequested,
    FileTooBig,
    JournalNotBlock,
    NoJournalSuperblock,
    JournalTooSmall,
    UnsupportedJournalVersion,
    LoadExtJournal,
    NoJournal,
    DirhashUnsupp,
    BadEABlockNum,
    TooManyInodes,
    NotImageFile,
    ResGDTBlocks,
    ResizeInodeCorrupt,
    SetBmapNoInd,
    TDBSuccess,
    TDBErrCorrupt,
    TDBErrIO,
    TDBErrLock,
    TDBErrOOM,
    TDBErrExists,
    TDBErrNoLock,
    TDBErrEINVAL,
    TDBErrNoExist,
    TDBErrRDONLY,
    DBListEmpty,
    ROBlockIterate,
    MagicExtentPath,
    MagicGenericBitmap64,
    MagicBlockBitmap64,
    MagicInodeBitmap64,
    MagicReserved13,
    MagicReserved14,
    MagicReserved15,
    MagicReserved16,
    MagicReserved17,
    MagicReserved18,
    MagicReserved19,
    ExtentHeaderBad,
    ExtentIndexBad,
    ExtentLeafBad,
    ExtentNoSpace,
    InodeNotExtent,
    ExtentNoNext,
    ExtentNoPrev,
    ExtentNoUp,
    ExtentNoDown,
    NoCurrentNode,
    OpNotSupported,
    CantInsertExtent,
    CantSplitExtent,
    ExtentNotFound,
    ExtentNotSupported,
    ExtentInvalidLength,
    IoChannelNoSupport64,
    NoMtabFile,
    CantUseLegacyBitmaps,
    MmpMagicInvalid,
    MmpFailed,
    MmpFsckOn,
    MmpBadBlock,
    MmpUnknownSeq,
    MmpChangeAbort,
    MmpOpenDirect,
    BadDescSize,
    InodeCsumInvalid,
    InodeBitmapCsumInvalid,
    ExtentCsumInvalid,
    DirNoSpaceForCsum,
    DirCsumInvalid,
    ExtAttrCsumInvalid,
    SbCsumInvalid,
    UnknownCsum,
    MmpCsumInvalid,
    FileExists,
    BlockBitmapCsumInvalid,
    InlineDataCantIterate,
    EaBadNameLen,
    EaBadValueSize,
    BadEaHash,
    BadEAHeader,
    EAKeyNotFound,
    EANoSpace,
    MissingEAFeature,
    NoInlineData,
    InlineDataNoBlock,
    InlineDataNoSpace,
    MagicEAHandle,
    InodeIsGarbage,
    EABadValueOffset,
    JournalFlagsWrong,
    UndoFileCorrupt,
    UndoFileWrong,
    FileSystemCorrupted,
    BadCRC,
    CorruptJournalSB,
    InodeCorrupted,
    EAInodeCorrupted,
    NoGdesc,
    FilsysCorrupted,
    ExtentCycle,
    ExternalJournalNoSupport,
}

impl ExtEtMessage {
    /// The numeric code of this status inside the extended block.
    pub open spec fn spec_code(self) -> i64 {
        match self {
            ExtEtMessage::Base => 2133571328,
            ExtEtMessage::MagicExt2fsFilsys => 2133571329,
            ExtEtMessage::MagicBadblocksList => 2133571330,
            ExtEtMessage::MagicBadblocksIterate => 2133571331,
            ExtEtMessage::MagicInodeScan => 2133571332,
            ExtEtMessage::MagicIoChannel => 2133571333,
            ExtEtMessage::MagicUnixIoChannel => 2133571334,
            ExtEtMessage::MagicIoManager => 2133571335,
            ExtEtMessage::MagicBlockBitmap => 2133571336,
            ExtEtMessage::MagicInodeBitmap => 2133571337,
            ExtEtMessage::MagicGenericBitmap => 2133571338,
            ExtEtMessage::MagicTestIoChannel => 2133571339,
            ExtEtMessage::MagicDbList => 2133571340,
            ExtEtMessage::MagicIcount => 2133571341,
            ExtEtMessage::MagicPqIoChannel => 2133571342,
            ExtEtMessage::MagicExt2File => 2133571343,
            ExtEtMessage::MagicE2Image => 2133571344,
            ExtEtMessage::MagicInodeIoChannel => 2133571345,
            ExtEtMessage::MagicExtentHandle => 2133571346,
            ExtEtMessage::BadMagic => 2133571347,
            ExtEtMessage::RevTooHigh => 2133571348,
            ExtEtMessage::RoFilsys => 2133571349,
            ExtEtMessage::GdescRead => 2133571350,
            ExtEtMessage::GdescWrite => 2133571351,
            ExtEtMessage::GdescBadBlockMap => 2133571352,
            ExtEtMessage::GdescBadInodeMap => 2133571353,
            ExtEtMessage::GdescBadInodeTable => 2133571354,
            ExtEtMessage::InodeBitmapWrite => 2133571355,
            ExtEtMessage::InodeBitmapRead => 2133571356,
            ExtEtMessage::BlockBitmapWrite => 2133571357,
            ExtEtMessage::BlockBitmapRead => 2133571358,
            ExtEtMessage::InodeTableWrite => 2133571359,
            ExtEtMessage::InodeTableRead => 2133571360,
            ExtEtMessage::NextInodeRead => 2133571361,
            ExtEtMessage::UnexpectedBlockSize => 2133571362,
            ExtEtMessage::DirCorrupted => 2133571363,
            ExtEtMessage::ShortRead => 2133571364,
            ExtEtMessage::ShortWrite => 2133571365,
            ExtEtMessage::DirNoSpace => 2133571366,
            ExtEtMessage::NoInodeBitmap => 2133571367,
            ExtEtMessage::NoBlockBitmap => 2133571368,
            ExtEtMessage::BadInodeNumber => 2133571369,
            ExtEtMessage::BadBlockNumber => 2133571370,
            ExtEtMessage::ExpandDirError => 2133571371,
            ExtEtMessage::TooSmall => 2133571372,
            ExtEtMessage::BadBlockMark => 2133571373,
            ExtEtMessage::BadBlockUnmark => 2133571374,
            ExtEtMessage::BadBlockTest => 2133571375,
            ExtEtMessage::BadInodeMark => 2133571376,
            ExtEtMessage::BadInodeUnmark => 2133571377,
            ExtEtMessage::BadInodeTest => 2133571378,
            ExtEtMessage::FudgeBlockBitmapEnd => 2133571379,
            ExtEtMessage::FudgeInodeBitmapEnd => 2133571380,
            ExtEtMessage::BadIndBlock => 2133571381,
            ExtEtMessage::BadDindBlock => 2133571382,
            ExtEtMessage::BadTindBlock => 2133571383,
            ExtEtMessage::NeqBlockBitmap => 2133571384,
            ExtEtMessage::NeqInodeBitmap => 2133571385,
            ExtEtMessage::BadDeviceName => 2133571386,
            ExtEtMessage::MissingInodeTable => 2133571387,
            ExtEtMessage::CorruptSuperblock => 2133571388,
            ExtEtMessage::BadGenericMark => 2133571389,
            ExtEtMessage::BadGenericUnmark => 2133571390,
            ExtEtMessage::BadGenericTest => 2133571391,
            ExtEtMessage::SymlinkLoop => 2133571392,
            ExtEtMessage::CallbackNotHandled => 2133571393,
            ExtEtMessage::BadBlockInInodeTable => 2133571394,
            ExtEtMessage::UnsupportedFeature => 2133571395,
            ExtEtMessage::ReadOnlyUnsupportedFeature => 2133571396,
            ExtEtMessage::LlseekFailed => 2133571397,
            ExtEtMessage::NoMemory => 2133571398,
            ExtEtMessage::InvalidArgument => 2133571399,
            ExtEtMessage::BlockAllocFail => 2133571400,
            ExtEtMessage::InodeAllocFail => 2133571401,
            ExtEtMessage::NoDirectory => 2133571402,
            ExtEtMessage::TooManyRefs => 2133571403,
            ExtEtMessage::FileNotFound => 2133571404,
            ExtEtMessage::FileReadOnly => 2133571405,
            ExtEtMessage::DbNotFound => 2133571406,
            ExtEtMessage::DirExists => 2133571407,
            ExtEtMessage::Unimplemented => 2133571408,
            ExtEtMessage::CancelRequested => 2133571409,
            ExtEtMessage::FileTooBig => 2133571410,
            ExtEtMessage::JournalNotBlock => 2133571411,
            ExtEtMessage::NoJournalSuperblock => 2133571412,
            ExtEtMessage::JournalTooSmall => 2133571413,
            ExtEtMessage::UnsupportedJournalVersion => 2133571414,
            ExtEtMessage::LoadExtJournal => 2133571415,
            ExtEtMessage::NoJournal => 2133571416,
            ExtEtMessage::DirhashUnsupp => 2133571417,
            ExtEtMessage::BadEABlockNum => 2133571418,
            ExtEtMessage::TooManyInodes => 2133571419,
            ExtEtMessage::NotImageFile => 2133571420,
            ExtEtMessage::ResGDTBlocks => 2133571421,
            ExtEtMessage::ResizeInodeCorrupt => 2133571422,
            ExtEtMessage::SetBmapNoInd => 2133571423,
            ExtEtMessage::TDBSuccess => 2133571424,
            ExtEtMessage::TDBErrCorrupt => 2133571425,
            ExtEtMessage::TDBErrIO => 2133571426,
            ExtEtMessage::TDBErrLock => 2133571427,
            ExtEtMessage::TDBErrOOM => 2133571428,
            ExtEtMessage::TDBErrExists => 2133571429,
            ExtEtMessage::TDBErrNoLock => 2133571430,
            ExtEtMessage::TDBErrEINVAL => 2133571431,
            ExtEtMessage::TDBErrNoExist => 2133571432,
            ExtEtMessage::TDBErrRDONLY => 2133571433,
            ExtEtMessage::DBListEmpty => 2133571434,
            ExtEtMessage::ROBlockIterate => 2133571435,
            ExtEtMessage::MagicExtentPath => 2133571436,
            ExtEtMessage::MagicGenericBitmap64 => 2133571437,
            ExtEtMessage::MagicBlockBitmap64 => 2133571438,
            ExtEtMessage::MagicInodeBitmap64 => 2133571439,
            ExtEtMessage::MagicReserved13 => 2133571440,
            ExtEtMessage::MagicReserved14 => 2133571441,
            ExtEtMessage::MagicReserved15 => 2133571442,
            ExtEtMessage::MagicReserved16 => 2133571443,
            ExtEtMessage::MagicReserved17 => 2133571444,
            ExtEtMessage::MagicReserved18 => 2133571445,
            ExtEtMessage::MagicReserved19 => 2133571446,
            ExtEtMessage::ExtentHeaderBad => 2133571447,
            ExtEtMessage::ExtentIndexBad => 2133571448,
            ExtEtMessage::ExtentLeafBad => 2133571449,
            ExtEtMessage::ExtentNoSpace => 2133571450,
            ExtEtMessage::InodeNotExtent => 2133571451,
            ExtEtMessage::ExtentNoNext => 2133571452,
            ExtEtMessage::ExtentNoPrev => 2133571453,
            ExtEtMessage::ExtentNoUp => 2133571454,
            ExtEtMessage::ExtentNoDown => 2133571455,
            ExtEtMessage::NoCurrentNode => 2133571456,
            ExtEtMessage::OpNotSupported => 2133571457,
            ExtEtMessage::CantInsertExtent => 2133571458,
            ExtEtMessage::CantSplitExtent => 2133571459,
            ExtEtMessage::ExtentNotFound => 2133571460,
            ExtEtMessage::ExtentNotSupported => 2133571461,
            ExtEtMessage::ExtentInvalidLength => 2133571462,
            ExtEtMessage::IoChannelNoSupport64 => 2133571463,
            ExtEtMessage::NoMtabFile => 2133571464,
            ExtEtMessage::CantUseLegacyBitmaps => 2133571465,
            ExtEtMessage::MmpMagicInvalid => 2133571466,
            ExtEtMessage::MmpFailed => 2133571467,
            ExtEtMessage::MmpFsckOn => 2133571468,
            ExtEtMessage::MmpBadBlock => 2133571469,
            ExtEtMessage::MmpUnknownSeq => 2133571470,
            ExtEtMessage::MmpChangeAbort => 2133571471,
            ExtEtMessage::MmpOpenDirect => 2133571472,
            ExtEtMessage::BadDescSize => 2133571473,
            ExtEtMessage::InodeCsumInvalid => 2133571474,
            ExtEtMessage::InodeBitmapCsumInvalid => 2133571475,
            ExtEtMessage::ExtentCsumInvalid => 2133571476,
            ExtEtMessage::DirNoSpaceForCsum => 2133571477,
            ExtEtMessage::DirCsumInvalid => 2133571478,
            ExtEtMessage::ExtAttrCsumInvalid => 2133571479,
            ExtEtMessage::SbCsumInvalid => 2133571480,
            ExtEtMessage::UnknownCsum => 2133571481,
            ExtEtMessage::MmpCsumInvalid => 2133571482,
            ExtEtMessage::FileExists => 2133571483,
            ExtEtMessage::BlockBitmapCsumInvalid => 2133571484,
            ExtEtMessage::InlineDataCantIterate => 2133571485,
            ExtEtMessage::EaBadNameLen => 2133571486,
            ExtEtMessage::EaBadValueSize => 2133571487,
            ExtEtMessage::BadEaHash => 2133571488,
            ExtEtMessage::BadEAHeader => 2133571489,
            ExtEtMessage::EAKeyNotFound => 2133571490,
            ExtEtMessage::EANoSpace => 2133571491,
            ExtEtMessage::MissingEAFeature => 2133571492,
            ExtEtMessage::NoInlineData => 2133571493,
            ExtEtMessage::InlineDataNoBlock => 2133571494,
            ExtEtMessage::InlineDataNoSpace => 2133571495,
            ExtEtMessage::MagicEAHandle => 2133571496,
            ExtEtMessage::InodeIsGarbage => 2133571497,
            ExtEtMessage::EABadValueOffset => 2133571498,
            ExtEtMessage::JournalFlagsWrong => 2133571499,
            ExtEtMessage::UndoFileCorrupt => 2133571500,
            ExtEtMessage::UndoFileWrong => 2133571501,
            ExtEtMessage::FileSystemCorrupted => 2133571502,
            ExtEtMessage::BadCRC => 2133571503,
            ExtEtMessage::CorruptJournalSB => 2133571504,
            ExtEtMessage::InodeCorrupted => 2133571505,
            ExtEtMessage::EAInodeCorrupted => 2133571506,
            ExtEtMessage::NoGdesc => 2133571507,
            ExtEtMessage::FilsysCorrupted => 2133571508,
            ExtEtMessage::ExtentCycle => 2133571509,
            ExtEtMessage::ExternalJournalNoSupport => 2133571510,
        }
    }

    /// The status a given extended code stands for.
    pub open spec fn spec_of_code(code: i64) -> ExtEtMessage {
        if code == 2133571328 {
            ExtEtMessage::Base
        } else if code == 2133571329 {
            ExtEtMessage::MagicExt2fsFilsys
        } else if code == 2133571330 {
            ExtEtMessage::MagicBadblocksList
        } else if code == 2133571331 {
            ExtEtMessage::MagicBadblocksIterate
        } else if code == 2133571332 {
            ExtEtMessage::MagicInodeScan
        } else if code == 2133571333 {
            ExtEtMessage::MagicIoChannel
        } else if code == 2133571334 {
            ExtEtMessage::MagicUnixIoChannel
        } else if code == 2133571335 {
            ExtEtMessage::MagicIoManager
        } else if code == 2133571336 {
            ExtEtMessage::MagicBlockBitmap
        } else if code == 2133571337 {
            ExtEtMessage::MagicInodeBitmap
        } else if code == 2133571338 {
            ExtEtMessage::MagicGenericBitmap
        } else if code == 2133571339 {
            ExtEtMessage::MagicTestIoChannel
        } else if code == 2133571340 {
            ExtEtMessage::MagicDbList
        } else if code == 2133571341 {
            ExtEtMessage::MagicIcount
        } else if code == 2133571342 {
            ExtEtMessage::MagicPqIoChannel
        } else if code == 2133571343 {
            ExtEtMessage::MagicExt2File
        } else if code == 2133571344 {
            ExtEtMessage::MagicE2Image
        } else if code == 2133571345 {
            ExtEtMessage::MagicInodeIoChannel
        } else if code == 2133571346 {
            ExtEtMessage::MagicExtentHandle
        } else if code == 2133571347 {
            ExtEtMessage::BadMagic
        } else if code == 2133571348 {
            ExtEtMessage::RevTooHigh
        } else if code == 2133571349 {
            ExtEtMessage::RoFilsys
        } else if code == 2133571350 {
            ExtEtMessage::GdescRead
        } else if code == 2133571351 {
            ExtEtMessage::GdescWrite
        } else if code == 2133571352 {
            ExtEtMessage::GdescBadBlockMap
        } else if code == 2133571353 {
            ExtEtMessage::GdescBadInodeMap
        } else if code == 2133571354 {
            ExtEtMessage::GdescBadInodeTable
        } else if code == 2133571355 {
            ExtEtMessage::InodeBitmapWrite
        } else if code == 2133571356 {
            ExtEtMessage::InodeBitmapRead
        } else if code == 2133571357 {
            ExtEtMessage::BlockBitmapWrite
        } else if code == 2133571358 {
            ExtEtMessage::BlockBitmapRead
        } else if code == 2133571359 {
            ExtEtMessage::InodeTableWrite
        } else if code == 2133571360 {
            ExtEtMessage::InodeTableRead
        } else if code == 2133571361 {
            ExtEtMessage::NextInodeRead
        } else if code == 2133571362 {
            ExtEtMessage::UnexpectedBlockSize
        } else if code == 2133571363 {
            ExtEtMessage::DirCorrupted
        } else if code == 2133571364 {
            ExtEtMessage::ShortRead
        } else if code == 2133571365 {
            ExtEtMessage::ShortWrite
        } else if code == 2133571366 {
            ExtEtMessage::DirNoSpace
        } else if code == 2133571367 {
            ExtEtMessage::NoInodeBitmap
        } else if code == 2133571368 {
            ExtEtMessage::NoBlockBitmap
        } else if code == 2133571369 {
            ExtEtMessage::BadInodeNumber
        } else if code == 2133571370 {
            ExtEtMessage::BadBlockNumber
        } else if code == 2133571371 {
            ExtEtMessage::ExpandDirError
        } else if code == 2133571372 {
            ExtEtMessage::TooSmall
        } else if code == 2133571373 {
            ExtEtMessage::BadBlockMark
        } else if code == 2133571374 {
            ExtEtMessage::BadBlockUnmark
        } else if code == 2133571375 {
            ExtEtMessage::BadBlockTest
        } else if code == 2133571376 {
            ExtEtMessage::BadInodeMark
        } else if code == 2133571377 {
            ExtEtMessage::BadInodeUnmark
        } else if code == 2133571378 {
            ExtEtMessage::BadInodeTest
        } else if code == 2133571379 {
            ExtEtMessage::FudgeBlockBitmapEnd
        } else if code == 2133571380 {
            ExtEtMessage::FudgeInodeBitmapEnd
        } else if code == 2133571381 {
            ExtEtMessage::BadIndBlock
        } else if code == 2133571382 {
            ExtEtMessage::BadDindBlock
        } else if code == 2133571383 {
            ExtEtMessage::BadTindBlock
        } else if code == 2133571384 {
            ExtEtMessage::NeqBlockBitmap
        } else if code == 2133571385 {
            ExtEtMessage::NeqInodeBitmap
        } else if code == 2133571386 {
            ExtEtMessage::BadDeviceName
        } else if code == 2133571387 {
            ExtEtMessage::MissingInodeTable
        } else if code == 2133571388 {
            ExtEtMessage::CorruptSuperblock
        } else if code == 2133571389 {
            ExtEtMessage::BadGenericMark
        } else if code == 2133571390 {
            ExtEtMessage::BadGenericUnmark
        } else if code == 2133571391 {
            ExtEtMessage::BadGenericTest
        } else if code == 2133571392 {
            ExtEtMessage::SymlinkLoop
        } else if code == 2133571393 {
            ExtEtMessage::CallbackNotHandled
        } else if code == 2133571394 {
            ExtEtMessage::BadBlockInInodeTable
        } else if code == 2133571395 {
            ExtEtMessage::UnsupportedFeature
        } else if code == 2133571396 {
            ExtEtMessage::ReadOnlyUnsupportedFeature
        } else if code == 2133571397 {
            ExtEtMessage::LlseekFailed
        } else if code == 2133571398 {
            ExtEtMessage::NoMemory
        } else if code == 2133571399 {
            ExtEtMessage::InvalidArgument
        } else if code == 2133571400 {
            ExtEtMessage::BlockAllocFail
        } else if code == 2133571401 {
            ExtEtMessage::InodeAllocFail
        } else if code == 2133571402 {
            ExtEtMessage::NoDirectory
        } else if code == 2133571403 {
            ExtEtMessage::TooManyRefs
        } else if code == 2133571404 {
            ExtEtMessage::FileNotFound
        } else if code == 2133571405 {
            ExtEtMessage::FileReadOnly
        } else if code == 2133571406 {
            ExtEtMessage::DbNotFound
        } else if code == 2133571407 {
            ExtEtMessage::DirExists
        } else if code == 2133571408 {
            ExtEtMessage::Unimplemented
        } else if code == 2133571409 {
            ExtEtMessage::CancelRequested
        } else if code == 2133571410 {
            ExtEtMessage::FileTooBig
        } else if code == 2133571411 {
            ExtEtMessage::JournalNotBlock
        } else if code == 2133571412 {
            ExtEtMessage::NoJournalSuperblock
        } else if code == 2133571413 {
            ExtEtMessage::JournalTooSmall
        } else if code == 2133571414 {
            ExtEtMessage::UnsupportedJournalVersion
        } else if code == 2133571415 {
            ExtEtMessage::LoadExtJournal
        } else if code == 2133571416 {
            ExtEtMessage::NoJournal
        } else if code == 2133571417 {
            ExtEtMessage::DirhashUnsupp
        } else if code == 2133571418 {
            ExtEtMessage::BadEABlockNum
        } else if code == 2133571419 {
            ExtEtMessage::TooManyInodes
        } else if code == 2133571420 {
            ExtEtMessage::NotImageFile
        } else if code == 2133571421 {
            ExtEtMessage::ResGDTBlocks
        } else if code == 2133571422 {
            ExtEtMessage::ResizeInodeCorrupt
        } else if code == 2133571423 {
            ExtEtMessage::SetBmapNoInd
        } else if code == 2133571424 {
            ExtEtMessage::TDBSuccess
        } else if code == 2133571425 {
            ExtEtMessage::TDBErrCorrupt
        } else if code == 2133571426 {
            ExtEtMessage::TDBErrIO
        } else if code == 2133571427 {
            ExtEtMessage::TDBErrLock
        } else if code == 2133571428 {
            ExtEtMessage::TDBErrOOM
        } else if code == 2133571429 {
            ExtEtMessage::TDBErrExists
        } else if code == 2133571430 {
            ExtEtMessage::TDBErrNoLock
        } else if code == 2133571431 {
            ExtEtMessage::TDBErrEINVAL
        } else if code == 2133571432 {
            ExtEtMessage::TDBErrNoExist
        } else if code == 2133571433 {
            ExtEtMessage::TDBErrRDONLY
        } else if code == 2133571434 {
            ExtEtMessage::DBListEmpty
        } else if code == 2133571435 {
            ExtEtMessage::ROBlockIterate
        } else if code == 2133571436 {
            ExtEtMessage::MagicExtentPath
        } else if code == 2133571437 {
            ExtEtMessage::MagicGenericBitmap64
        } else if code == 2133571438 {
            ExtEtMessage::MagicBlockBitmap64
        } else if code == 2133571439 {
            ExtEtMessage::MagicInodeBitmap64
        } else if code == 2133571440 {
            ExtEtMessage::MagicReserved13
        } else if code == 2133571441 {
            ExtEtMessage::MagicReserved14
        } else if code == 2133571442 {
            ExtEtMessage::MagicReserved15
        } else if code == 2133571443 {
            ExtEtMessage::MagicReserved16
        } else if code == 2133571444 {
            ExtEtMessage::MagicReserved17
        } else if code == 2133571445 {
            ExtEtMessage::MagicReserved18
        } else if code == 2133571446 {
            ExtEtMessage::MagicReserved19
        } else if code == 2133571447 {
            ExtEtMessage::ExtentHeaderBad
        } else if code == 2133571448 {
            ExtEtMessage::ExtentIndexBad
        } else if code == 2133571449 {
            ExtEtMessage::ExtentLeafBad
        } else if code == 2133571450 {
            ExtEtMessage::ExtentNoSpace
        } else if code == 2133571451 {
            ExtEtMessage::InodeNotExtent
        } else if code == 2133571452 {
            ExtEtMessage::ExtentNoNext
        } else if code == 2133571453 {
            ExtEtMessage::ExtentNoPrev
        } else if code == 2133571454 {
            ExtEtMessage::ExtentNoUp
        } else if code == 2133571455 {
            ExtEtMessage::ExtentNoDown
        } else if code == 2133571456 {
            ExtEtMessage::NoCurrentNode
        } else if code == 2133571457 {
            ExtEtMessage::OpNotSupported
        } else if code == 2133571458 {
            ExtEtMessage::CantInsertExtent
        } else if code == 2133571459 {
            ExtEtMessage::CantSplitExtent
        } else if code == 2133571460 {
            ExtEtMessage::ExtentNotFound
        } else if code == 2133571461 {
            ExtEtMessage::ExtentNotSupported
        } else if code == 2133571462 {
            ExtEtMessage::ExtentInvalidLength
        } else if code == 2133571463 {
            ExtEtMessage::IoChannelNoSupport64
        } else if code == 2133571464 {
            ExtEtMessage::NoMtabFile
        } else if code == 2133571465 {
            ExtEtMessage::CantUseLegacyBitmaps
        } else if code == 2133571466 {
            ExtEtMessage::MmpMagicInvalid
        } else if code == 2133571467 {
            ExtEtMessage::MmpFailed
        } else if code == 2133571468 {
            ExtEtMessage::MmpFsckOn
        } else if code == 2133571469 {
            ExtEtMessage::MmpBadBlock
        } else if code == 2133571470 {
            ExtEtMessage::MmpUnknownSeq
        } else if code == 2133571471 {
            ExtEtMessage::MmpChangeAbort
        } else if code == 2133571472 {
            ExtEtMessage::MmpOpenDirect
        } else if code == 2133571473 {
            ExtEtMessage::BadDescSize
        } else if code == 2133571474 {
            ExtEtMessage::InodeCsumInvalid
        } else if code == 2133571475 {
            ExtEtMessage::InodeBitmapCsumInvalid
        } else if code == 2133571476 {
            ExtEtMessage::ExtentCsumInvalid
        } else if code == 2133571477 {
            ExtEtMessage::DirNoSpaceForCsum
        } else if code == 2133571478 {
            ExtEtMessage::DirCsumInvalid
        } else if code == 2133571479 {
            ExtEtMessage::ExtAttrCsumInvalid
        } else if code == 2133571480 {
            ExtEtMessage::SbCsumInvalid
        } else if code == 2133571481 {
            ExtEtMessage::UnknownCsum
        } else if code == 2133571482 {
            ExtEtMessage::MmpCsumInvalid
        } else if code == 2133571483 {
            ExtEtMessage::FileExists
        } else if code == 2133571484 {
            ExtEtMessage::BlockBitmapCsumInvalid
        } else if code == 2133571485 {
            ExtEtMessage::InlineDataCantIterate
        } else if code == 2133571486 {
            ExtEtMessage::EaBadNameLen
        } else if code == 2133571487 {
            ExtEtMessage::EaBadValueSize
        } else if code == 2133571488 {
            ExtEtMessage::BadEaHash
        } else if code == 2133571489 {
            ExtEtMessage::BadEAHeader
        } else if code == 2133571490 {
            ExtEtMessage::EAKeyNotFound
        } else if code == 2133571491 {
            ExtEtMessage::EANoSpace
        } else if code == 2133571492 {
            ExtEtMessage::MissingEAFeature
        } else if code == 2133571493 {
            ExtEtMessage::NoInlineData
        } else if code == 2133571494 {
            ExtEtMessage::InlineDataNoBlock
        } else if code == 2133571495 {
            ExtEtMessage::InlineDataNoSpace
        } else if code == 2133571496 {
            ExtEtMessage::MagicEAHandle
        } else if code == 2133571497 {
            ExtEtMessage::InodeIsGarbage
        } else if code == 2133571498 {
            ExtEtMessage::EABadValueOffset
        } else if code == 2133571499 {
            ExtEtMessage::JournalFlagsWrong
        } else if code == 2133571500 {
            ExtEtMessage::UndoFileCorrupt
        } else if code == 2133571501 {
            ExtEtMessage::UndoFileWrong
        } else if code == 2133571502 {
            ExtEtMessage::FileSystemCorrupted
        } else if code == 2133571503 {
            ExtEtMessage::BadCRC
        } else if code == 2133571504 {
            ExtEtMessage::CorruptJournalSB
        } else if code == 2133571505 {
            ExtEtMessage::InodeCorrupted
        } else if code == 2133571506 {
            ExtEtMessage::EAInodeCorrupted
        } else if code == 2133571507 {
            ExtEtMessage::NoGdesc
        } else if code == 2133571508 {
            ExtEtMessage::FilsysCorrupted
        } else if code == 2133571509 {
            ExtEtMessage::ExtentCycle
        } else {
            ExtEtMessage::ExternalJournalNoSupport
        }
    }

    /// Numeric code of this status.
    pub fn code(&self) -> (r: i64)
        ensures
            r == self.spec_code(),
    {
        match self {
            ExtEtMessage::Base => 2133571328,
            ExtEtMessage::MagicExt2fsFilsys => 2133571329,
            ExtEtMessage::MagicBadblocksList => 2133571330,
            ExtEtMessage::MagicBadblocksIterate => 2133571331,
            ExtEtMessage::MagicInodeScan => 2133571332,
            ExtEtMessage::MagicIoChannel => 2133571333,
            ExtEtMessage::MagicUnixIoChannel => 2133571334,
            ExtEtMessage::MagicIoManager => 2133571335,
            ExtEtMessage::MagicBlockBitmap => 2133571336,
            ExtEtMessage::MagicInodeBitmap => 2133571337,
            ExtEtMessage::MagicGenericBitmap => 2133571338,
            ExtEtMessage::MagicTestIoChannel => 2133571339,
            ExtEtMessage::MagicDbList => 2133571340,
            ExtEtMessage::MagicIcount => 2133571341,
            ExtEtMessage::MagicPqIoChannel => 2133571342,
            ExtEtMessage::MagicExt2File => 2133571343,
            ExtEtMessage::MagicE2Image => 2133571344,
            ExtEtMessage::MagicInodeIoChannel => 2133571345,
            ExtEtMessage::MagicExtentHandle => 2133571346,
            ExtEtMessage::BadMagic => 2133571347,
            ExtEtMessage::RevTooHigh => 2133571348,
            ExtEtMessage::RoFilsys => 2133571349,
            ExtEtMessage::GdescRead => 2133571350,
            ExtEtMessage::GdescWrite => 2133571351,
            ExtEtMessage::GdescBadBlockMap => 2133571352,
            ExtEtMessage::GdescBadInodeMap => 2133571353,
            ExtEtMessage::GdescBadInodeTable => 2133571354,
            ExtEtMessage::InodeBitmapWrite => 2133571355,
            ExtEtMessage::InodeBitmapRead => 2133571356,
            ExtEtMessage::BlockBitmapWrite => 2133571357,
            ExtEtMessage::BlockBitmapRead => 2133571358,
            ExtEtMessage::InodeTableWrite => 2133571359,
            ExtEtMessage::InodeTableRead => 2133571360,
            ExtEtMessage::NextInodeRead => 2133571361,
            ExtEtMessage::UnexpectedBlockSize => 2133571362,
            ExtEtMessage::DirCorrupted => 2133571363,
            ExtEtMessage::ShortRead => 2133571364,
            ExtEtMessage::ShortWrite => 2133571365,
            ExtEtMessage::DirNoSpace => 2133571366,
            ExtEtMessage::NoInodeBitmap => 2133571367,
            ExtEtMessage::NoBlockBitmap => 2133571368,
            ExtEtMessage::BadInodeNumber => 2133571369,
            ExtEtMessage::BadBlockNumber => 2133571370,
            ExtEtMessage::ExpandDirError => 2133571371,
            ExtEtMessage::TooSmall => 2133571372,
            ExtEtMessage::BadBlockMark => 2133571373,
            ExtEtMessage::BadBlockUnmark => 2133571374,
            ExtEtMessage::BadBlockTest => 2133571375,
            ExtEtMessage::BadInodeMark => 2133571376,
            ExtEtMessage::BadInodeUnmark => 2133571377,
            ExtEtMessage::BadInodeTest => 2133571378,
            ExtEtMessage::FudgeBlockBitmapEnd => 2133571379,
            ExtEtMessage::FudgeInodeBitmapEnd => 2133571380,
            ExtEtMessage::BadIndBlock => 2133571381,
            ExtEtMessage::BadDindBlock => 2133571382,
            ExtEtMessage::BadTindBlock => 2133571383,
            ExtEtMessage::NeqBlockBitmap => 2133571384,
            ExtEtMessage::NeqInodeBitmap => 2133571385,
            ExtEtMessage::BadDeviceName => 2133571386,
            ExtEtMessage::MissingInodeTable => 2133571387,
            ExtEtMessage::CorruptSuperblock => 2133571388,
            ExtEtMessage::BadGenericMark => 2133571389,
            ExtEtMessage::BadGenericUnmark => 2133571390,
            ExtEtMessage::BadGenericTest => 2133571391,
            ExtEtMessage::SymlinkLoop => 2133571392,
            ExtEtMessage::CallbackNotHandled => 2133571393,
            ExtEtMessage::BadBlockInInodeTable => 2133571394,
            ExtEtMessage::UnsupportedFeature => 2133571395,
            ExtEtMessage::ReadOnlyUnsupportedFeature => 2133571396,
            ExtEtMessage::LlseekFailed => 2133571397,
            ExtEtMessage::NoMemory => 2133571398,
            ExtEtMessage::InvalidArgument => 2133571399,
            ExtEtMessage::BlockAllocFail => 2133571400,
            ExtEtMessage::InodeAllocFail => 2133571401,
            ExtEtMessage::NoDirectory => 2133571402,
            ExtEtMessage::TooManyRefs => 2133571403,
            ExtEtMessage::FileNotFound => 2133571404,
            ExtEtMessage::FileReadOnly => 2133571405,
            ExtEtMessage::DbNotFound => 2133571406,
            ExtEtMessage::DirExists => 2133571407,
            ExtEtMessage::Unimplemented => 2133571408,
            ExtEtMessage::CancelRequested => 2133571409,
            ExtEtMessage::FileTooBig => 2133571410,
            ExtEtMessage::JournalNotBlock => 2133571411,
            ExtEtMessage::NoJournalSuperblock => 2133571412,
            ExtEtMessage::JournalTooSmall => 2133571413,
            ExtEtMessage::UnsupportedJournalVersion => 2133571414,
            ExtEtMessage::LoadExtJournal => 2133571415,
            ExtEtMessage::NoJournal => 2133571416,
            ExtEtMessage::DirhashUnsupp => 2133571417,
            ExtEtMessage::BadEABlockNum => 2133571418,
            ExtEtMessage::TooManyInodes => 2133571419,
            ExtEtMessage::NotImageFile => 2133571420,
            ExtEtMessage::ResGDTBlocks => 2133571421,
            ExtEtMessage::ResizeInodeCorrupt => 2133571422,
            ExtEtMessage::SetBmapNoInd => 2133571423,
            ExtEtMessage::TDBSuccess => 2133571424,
            ExtEtMessage::TDBErrCorrupt => 2133571425,
            ExtEtMessage::TDBErrIO => 2133571426,
            ExtEtMessage::TDBErrLock => 2133571427,
            ExtEtMessage::TDBErrOOM => 2133571428,
            ExtEtMessage::TDBErrExists => 2133571429,
            ExtEtMessage::TDBErrNoLock => 2133571430,
            ExtEtMessage::TDBErrEINVAL => 2133571431,
            ExtEtMessage::TDBErrNoExist => 2133571432,
            ExtEtMessage::TDBErrRDONLY => 2133571433,
            ExtEtMessage::DBListEmpty => 2133571434,
            ExtEtMessage::ROBlockIterate => 2133571435,
            ExtEtMessage::MagicExtentPath => 2133571436,
            ExtEtMessage::MagicGenericBitmap64 => 2133571437,
            ExtEtMessage::MagicBlockBitmap64 => 2133571438,
            ExtEtMessage::MagicInodeBitmap64 => 2133571439,
            ExtEtMessage::MagicReserved13 => 2133571440,
            ExtEtMessage::MagicReserved14 => 2133571441,
            ExtEtMessage::MagicReserved15 => 2133571442,
            ExtEtMessage::MagicReserved16 => 2133571443,
            ExtEtMessage::MagicReserved17 => 2133571444,
            ExtEtMessage::MagicReserved18 => 2133571445,
            ExtEtMessage::MagicReserved19 => 2133571446,
            ExtEtMessage::ExtentHeaderBad => 2133571447,
            ExtEtMessage::ExtentIndexBad => 2133571448,
            ExtEtMessage::ExtentLeafBad => 2133571449,
            ExtEtMessage::ExtentNoSpace => 2133571450,
            ExtEtMessage::InodeNotExtent => 2133571451,
            ExtEtMessage::ExtentNoNext => 2133571452,
            ExtEtMessage::ExtentNoPrev => 2133571453,
            ExtEtMessage::ExtentNoUp => 2133571454,
            ExtEtMessage::ExtentNoDown => 2133571455,
            ExtEtMessage::NoCurrentNode => 2133571456,
            ExtEtMessage::OpNotSupported => 2133571457,
            ExtEtMessage::CantInsertExtent => 2133571458,
            ExtEtMessage::CantSplitExtent => 2133571459,
            ExtEtMessage::ExtentNotFound => 2133571460,
            ExtEtMessage::ExtentNotSupported => 2133571461,
            ExtEtMessage::ExtentInvalidLength => 2133571462,
            ExtEtMessage::IoChannelNoSupport64 => 2133571463,
            ExtEtMessage::NoMtabFile => 2133571464,
            ExtEtMessage::CantUseLegacyBitmaps => 2133571465,
            ExtEtMessage::MmpMagicInvalid => 2133571466,
            ExtEtMessage::MmpFailed => 2133571467,
            ExtEtMessage::MmpFsckOn => 2133571468,
            ExtEtMessage::MmpBadBlock => 2133571469,
            ExtEtMessage::MmpUnknownSeq => 2133571470,
            ExtEtMessage::MmpChangeAbort => 2133571471,
            ExtEtMessage::MmpOpenDirect => 2133571472,
            ExtEtMessage::BadDescSize => 2133571473,
            ExtEtMessage::InodeCsumInvalid => 2133571474,
            ExtEtMessage::InodeBitmapCsumInvalid => 2133571475,
            ExtEtMessage::ExtentCsumInvalid => 2133571476,
            ExtEtMessage::DirNoSpaceForCsum => 2133571477,
            ExtEtMessage::DirCsumInvalid => 2133571478,
            ExtEtMessage::ExtAttrCsumInvalid => 2133571479,
            ExtEtMessage::SbCsumInvalid => 2133571480,
            ExtEtMessage::UnknownCsum => 2133571481,
            ExtEtMessage::MmpCsumInvalid => 2133571482,
            ExtEtMessage::FileExists => 2133571483,
            ExtEtMessage::BlockBitmapCsumInvalid => 2133571484,
            ExtEtMessage::InlineDataCantIterate => 2133571485,
            ExtEtMessage::EaBadNameLen => 2133571486,
            ExtEtMessage::EaBadValueSize => 2133571487,
            ExtEtMessage::BadEaHash => 2133571488,
            ExtEtMessage::BadEAHeader => 2133571489,
            ExtEtMessage::EAKeyNotFound => 2133571490,
            ExtEtMessage::EANoSpace => 2133571491,
            ExtEtMessage::MissingEAFeature => 2133571492,
            ExtEtMessage::NoInlineData => 2133571493,
            ExtEtMessage::InlineDataNoBlock => 2133571494,
            ExtEtMessage::InlineDataNoSpace => 2133571495,
            ExtEtMessage::MagicEAHandle => 2133571496,
            ExtEtMessage::InodeIsGarbage => 2133571497,
            ExtEtMessage::EABadValueOffset => 2133571498,
            ExtEtMessage::JournalFlagsWrong => 2133571499,
            ExtEtMessage::UndoFileCorrupt => 2133571500,
            ExtEtMessage::UndoFileWrong => 2133571501,
            ExtEtMessage::FileSystemCorrupted => 2133571502,
            ExtEtMessage::BadCRC => 2133571503,
            ExtEtMessage::CorruptJournalSB => 2133571504,
            ExtEtMessage::InodeCorrupted => 2133571505,
            ExtEtMessage::EAInodeCorrupted => 2133571506,
            ExtEtMessage::NoGdesc => 2133571507,
            ExtEtMessage::FilsysCorrupted => 2133571508,
            ExtEtMessage::ExtentCycle => 2133571509,
            ExtEtMessage::ExternalJournalNoSupport => 2133571510,
        }
    }

    /// The status for a code inside the extended block.
    pub fn from_code(code: i64) -> (r: ExtEtMessage)
        requires
            EXT_ET_BASE <= code < EXT_ET_BASE + EXT_ET_COUNT,
        ensures
            r == ExtEtMessage::spec_of_code(code),
            r.spec_code() == code,
    {
        match code {
            2133571328 => ExtEtMessage::Base,
            2133571329 => ExtEtMessage::MagicExt2fsFilsys,
            2133571330 => ExtEtMessage::MagicBadblocksList,
            2133571331 => ExtEtMessage::MagicBadblocksIterate,
            2133571332 => ExtEtMessage::MagicInodeScan,
            2133571333 => ExtEtMessage::MagicIoChannel,
            2133571334 => ExtEtMessage::MagicUnixIoChannel,
            2133571335 => ExtEtMessage::MagicIoManager,
            2133571336 => ExtEtMessage::MagicBlockBitmap,
            2133571337 => ExtEtMessage::MagicInodeBitmap,
            2133571338 => ExtEtMessage::MagicGenericBitmap,
            2133571339 => ExtEtMessage::MagicTestIoChannel,
            2133571340 => ExtEtMessage::MagicDbList,
            2133571341 => ExtEtMessage::MagicIcount,
            2133571342 => ExtEtMessage::MagicPqIoChannel,
            2133571343 => ExtEtMessage::MagicExt2File,
            2133571344 => ExtEtMessage::MagicE2Image,
            2133571345 => ExtEtMessage::MagicInodeIoChannel,
            2133571346 => ExtEtMessage::MagicExtentHandle,
            2133571347 => ExtEtMessage::BadMagic,
            2133571348 => ExtEtMessage::RevTooHigh,
            2133571349 => ExtEtMessage::RoFilsys,
            2133571350 => ExtEtMessage::GdescRead,
            2133571351 => ExtEtMessage::GdescWrite,
            2133571352 => ExtEtMessage::GdescBadBlockMap,
            2133571353 => ExtEtMessage::GdescBadInodeMap,
            2133571354 => ExtEtMessage::GdescBadInodeTable,
            2133571355 => ExtEtMessage::InodeBitmapWrite,
            2133571356 => ExtEtMessage::InodeBitmapRead,
            2133571357 => ExtEtMessage::BlockBitmapWrite,
            2133571358 => ExtEtMessage::BlockBitmapRead,
            2133571359 => ExtEtMessage::InodeTableWrite,
            2133571360 => ExtEtMessage::InodeTableRead,
            2133571361 => ExtEtMessage::NextInodeRead,
            2133571362 => ExtEtMessage::UnexpectedBlockSize,
            2133571363 => ExtEtMessage::DirCorrupted,
            2133571364 => ExtEtMessage::ShortRead,
            2133571365 => ExtEtMessage::ShortWrite,
            2133571366 => ExtEtMessage::DirNoSpace,
            2133571367 => ExtEtMessage::NoInodeBitmap,
            2133571368 => ExtEtMessage::NoBlockBitmap,
            2133571369 => ExtEtMessage::BadInodeNumber,
            2133571370 => ExtEtMessage::BadBlockNumber,
            2133571371 => ExtEtMessage::ExpandDirError,
            2133571372 => ExtEtMessage::TooSmall,
            2133571373 => ExtEtMessage::BadBlockMark,
            2133571374 => ExtEtMessage::BadBlockUnmark,
            2133571375 => ExtEtMessage::BadBlockTest,
            2133571376 => ExtEtMessage::BadInodeMark,
            2133571377 => ExtEtMessage::BadInodeUnmark,
            2133571378 => ExtEtMessage::BadInodeTest,
            2133571379 => ExtEtMessage::FudgeBlockBitmapEnd,
            2133571380 => ExtEtMessage::FudgeInodeBitmapEnd,
            2133571381 => ExtEtMessage::BadIndBlock,
            2133571382 => ExtEtMessage::BadDindBlock,
            2133571383 => ExtEtMessage::BadTindBlock,
            2133571384 => ExtEtMessage::NeqBlockBitmap,
            2133571385 => ExtEtMessage::NeqInodeBitmap,
            2133571386 => ExtEtMessage::BadDeviceName,
            2133571387 => ExtEtMessage::MissingInodeTable,
            2133571388 => ExtEtMessage::CorruptSuperblock,
            2133571389 => ExtEtMessage::BadGenericMark,
            2133571390 => ExtEtMessage::BadGenericUnmark,
            2133571391 => ExtEtMessage::BadGenericTest,
            2133571392 => ExtEtMessage::SymlinkLoop,
            2133571393 => ExtEtMessage::CallbackNotHandled,
            2133571394 => ExtEtMessage::BadBlockInInodeTable,
            2133571395 => ExtEtMessage::UnsupportedFeature,
            2133571396 => ExtEtMessage::ReadOnlyUnsupportedFeature,
            2133571397 => ExtEtMessage::LlseekFailed,
            2133571398 => ExtEtMessage::NoMemory,
            2133571399 => ExtEtMessage::InvalidArgument,
            2133571400 => ExtEtMessage::BlockAllocFail,
            2133571401 => ExtEtMessage::InodeAllocFail,
            2133571402 => ExtEtMessage::NoDirectory,
            2133571403 => ExtEtMessage::TooManyRefs,
            2133571404 => ExtEtMessage::FileNotFound,
            2133571405 => ExtEtMessage::FileReadOnly,
            2133571406 => ExtEtMessage::DbNotFound,
            2133571407 => ExtEtMessage::DirExists,
            2133571408 => ExtEtMessage::Unimplemented,
            2133571409 => ExtEtMessage::CancelRequested,
            2133571410 => ExtEtMessage::FileTooBig,
            2133571411 => ExtEtMessage::JournalNotBlock,
            2133571412 => ExtEtMessage::NoJournalSuperblock,
            2133571413 => ExtEtMessage::JournalTooSmall,
            2133571414 => ExtEtMessage::UnsupportedJournalVersion,
            2133571415 => ExtEtMessage::LoadExtJournal,
            2133571416 => ExtEtMessage::NoJournal,
            2133571417 => ExtEtMessage::DirhashUnsupp,
            2133571418 => ExtEtMessage::BadEABlockNum,
            2133571419 => ExtEtMessage::TooManyInodes,
            2133571420 => ExtEtMessage::NotImageFile,
            2133571421 => ExtEtMessage::ResGDTBlocks,
            2133571422 => ExtEtMessage::ResizeInodeCorrupt,
            2133571423 => ExtEtMessage::SetBmapNoInd,
            2133571424 => ExtEtMessage::TDBSuccess,
            2133571425 => ExtEtMessage::TDBErrCorrupt,
            2133571426 => ExtEtMessage::TDBErrIO,
            2133571427 => ExtEtMessage::TDBErrLock,
            2133571428 => ExtEtMessage::TDBErrOOM,
            2133571429 => ExtEtMessage::TDBErrExists,
            2133571430 => ExtEtMessage::TDBErrNoLock,
            2133571431 => ExtEtMessage::TDBErrEINVAL,
            2133571432 => ExtEtMessage::TDBErrNoExist,
            2133571433 => ExtEtMessage::TDBErrRDONLY,
            2133571434 => ExtEtMessage::DBListEmpty,
            2133571435 => ExtEtMessage::ROBlockIterate,
            2133571436 => ExtEtMessage::MagicExtentPath,
            2133571437 => ExtEtMessage::MagicGenericBitmap64,
            2133571438 => ExtEtMessage::MagicBlockBitmap64,
            2133571439 => ExtEtMessage::MagicInodeBitmap64,
            2133571440 => ExtEtMessage::MagicReserved13,
            2133571441 => ExtEtMessage::MagicReserved14,
            2133571442 => ExtEtMessage::MagicReserved15,
            2133571443 => ExtEtMessage::MagicReserved16,
            2133571444 => ExtEtMessage::MagicReserved17,
            2133571445 => ExtEtMessage::MagicReserved18,
            2133571446 => ExtEtMessage::MagicReserved19,
            2133571447 => ExtEtMessage::ExtentHeaderBad,
            2133571448 => ExtEtMessage::ExtentIndexBad,
            2133571449 => ExtEtMessage::ExtentLeafBad,
            2133571450 => ExtEtMessage::ExtentNoSpace,
            2133571451 => ExtEtMessage::InodeNotExtent,
            2133571452 => ExtEtMessage::ExtentNoNext,
            2133571453 => ExtEtMessage::ExtentNoPrev,
            2133571454 => ExtEtMessage::ExtentNoUp,
            2133571455 => ExtEtMessage::ExtentNoDown,
            2133571456 => ExtEtMessage::NoCurrentNode,
            2133571457 => ExtEtMessage::OpNotSupported,
            2133571458 => ExtEtMessage::CantInsertExtent,
            2133571459 => ExtEtMessage::CantSplitExtent,
            2133571460 => ExtEtMessage::ExtentNotFound,
            2133571461 => ExtEtMessage::ExtentNotSupported,
            2133571462 => ExtEtMessage::ExtentInvalidLength,
            2133571463 => ExtEtMessage::IoChannelNoSupport64,
            2133571464 => ExtEtMessage::NoMtabFile,
            2133571465 => ExtEtMessage::CantUseLegacyBitmaps,
            2133571466 => ExtEtMessage::MmpMagicInvalid,
            2133571467 => ExtEtMessage::MmpFailed,
            2133571468 => ExtEtMessage::MmpFsckOn,
            2133571469 => ExtEtMessage::MmpBadBlock,
            2133571470 => ExtEtMessage::MmpUnknownSeq,
            2133571471 => ExtEtMessage::MmpChangeAbort,
            2133571472 => ExtEtMessage::MmpOpenDirect,
            2133571473 => ExtEtMessage::BadDescSize,
            2133571474 => ExtEtMessage::InodeCsumInvalid,
            2133571475 => ExtEtMessage::InodeBitmapCsumInvalid,
            2133571476 => ExtEtMessage::ExtentCsumInvalid,
            2133571477 => ExtEtMessage::DirNoSpaceForCsum,
            2133571478 => ExtEtMessage::DirCsumInvalid,
            2133571479 => ExtEtMessage::ExtAttrCsumInvalid,
            2133571480 => ExtEtMessage::SbCsumInvalid,
            2133571481 => ExtEtMessage::UnknownCsum,
            2133571482 => ExtEtMessage::MmpCsumInvalid,
            2133571483 => ExtEtMessage::FileExists,
            2133571484 => ExtEtMessage::BlockBitmapCsumInvalid,
            2133571485 => ExtEtMessage::InlineDataCantIterate,
            2133571486 => ExtEtMessage::EaBadNameLen,
            2133571487 => ExtEtMessage::EaBadValueSize,
            2133571488 => ExtEtMessage::BadEaHash,
            2133571489 => ExtEtMessage::BadEAHeader,
            2133571490 => ExtEtMessage::EAKeyNotFound,
            2133571491 => ExtEtMessage::EANoSpace,
            2133571492 => ExtEtMessage::MissingEAFeature,
            2133571493 => ExtEtMessage::NoInlineData,
            2133571494 => ExtEtMessage::InlineDataNoBlock,
            2133571495 => ExtEtMessage::InlineDataNoSpace,
            2133571496 => ExtEtMessage::MagicEAHandle,
            2133571497 => ExtEtMessage::InodeIsGarbage,
            2133571498 => ExtEtMessage::EABadValueOffset,
            2133571499 => ExtEtMessage::JournalFlagsWrong,
            2133571500 => ExtEtMessage::UndoFileCorrupt,
            2133571501 => ExtEtMessage::UndoFileWrong,
            2133571502 => ExtEtMessage::FileSystemCorrupted,
            2133571503 => ExtEtMessage::BadCRC,
            2133571504 => ExtEtMessage::CorruptJournalSB,
            2133571505 => ExtEtMessage::InodeCorrupted,
            2133571506 => ExtEtMessage::EAInodeCorrupted,
            2133571507 => ExtEtMessage::NoGdesc,
            2133571508 => ExtEtMessage::FilsysCorrupted,
            2133571509 => ExtEtMessage::ExtentCycle,
            _ => ExtEtMessage::ExternalJournalNoSupport,
        }
    }

    /// Human-readable description of this status.
    pub fn message(&self) -> &'static str {
        match self {
            ExtEtMessage::Base => "EXT2FS Library version @E2FSPROGS_VERSION@",
            ExtEtMessage::MagicExt2fsFilsys => "Wrong magic number for ext2_filsys structure",
            ExtEtMessage::MagicBadblocksList => "Wrong magic number for badblocks_list structure",
            ExtEtMessage::MagicBadblocksIterate => "Wrong magic number for badblocks_iterate structure",
            ExtEtMessage::MagicInodeScan => "Wrong magic number for inode_scan structure",
            ExtEtMessage::MagicIoChannel => "Wrong magic number for io_channel structure",
            ExtEtMessage::MagicUnixIoChannel => "Wrong magic number for unix io_channel structure",
            ExtEtMessage::MagicIoManager => "Wrong magic number for io_manager structure",
            ExtEtMessage::MagicBlockBitmap => "Wrong magic number for block_bitmap structure",
            ExtEtMessage::MagicInodeBitmap => "Wrong magic number for inode_bitmap structure",
            ExtEtMessage::MagicGenericBitmap => "Wrong magic number for generic_bitmap structure",
            ExtEtMessage::MagicTestIoChannel => "Wrong magic number for test io_channel structure",
            ExtEtMessage::MagicDbList => "Wrong magic number for directory block list structure",
            ExtEtMessage::MagicIcount => "Wrong magic number for icount structure",
            ExtEtMessage::MagicPqIoChannel => "Wrong magic number for Powerquest io_channel structure",
            ExtEtMessage::MagicExt2File => "Wrong magic number for ext2 file structure",
            ExtEtMessage::MagicE2Image => "Wrong magic number for Ext2 Image Header",
            ExtEtMessage::MagicInodeIoChannel => "Wrong magic number for inode io_channel structure",
            ExtEtMessage::MagicExtentHandle => "Wrong magic number for ext4 extent handle",
            ExtEtMessage::BadMagic => "Bad magic number in super-block",
            ExtEtMessage::RevTooHigh => "Filesystem revision too high",
            ExtEtMessage::RoFilsys => "Attempt to write to filesystem opened read-only",
            ExtEtMessage::GdescRead => "Can't read group descriptors",
            ExtEtMessage::GdescWrite => "Can't write group descriptors",
            ExtEtMessage::GdescBadBlockMap => "Corrupt group descriptor: bad block for block bitmap",
            ExtEtMessage::GdescBadInodeMap => "Corrupt group descriptor: bad block for inode bitmap",
            ExtEtMessage::GdescBadInodeTable => "Corrupt group descriptor: bad block for inode table",
            ExtEtMessage::InodeBitmapWrite => "Can't write an inode bitmap",
            ExtEtMessage::InodeBitmapRead => "Can't read an inode bitmap",
            ExtEtMessage::BlockBitmapWrite => "Can't write a block bitmap",
            ExtEtMessage::BlockBitmapRead => "Can't read a block bitmap",
            ExtEtMessage::InodeTableWrite => "Can't write an inode table",
            ExtEtMessage::InodeTableRead => "Can't read an inode table",
            ExtEtMessage::NextInodeRead => "Can't read next inode",
            ExtEtMessage::UnexpectedBlockSize => "Filesystem has unexpected block size",
            ExtEtMessage::DirCorrupted => "EXT2 directory corrupted",
            ExtEtMessage::ShortRead => "Attempt to read block from filesystem resulted in short read",
            ExtEtMessage::ShortWrite => "Attempt to write block to filesystem resulted in short write",
            ExtEtMessage::DirNoSpace => "No free space in the directory",
            ExtEtMessage::NoInodeBitmap => "Inode bitmap not loaded",
            ExtEtMessage::NoBlockBitmap => "Block bitmap not loaded",
            ExtEtMessage::BadInodeNumber => "Illegal inode number",
            ExtEtMessage::BadBlockNumber => "Illegal block number",
            ExtEtMessage::ExpandDirError => "Internal error in ext2fs_expand_dir",
            ExtEtMessage::TooSmall => "Not enough space to build proposed filesystem",
            ExtEtMessage::BadBlockMark => "Illegal block number passed to ext2fs_mark_block_bitmap",
            ExtEtMessage::BadBlockUnmark => "Illegal block number passed to ext2fs_unmark_block_bitmap",
            ExtEtMessage::BadBlockTest => "Illegal block number passed to ext2fs_test_block_bitmap",
            ExtEtMessage::BadInodeMark => "Illegal inode number passed to ext2fs_mark_inode_bitmap",
            ExtEtMessage::BadInodeUnmark => "Illegal inode number passed to ext2fs_unmark_inode_bitmap",
            ExtEtMessage::BadInodeTest => "Illegal inode number passed to ext2fs_test_inode_bitmap",
            ExtEtMessage::FudgeBlockBitmapEnd => "Attempt to fudge end of block bitmap past the real end",
            ExtEtMessage::FudgeInodeBitmapEnd => "Attempt to fudge end of inode bitmap past the real end",
            ExtEtMessage::BadIndBlock => "Illegal indirect block found",
            ExtEtMessage::BadDindBlock => "Illegal doubly indirect block found",
            ExtEtMessage::BadTindBlock => "Illegal triply indirect block found",
            ExtEtMessage::NeqBlockBitmap => "Block bitmaps are not the same",
            ExtEtMessage::NeqInodeBitmap => "Inode bitmaps are not the same",
            ExtEtMessage::BadDeviceName => "Illegal or malformed device name",
            ExtEtMessage::MissingInodeTable => "A block group is missing an inode table",
            ExtEtMessage::CorruptSuperblock => "The ext2 superblock is corrupt",
            ExtEtMessage::BadGenericMark => "Illegal generic bit number passed to ext2fs_mark_generic_bitmap",
            ExtEtMessage::BadGenericUnmark => "Illegal generic bit number passed to ext2fs_unmark_generic_bitmap",
            ExtEtMessage::BadGenericTest => "Illegal generic bit number passed to ext2fs_test_generic_bitmap",
            ExtEtMessage::SymlinkLoop => "Too many symbolic links encountered.",
            ExtEtMessage::CallbackNotHandled => "The callback function will not handle this case",
            ExtEtMessage::BadBlockInInodeTable => "The inode is from a bad block in the inode table",
            ExtEtMessage::UnsupportedFeature => "Filesystem has unsupported feature(s)",
            ExtEtMessage::ReadOnlyUnsupportedFeature => "Filesystem has unsupported read-only feature(s)",
            ExtEtMessage::LlseekFailed => "IO Channel failed to seek on read or write",
            ExtEtMessage::NoMemory => "Memory allocation failed",
            ExtEtMessage::InvalidArgument => "Invalid argument passed to ext2 library",
            ExtEtMessage::BlockAllocFail => "Could not allocate block in ext2 filesystem",
            ExtEtMessage::InodeAllocFail => "Could not allocate inode in ext2 filesystem",
            ExtEtMessage::NoDirectory => "Ext2 inode is not a directory",
            ExtEtMessage::TooManyRefs => "Too many references in table",
            ExtEtMessage::FileNotFound => "File not found by ext2_lookup",
            ExtEtMessage::FileReadOnly => "File open read-only",
            ExtEtMessage::DbNotFound => "Ext2 directory block not found",
            ExtEtMessage::DirExists => "Ext2 directory already exists",
            ExtEtMessage::Unimplemented => "Unimplemented ext2 library function",
            ExtEtMessage::CancelRequested => "User cancel requested",
            ExtEtMessage::FileTooBig => "Ext2 file too big",
            ExtEtMessage::JournalNotBlock => "Supplied journal device not a block device",
            ExtEtMessage::NoJournalSuperblock => "Journal superblock not found",
            ExtEtMessage::JournalTooSmall => "Journal must be at least 1024 blocks",
            ExtEtMessage::UnsupportedJournalVersion => "Unsupported journal version",
            ExtEtMessage::LoadExtJournal => "Error loading external journal",
            ExtEtMessage::NoJournal => "Journal not found",
            ExtEtMessage::DirhashUnsupp => "Directory hash unsupported",
            ExtEtMessage::BadEABlockNum => "Illegal extended attribute block number",
            ExtEtMessage::TooManyInodes => "Cannot create filesystem with requested number of inodes",
            ExtEtMessage::NotImageFile => "E2image snapshot not in use",
            ExtEtMessage::ResGDTBlocks => "Too many reserved group descriptor blocks",
            ExtEtMessage::ResizeInodeCorrupt => "Resize inode is corrupt",
            ExtEtMessage::SetBmapNoInd => "Tried to set block bmap with missing indirect block",
            ExtEtMessage::TDBSuccess => "TDB: Success",
            ExtEtMessage::TDBErrCorrupt => "TDB: Corrupt database",
            ExtEtMessage::TDBErrIO => "TDB: IO Error",
            ExtEtMessage::TDBErrLock => "TDB: Locking error",
            ExtEtMessage::TDBErrOOM => "TDB: Out of memory",
            ExtEtMessage::TDBErrExists => "TDB: Record exists",
            ExtEtMessage::TDBErrNoLock => "TDB: Lock exists on other keys",
            ExtEtMessage::TDBErrEINVAL => "TDB: Invalid parameter",
            ExtEtMessage::TDBErrNoExist => "TDB: Record does not exist",
            ExtEtMessage::TDBErrRDONLY => "TDB: Write not permitted",
            ExtEtMessage::DBListEmpty => "Ext2fs directory block list is empty",
            ExtEtMessage::ROBlockIterate => "Attempt to modify a block mapping via a read-only block iterator",
            ExtEtMessage::MagicExtentPath => "Wrong magic number for ext4 extent saved path",
            ExtEtMessage::MagicGenericBitmap64 => "Wrong magic number for 64-bit generic bitmap",
            ExtEtMessage::MagicBlockBitmap64 => "Wrong magic number for 64-bit block bitmap",
            ExtEtMessage::MagicInodeBitmap64 => "Wrong magic number for 64-bit inode bitmap",
            ExtEtMessage::MagicReserved13 => "Wrong magic number --- RESERVED_13",
            ExtEtMessage::MagicReserved14 => "Wrong magic number --- RESERVED_14",
            ExtEtMessage::MagicReserved15 => "Wrong magic number --- RESERVED_15",
            ExtEtMessage::MagicReserved16 => "Wrong magic number --- RESERVED_16",
            ExtEtMessage::MagicReserved17 => "Wrong magic number --- RESERVED_17",
            ExtEtMessage::MagicReserved18 => "Wrong magic number --- RESERVED_18",
            ExtEtMessage::MagicReserved19 => "Wrong magic number --- RESERVED_19",
            ExtEtMessage::ExtentHeaderBad => "Corrupt extent header",
            ExtEtMessage::ExtentIndexBad => "Corrupt extent index",
            ExtEtMessage::ExtentLeafBad => "Corrupt extent",
            ExtEtMessage::ExtentNoSpace => "No free space in extent map",
            ExtEtMessage::InodeNotExtent => "Inode does not use extents",
            ExtEtMessage::ExtentNoNext => "No 'next' extent",
            ExtEtMessage::ExtentNoPrev => "No 'previous' extent",
            ExtEtMessage::ExtentNoUp => "No 'up' extent",
            ExtEtMessage::ExtentNoDown => "No 'down' extent",
            ExtEtMessage::NoCurrentNode => "No current node",
            ExtEtMessage::OpNotSupported => "Ext2fs operation not supported",
            ExtEtMessage::CantInsertExtent => "No room to insert extent in node",
            ExtEtMessage::CantSplitExtent => "Splitting would result in empty node",
            ExtEtMessage::ExtentNotFound => "Extent not found",
            ExtEtMessage::ExtentNotSupported => "Operation not supported for inodes containing extents",
            ExtEtMessage::ExtentInvalidLength => "Extent length is invalid",
            ExtEtMessage::IoChannelNoSupport64 => "I/O Channel does not support 64-bit block numbers",
            ExtEtMessage::NoMtabFile => "Can't check if filesystem is mounted due to missing mtab file",
            ExtEtMessage::CantUseLegacyBitmaps => "Filesystem too large to use legacy bitmaps",
            ExtEtMessage::MmpMagicInvalid => "MMP: invalid magic number",
            ExtEtMessage::MmpFailed => "MMP: device currently active",
            ExtEtMessage::MmpFsckOn => "MMP: e2fsck being run",
            ExtEtMessage::MmpBadBlock => "MMP: block number beyond filesystem range",
            ExtEtMessage::MmpUnknownSeq => "MMP: undergoing an unknown operation",
            ExtEtMessage::MmpChangeAbort => "MMP: filesystem still in use",
            ExtEtMessage::MmpOpenDirect => "MMP: open with O_DIRECT failed",
            ExtEtMessage::BadDescSize => "Block group descriptor size incorrect",
            ExtEtMessage::InodeCsumInvalid => "Inode checksum does not match inode",
            ExtEtMessage::InodeBitmapCsumInvalid => "Inode bitmap checksum does not match bitmap",
            ExtEtMessage::ExtentCsumInvalid => "Extent block checksum does not match extent block",
            ExtEtMessage::DirNoSpaceForCsum => "Directory block does not have space for checksum",
            ExtEtMessage::DirCsumInvalid => "Directory block checksum does not match directory block",
            ExtEtMessage::ExtAttrCsumInvalid => "Extended attribute block checksum does not match block",
            ExtEtMessage::SbCsumInvalid => "Superblock checksum does not match superblock",
            ExtEtMessage::UnknownCsum => "Unknown checksum algorithm",
            ExtEtMessage::MmpCsumInvalid => "MMP block checksum does not match",
            ExtEtMessage::FileExists => "Ext2 file already exists",
            ExtEtMessage::BlockBitmapCsumInvalid => "Block bitmap checksum does not match bitmap",
            ExtEtMessage::InlineDataCantIterate => "Cannot iterate data blocks of an inode containing inline data",
            ExtEtMessage::EaBadNameLen => "Extended attribute has an invalid name length",
            ExtEtMessage::EaBadValueSize => "Extended attribute has an invalid value length",
            ExtEtMessage::BadEaHash => "Extended attribute has an incorrect hash",
            ExtEtMessage::BadEAHeader => "Extended attribute block has a bad header",
            ExtEtMessage::EAKeyNotFound => "Extended attribute key not found",
            ExtEtMessage::EANoSpace => "Insufficient space to store extended attribute data",
            ExtEtMessage::MissingEAFeature => "Filesystem is missing ext_attr or inline_data feature",
            ExtEtMessage::NoInlineData => "Inode doesn't have inline data",
            ExtEtMessage::InlineDataNoBlock => "No block for an inode with inline data",
            ExtEtMessage::InlineDataNoSpace => "No free space in inline data",
            ExtEtMessage::MagicEAHandle => "Wrong magic number for extended attribute structure",
            ExtEtMessage::InodeIsGarbage => "Inode seems to contain garbage",
            ExtEtMessage::EABadValueOffset => "Extended attribute has an invalid value offset",
            ExtEtMessage::JournalFlagsWrong => "Journal flags inconsistent",
            ExtEtMessage::UndoFileCorrupt => "Undo file corrupt",
            ExtEtMessage::UndoFileWrong => "Wrong undo file for this filesystem",
            ExtEtMessage::FileSystemCorrupted => "File system is corrupted",
            ExtEtMessage::BadCRC => "Bad CRC detected in file system",
            ExtEtMessage::CorruptJournalSB => "The journal superblock is corrupt",
            ExtEtMessage::InodeCorrupted => "Inode is corrupted",
            ExtEtMessage::EAInodeCorrupted => "Inode containing extended attribute value is corrupted",
            ExtEtMessage::NoGdesc => "Group descriptors not loaded",
            ExtEtMessage::FilsysCorrupted => "The internal ext2_filsys data structure appears to be corrupted",
            ExtEtMessage::ExtentCycle => "Found cyclic loop in extent tree",
            ExtEtMessage::ExternalJournalNoSupport => "Operation not supported on an external journal",
        }
    }
}

/// An errno-style status (codes 0-133).  Two pairs of names share a code
/// on purpose: `EWOULDBLOCK` and `EAGAIN` both carry 11, `EDEADLOCK` and
/// `EDEADLK` both carry 35 (`ENOTSUP` likewise shares 95 with
/// `EOPNOTSUPP`); decoding a shared code yields the canonical name.
#[derive(Clone, Copy, Debug, PartialEq, Eq, Structural)]
pub enum ExtError {
    EPERM,
    ENOENT,
    ESRCH,
    EINTR,
    EIO,
    ENXIO,
    E2BIG,
    ENOEXEC,
    EBADF,
    ECHILD,
    EAGAIN,
    ENOMEM,
    EACCES,
    EFAULT,
    ENOTBLK,
    EBUSY,
    EEXIST,
    EXDEV,
    ENODEV,
    ENOTDIR,
    EISDIR,
    EINVAL,
    ENFILE,
    EMFILE,
    ENOTTY,
    ETXTBSY,
    EFBIG,
    ENOSPC,
    ESPIPE,
    EROFS,
    EMLINK,
    EPIPE,
    EDOM,
    ERANGE,
    EDEADLK,
    ENAMETOOLONG,
    ENOLCK,
    ENOSYS,
    ENOTEMPTY,
    ELOOP,
    EWOULDBLOCK,
    ENOMSG,
    EIDRM,
    ECHRNG,
    EL2NSYNC,
    EL3HLT,
    EL3RST,
    ELNRNG,
    EUNATCH,
    ENOCSI,
    EL2HLT,
    EBADE,
    EBADR,
    EXFULL,
    ENOANO,
    EBADRQC,
    EBADSLT,
    EDEADLOCK,
    EBFONT,
    ENOSTR,
    ENODATA,
    ETIME,
    ENOSR,
    ENONET,
    ENOPKG,
    EREMOTE,
    ENOLINK,
    EADV,
    ESRMNT,
    ECOMM,
    EPROTO,
    EMULTIHOP,
    EDOTDOT,
    EBADMSG,
    EOVERFLOW,
    ENOTUNIQ,
    EBADFD,
    EREMCHG,
    ELIBACC,
    ELIBBAD,
    ELIBSCN,
    ELIBMAX,
    ELIBEXEC,
    EILSEQ,
    ERESTART,
    ESTRPIPE,
    EUSERS,
    ENOTSOCK,
    EDESTADDRREQ,
    EMSGSIZE,
    EPROTOTYPE,
    ENOPROTOOPT,
    EPROTONOSUPPORT,
    ESOCKTNOSUPPORT,
    EOPNOTSUPP,
    EPFNOSUPPORT,
    EAFNOSUPPORT,
    EADDRINUSE,
    EADDRNOTAVAIL,
    ENETDOWN,
    ENETUNREACH,
    ENETRESET,
    ECONNABORTED,
    ECONNRESET,
    ENOBUFS,
    EISCONN,
    ENOTCONN,
    ESHUTDOWN,
    ETOOMANYREFS,
    ETIMEDOUT,
    ECONNREFUSED,
    EHOSTDOWN,
    EHOSTUNREACH,
    EALREADY,
    EINPROGRESS,
    ESTALE,
    EUCLEAN,
    ENOTNAM,
    ENAVAIL,
    EISNAM,
    EREMOTEIO,
    EDQUOT,
    ENOMEDIUM,
    EMEDIUMTYPE,
    ECANCELED,
    ENOKEY,
    EKEYEXPIRED,
    EKEYREVOKED,
    EKEYREJECTED,
    EOWNERDEAD,
    ENOTRECOVERABLE,
    ERFKILL,
    EHWPOISON,
    ENOTSUP,
    Unknown(u32),
}

impl ExtError {
    /// The numeric errno code of this error.
    pub open spec fn spec_code(self) -> u32 {
        match self {
            ExtError::EPERM => 1,
            ExtError::ENOENT => 2,
            ExtError::ESRCH => 3,
            ExtError::EINTR => 4,
            ExtError::EIO => 5,
            ExtError::ENXIO => 6,
            ExtError::E2BIG => 7,
            ExtError::ENOEXEC => 8,
            ExtError::EBADF => 9,
            ExtError::ECHILD => 10,
            ExtError::EAGAIN => 11,
            ExtError::ENOMEM => 12,
            ExtError::EACCES => 13,
            ExtError::EFAULT => 14,
            ExtError::ENOTBLK => 15,
            ExtError::EBUSY => 16,
            ExtError::EEXIST => 17,
            ExtError::EXDEV => 18,
            ExtError::ENODEV => 19,
            ExtError::ENOTDIR => 20,
            ExtError::EISDIR => 21,
            ExtError::EINVAL => 22,
            ExtError::ENFILE => 23,
            ExtError::EMFILE => 24,
            ExtError::ENOTTY => 25,
            ExtError::ETXTBSY => 26,
            ExtError::EFBIG => 27,
            ExtError::ENOSPC => 28,
            ExtError::ESPIPE => 29,
            ExtError::EROFS => 30,
            ExtError::EMLINK => 31,
            ExtError::EPIPE => 32,
            ExtError::EDOM => 33,
            ExtError::ERANGE => 34,
            ExtError::EDEADLK => 35,
            ExtError::ENAMETOOLONG => 36,
            ExtError::ENOLCK => 37,
            ExtError::ENOSYS => 38,
            ExtError::ENOTEMPTY => 39,
            ExtError::ELOOP => 40,
            ExtError::EWOULDBLOCK => 11,
            ExtError::ENOMSG => 42,
            ExtError::EIDRM => 43,
            ExtError::ECHRNG => 44,
            ExtError::EL2NSYNC => 45,
            ExtError::EL3HLT => 46,
            ExtError::EL3RST => 47,
            ExtError::ELNRNG => 48,
            ExtError::EUNATCH => 49,
            ExtError::ENOCSI => 50,
            ExtError::EL2HLT => 51,
            ExtError::EBADE => 52,
            ExtError::EBADR => 53,
            ExtError::EXFULL => 54,
            ExtError::ENOANO => 55,
            ExtError::EBADRQC => 56,
            ExtError::EBADSLT => 57,
            ExtError::EDEADLOCK => 35,
            ExtError::EBFONT => 59,
            ExtError::ENOSTR => 60,
            ExtError::ENODATA => 61,
            ExtError::ETIME => 62,
            ExtError::ENOSR => 63,
            ExtError::ENONET => 64,
            ExtError::ENOPKG => 65,
            ExtError::EREMOTE => 66,
            ExtError::ENOLINK => 67,
            ExtError::EADV => 68,
            ExtError::ESRMNT => 69,
            ExtError::ECOMM => 70,
            ExtError::EPROTO => 71,
            ExtError::EMULTIHOP => 72,
            ExtError::EDOTDOT => 73,
            ExtError::EBADMSG => 74,
            ExtError::EOVERFLOW => 75,
            ExtError::ENOTUNIQ => 76,
            ExtError::EBADFD => 77,
            ExtError::EREMCHG => 78,
            ExtError::ELIBACC => 79,
            ExtError::ELIBBAD => 80,
            ExtError::ELIBSCN => 81,
            ExtError::ELIBMAX => 82,
            ExtError::ELIBEXEC => 83,
            ExtError::EILSEQ => 84,
            ExtError::ERESTART => 85,
            ExtError::ESTRPIPE => 86,
            ExtError::EUSERS => 87,
            ExtError::ENOTSOCK => 88,
            ExtError::EDESTADDRREQ => 89,
            ExtError::EMSGSIZE => 90,
            ExtError::EPROTOTYPE => 91,
            ExtError::ENOPROTOOPT => 92,
            ExtError::EPROTONOSUPPORT => 93,
            ExtError::ESOCKTNOSUPPORT => 94,
            ExtError::EOPNOTSUPP => 95,
            ExtError::EPFNOSUPPORT => 96,
            ExtError::EAFNOSUPPORT => 97,
            ExtError::EADDRINUSE => 98,
            ExtError::EADDRNOTAVAIL => 99,
            ExtError::ENETDOWN => 100,
            ExtError::ENETUNREACH => 101,
            ExtError::ENETRESET => 102,
            ExtError::ECONNABORTED => 103,
            ExtError::ECONNRESET => 104,
            ExtError::ENOBUFS => 105,
            ExtError::EISCONN => 106,
            ExtError::ENOTCONN => 107,
            ExtError::ESHUTDOWN => 108,
            ExtError::ETOOMANYREFS => 109,
            ExtError::ETIMEDOUT => 110,
            ExtError::ECONNREFUSED => 111,
            ExtError::EHOSTDOWN => 112,
            ExtError::EHOSTUNREACH => 113,
            ExtError::EALREADY => 114,
            ExtError::EINPROGRESS => 115,
            ExtError::ESTALE => 116,
            ExtError::EUCLEAN => 117,
            ExtError::ENOTNAM => 118,
            ExtError::ENAVAIL => 119,
            ExtError::EISNAM => 120,
            ExtError::EREMOTEIO => 121,
            ExtError::EDQUOT => 122,
            ExtError::ENOMEDIUM => 123,
            ExtError::EMEDIUMTYPE => 124,
            ExtError::ECANCELED => 125,
            ExtError::ENOKEY => 126,
            ExtError::EKEYEXPIRED => 127,
            ExtError::EKEYREVOKED => 128,
            ExtError::EKEYREJECTED => 129,
            ExtError::EOWNERDEAD => 130,
            ExtError::ENOTRECOVERABLE => 131,
            ExtError::ERFKILL => 132,
            ExtError::EHWPOISON => 133,
            ExtError::ENOTSUP => 95,
            ExtError::Unknown(code) => code,
        }
    }

    /// The error a given errno code decodes to; codes outside the table
    /// are kept as `Unknown`.
    pub open spec fn spec_of_code(code: u32) -> ExtError {
        if code == 1 {
            ExtError::EPERM
        } else if code == 2 {
            ExtError::ENOENT
        } else if code == 3 {
            ExtError::ESRCH
        } else if code == 4 {
            ExtError::EINTR
        } else if code == 5 {
            ExtError::EIO
        } else if code == 6 {
            ExtError::ENXIO
        } else if code == 7 {
            ExtError::E2BIG
        } else if code == 8 {
            ExtError::ENOEXEC
        } else if code == 9 {
            ExtError::EBADF
        } else if code == 10 {
            ExtError::ECHILD
        } else if code == 11 {
            ExtError::EAGAIN
        } else if code == 12 {
            ExtError::ENOMEM
        } else if code == 13 {
            ExtError::EACCES
        } else if code == 14 {
            ExtError::EFAULT
        } else if code == 15 {
            ExtError::ENOTBLK
        } else if code == 16 {
            ExtError::EBUSY
        } else if code == 17 {
            ExtError::EEXIST
        } else if code == 18 {
            ExtError::EXDEV
        } else if code == 19 {
            ExtError::ENODEV
        } else if code == 20 {
            ExtError::ENOTDIR
        } else if code == 21 {
            ExtError::EISDIR
        } else if code == 22 {
            ExtError::EINVAL
        } else if code == 23 {
            ExtError::ENFILE
        } else if code == 24 {
            ExtError::EMFILE
        } else if code == 25 {
            ExtError::ENOTTY
        } else if code == 26 {
            ExtError::ETXTBSY
        } else if code == 27 {
            ExtError::EFBIG
        } else if code == 28 {
            ExtError::ENOSPC
        } else if code == 29 {
            ExtError::ESPIPE
        } else if code == 30 {
            ExtError::EROFS
        } else if code == 31 {
            ExtError::EMLINK
        } else if code == 32 {
            ExtError::EPIPE
        } else if code == 33 {
            ExtError::EDOM
        } else if code == 34 {
            ExtError::ERANGE
        } else if code == 35 {
            ExtError::EDEADLK
        } else if code == 36 {
            ExtError::ENAMETOOLONG
        } else if code == 37 {
            ExtError::ENOLCK
        } else if code == 38 {
            ExtError::ENOSYS
        } else if code == 39 {
            ExtError::ENOTEMPTY
        } else if code == 40 {
            ExtError::ELOOP
        } else if code == 42 {
            ExtError::ENOMSG
        } else if code == 43 {
            ExtError::EIDRM
        } else if code == 44 {
            ExtError::ECHRNG
        } else if code == 45 {
            ExtError::EL2NSYNC
        } else if code == 46 {
            ExtError::EL3HLT
        } else if code == 47 {
            ExtError::EL3RST
        } else if code == 48 {
            ExtError::ELNRNG
        } else if code == 49 {
            ExtError::EUNATCH
        } else if code == 50 {
            ExtError::ENOCSI
        } else if code == 51 {
            ExtError::EL2HLT
        } else if code == 52 {
            ExtError::EBADE
        } else if code == 53 {
            ExtError::EBADR
        } else if code == 54 {
            ExtError::EXFULL
        } else if code == 55 {
            ExtError::ENOANO
        } else if code == 56 {
            ExtError::EBADRQC
        } else if code == 57 {
            ExtError::EBADSLT
        } else if code == 59 {
            ExtError::EBFONT
        } else if code == 60 {
            ExtError::ENOSTR
        } else if code == 61 {
            ExtError::ENODATA
        } else if code == 62 {
            ExtError::ETIME
        } else if code == 63 {
            ExtError::ENOSR
        } else if code == 64 {
            ExtError::ENONET
        } else if code == 65 {
            ExtError::ENOPKG
        } else if code == 66 {
            ExtError::EREMOTE
        } else if code == 67 {
            ExtError::ENOLINK
        } else if code == 68 {
            ExtError::EADV
        } else if code == 69 {
            ExtError::ESRMNT
        } else if code == 70 {
            ExtError::ECOMM
        } else if code == 71 {
            ExtError::EPROTO
        } else if code == 72 {
            ExtError::EMULTIHOP
        } else if code == 73 {
            ExtError::EDOTDOT
        } else if code == 74 {
            ExtError::EBADMSG
        } else if code == 75 {
            ExtError::EOVERFLOW
        } else if code == 76 {
            ExtError::ENOTUNIQ
        } else if code == 77 {
            ExtError::EBADFD
        } else if code == 78 {
            ExtError::EREMCHG
        } else if code == 79 {
            ExtError::ELIBACC
        } else if code == 80 {
            ExtError::ELIBBAD
        } else if code == 81 {
            ExtError::ELIBSCN
        } else if code == 82 {
            ExtError::ELIBMAX
        } else if code == 83 {
            ExtError::ELIBEXEC
        } else if code == 84 {
            ExtError::EILSEQ
        } else if code == 85 {
            ExtError::ERESTART
        } else if code == 86 {
            ExtError::ESTRPIPE
        } else if code == 87 {
            ExtError::EUSERS
        } else if code == 88 {
            ExtError::ENOTSOCK
        } else if code == 89 {
            ExtError::EDESTADDRREQ
        } else if code == 90 {
            ExtError::EMSGSIZE
        } else if code == 91 {
            ExtError::EPROTOTYPE
        } else if code == 92 {
            ExtError::ENOPROTOOPT
        } else if code == 93 {
            ExtError::EPROTONOSUPPORT
        } else if code == 94 {
            ExtError::ESOCKTNOSUPPORT
        } else if code == 95 {
            ExtError::EOPNOTSUPP
        } else if code == 96 {
            ExtError::EPFNOSUPPORT
        } else if code == 97 {
            ExtError::EAFNOSUPPORT
        } else if code == 98 {
            ExtError::EADDRINUSE
        } else if code == 99 {
            ExtError::EADDRNOTAVAIL
        } else if code == 100 {
            ExtError::ENETDOWN
        } else if code == 101 {
            ExtError::ENETUNREACH
        } else if code == 102 {
            ExtError::ENETRESET
        } else if code == 103 {
            ExtError::ECONNABORTED
        } else if code == 104 {
            ExtError::ECONNRESET
        } else if code == 105 {
            ExtError::ENOBUFS
        } else if code == 106 {
            ExtError::EISCONN
        } else if code == 107 {
            ExtError::ENOTCONN
        } else if code == 108 {
            ExtError::ESHUTDOWN
        } else if code == 109 {
            ExtError::ETOOMANYREFS
        } else if code == 110 {
            ExtError::ETIMEDOUT
        } else if code == 111 {
            ExtError::ECONNREFUSED
        } else if code == 112 {
            ExtError::EHOSTDOWN
        } else if code == 113 {
            ExtError::EHOSTUNREACH
        } else if code == 114 {
            ExtError::EALREADY
        } else if code == 115 {
            ExtError::EINPROGRESS
        } else if code == 116 {
            ExtError::ESTALE
        } else if code == 117 {
            ExtError::EUCLEAN
        } else if code == 118 {
            ExtError::ENOTNAM
        } else if code == 119 {
            ExtError::ENAVAIL
        } else if code == 120 {
            ExtError::EISNAM
        } else if code == 121 {
            ExtError::EREMOTEIO
        } else if code == 122 {
            ExtError::EDQUOT
        } else if code == 123 {
            ExtError::ENOMEDIUM
        } else if code == 124 {
            ExtError::EMEDIUMTYPE
        } else if code == 125 {
            ExtError::ECANCELED
        } else if code == 126 {
            ExtError::ENOKEY
        } else if code == 127 {
            ExtError::EKEYEXPIRED
        } else if code == 128 {
            ExtError::EKEYREVOKED
        } else if code == 129 {
            ExtError::EKEYREJECTED
        } else if code == 130 {
            ExtError::EOWNERDEAD
        } else if code == 131 {
            ExtError::ENOTRECOVERABLE
        } else if code == 132 {
            ExtError::ERFKILL
        } else if code == 133 {
            ExtError::EHWPOISON
        } else {
            ExtError::Unknown(code)
        }
    }

    /// Numeric errno code of this error.
    pub fn code(&self) -> (r: u32)
        ensures
            r == self.spec_code(),
    {
        match self {
            ExtError::EPERM => 1,
            ExtError::ENOENT => 2,
            ExtError::ESRCH => 3,
            ExtError::EINTR => 4,
            ExtError::EIO => 5,
            ExtError::ENXIO => 6,
            ExtError::E2BIG => 7,
            ExtError::ENOEXEC => 8,
            ExtError::EBADF => 9,
            ExtError::ECHILD => 10,
            ExtError::EAGAIN => 11,
            ExtError::ENOMEM => 12,
            ExtError::EACCES => 13,
            ExtError::EFAULT => 14,
            ExtError::ENOTBLK => 15,
            ExtError::EBUSY => 16,
            ExtError::EEXIST => 17,
            ExtError::EXDEV => 18,
            ExtError::ENODEV => 19,
            ExtError::ENOTDIR => 20,
            ExtError::EISDIR => 21,
            ExtError::EINVAL => 22,
            ExtError::ENFILE => 23,
            ExtError::EMFILE => 24,
            ExtError::ENOTTY => 25,
            ExtError::ETXTBSY => 26,
            ExtError::EFBIG => 27,
            ExtError::ENOSPC => 28,
            ExtError::ESPIPE => 29,
            ExtError::EROFS => 30,
            ExtError::EMLINK => 31,
            ExtError::EPIPE => 32,
            ExtError::EDOM => 33,
            ExtError::ERANGE => 34,
            ExtError::EDEADLK => 35,
            ExtError::ENAMETOOLONG => 36,
            ExtError::ENOLCK => 37,
            ExtError::ENOSYS => 38,
            ExtError::ENOTEMPTY => 39,
            ExtError::ELOOP => 40,
            ExtError::EWOULDBLOCK => 11,
            ExtError::ENOMSG => 42,
            ExtError::EIDRM => 43,
            ExtError::ECHRNG => 44,
            ExtError::EL2NSYNC => 45,
            ExtError::EL3HLT => 46,
            ExtError::EL3RST => 47,
            ExtError::ELNRNG => 48,
            ExtError::EUNATCH => 49,
            ExtError::ENOCSI => 50,
            ExtError::EL2HLT => 51,
            ExtError::EBADE => 52,
            ExtError::EBADR => 53,
            ExtError::EXFULL => 54,
            ExtError::ENOANO => 55,
            ExtError::EBADRQC => 56,
            ExtError::EBADSLT => 57,
            ExtError::EDEADLOCK => 35,
            ExtError::EBFONT => 59,
            ExtError::ENOSTR => 60,
            ExtError::ENODATA => 61,
            ExtError::ETIME => 62,
            ExtError::ENOSR => 63,
            ExtError::ENONET => 64,
            ExtError::ENOPKG => 65,
            ExtError::EREMOTE => 66,
            ExtError::ENOLINK => 67,
            ExtError::EADV => 68,
            ExtError::ESRMNT => 69,
            ExtError::ECOMM => 70,
            ExtError::EPROTO => 71,
            ExtError::EMULTIHOP => 72,
            ExtError::EDOTDOT => 73,
            ExtError::EBADMSG => 74,
            ExtError::EOVERFLOW => 75,
            ExtError::ENOTUNIQ => 76,
            ExtError::EBADFD => 77,
            ExtError::EREMCHG => 78,
            ExtError::ELIBACC => 79,
            ExtError::ELIBBAD => 80,
            ExtError::ELIBSCN => 81,
            ExtError::ELIBMAX => 82,
            ExtError::ELIBEXEC => 83,
            ExtError::EILSEQ => 84,
            ExtError::ERESTART => 85,
            ExtError::ESTRPIPE => 86,
            ExtError::EUSERS => 87,
            ExtError::ENOTSOCK => 88,
            ExtError::EDESTADDRREQ => 89,
            ExtError::EMSGSIZE => 90,
            ExtError::EPROTOTYPE => 91,
            ExtError::ENOPROTOOPT => 92,
            ExtError::EPROTONOSUPPORT => 93,
            ExtError::ESOCKTNOSUPPORT => 94,
            ExtError::EOPNOTSUPP => 95,
            ExtError::EPFNOSUPPORT => 96,
            ExtError::EAFNOSUPPORT => 97,
            ExtError::EADDRINUSE => 98,
            ExtError::EADDRNOTAVAIL => 99,
            ExtError::ENETDOWN => 100,
            ExtError::ENETUNREACH => 101,
            ExtError::ENETRESET => 102,
            ExtError::ECONNABORTED => 103,
            ExtError::ECONNRESET => 104,
            ExtError::ENOBUFS => 105,
            ExtError::EISCONN => 106,
            ExtError::ENOTCONN => 107,
            ExtError::ESHUTDOWN => 108,
            ExtError::ETOOMANYREFS => 109,
            ExtError::ETIMEDOUT => 110,
            ExtError::ECONNREFUSED => 111,
            ExtError::EHOSTDOWN => 112,
            ExtError::EHOSTUNREACH => 113,
            ExtError::EALREADY => 114,
            ExtError::EINPROGRESS => 115,
            ExtError::ESTALE => 116,
            ExtError::EUCLEAN => 117,
            ExtError::ENOTNAM => 118,
            ExtError::ENAVAIL => 119,
            ExtError::EISNAM => 120,
            ExtError::EREMOTEIO => 121,
            ExtError::EDQUOT => 122,
            ExtError::ENOMEDIUM => 123,
            ExtError::EMEDIUMTYPE => 124,
            ExtError::ECANCELED => 125,
            ExtError::ENOKEY => 126,
            ExtError::EKEYEXPIRED => 127,
            ExtError::EKEYREVOKED => 128,
            ExtError::EKEYREJECTED => 129,
            ExtError::EOWNERDEAD => 130,
            ExtError::ENOTRECOVERABLE => 131,
            ExtError::ERFKILL => 132,
            ExtError::EHWPOISON => 133,
            ExtError::ENOTSUP => 95,
            ExtError::Unknown(code) => *code,
        }
    }

    /// Decode an errno code.
    pub fn from_code(code: u32) -> (r: ExtError)
        ensures
            r == ExtError::spec_of_code(code),
    {
        match code {
            1 => ExtError::EPERM,
            2 => ExtError::ENOENT,
            3 => ExtError::ESRCH,
            4 => ExtError::EINTR,
            5 => ExtError::EIO,
            6 => ExtError::ENXIO,
            7 => ExtError::E2BIG,
            8 => ExtError::ENOEXEC,
            9 => ExtError::EBADF,
            10 => ExtError::ECHILD,
            11 => ExtError::EAGAIN,
            12 => ExtError::ENOMEM,
            13 => ExtError::EACCES,
            14 => ExtError::EFAULT,
            15 => ExtError::ENOTBLK,
            16 => ExtError::EBUSY,
            17 => ExtError::EEXIST,
            18 => ExtError::EXDEV,
            19 => ExtError::ENODEV,
            20 => ExtError::ENOTDIR,
            21 => ExtError::EISDIR,
            22 => ExtError::EINVAL,
            23 => ExtError::ENFILE,
            24 => ExtError::EMFILE,
            25 => ExtError::ENOTTY,
            26 => ExtError::ETXTBSY,
            27 => ExtError::EFBIG,
            28 => ExtError::ENOSPC,
            29 => ExtError::ESPIPE,
            30 => ExtError::EROFS,
            31 => ExtError::EMLINK,
            32 => ExtError::EPIPE,
            33 => ExtError::EDOM,
            34 => ExtError::ERANGE,
            35 => ExtError::EDEADLK,
            36 => ExtError::ENAMETOOLONG,
            37 => ExtError::ENOLCK,
            38 => ExtError::ENOSYS,
            39 => ExtError::ENOTEMPTY,
            40 => ExtError::ELOOP,
            42 => ExtError::ENOMSG,
            43 => ExtError::EIDRM,
            44 => ExtError::ECHRNG,
            45 => ExtError::EL2NSYNC,
            46 => ExtError::EL3HLT,
            47 => ExtError::EL3RST,
            48 => ExtError::ELNRNG,
            49 => ExtError::EUNATCH,
            50 => ExtError::ENOCSI,
            51 => ExtError::EL2HLT,
            52 => ExtError::EBADE,
            53 => ExtError::EBADR,
            54 => ExtError::EXFULL,
            55 => ExtError::ENOANO,
            56 => ExtError::EBADRQC,
            57 => ExtError::EBADSLT,
            59 => ExtError::EBFONT,
            60 => ExtError::ENOSTR,
            61 => ExtError::ENODATA,
            62 => ExtError::ETIME,
            63 => ExtError::ENOSR,
            64 => ExtError::ENONET,
            65 => ExtError::ENOPKG,
            66 => ExtError::EREMOTE,
            67 => ExtError::ENOLINK,
            68 => ExtError::EADV,
            69 => ExtError::ESRMNT,
            70 => ExtError::ECOMM,
            71 => ExtError::EPROTO,
            72 => ExtError::EMULTIHOP,
            73 => ExtError::EDOTDOT,
            74 => ExtError::EBADMSG,
            75 => ExtError::EOVERFLOW,
            76 => ExtError::ENOTUNIQ,
            77 => ExtError::EBADFD,
            78 => ExtError::EREMCHG,
            79 => ExtError::ELIBACC,
            80 => ExtError::ELIBBAD,
            81 => ExtError::ELIBSCN,
            82 => ExtError::ELIBMAX,
            83 => ExtError::ELIBEXEC,
            84 => ExtError::EILSEQ,
            85 => ExtError::ERESTART,
            86 => ExtError::ESTRPIPE,
            87 => ExtError::EUSERS,
            88 => ExtError::ENOTSOCK,
            89 => ExtError::EDESTADDRREQ,
            90 => ExtError::EMSGSIZE,
            91 => ExtError::EPROTOTYPE,
            92 => ExtError::ENOPROTOOPT,
            93 => ExtError::EPROTONOSUPPORT,
            94 => ExtError::ESOCKTNOSUPPORT,
            95 => ExtError::EOPNOTSUPP,
            96 => ExtError::EPFNOSUPPORT,
            97 => ExtError::EAFNOSUPPORT,
            98 => ExtError::EADDRINUSE,
            99 => ExtError::EADDRNOTAVAIL,
            100 => ExtError::ENETDOWN,
            101 => ExtError::ENETUNREACH,
            102 => ExtError::ENETRESET,
            103 => ExtError::ECONNABORTED,
            104 => ExtError::ECONNRESET,
            105 => ExtError::ENOBUFS,
            106 => ExtError::EISCONN,
            107 => ExtError::ENOTCONN,
            108 => ExtError::ESHUTDOWN,
            109 => ExtError::ETOOMANYREFS,
            110 => ExtError::ETIMEDOUT,
            111 => ExtError::ECONNREFUSED,
            112 => ExtError::EHOSTDOWN,
            113 => ExtError::EHOSTUNREACH,
            114 => ExtError::EALREADY,
            115 => ExtError::EINPROGRESS,
            116 => ExtError::ESTALE,
            117 => ExtError::EUCLEAN,
            118 => ExtError::ENOTNAM,
            119 => ExtError::ENAVAIL,
            120 => ExtError::EISNAM,
            121 => ExtError::EREMOTEIO,
            122 => ExtError::EDQUOT,
            123 => ExtError::ENOMEDIUM,
            124 => ExtError::EMEDIUMTYPE,
            125 => ExtError::ECANCELED,
            126 => ExtError::ENOKEY,
            127 => ExtError::EKEYEXPIRED,
            128 => ExtError::EKEYREVOKED,
            129 => ExtError::EKEYREJECTED,
            130 => ExtError::EOWNERDEAD,
            131 => ExtError::ENOTRECOVERABLE,
            132 => ExtError::ERFKILL,
            133 => ExtError::EHWPOISON,
            _ => ExtError::Unknown(code),
        }
    }

    /// Human-readable description of this error.
    pub fn message(&self) -> &'static str {
        match self {
            ExtError::EPERM => "Operation not permitted",
            ExtError::ENOENT => "No such file or directory",
            ExtError::ESRCH => "No such process",
            ExtError::EINTR => "Interrupted system call",
            ExtError::EIO => "Input/output error",
            ExtError::ENXIO => "Device not configured",
            ExtError::E2BIG => "Argument list too long",
            ExtError::ENOEXEC => "Exec format error",
            ExtError::EBADF => "Bad file descriptor",
            ExtError::ECHILD => "No child processes",
            ExtError::EAGAIN => "Resource temporarily unavailable",
            ExtError::ENOMEM => "Cannot allocate memory",
            ExtError::EACCES => "Permission denied",
            ExtError::EFAULT => "Bad address",
            ExtError::ENOTBLK => "Block device required",
            ExtError::EBUSY => "Device busy",
            ExtError::EEXIST => "File exists",
            ExtError::EXDEV => "Cross-device link",
            ExtError::ENODEV => "No such device",
            ExtError::ENOTDIR => "Not a directory",
            ExtError::EISDIR => "Is a directory",
            ExtError::EINVAL => "Invalid argument",
            ExtError::ENFILE => "Too many open files in system",
            ExtError::EMFILE => "Too many open files",
            ExtError::ENOTTY => "Inappropriate ioctl for device",
            ExtError::ETXTBSY => "Text file busy",
            ExtError::EFBIG => "File too large",
            ExtError::ENOSPC => "No space left on device",
            ExtError::ESPIPE => "Illegal seek",
            ExtError::EROFS => "Read-only file system",
            ExtError::EMLINK => "Too many links",
            ExtError::EPIPE => "Broken pipe",
            ExtError::EDOM => "Numerical argument out of domain",
            ExtError::ERANGE => "Result too large",
            ExtError::EDEADLK => "Resource deadlock avoided",
            ExtError::ENAMETOOLONG => "File name too long",
            ExtError::ENOLCK => "No locks available",
            ExtError::ENOSYS => "Function not implemented",
            ExtError::ENOTEMPTY => "Directory not empty",
            ExtError::ELOOP => "Too many symbolic links encountered",
            ExtError::EWOULDBLOCK => "Operation would block",
            ExtError::ENOMSG => "No message of desired type",
            ExtError::EIDRM => "Identifier removed",
            ExtError::ECHRNG => "Channel number out of range",
            ExtError::EL2NSYNC => "Level 2 not synchronized",
            ExtError::EL3HLT => "Level 3 halted",
            ExtError::EL3RST => "Level 3 reset",
            ExtError::ELNRNG => "Link number out of range",
            ExtError::EUNATCH => "Device not allocated",
            ExtError::ENOCSI => "No CSI structure available",
            ExtError::EL2HLT => "Level 2 halted",
            ExtError::EBADE => "Invalid exchange",
            ExtError::EBADR => "Invalid request descriptor",
            ExtError::EXFULL => "Exchange full",
            ExtError::ENOANO => "No anode",
            ExtError::EBADRQC => "Invalid request code",
            ExtError::EBADSLT => "Invalid slot",
            ExtError::EDEADLOCK => "Resource deadlock would occur",
            ExtError::EBFONT => "Bad font file format",
            ExtError::ENOSTR => "Device not a stream",
            ExtError::ENODATA => "No data available",
            ExtError::ETIME => "Timer expired",
            ExtError::ENOSR => "No message of desired type",
            ExtError::ENONET => "Machine is not on the network",
            ExtError::ENOPKG => "Package not installed",
            ExtError::EREMOTE => "Object is remote",
            ExtError::ENOLINK => "Link has been severed",
            ExtError::EADV => "Advertise error",
            ExtError::ESRMNT => "Srmount error",
            ExtError::ECOMM => "Communication error on send",
            ExtError::EPROTO => "Protocol error",
            ExtError::EMULTIHOP => "Multihop attempted",
            ExtError::EDOTDOT => "RFS specific error",
            ExtError::EBADMSG => "Bad message",
            ExtError::EOVERFLOW => "Value too large for defined data type",
            ExtError::ENOTUNIQ => "Name not unique on network",
            ExtError::EBADFD => "File descriptor in bad state",
            ExtError::EREMCHG => "Remote address changed",
            ExtError::ELIBACC => "Can not access a needed shared library",
            ExtError::ELIBBAD => "Accessing a corrupted shared library",
            ExtError::ELIBSCN => ".lib section in a.out corrupted",
            ExtError::ELIBMAX => "Attempting to link in too many shared libraries",
            ExtError::ELIBEXEC => "Cannot exec a shared library directly",
            ExtError::EILSEQ => "Illegal byte sequence",
            ExtError::ERESTART => "Interrupted system call should be restarted",
            ExtError::ESTRPIPE => "Streams pipe error",
            ExtError::EUSERS => "Too many users",
            ExtError::ENOTSOCK => "Socket operation on non-socket",
            ExtError::EDESTADDRREQ => "Destination address required",
            ExtError::EMSGSIZE => "Message too long",
            ExtError::EPROTOTYPE => "Protocol wrong type for socket",
            ExtError::ENOPROTOOPT => "Protocol not available",
            ExtError::EPROTONOSUPPORT => "Protocol not supported",
            ExtError::ESOCKTNOSUPPORT => "Socket type not supported",
            ExtError::EOPNOTSUPP => "Operation not supported on transport endpoint",
            ExtError::EPFNOSUPPORT => "Protocol family not supported",
            ExtError::EAFNOSUPPORT => "Address family not supported",
            ExtError::EADDRINUSE => "Address already in use",
            ExtError::EADDRNOTAVAIL => "Cannot assign requested address",
            ExtError::ENETDOWN => "Network is down",
            ExtError::ENETUNREACH => "Network is unreachable",
            ExtError::ENETRESET => "Network dropped connection because of reset",
            ExtError::ECONNABORTED => "Software caused connection abort",
            ExtError::ECONNRESET => "Connection reset by peer",
            ExtError::ENOBUFS => "No buffer space available",
            ExtError::EISCONN => "Transport endpoint is already connected",
            ExtError::ENOTCONN => "Transport endpoint is not connected",
            ExtError::ESHUTDOWN => "Cannot send after transport endpoint shutdown",
            ExtError::ETOOMANYREFS => "Too many references: cannot splice",
            ExtError::ETIMEDOUT => "Connection timed out",
            ExtError::ECONNREFUSED => "Connection refused",
            ExtError::EHOSTDOWN => "Host is down",
            ExtError::EHOSTUNREACH => "No route to host",
            ExtError::EALREADY => "Operation already in progress",
            ExtError::EINPROGRESS => "Operation now in progress",
            ExtError::ESTALE => "Stale file handle",
            ExtError::EUCLEAN => "Structure needs cleaning",
            ExtError::ENOTNAM => "Not a XENIX named type file",
            ExtError::ENAVAIL => "No XENIX semaphores available",
            ExtError::EISNAM => "Is a named type file",
            ExtError::EREMOTEIO => "Remote I/O error",
            ExtError::EDQUOT => "Disk quota exceeded",
            ExtError::ENOMEDIUM => "No medium found",
            ExtError::EMEDIUMTYPE => "Wrong medium type",
            ExtError::ECANCELED => "Operation canceled",
            ExtError::ENOKEY => "Required key not available",
            ExtError::EKEYEXPIRED => "Key has expired",
            ExtError::EKEYREVOKED => "Key has been revoked",
            ExtError::EKEYREJECTED => "Key was rejected by service",
            ExtError::EOWNERDEAD => "Owner died",
            ExtError::ENOTRECOVERABLE => "State not recoverable",
            ExtError::ERFKILL => "Operation not possible due to RF-kill",
            ExtError::EHWPOISON => "Memory page has hardware error",
            ExtError::ENOTSUP => "Operation not supported",
            ExtError::Unknown(_) => "Unknown error code",
        }
    }
}

/// The single typed error value the session surfaces: one of the two
/// numeric code spaces, or the distinguished double-close report.
#[derive(Clone, Copy, Debug, PartialEq, Eq, Structural)]
pub enum ExtReport {
    /// An errno-style failure.
    Errno(ExtError),
    /// An extended-block failure.
    Message(ExtEtMessage),
    /// A file handle was closed twice.
    FileAlreadyClosed,
}

impl ExtReport {
    /// Human-readable description.
    pub fn message(&self) -> &'static str {
        match self {
            ExtReport::Errno(e) => e.message(),
            ExtReport::Message(m) => m.message(),
            ExtReport::FileAlreadyClosed => "file already closed!",
        }
    }
}

/// The typed value a raw status code classifies to: extended table at or
/// above [`EXT_ET_BASE`], errno table below it.
pub open spec fn spec_report(error: i64) -> ExtReport {
    if error >= EXT_ET_BASE {
        ExtReport::Message(ExtEtMessage::spec_of_code(error))
    } else {
        ExtReport::Errno(ExtError::spec_of_code(error as u32))
    }
}

/// Translate a raw native status code into the typed taxonomy, as a
/// failed result.  Codes at or above [`EXT_ET_BASE`] select the extended
/// table; all others select the errno table.
pub fn report<T>(error: i64) -> (r: Result<T, ExtReport>)
    requires
        0 <= error < EXT_ET_BASE + EXT_ET_COUNT,
    ensures
        r == Result::<T, ExtReport>::Err(spec_report(error)),
{
    if error >= EXT_ET_BASE {
        Err(ExtReport::Message(ExtEtMessage::from_code(error)))
    } else {
        Err(ExtReport::Errno(ExtError::from_code(error as u32)))
    }
}

/// The two deliberately shared errno codes survive the encoding: the
/// `EWOULDBLOCK`/`EAGAIN` pair and the `EDEADLOCK`/`EDEADLK` pair each
/// map many-to-one onto a single code.
pub proof fn lemma_duplicate_errno_codes()
    ensures
        ExtError::EWOULDBLOCK.spec_code() == ExtError::EAGAIN.spec_code(),
        ExtError::EAGAIN.spec_code() == 11,
        ExtError::EDEADLOCK.spec_code() == ExtError::EDEADLK.spec_code(),
        ExtError::EDEADLK.spec_code() == 35,
        ExtError::ENOTSUP.spec_code() == ExtError::EOPNOTSUPP.spec_code(),
{
}

/// Decoding an extended code and reading the code back is the identity on
/// the extended block.
pub proof fn lemma_et_code_round_trip(code: i64)
    requires
        EXT_ET_BASE <= code < EXT_ET_BASE + EXT_ET_COUNT,
    ensures
        ExtEtMessage::spec_of_code(code).spec_code() == code,
{
}

} // verus!
