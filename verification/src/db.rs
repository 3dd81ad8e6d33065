//! What is decided when blocks, resolves and Bitswap messages are written
//! to the database: the status of a block, and the values of the rows to
//! insert. The queries and insertions themselves are made elsewhere.

use vstd::prelude::*;
use crate::cids::canonicalize_cid_from_str_to_cidv1;
use crate::cids::canonicalize_cid_from_str_to_cidv1_and_codec;
use crate::cids::parsed_cid;
use crate::cids::InvalidCid;
use crate::events::EntryKind;
use crate::events::Timestamp;
use crate::events::UnknownWantType;
use crate::model::codec_name;
use crate::model::entry_type_id;
use crate::model::Block;
use crate::model::FailedResolve;
use crate::model::SuccessfulResolve;
use crate::model::UnixFSBlock;
use crate::model::UnixFSLink;

verus! {

/// Tracks the current status of a block in the database.
#[derive(Clone, Debug, PartialEq)]
pub enum BlockStatus {
    Missing,
    BlockExistsUnixFSMissing(Block),
    BlockExistsUnixFSExists(Block, UnixFSBlock),
    SuccessfulUnixFSMissing(Block, Vec<SuccessfulResolve>),
    SuccessfulUnixFSExists(Block, Vec<SuccessfulResolve>, UnixFSBlock),
    FailedUnixFSMissing(Block, Vec<FailedResolve>),
    FailedUnixFSExists(Block, Vec<FailedResolve>, UnixFSBlock),
    SuccessfulAndFailedUnixFSMissing(Block, Vec<SuccessfulResolve>, Vec<FailedResolve>),
    SuccessfulAndFailedUnixFSExists(
        Block,
        Vec<SuccessfulResolve>,
        Vec<FailedResolve>,
        UnixFSBlock,
    ),
}

/// The status of a block that the database has, given its resolves and its
/// UnixFS block: it says which of them there are, and holds those.
pub open spec fn status_of(
    block: Block,
    succs: Vec<SuccessfulResolve>,
    failed: Vec<FailedResolve>,
    unixfs_block: Option<UnixFSBlock>,
) -> BlockStatus {
    match (succs@.len() > 0, failed@.len() > 0, unixfs_block) {
        (true, true, Some(u)) => BlockStatus::SuccessfulAndFailedUnixFSExists(
            block,
            succs,
            failed,
            u,
        ),
        (true, true, None) => BlockStatus::SuccessfulAndFailedUnixFSMissing(block, succs, failed),
        (true, false, Some(u)) => BlockStatus::SuccessfulUnixFSExists(block, succs, u),
        (true, false, None) => BlockStatus::SuccessfulUnixFSMissing(block, succs),
        (false, true, Some(u)) => BlockStatus::FailedUnixFSExists(block, failed, u),
        (false, true, None) => BlockStatus::FailedUnixFSMissing(block, failed),
        (false, false, Some(u)) => BlockStatus::BlockExistsUnixFSExists(block, u),
        (false, false, None) => BlockStatus::BlockExistsUnixFSMissing(block),
    }
}

/// The block among the rows that a query by CID gave: the first, if any.
pub fn found_block(results: Vec<Block>) -> (block: Option<Block>)
    ensures
        block == (if results@.len() > 0 {
            Some(results@[0])
        } else {
            None
        }),
{
    let mut results = results;
    if results.len() > 0 {
        Some(results.swap_remove(0))
    } else {
        None
    }
}

/// The status of a block, given what the database holds of it.
pub fn block_status(
    block: Option<Block>,
    succs: Vec<SuccessfulResolve>,
    failed: Vec<FailedResolve>,
    unixfs_block: Option<UnixFSBlock>,
) -> (status: BlockStatus)
    ensures
        status == (match block {
            Some(b) => status_of(b, succs, failed, unixfs_block),
            None => BlockStatus::Missing,
        }),
{
    let block = match block {
        Some(b) => b,
        None => {
            return BlockStatus::Missing;
        },
    };
    if succs.len() > 0 {
        if failed.len() > 0 {
            if let Some(unixfs_block) = unixfs_block {
                return BlockStatus::SuccessfulAndFailedUnixFSExists(
                    block,
                    succs,
                    failed,
                    unixfs_block,
                );
            }
            return BlockStatus::SuccessfulAndFailedUnixFSMissing(block, succs, failed);
        }
        if let Some(unixfs_block) = unixfs_block {
            return BlockStatus::SuccessfulUnixFSExists(block, succs, unixfs_block);
        }
        return BlockStatus::SuccessfulUnixFSMissing(block, succs);
    }
    if failed.len() > 0 {
        if let Some(unixfs_block) = unixfs_block {
            return BlockStatus::FailedUnixFSExists(block, failed, unixfs_block);
        }
        return BlockStatus::FailedUnixFSMissing(block, failed);
    }
    if let Some(unixfs_block) = unixfs_block {
        BlockStatus::BlockExistsUnixFSExists(block, unixfs_block)
    } else {
        BlockStatus::BlockExistsUnixFSMissing(block)
    }
}

/// A wantlist entry of a recorded message.
#[derive(Clone, Debug, PartialEq, Eq)]
pub struct JsonWantlistEntry {
    pub priority: i32,
    pub cancel: bool,
    pub send_dont_have: bool,
    pub cid: String,
    pub want_type: i32,
}

/// A recorded message.
#[derive(Clone, Debug, PartialEq, Eq)]
pub struct JsonMessage {
    pub timestamp: Timestamp,
    pub peer: String,
    /// The address of the peer, as text.
    pub address: Option<String>,
    pub received_entries: Option<Vec<JsonWantlistEntry>>,
}

/// Why a recorded message cannot be written to the database.
#[derive(Clone, Copy, Debug, PartialEq, Eq, Structural)]
pub enum InsertError {
    /// The CID of an entry is none.
    InvalidCid(InvalidCid),
    /// The table of codecs has no row for the codec of a CID.
    UnimplementedCodec { code: u64 },
    /// The want type of an entry is neither block nor have.
    UnknownWantType { code: i32 },
    /// An insertion that is to give one row gave another number.
    UnexpectedRowCount { num_rows: usize },
}

/// The ID of a codec in the table of codecs, by the number of the codec:
/// the number itself, for the codecs that the table has.
pub open spec fn codec_id_of(code: u64) -> Option<i32> {
    if code <= 0x0129 && codec_name(code as i32) is Some {
        Some(code as i32)
    } else {
        None
    }
}

/// Looks up the row ID of a codec.
pub fn codec_id(code: u64) -> (r: Result<i32, InsertError>)
    ensures
        r == (match codec_id_of(code) {
            Some(id) => Ok(id),
            None => Err(InsertError::UnimplementedCodec { code }),
        }),
{
    if code == 0x55 || code == 0x70 || code == 0x71 || code == 0x78 || (0x90 <= code && code
        <= 0x98) || code == 0xb0 || code == 0xb1 || code == 0xc0 || code == 0xc1 || code
        == 0x0129 {
        Ok(code as i32)
    } else {
        Err(InsertError::UnimplementedCodec { code })
    }
}

/// The kind of a recorded entry: a cancel whatever its want type says,
/// else by want type, 0 for a block and 1 for a have, and by whether the
/// sender asks to be told of blocks that are not there.
pub open spec fn kind_of_entry(cancel: bool, want_type: i32, send_dont_have: bool) -> Result<
    EntryKind,
    InsertError,
> {
    if cancel {
        Ok(EntryKind::Cancel)
    } else if want_type == 0 {
        Ok(
            if send_dont_have {
                EntryKind::WantBlockSendDontHave
            } else {
                EntryKind::WantBlock
            },
        )
    } else if want_type == 1 {
        Ok(
            if send_dont_have {
                EntryKind::WantHaveSendDontHave
            } else {
                EntryKind::WantHave
            },
        )
    } else {
        Err(InsertError::UnknownWantType { code: want_type })
    }
}

/// Classifies a recorded entry.
pub fn entry_kind(entry: &JsonWantlistEntry) -> (r: Result<EntryKind, InsertError>)
    ensures
        r == kind_of_entry(entry.cancel, entry.want_type, entry.send_dont_have),
{
    if entry.cancel {
        return Ok(EntryKind::Cancel);
    }
    match entry.want_type {
        0 => if entry.send_dont_have {
            Ok(EntryKind::WantBlockSendDontHave)
        } else {
            Ok(EntryKind::WantBlock)
        },
        1 => if entry.send_dont_have {
            Ok(EntryKind::WantHaveSendDontHave)
        } else {
            Ok(EntryKind::WantHave)
        },
        _ => Err(InsertError::UnknownWantType { code: entry.want_type }),
    }
}

/// The row ID of the type of a recorded entry.
pub fn wantlist_entry_type_id(entry: &JsonWantlistEntry) -> (r: Result<i32, InsertError>)
    ensures
        r == (match kind_of_entry(entry.cancel, entry.want_type, entry.send_dont_have) {
            Ok(kind) => Ok(entry_type_id(kind)),
            Err(e) => Err(e),
        }),
{
    match entry_kind(entry) {
        Ok(EntryKind::WantBlock) => Ok(1),
        Ok(EntryKind::WantBlockSendDontHave) => Ok(2),
        Ok(EntryKind::WantHave) => Ok(3),
        Ok(EntryKind::WantHaveSendDontHave) => Ok(4),
        Ok(EntryKind::Cancel) => Ok(5),
        Err(e) => Err(e),
    }
}

/// The block that a recorded entry is about, as it is written to the
/// database.
#[derive(Clone, Debug, PartialEq, Eq)]
pub struct EntryBlock {
    /// The binary form of the CID in version 1.
    pub cidv1: Vec<u8>,
    /// The row ID of the codec.
    pub codec_id: i32,
}

/// Works out the block of a recorded entry: its CID in version 1, and the
/// row ID of its codec. An entry whose CID is none, or whose codec the
/// table of codecs does not have, is refused.
pub fn entry_block(entry: &JsonWantlistEntry) -> (r: Result<EntryBlock, InsertError>)
    ensures
        match parsed_cid(entry.cid@) {
            Err(reason) => r == Err::<EntryBlock, InsertError>(InsertError::InvalidCid(reason)),
            Ok(c) => match codec_id_of(c.codec) {
                None => r == Err::<EntryBlock, InsertError>(
                    InsertError::UnimplementedCodec { code: c.codec },
                ),
                Some(id) => r matches Ok(b) && b.codec_id == id && b.cidv1@
                    == c.canonical().binary(),
            },
        },
{
    match canonicalize_cid_from_str_to_cidv1_and_codec(entry.cid.as_str()) {
        Err(e) => Err(InsertError::InvalidCid(e)),
        Ok((cidv1, codec)) => match codec_id(codec) {
            Err(e) => Err(e),
            Ok(id) => Ok(EntryBlock { cidv1: cidv1.to_bytes(), codec_id: id }),
        },
    }
}

/// Checks that an insertion that is to give one row gave one.
pub fn expect_one_row(num_rows: usize) -> (r: Result<(), InsertError>)
    ensures
        r == (if num_rows == 1 {
            Ok(())
        } else {
            Err(InsertError::UnexpectedRowCount { num_rows })
        }),
{
    if num_rows == 1 {
        Ok(())
    } else {
        Err(InsertError::UnexpectedRowCount { num_rows })
    }
}

/// What a node says of a file: its size, the size of all it refers to, and
/// the number of its blocks.
#[derive(Clone, Copy, Debug, PartialEq, Eq, Structural)]
pub struct FilesStat {
    pub size: u64,
    pub cumulative_size: u64,
    pub blocks: u64,
}

/// The UnixFS block to insert for a block. The database keeps sizes as
/// signed numbers of 64 bits and counts as signed numbers of 32 bits: a
/// larger value is cut to the bits that fit.
pub fn unixfs_block_row(
    block_id: i64,
    unixfs_type_id: i32,
    files_stat: FilesStat,
    num_links: u64,
) -> (row: UnixFSBlock)
    ensures
        row == (UnixFSBlock {
            block_id,
            unixfs_type_id,
            size: files_stat.size as i64,
            cumulative_size: files_stat.cumulative_size as i64,
            blocks: files_stat.blocks as i32,
            num_links: num_links as i32,
        }),
        files_stat.size <= i64::MAX ==> row.size == files_stat.size,
        files_stat.cumulative_size <= i64::MAX ==> row.cumulative_size
            == files_stat.cumulative_size,
        files_stat.blocks <= i32::MAX ==> row.blocks == files_stat.blocks,
        num_links <= i32::MAX ==> row.num_links == num_links,
{
    UnixFSBlock {
        block_id,
        unixfs_type_id,
        size: #[verifier::truncate]
        (files_stat.size as i64),
        cumulative_size: #[verifier::truncate]
        (files_stat.cumulative_size as i64),
        blocks: #[verifier::truncate]
        (files_stat.blocks as i32),
        num_links: #[verifier::truncate]
        (num_links as i32),
    }
}

/// The size of a block as the database keeps it, a signed number of 32
/// bits: a larger size is cut to the bits that fit.
pub fn block_size_column(size: u64) -> (column: i32)
    ensures
        column == size as i32,
        size <= i32::MAX ==> column == size,
{
    #[verifier::truncate]
    (size as i32)
}

/// The size of a link as the database keeps it, a signed number of 64
/// bits: a larger size is cut to the bits that fit.
pub fn link_size_column(size: u64) -> (column: i64)
    ensures
        column == size as i64,
        size <= i64::MAX ==> column == size,
{
    #[verifier::truncate]
    (size as i64)
}

/// A link of an object, as a node gives it.
#[derive(Clone, Debug, PartialEq, Eq)]
pub struct ObjectLink {
    pub name: String,
    /// The CID that the link refers to, as text.
    pub hash: String,
    pub size: u64,
}

/// The link to insert for a link of the object of a block: the CID it
/// refers to in version 1, its name and its size. A link whose CID is none
/// is refused.
pub fn unixfs_link_row(parent_block_id: i64, link: &ObjectLink) -> (r: Result<
    UnixFSLink,
    InsertError,
>)
    ensures
        match parsed_cid(link.hash@) {
            Err(reason) => r == Err::<UnixFSLink, InsertError>(InsertError::InvalidCid(reason)),
            Ok(c) => r matches Ok(row) && row.parent_block_id == parent_block_id && row.name@
                == link.name@ && row.size == link.size as i64 && row.referenced_cidv1@
                == c.canonical().binary(),
        },
{
    match canonicalize_cid_from_str_to_cidv1(link.hash.as_str()) {
        Err(e) => Err(InsertError::InvalidCid(e)),
        Ok(cidv1) => Ok(
            UnixFSLink {
                parent_block_id,
                name: link.name.clone(),
                size: link_size_column(link.size),
                referenced_cidv1: cidv1.to_bytes(),
            },
        ),
    }
}

/// The name of the encoding that goes with the name of a charset: the name
/// of the charset itself, but for three charsets whose encodings have
/// names of their own.
pub open spec fn encoding_of_charset(charset: Seq<char>) -> Seq<char> {
    if charset == "CP932"@ {
        "windows-31j"@
    } else if charset == "CP949"@ {
        "windows-949"@
    } else if charset == "MacCyrillic"@ {
        "x-mac-cyrillic"@
    } else {
        charset
    }
}

/// Calls `chardet::charset2encoding`, which gives three charsets the
/// names of their encodings and every other name back as it is.
#[verifier::external_body]
fn charset_to_encoding(charset: &String) -> (encoding: String)
    ensures
        encoding@ == encoding_of_charset(charset@),
{
    chardet::charset2encoding(charset).to_string()
}

/// The encoding to record for the charset that was detected for a file.
pub fn chardet_encoding(charset: &String) -> (encoding: String)
    ensures
        encoding@ == encoding_of_charset(charset@),
{
    charset_to_encoding(charset)
}

} // verus!
