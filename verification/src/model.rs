//! The rows of the database of blocks, resolves and Bitswap messages.
//!
//! For each table there is the row as it is read, and the row as it is
//! inserted, which borrows its values and has no key of its own where the
//! database makes one.

use vstd::prelude::*;
use crate::events::EntryKind;
use crate::events::Timestamp;

verus! {

/// A row of the table `codecs`.
#[derive(PartialEq, Debug, Clone)]
pub struct Codec {
    pub id: i32,
    pub name: String,
}

/// A row to insert into the table `codecs`.
pub struct NewCodec<'a> {
    pub id: &'a i32,
    pub name: &'a str,
}

/// A row of the table `unixfs_types`.
#[derive(PartialEq, Debug, Clone)]
pub struct UnixFSType {
    pub id: i32,
    pub name: String,
}

/// A row of the table `errors`.
#[derive(PartialEq, Debug, Clone)]
pub struct BlockError {
    pub id: i32,
    pub name: String,
}

/// A row of the table `blocks`.
#[derive(PartialEq, Debug, Clone)]
pub struct Block {
    pub id: i64,
    pub codec_id: i32,
    pub cidv1: Vec<u8>,
}

/// A row to insert into the table `blocks`.
pub struct NewBlock<'a> {
    pub cidv1: &'a Vec<u8>,
    pub codec_id: &'a i32,
}

/// A row of the table `block_stats`.
#[derive(PartialEq, Debug, Clone)]
pub struct BlockStat {
    pub block_id: i64,
    pub block_size: i32,
    pub first_bytes: Vec<u8>,
}

/// A row to insert into the table `block_stats`.
pub struct NewBlockStat<'a> {
    pub block_id: &'a i64,
    pub block_size: &'a i32,
    pub first_bytes: &'a Vec<u8>,
}

/// A row of the table `failed_resolves`.
#[derive(PartialEq, Debug, Clone)]
pub struct FailedResolve {
    pub block_id: i64,
    pub error_id: i32,
    pub ts: Timestamp,
    pub id: i64,
}

/// A row to insert into the table `failed_resolves`.
pub struct NewFailedResolve<'a> {
    pub block_id: &'a i64,
    pub error_id: &'a i32,
    pub ts: &'a Timestamp,
}

/// A row of the table `successful_resolves`.
#[derive(PartialEq, Debug, Clone)]
pub struct SuccessfulResolve {
    pub block_id: i64,
    pub ts: Timestamp,
    pub id: i64,
}

/// A row to insert into the table `successful_resolves`.
pub struct NewSuccessfulResolve<'a> {
    pub block_id: &'a i64,
    pub ts: &'a Timestamp,
}

/// A row of the table `unixfs_blocks`.
#[derive(PartialEq, Debug, Clone)]
pub struct UnixFSBlock {
    pub block_id: i64,
    pub unixfs_type_id: i32,
    pub size: i64,
    pub cumulative_size: i64,
    pub blocks: i32,
    pub num_links: i32,
}

/// A row to insert into the table `unixfs_blocks`.
pub struct NewUnixFSBlock<'a> {
    pub block_id: &'a i64,
    pub unixfs_type_id: &'a i32,
    pub size: &'a i64,
    pub cumulative_size: &'a i64,
    pub blocks: &'a i32,
    pub num_links: &'a i32,
}

/// A row of the table `unixfs_links`.
#[derive(PartialEq, Debug, Clone)]
pub struct UnixFSLink {
    pub parent_block_id: i64,
    pub name: String,
    pub size: i64,
    pub referenced_cidv1: Vec<u8>,
}

/// A row to insert into the table `unixfs_links`.
pub struct NewUnixFSLink<'a> {
    pub parent_block_id: &'a i64,
    pub referenced_cidv1: &'a Vec<u8>,
    pub name: &'a str,
    pub size: &'a i64,
}

/// A row of the table `peers`.
#[derive(PartialEq, Debug, Clone)]
pub struct Peer {
    pub id: i32,
    pub peer_id: String,
}

/// A row to insert into the table `peers`.
pub struct NewPeer<'a> {
    pub peer_id: &'a str,
}

/// A row of the table `monitors`.
#[derive(PartialEq, Debug, Clone)]
pub struct Monitor {
    pub id: i32,
    pub name: String,
    pub ipfs_version: String,
    pub comments: Option<String>,
}

/// A row to insert into the table `monitors`.
pub struct NewMonitor<'a> {
    pub id: i32,
    pub name: &'a str,
    pub ipfs_version: &'a str,
    pub comments: Option<&'a str>,
}

/// A row of the table `bitswap_wantlist_entry_types`.
#[derive(PartialEq, Debug, Clone)]
pub struct BitswapWantlistEntryType {
    pub id: i32,
    pub entry_type: String,
}

/// A row of the table `bitswap_messages`.
#[derive(PartialEq, Debug, Clone)]
pub struct BitswapMessage {
    pub id: i64,
    pub peer_id: i32,
    pub monitor_id: i32,
    pub timestamp: Timestamp,
}

/// A row to insert into the table `bitswap_messages`.
pub struct NewBitswapMessage<'a> {
    pub peer_id: &'a i32,
    pub monitor_id: &'a i32,
    pub timestamp: &'a Timestamp,
}

/// A row of the table `bitswap_wantlist_entries`.
#[derive(PartialEq, Debug, Clone)]
pub struct BitswapWantlistEntry {
    pub id: i64,
    pub message_id: i64,
    pub cid_id: i64,
    pub entry_type_id: i32,
    pub priority: i32,
}

/// A row to insert into the table `bitswap_wantlist_entries`.
pub struct NewBitswapWantlistEntry<'a> {
    pub message_id: &'a i64,
    pub cid_id: &'a i64,
    pub entry_type_id: &'a i32,
    pub priority: &'a i32,
}

/// A row of the table `underlay_addresses`.
#[derive(PartialEq, Debug, Clone)]
pub struct UnderlayAddress {
    pub id: i64,
    pub multiaddress: String,
}

/// A row to insert into the table `underlay_addresses`.
pub struct NewUnderlayAddress<'a> {
    pub multiaddress: &'a str,
}

/// A row of the table `bitswap_messages_underlay_addresses`.
#[derive(PartialEq, Debug, Clone)]
pub struct BitswapMessageUnderlayAddress {
    pub message_id: i64,
    pub address_id: i64,
}

/// A row to insert into the table `bitswap_messages_underlay_addresses`.
pub struct NewBitswapMessageUnderlayAddress<'a> {
    pub message_id: &'a i64,
    pub address_id: &'a i64,
}

/// The name of a codec, by its ID in the table of codecs. The ID of a codec
/// is its number in the multicodec table.
pub open spec fn codec_name(id: i32) -> Option<Seq<char>> {
    if id == 0x55 {
        Some("raw"@)
    } else if id == 0x70 {
        Some("dag-pb"@)
    } else if id == 0x71 {
        Some("dag-cbor"@)
    } else if id == 0x78 {
        Some("git-raw"@)
    } else if id == 0x90 {
        Some("eth-block"@)
    } else if id == 0x91 {
        Some("eth-block-list"@)
    } else if id == 0x92 {
        Some("eth-tx-trie"@)
    } else if id == 0x93 {
        Some("eth-tx"@)
    } else if id == 0x94 {
        Some("eth-tx-receipt-trie"@)
    } else if id == 0x95 {
        Some("eth-tx-receipt"@)
    } else if id == 0x96 {
        Some("eth-state-trie"@)
    } else if id == 0x97 {
        Some("eth-account-snapshot"@)
    } else if id == 0x98 {
        Some("eth-storage-trie"@)
    } else if id == 0xb0 {
        Some("bitcoin-block"@)
    } else if id == 0xb1 {
        Some("bitcoin-tx"@)
    } else if id == 0xc0 {
        Some("zcash-block"@)
    } else if id == 0xc1 {
        Some("zcash-tx"@)
    } else if id == 0x0129 {
        Some("dag-json"@)
    } else {
        None
    }
}

/// The name of a UnixFS type, by its ID.
pub open spec fn unixfs_type_name(id: i32) -> Option<Seq<char>> {
    if id == 0 {
        Some("raw"@)
    } else if id == 1 {
        Some("directory"@)
    } else if id == 2 {
        Some("file"@)
    } else if id == 3 {
        Some("metadata"@)
    } else if id == 4 {
        Some("symlink"@)
    } else if id == 5 {
        Some("HAMTShard"@)
    } else {
        None
    }
}

/// The ID of a kind of wantlist entry in the table of entry types.
pub open spec fn entry_type_id(kind: EntryKind) -> i32 {
    match kind {
        EntryKind::WantBlock => 1,
        EntryKind::WantBlockSendDontHave => 2,
        EntryKind::WantHave => 3,
        EntryKind::WantHaveSendDontHave => 4,
        EntryKind::Cancel => 5,
    }
}

/// The name of a kind of wantlist entry in the table of entry types.
pub open spec fn entry_type_name(kind: EntryKind) -> Seq<char> {
    match kind {
        EntryKind::WantBlock => "WANT_BLOCK"@,
        EntryKind::WantBlockSendDontHave => "WANT_BLOCK_SEND_DONT_HAVE"@,
        EntryKind::WantHave => "WANT_HAVE"@,
        EntryKind::WantHaveSendDontHave => "WANT_HAVE_SEND_DONT_HAVE"@,
        EntryKind::Cancel => "CANCEL"@,
    }
}

impl Codec {
    /// The row of the codec with the given ID, if the table has it.
    pub fn known(id: i32) -> (row: Option<Codec>)
        ensures
            row is Some <==> codec_name(id) is Some,
            row matches Some(c) ==> c.id == id && Some(c.name@) == codec_name(id),
    {
        let name = if id == 0x55 {
            "raw"
        } else if id == 0x70 {
            "dag-pb"
        } else if id == 0x71 {
            "dag-cbor"
        } else if id == 0x78 {
            "git-raw"
        } else if id == 0x90 {
            "eth-block"
        } else if id == 0x91 {
            "eth-block-list"
        } else if id == 0x92 {
            "eth-tx-trie"
        } else if id == 0x93 {
            "eth-tx"
        } else if id == 0x94 {
            "eth-tx-receipt-trie"
        } else if id == 0x95 {
            "eth-tx-receipt"
        } else if id == 0x96 {
            "eth-state-trie"
        } else if id == 0x97 {
            "eth-account-snapshot"
        } else if id == 0x98 {
            "eth-storage-trie"
        } else if id == 0xb0 {
            "bitcoin-block"
        } else if id == 0xb1 {
            "bitcoin-tx"
        } else if id == 0xc0 {
            "zcash-block"
        } else if id == 0xc1 {
            "zcash-tx"
        } else if id == 0x0129 {
            "dag-json"
        } else {
            return None;
        };
        Some(Codec { id, name: name.to_owned() })
    }

    /// The row of the codec of MerkleDAG protobuf.
    pub fn dag_pb() -> (c: Codec)
        ensures
            c.id == 112,
            c.name@ == "dag-pb"@,
    {
        Codec { id: 112, name: "dag-pb".to_owned() }
    }

    /// The row of the codec of raw binary.
    pub fn raw() -> (c: Codec)
        ensures
            c.id == 85,
            c.name@ == "raw"@,
    {
        Codec { id: 85, name: "raw".to_owned() }
    }
}

impl UnixFSType {
    /// The row of the UnixFS type with the given ID, if there is one.
    pub fn known(id: i32) -> (row: Option<UnixFSType>)
        ensures
            row is Some <==> 0 <= id <= 5,
            row matches Some(t) ==> t.id == id && Some(t.name@) == unixfs_type_name(id),
    {
        let name = if id == 0 {
            "raw"
        } else if id == 1 {
            "directory"
        } else if id == 2 {
            "file"
        } else if id == 3 {
            "metadata"
        } else if id == 4 {
            "symlink"
        } else if id == 5 {
            "HAMTShard"
        } else {
            return None;
        };
        Some(UnixFSType { id, name: name.to_owned() })
    }
}

impl BlockError {
    /// The row of the error of a block that could not be had in time.
    pub fn failed_to_get_block_deadline_exceeded() -> (e: BlockError)
        ensures
            e.id == 1,
            e.name@ == "failed to get block: deadline exceeded"@,
    {
        BlockError { id: 1, name: "failed to get block: deadline exceeded".to_owned() }
    }
}

impl BitswapWantlistEntryType {
    /// The row of a kind of wantlist entry.
    pub fn of_kind(kind: EntryKind) -> (row: BitswapWantlistEntryType)
        ensures
            row.id == entry_type_id(kind),
            row.entry_type@ == entry_type_name(kind),
    {
        match kind {
            EntryKind::WantBlock => BitswapWantlistEntryType {
                id: 1,
                entry_type: "WANT_BLOCK".to_owned(),
            },
            EntryKind::WantBlockSendDontHave => BitswapWantlistEntryType {
                id: 2,
                entry_type: "WANT_BLOCK_SEND_DONT_HAVE".to_owned(),
            },
            EntryKind::WantHave => BitswapWantlistEntryType {
                id: 3,
                entry_type: "WANT_HAVE".to_owned(),
            },
            EntryKind::WantHaveSendDontHave => BitswapWantlistEntryType {
                id: 4,
                entry_type: "WANT_HAVE_SEND_DONT_HAVE".to_owned(),
            },
            EntryKind::Cancel => BitswapWantlistEntryType {
                id: 5,
                entry_type: "CANCEL".to_owned(),
            },
        }
    }
}

} // verus!
