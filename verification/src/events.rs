//! Decoded events as they arrive from a monitoring node.

use vstd::prelude::*;

verus! {

/// A point in time, as seconds and nanoseconds since the Unix epoch (UTC).
#[derive(Clone, Copy, Debug, PartialEq, Eq, Hash, Structural)]
pub struct Timestamp {
    pub seconds: i64,
    pub nanoseconds: u32,
}

/// An IP address.
#[derive(Clone, Copy, Debug, PartialEq, Eq, Hash, Structural)]
pub enum NetAddress {
    /// An IPv4 address, most significant octet first.
    V4(u32),
    /// An IPv6 address, most significant octet first.
    V6(u128),
}

/// One part of a multiaddress.
#[derive(Clone, Copy, Debug, PartialEq, Eq, Hash, Structural)]
pub enum Protocol {
    /// An IPv4 address, most significant octet first.
    Ip4(u32),
    /// An IPv6 address, most significant octet first.
    Ip6(u128),
    /// Any other part, such as a port or a peer ID.
    Other,
}

/// An address a peer can be reached at, as the parts it is made of.
#[derive(Clone, Debug, PartialEq, Eq)]
pub struct Multiaddr {
    pub protocols: Vec<Protocol>,
}

/// The IP address that the first part with one holds.
pub open spec fn first_ip(protocols: Seq<Protocol>) -> Option<NetAddress>
    decreases protocols.len(),
{
    if protocols.len() == 0 {
        None
    } else {
        match protocols[0] {
            Protocol::Ip4(a) => Some(NetAddress::V4(a)),
            Protocol::Ip6(a) => Some(NetAddress::V6(a)),
            Protocol::Other => first_ip(protocols.skip(1)),
        }
    }
}

impl Multiaddr {
    /// The IP address of the multiaddress: that of its first part that
    /// holds one.
    pub open spec fn ip(&self) -> Option<NetAddress> {
        first_ip(self.protocols@)
    }

    /// The IP address of the multiaddress, if it has one.
    pub fn ip_address(&self) -> (a: Option<NetAddress>)
        ensures
            a == self.ip(),
    {
        let mut i: usize = 0;
        proof {
            assert(self.protocols@.skip(0) =~= self.protocols@);
        }
        while i < self.protocols.len()
            invariant
                i <= self.protocols.len(),
                first_ip(self.protocols@) == first_ip(self.protocols@.skip(i as int)),
            decreases self.protocols.len() - i,
        {
            proof {
                assert(self.protocols@.skip(i as int).skip(1) =~= self.protocols@.skip(i + 1));
            }
            match self.protocols[i] {
                Protocol::Ip4(a) => {
                    return Some(NetAddress::V4(a));
                },
                Protocol::Ip6(a) => {
                    return Some(NetAddress::V6(a));
                },
                Protocol::Other => {},
            }
            i += 1;
        }
        None
    }
}

/// Whether a connection was opened or closed.
#[derive(Clone, Copy, Debug, PartialEq, Eq, Hash, Structural)]
pub enum ConnectionEventType {
    Connected,
    Disconnected,
}

/// A change in the connection state between the monitor and a peer.
#[derive(Clone, Debug, PartialEq, Eq)]
pub struct ConnectionEvent {
    /// The remote address of the connection.
    pub remote: Multiaddr,
    pub connection_event_type: ConnectionEventType,
}

/// What a wantlist entry asks for.
#[derive(Clone, Copy, Debug, PartialEq, Eq, Hash, Structural)]
pub enum WantType {
    Block,
    Have,
}

/// One entry of a wantlist.
#[derive(Clone, Debug, PartialEq, Eq)]
pub struct WantlistEntry {
    pub priority: i32,
    pub cancel: bool,
    pub send_dont_have: bool,
    pub cid: String,
    pub want_type: WantType,
}

/// Whether a peer announced to have a block or not to have it.
#[derive(Clone, Copy, Debug, PartialEq, Eq, Hash, Structural)]
pub enum BlockPresenceType {
    Have,
    DontHave,
}

/// A block presence notice.
#[derive(Clone, Debug, PartialEq, Eq)]
pub struct BlockPresence {
    pub cid: String,
    pub block_presence_type: BlockPresenceType,
}

/// A Bitswap message received by the monitor.
#[derive(Clone, Debug, PartialEq, Eq)]
pub struct BitswapMessage {
    pub wantlist_entries: Vec<WantlistEntry>,
    pub full_wantlist: bool,
    /// The CIDs of the blocks transferred with the message.
    pub blocks: Vec<String>,
    pub block_presences: Vec<BlockPresence>,
    /// The addresses the sender is connected from, most recent first.
    pub connected_addresses: Vec<Multiaddr>,
}

/// The two kinds of event a monitor pushes.
#[derive(Clone, Debug, PartialEq, Eq)]
pub enum EventType {
    BitswapMessage(BitswapMessage),
    ConnectionEvent(ConnectionEvent),
}

/// An event pushed by a monitor, tagged with the peer it is about.
#[derive(Clone, Debug, PartialEq, Eq)]
pub struct PushedEvent {
    pub timestamp: Timestamp,
    pub peer: String,
    pub inner: EventType,
}

/// The five things a wantlist entry can mean, each counted on its own.
#[derive(Clone, Copy, Debug, PartialEq, Eq, Hash, Structural)]
pub enum EntryKind {
    Cancel,
    WantBlock,
    WantBlockSendDontHave,
    WantHave,
    WantHaveSendDontHave,
}

/// A want type that is neither block nor have.
#[derive(Clone, Copy, Debug, PartialEq, Eq, Hash, Structural)]
pub struct UnknownWantType {
    pub code: i32,
}

/// A type of block presence that is neither have nor don't-have.
#[derive(Clone, Copy, Debug, PartialEq, Eq, Hash, Structural)]
pub struct UnknownBlockPresenceType {
    pub code: i32,
}

/// A type of connection event that is neither connected nor disconnected.
#[derive(Clone, Copy, Debug, PartialEq, Eq, Hash, Structural)]
pub struct UnknownConnectionEventType {
    pub code: i32,
}

impl BlockPresenceType {
    /// The type of block presence for its number on the wire: 0 for have,
    /// 1 for don't-have.
    pub open spec fn of_code(code: i32) -> Result<BlockPresenceType, UnknownBlockPresenceType> {
        if code == 0 {
            Ok(BlockPresenceType::Have)
        } else if code == 1 {
            Ok(BlockPresenceType::DontHave)
        } else {
            Err(UnknownBlockPresenceType { code })
        }
    }

    /// Decodes a type of block presence. Any number but 0 and 1 is
    /// refused, and handed back.
    pub fn from_code(code: i32) -> (r: Result<BlockPresenceType, UnknownBlockPresenceType>)
        ensures
            r == Self::of_code(code),
            r is Ok <==> (code == 0 || code == 1),
    {
        match code {
            0 => Ok(BlockPresenceType::Have),
            1 => Ok(BlockPresenceType::DontHave),
            _ => Err(UnknownBlockPresenceType { code }),
        }
    }

    /// The number of this type on the wire.
    pub fn code(&self) -> (c: i32)
        ensures
            Self::of_code(c) == Ok::<BlockPresenceType, UnknownBlockPresenceType>(*self),
    {
        match self {
            BlockPresenceType::Have => 0,
            BlockPresenceType::DontHave => 1,
        }
    }
}

impl ConnectionEventType {
    /// The type of connection event for its number on the wire: 0 for
    /// connected, 1 for disconnected.
    pub open spec fn of_code(code: i32) -> Result<
        ConnectionEventType,
        UnknownConnectionEventType,
    > {
        if code == 0 {
            Ok(ConnectionEventType::Connected)
        } else if code == 1 {
            Ok(ConnectionEventType::Disconnected)
        } else {
            Err(UnknownConnectionEventType { code })
        }
    }

    /// Decodes a type of connection event. Any number but 0 and 1 is
    /// refused, and handed back.
    pub fn from_code(code: i32) -> (r: Result<ConnectionEventType, UnknownConnectionEventType>)
        ensures
            r == Self::of_code(code),
            r is Ok <==> (code == 0 || code == 1),
    {
        match code {
            0 => Ok(ConnectionEventType::Connected),
            1 => Ok(ConnectionEventType::Disconnected),
            _ => Err(UnknownConnectionEventType { code }),
        }
    }

    /// The number of this type on the wire.
    pub fn code(&self) -> (c: i32)
        ensures
            Self::of_code(c) == Ok::<ConnectionEventType, UnknownConnectionEventType>(*self),
    {
        match self {
            ConnectionEventType::Connected => 0,
            ConnectionEventType::Disconnected => 1,
        }
    }
}

impl WantType {
    /// The want type for its number on the wire: 0 for a block, 1 for a have.
    pub open spec fn of_code(code: i32) -> Result<WantType, UnknownWantType> {
        if code == 0 {
            Ok(WantType::Block)
        } else if code == 1 {
            Ok(WantType::Have)
        } else {
            Err(UnknownWantType { code })
        }
    }

    /// Decodes a want type. Any number but 0 and 1 is refused, and handed back.
    pub fn from_code(code: i32) -> (r: Result<WantType, UnknownWantType>)
        ensures
            r == Self::of_code(code),
            r is Ok <==> (code == 0 || code == 1),
    {
        if code == 0 {
            Ok(WantType::Block)
        } else if code == 1 {
            Ok(WantType::Have)
        } else {
            Err(UnknownWantType { code })
        }
    }

    /// The number of this want type on the wire.
    pub fn code(&self) -> (c: i32)
        ensures
            Self::of_code(c) == Ok::<WantType, UnknownWantType>(*self),
    {
        match self {
            WantType::Block => 0,
            WantType::Have => 1,
        }
    }
}

impl WantlistEntry {
    /// What this entry means: a cancel overrides everything else.
    pub open spec fn kind(&self) -> EntryKind {
        if self.cancel {
            EntryKind::Cancel
        } else {
            match (self.want_type, self.send_dont_have) {
                (WantType::Block, false) => EntryKind::WantBlock,
                (WantType::Block, true) => EntryKind::WantBlockSendDontHave,
                (WantType::Have, false) => EntryKind::WantHave,
                (WantType::Have, true) => EntryKind::WantHaveSendDontHave,
            }
        }
    }

    /// Classifies the entry.
    pub fn entry_kind(&self) -> (k: EntryKind)
        ensures
            k == self.kind(),
    {
        if self.cancel {
            EntryKind::Cancel
        } else {
            match self.want_type {
                WantType::Block => if self.send_dont_have {
                    EntryKind::WantBlockSendDontHave
                } else {
                    EntryKind::WantBlock
                },
                WantType::Have => if self.send_dont_have {
                    EntryKind::WantHaveSendDontHave
                } else {
                    EntryKind::WantHave
                },
            }
        }
    }
}

impl PushedEvent {
    /// The address the origin of the event is looked up by: the IP address
    /// of the remote end of a connection, or of the first address a
    /// message's sender is connected from.
    pub open spec fn origin(&self) -> Option<NetAddress> {
        match self.inner {
            EventType::ConnectionEvent(c) => c.remote.ip(),
            EventType::BitswapMessage(m) => if m.connected_addresses@.len() > 0 {
                m.connected_addresses@[0].ip()
            } else {
                None
            },
        }
    }

    /// The address to look the origin of the event up by, if it has one.
    pub fn origin_address(&self) -> (a: Option<NetAddress>)
        ensures
            a == self.origin(),
    {
        match &self.inner {
            EventType::ConnectionEvent(c) => c.remote.ip_address(),
            EventType::BitswapMessage(m) => if m.connected_addresses.len() > 0 {
                m.connected_addresses[0].ip_address()
            } else {
                None
            },
        }
    }
}

} // verus!
