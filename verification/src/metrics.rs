//! The bundle of counters kept for one origin of traffic, and how a single
//! event advances it.

use vstd::prelude::*;
use crate::events::BitswapMessage;
use crate::events::BlockPresence;
use crate::events::BlockPresenceType;
use crate::events::ConnectionEventType;
use crate::events::EntryKind;
use crate::events::EventType;
use crate::events::PushedEvent;
use crate::events::WantlistEntry;

verus! {

/// The counters kept for one origin. They only ever grow, and stay at
/// `u64::MAX` once they have reached it.
#[derive(Clone, Copy, Debug, PartialEq, Eq, Structural)]
pub struct Metrics {
    pub num_connected: u64,
    pub num_disconnected: u64,
    pub num_messages: u64,
    pub num_wantlists_full: u64,
    pub num_wantlists_incremental: u64,
    pub num_entries_cancel: u64,
    pub num_entries_want_block: u64,
    pub num_entries_want_block_send_dont_have: u64,
    pub num_entries_want_have: u64,
    pub num_entries_want_have_send_dont_have: u64,
    pub num_blocks: u64,
    pub num_block_presence_have: u64,
    pub num_block_presence_dont_have: u64,
}

/// By how much an event, or a batch of them, advances each counter.
pub struct Increments {
    pub connected: nat,
    pub disconnected: nat,
    pub messages: nat,
    pub wantlists_full: nat,
    pub wantlists_incremental: nat,
    pub entries_cancel: nat,
    pub entries_want_block: nat,
    pub entries_want_block_send_dont_have: nat,
    pub entries_want_have: nat,
    pub entries_want_have_send_dont_have: nat,
    pub blocks: nat,
    pub block_presence_have: nat,
    pub block_presence_dont_have: nat,
}

/// A counter at `count` after `by` more increments.
pub open spec fn advanced(count: u64, by: nat) -> u64 {
    if count + by > u64::MAX {
        u64::MAX
    } else {
        (count + by) as u64
    }
}

/// The entries of a wantlist that mean `kind`.
pub open spec fn entries_of_kind(entries: Seq<WantlistEntry>, kind: EntryKind) -> Seq<
    WantlistEntry,
> {
    entries.filter(|e: WantlistEntry| e.kind() == kind)
}

/// The block presences of one type.
pub open spec fn presences_of_type(presences: Seq<BlockPresence>, t: BlockPresenceType) -> Seq<
    BlockPresence,
> {
    presences.filter(|p: BlockPresence| p.block_presence_type == t)
}

impl Increments {
    /// No increment at all.
    pub open spec fn none() -> Increments {
        Increments {
            connected: 0,
            disconnected: 0,
            messages: 0,
            wantlists_full: 0,
            wantlists_incremental: 0,
            entries_cancel: 0,
            entries_want_block: 0,
            entries_want_block_send_dont_have: 0,
            entries_want_have: 0,
            entries_want_have_send_dont_have: 0,
            blocks: 0,
            block_presence_have: 0,
            block_presence_dont_have: 0,
        }
    }

    /// What a Bitswap message counts as: one message, one wantlist if it
    /// carries any entry, each entry by its kind, each block, and each block
    /// presence by its type.
    pub open spec fn of_message(m: BitswapMessage) -> Increments {
        let entries = m.wantlist_entries@;
        Increments {
            connected: 0,
            disconnected: 0,
            messages: 1,
            wantlists_full: if entries.len() > 0 && m.full_wantlist {
                1
            } else {
                0
            },
            wantlists_incremental: if entries.len() > 0 && !m.full_wantlist {
                1
            } else {
                0
            },
            entries_cancel: entries_of_kind(entries, EntryKind::Cancel).len(),
            entries_want_block: entries_of_kind(entries, EntryKind::WantBlock).len(),
            entries_want_block_send_dont_have: entries_of_kind(
                entries,
                EntryKind::WantBlockSendDontHave,
            ).len(),
            entries_want_have: entries_of_kind(entries, EntryKind::WantHave).len(),
            entries_want_have_send_dont_have: entries_of_kind(
                entries,
                EntryKind::WantHaveSendDontHave,
            ).len(),
            blocks: m.blocks@.len(),
            block_presence_have: presences_of_type(
                m.block_presences@,
                BlockPresenceType::Have,
            ).len(),
            block_presence_dont_have: presences_of_type(
                m.block_presences@,
                BlockPresenceType::DontHave,
            ).len(),
        }
    }

    /// What an event counts as.
    pub open spec fn of_event(event: PushedEvent) -> Increments {
        match event.inner {
            EventType::ConnectionEvent(c) => match c.connection_event_type {
                ConnectionEventType::Connected => Increments { connected: 1, ..Self::none() },
                ConnectionEventType::Disconnected => Increments {
                    disconnected: 1,
                    ..Self::none()
                },
            },
            EventType::BitswapMessage(m) => Self::of_message(m),
        }
    }

    /// The increments of the three counters that count events as such: each
    /// event advances exactly one of them, by one.
    pub open spec fn events(self) -> nat {
        self.connected + self.disconnected + self.messages
    }

    /// All increments added up.
    pub open spec fn total(self) -> nat {
        self.connected + self.disconnected + self.messages + self.wantlists_full
            + self.wantlists_incremental + self.entries_cancel + self.entries_want_block
            + self.entries_want_block_send_dont_have + self.entries_want_have
            + self.entries_want_have_send_dont_have + self.blocks + self.block_presence_have
            + self.block_presence_dont_have
    }
}

impl Metrics {
    /// The bundle with every counter at zero.
    pub open spec fn zero() -> Metrics {
        Metrics {
            num_connected: 0,
            num_disconnected: 0,
            num_messages: 0,
            num_wantlists_full: 0,
            num_wantlists_incremental: 0,
            num_entries_cancel: 0,
            num_entries_want_block: 0,
            num_entries_want_block_send_dont_have: 0,
            num_entries_want_have: 0,
            num_entries_want_have_send_dont_have: 0,
            num_blocks: 0,
            num_block_presence_have: 0,
            num_block_presence_dont_have: 0,
        }
    }

    /// The bundle after each counter has advanced by its increment.
    pub open spec fn plus(self, by: Increments) -> Metrics {
        Metrics {
            num_connected: advanced(self.num_connected, by.connected),
            num_disconnected: advanced(self.num_disconnected, by.disconnected),
            num_messages: advanced(self.num_messages, by.messages),
            num_wantlists_full: advanced(self.num_wantlists_full, by.wantlists_full),
            num_wantlists_incremental: advanced(
                self.num_wantlists_incremental,
                by.wantlists_incremental,
            ),
            num_entries_cancel: advanced(self.num_entries_cancel, by.entries_cancel),
            num_entries_want_block: advanced(self.num_entries_want_block, by.entries_want_block),
            num_entries_want_block_send_dont_have: advanced(
                self.num_entries_want_block_send_dont_have,
                by.entries_want_block_send_dont_have,
            ),
            num_entries_want_have: advanced(self.num_entries_want_have, by.entries_want_have),
            num_entries_want_have_send_dont_have: advanced(
                self.num_entries_want_have_send_dont_have,
                by.entries_want_have_send_dont_have,
            ),
            num_blocks: advanced(self.num_blocks, by.blocks),
            num_block_presence_have: advanced(
                self.num_block_presence_have,
                by.block_presence_have,
            ),
            num_block_presence_dont_have: advanced(
                self.num_block_presence_dont_have,
                by.block_presence_dont_have,
            ),
        }
    }

    /// Whether every counter is at least what it is in `other`.
    pub open spec fn at_least(self, other: Metrics) -> bool {
        &&& self.num_connected >= other.num_connected
        &&& self.num_disconnected >= other.num_disconnected
        &&& self.num_messages >= other.num_messages
        &&& self.num_wantlists_full >= other.num_wantlists_full
        &&& self.num_wantlists_incremental >= other.num_wantlists_incremental
        &&& self.num_entries_cancel >= other.num_entries_cancel
        &&& self.num_entries_want_block >= other.num_entries_want_block
        &&& self.num_entries_want_block_send_dont_have
            >= other.num_entries_want_block_send_dont_have
        &&& self.num_entries_want_have >= other.num_entries_want_have
        &&& self.num_entries_want_have_send_dont_have
            >= other.num_entries_want_have_send_dont_have
        &&& self.num_blocks >= other.num_blocks
        &&& self.num_block_presence_have >= other.num_block_presence_have
        &&& self.num_block_presence_dont_have >= other.num_block_presence_dont_have
    }

    /// The number of events counted: connects, disconnects and messages.
    pub open spec fn events(self) -> nat {
        (self.num_connected + self.num_disconnected + self.num_messages) as nat
    }

    /// All counters added up.
    pub open spec fn total(self) -> nat {
        (self.num_connected + self.num_disconnected + self.num_messages
            + self.num_wantlists_full + self.num_wantlists_incremental + self.num_entries_cancel
            + self.num_entries_want_block + self.num_entries_want_block_send_dont_have
            + self.num_entries_want_have + self.num_entries_want_have_send_dont_have
            + self.num_blocks + self.num_block_presence_have
            + self.num_block_presence_dont_have) as nat
    }

    /// A bundle with every counter at zero.
    pub fn new() -> (m: Metrics)
        ensures
            m == Self::zero(),
    {
        Metrics {
            num_connected: 0,
            num_disconnected: 0,
            num_messages: 0,
            num_wantlists_full: 0,
            num_wantlists_incremental: 0,
            num_entries_cancel: 0,
            num_entries_want_block: 0,
            num_entries_want_block_send_dont_have: 0,
            num_entries_want_have: 0,
            num_entries_want_have_send_dont_have: 0,
            num_blocks: 0,
            num_block_presence_have: 0,
            num_block_presence_dont_have: 0,
        }
    }

    /// Counts the entries of a wantlist, each by its kind.
    fn count_entries(&mut self, entries: &Vec<WantlistEntry>)
        ensures
            *final(self) == (Metrics {
                num_entries_cancel: advanced(
                    old(self).num_entries_cancel,
                    entries_of_kind(entries@, EntryKind::Cancel).len(),
                ),
                num_entries_want_block: advanced(
                    old(self).num_entries_want_block,
                    entries_of_kind(entries@, EntryKind::WantBlock).len(),
                ),
                num_entries_want_block_send_dont_have: advanced(
                    old(self).num_entries_want_block_send_dont_have,
                    entries_of_kind(entries@, EntryKind::WantBlockSendDontHave).len(),
                ),
                num_entries_want_have: advanced(
                    old(self).num_entries_want_have,
                    entries_of_kind(entries@, EntryKind::WantHave).len(),
                ),
                num_entries_want_have_send_dont_have: advanced(
                    old(self).num_entries_want_have_send_dont_have,
                    entries_of_kind(entries@, EntryKind::WantHaveSendDontHave).len(),
                ),
                ..*old(self)
            }),
    {
        let ghost start = *self;
        let mut i: usize = 0;
        proof {
            reveal(Seq::filter);
            assert(entries@.take(0) =~= Seq::<WantlistEntry>::empty());
        }
        while i < entries.len()
            invariant
                i <= entries.len(),
                *self == (Metrics {
                    num_entries_cancel: advanced(
                        start.num_entries_cancel,
                        entries_of_kind(entries@.take(i as int), EntryKind::Cancel).len(),
                    ),
                    num_entries_want_block: advanced(
                        start.num_entries_want_block,
                        entries_of_kind(entries@.take(i as int), EntryKind::WantBlock).len(),
                    ),
                    num_entries_want_block_send_dont_have: advanced(
                        start.num_entries_want_block_send_dont_have,
                        entries_of_kind(
                            entries@.take(i as int),
                            EntryKind::WantBlockSendDontHave,
                        ).len(),
                    ),
                    num_entries_want_have: advanced(
                        start.num_entries_want_have,
                        entries_of_kind(entries@.take(i as int), EntryKind::WantHave).len(),
                    ),
                    num_entries_want_have_send_dont_have: advanced(
                        start.num_entries_want_have_send_dont_have,
                        entries_of_kind(
                            entries@.take(i as int),
                            EntryKind::WantHaveSendDontHave,
                        ).len(),
                    ),
                    ..start
                }),
            decreases entries.len() - i,
        {
            proof {
                reveal(Seq::filter);
                let next = entries@.take(i + 1);
                assert(next.drop_last() =~= entries@.take(i as int));
                assert(next.last() == entries@[i as int]);
            }
            match entries[i].entry_kind() {
                EntryKind::Cancel => {
                    self.num_entries_cancel = self.num_entries_cancel.saturating_add(1);
                },
                EntryKind::WantBlock => {
                    self.num_entries_want_block = self.num_entries_want_block.saturating_add(1);
                },
                EntryKind::WantBlockSendDontHave => {
                    self.num_entries_want_block_send_dont_have =
                    self.num_entries_want_block_send_dont_have.saturating_add(1);
                },
                EntryKind::WantHave => {
                    self.num_entries_want_have = self.num_entries_want_have.saturating_add(1);
                },
                EntryKind::WantHaveSendDontHave => {
                    self.num_entries_want_have_send_dont_have =
                    self.num_entries_want_have_send_dont_have.saturating_add(1);
                },
            }
            i += 1;
        }
        proof {
            assert(entries@.take(i as int) =~= entries@);
        }
    }

    /// Counts block presences, each by its type.
    fn count_presences(&mut self, presences: &Vec<BlockPresence>)
        ensures
            *final(self) == (Metrics {
                num_block_presence_have: advanced(
                    old(self).num_block_presence_have,
                    presences_of_type(presences@, BlockPresenceType::Have).len(),
                ),
                num_block_presence_dont_have: advanced(
                    old(self).num_block_presence_dont_have,
                    presences_of_type(presences@, BlockPresenceType::DontHave).len(),
                ),
                ..*old(self)
            }),
    {
        let ghost start = *self;
        let mut i: usize = 0;
        proof {
            reveal(Seq::filter);
            assert(presences@.take(0) =~= Seq::<BlockPresence>::empty());
        }
        while i < presences.len()
            invariant
                i <= presences.len(),
                *self == (Metrics {
                    num_block_presence_have: advanced(
                        start.num_block_presence_have,
                        presences_of_type(presences@.take(i as int), BlockPresenceType::Have).len(),
                    ),
                    num_block_presence_dont_have: advanced(
                        start.num_block_presence_dont_have,
                        presences_of_type(
                            presences@.take(i as int),
                            BlockPresenceType::DontHave,
                        ).len(),
                    ),
                    ..start
                }),
            decreases presences.len() - i,
        {
            proof {
                reveal(Seq::filter);
                let next = presences@.take(i + 1);
                assert(next.drop_last() =~= presences@.take(i as int));
                assert(next.last() == presences@[i as int]);
            }
            match presences[i].block_presence_type {
                BlockPresenceType::Have => {
                    self.num_block_presence_have = self.num_block_presence_have.saturating_add(1);
                },
                BlockPresenceType::DontHave => {
                    self.num_block_presence_dont_have =
                    self.num_block_presence_dont_have.saturating_add(1);
                },
            }
            i += 1;
        }
        proof {
            assert(presences@.take(i as int) =~= presences@);
        }
    }

    /// Counts blocks that were transferred.
    fn count_blocks(&mut self, blocks: &Vec<String>)
        ensures
            *final(self) == (Metrics {
                num_blocks: advanced(old(self).num_blocks, blocks@.len()),
                ..*old(self)
            }),
    {
        let ghost start = *self;
        let mut i: usize = 0;
        while i < blocks.len()
            invariant
                i <= blocks.len(),
                *self == (Metrics { num_blocks: advanced(start.num_blocks, i as nat), ..start }),
            decreases blocks.len() - i,
        {
            self.num_blocks = self.num_blocks.saturating_add(1);
            i += 1;
        }
    }

    /// Counts one event: a connection event advances the counter of its
    /// type, a message advances the counters that `Increments::of_message`
    /// names.
    pub fn count_event(&mut self, event: &PushedEvent)
        ensures
            *final(self) == old(self).plus(Increments::of_event(*event)),
    {
        match &event.inner {
            EventType::ConnectionEvent(c) => match c.connection_event_type {
                ConnectionEventType::Connected => {
                    self.num_connected = self.num_connected.saturating_add(1);
                },
                ConnectionEventType::Disconnected => {
                    self.num_disconnected = self.num_disconnected.saturating_add(1);
                },
            },
            EventType::BitswapMessage(m) => {
                self.num_messages = self.num_messages.saturating_add(1);
                if m.wantlist_entries.len() > 0 {
                    if m.full_wantlist {
                        self.num_wantlists_full = self.num_wantlists_full.saturating_add(1);
                    } else {
                        self.num_wantlists_incremental =
                        self.num_wantlists_incremental.saturating_add(1);
                    }
                    self.count_entries(&m.wantlist_entries);
                } else {
                    proof {
                        reveal(Seq::filter);
                    }
                }
                self.count_blocks(&m.blocks);
                self.count_presences(&m.block_presences);
            },
        }
    }
}

} // verus!
