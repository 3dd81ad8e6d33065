//! The peers that are known to be public gateways.
//!
//! The list of them comes as text, one peer ID per line, and is replaced as
//! a whole whenever it is loaded anew.

use vstd::prelude::*;
use crate::registry::PublicGatewayStatus;

verus! {

/// The characters a peer ID is made of: the digits and the letters of ASCII.
pub open spec fn is_id_char(c: char) -> bool {
    ||| '0' <= c <= '9'
    ||| 'a' <= c <= 'z'
    ||| 'A' <= c <= 'Z'
}

/// A list is well formed if it holds nothing but peer IDs and the line
/// feeds between them.
pub open spec fn is_well_formed(content: Seq<char>) -> bool {
    forall|i: int| 0 <= i < content.len() ==> content[i] == '\n' || is_id_char(#[trigger] content[i])
}

/// Whether the characters from `from` up to `to` are a whole line of the
/// list, without its line feed.
pub open spec fn is_line(content: Seq<char>, from: int, to: int) -> bool {
    &&& 0 <= from <= to <= content.len()
    &&& (from == 0 || content[from - 1] == '\n')
    &&& (to == content.len() || content[to] == '\n')
    &&& forall|i: int| from <= i < to ==> content[i] != '\n'
}

/// The peer IDs that a list names: its lines, but for the empty ones.
pub open spec fn listed_ids(content: Seq<char>) -> Set<Seq<char>> {
    Set::new(
        |id: Seq<char>|
            exists|from: int, to: int|
                is_line(content, from, to) && from < to && id == content.subrange(from, to),
    )
}

/// That a list of gateways holds something that is no peer ID.
#[derive(Clone, Copy, Debug, PartialEq, Eq, Structural)]
pub struct MalformedGatewayList;

/// The set of the known gateways.
pub struct KnownGateways {
    ids: Vec<String>,
}

/// The lines of the list that end before `end`, but for the empty ones.
spec fn ids_before(content: Seq<char>, end: int) -> Set<Seq<char>> {
    Set::new(
        |id: Seq<char>|
            exists|from: int, to: int|
                is_line(content, from, to) && from < to && to < end && id == content.subrange(
                    from,
                    to,
                ),
    )
}

spec fn held(ids: Seq<String>) -> Set<Seq<char>> {
    Set::new(|id: Seq<char>| exists|i: int| 0 <= i < ids.len() && ids[i]@ == id)
}

spec fn distinct(ids: Seq<String>) -> bool {
    forall|i: int, j: int| 0 <= i < j < ids.len() ==> ids[i]@ != ids[j]@
}

proof fn lemma_held_len(ids: Seq<String>)
    requires
        distinct(ids),
    ensures
        held(ids).finite(),
        held(ids).len() == ids.len(),
    decreases ids.len(),
{
    if ids.len() == 0 {
        assert(held(ids) =~= Set::<Seq<char>>::empty());
    } else {
        let front = ids.drop_last();
        lemma_held_len(front);
        assert(!held(front).contains(ids.last()@)) by {
            if held(front).contains(ids.last()@) {
                let i = choose|i: int| 0 <= i < front.len() && front[i]@ == ids.last()@;
                assert(ids[i]@ == ids[ids.len() - 1]@);
            }
        }
        assert(held(ids) =~= held(front).insert(ids.last()@)) by {
            assert forall|id: Seq<char>| held(ids).contains(id) <==> held(front).insert(
                ids.last()@,
            ).contains(id) by {
                if held(ids).contains(id) {
                    let i = choose|i: int| 0 <= i < ids.len() && ids[i]@ == id;
                    if i < front.len() {
                        assert(front[i]@ == id);
                    }
                }
                if held(front).contains(id) {
                    let i = choose|i: int| 0 <= i < front.len() && front[i]@ == id;
                    assert(ids[i]@ == id);
                }
                if id == ids.last()@ {
                    assert(ids[ids.len() - 1]@ == id);
                }
            }
        }
    }
}

proof fn lemma_held_push(ids: Seq<String>, id: String)
    ensures
        held(ids.push(id)) == held(ids).insert(id@),
{
    let pushed = ids.push(id);
    assert forall|x: Seq<char>| held(pushed).contains(x) <==> held(ids).insert(id@).contains(
        x,
    ) by {
        if held(pushed).contains(x) {
            let i = choose|i: int| 0 <= i < pushed.len() && pushed[i]@ == x;
            if i < ids.len() {
                assert(ids[i]@ == x);
            }
        }
        if held(ids).contains(x) {
            let i = choose|i: int| 0 <= i < ids.len() && ids[i]@ == x;
            assert(pushed[i]@ == x);
        }
        if x == id@ {
            assert(pushed[ids.len() as int]@ == x);
        }
    }
    assert(held(pushed) =~= held(ids).insert(id@));
}

/// With a line from `start` up to `to` closed by a line feed, the lines
/// that end before `to + 1` are those that end before `start`, and that one.
proof fn lemma_line_closed(content: Seq<char>, start: int, to: int)
    requires
        is_line(content, start, to),
        to < content.len(),
    ensures
        ids_before(content, to + 1) == (if start < to {
            ids_before(content, start).insert(content.subrange(start, to))
        } else {
            ids_before(content, start)
        }),
{
    let target = if start < to {
        ids_before(content, start).insert(content.subrange(start, to))
    } else {
        ids_before(content, start)
    };
    assert forall|id: Seq<char>| ids_before(content, to + 1).contains(id) <==> target.contains(
        id,
    ) by {
        if ids_before(content, to + 1).contains(id) {
            let (a, b) = choose|a: int, b: int|
                is_line(content, a, b) && a < b && b < to + 1 && id == content.subrange(a, b);
            if a < start {
                assert(content[start - 1] == '\n');
                assert(b < start);
            } else if a > start {
                assert(content[a - 1] == '\n');
                assert(false);
            } else {
                if b < to {
                    assert(content[b] == '\n');
                    assert(false);
                }
            }
        }
        if ids_before(content, start).contains(id) {
            let (a, b) = choose|a: int, b: int|
                is_line(content, a, b) && a < b && b < start && id == content.subrange(a, b);
            assert(is_line(content, a, b) && a < b && b < to + 1 && id == content.subrange(a, b));
        }
        if start < to && id == content.subrange(start, to) {
            assert(is_line(content, start, to) && start < to && to < to + 1);
        }
    }
    assert(ids_before(content, to + 1) =~= target);
}

/// With a last line from `start` to the end, the list names the lines that
/// end before `start`, and that one.
proof fn lemma_last_line(content: Seq<char>, start: int)
    requires
        is_line(content, start, content.len() as int),
    ensures
        listed_ids(content) == (if start < content.len() {
            ids_before(content, start).insert(content.subrange(start, content.len() as int))
        } else {
            ids_before(content, start)
        }),
{
    let end = content.len() as int;
    let target = if start < end {
        ids_before(content, start).insert(content.subrange(start, end))
    } else {
        ids_before(content, start)
    };
    assert forall|id: Seq<char>| listed_ids(content).contains(id) <==> target.contains(id) by {
        if listed_ids(content).contains(id) {
            let (a, b) = choose|a: int, b: int|
                is_line(content, a, b) && a < b && id == content.subrange(a, b);
            if a < start {
                assert(content[start - 1] == '\n');
                assert(b < start);
            } else if a > start {
                assert(content[a - 1] == '\n');
                assert(false);
            } else {
                if b < end {
                    assert(content[b] == '\n');
                    assert(false);
                }
            }
        }
        if ids_before(content, start).contains(id) {
            let (a, b) = choose|a: int, b: int|
                is_line(content, a, b) && a < b && b < start && id == content.subrange(a, b);
            assert(is_line(content, a, b) && a < b && id == content.subrange(a, b));
        }
        if start < end && id == content.subrange(start, end) {
            assert(is_line(content, start, end) && start < end);
        }
    }
    assert(listed_ids(content) =~= target);
}

impl View for KnownGateways {
    type V = Set<Seq<char>>;

    closed spec fn view(&self) -> Set<Seq<char>> {
        held(self.ids@)
    }
}

impl KnownGateways {
    /// What holds of every set: no peer ID is kept twice.
    pub closed spec fn wf(&self) -> bool {
        distinct(self.ids@)
    }

    /// The empty set.
    pub fn new() -> (set: KnownGateways)
        ensures
            set.wf(),
            set@ == Set::<Seq<char>>::empty(),
    {
        let set = KnownGateways { ids: Vec::new() };
        assert(set@ =~= Set::<Seq<char>>::empty());
        set
    }

    /// The number of known gateways.
    pub fn len(&self) -> (n: usize)
        requires
            self.wf(),
        ensures
            self@.finite(),
            n == self@.len(),
    {
        proof {
            lemma_held_len(self.ids@);
        }
        self.ids.len()
    }

    /// Whether a peer is a known gateway.
    pub fn contains(&self, peer: &str) -> (b: bool)
        ensures
            b == self@.contains(peer@),
    {
        let wanted = peer.to_owned();
        let mut i: usize = 0;
        while i < self.ids.len()
            invariant
                i <= self.ids.len(),
                wanted@ == peer@,
                forall|j: int| 0 <= j < i ==> self.ids@[j]@ != peer@,
            decreases self.ids.len() - i,
        {
            if self.ids[i] == wanted {
                return true;
            }
            i += 1;
        }
        false
    }

    /// The overlay origin of a peer: a gateway if it is in the set.
    pub fn status_of(&self, peer: &str) -> (status: PublicGatewayStatus)
        ensures
            status == (if self@.contains(peer@) {
                PublicGatewayStatus::Gateway
            } else {
                PublicGatewayStatus::NonGateway
            }),
    {
        if self.contains(peer) {
            PublicGatewayStatus::Gateway
        } else {
            PublicGatewayStatus::NonGateway
        }
    }

    /// Adds a peer ID, unless it is there.
    fn insert(&mut self, id: &str)
        requires
            old(self).wf(),
        ensures
            final(self).wf(),
            final(self)@ == old(self)@.insert(id@),
    {
        if self.contains(id) {
            assert(old(self)@.insert(id@) =~= old(self)@);
        } else {
            let owned = id.to_owned();
            proof {
                lemma_held_push(self.ids@, owned);
            }
            self.ids.push(owned);
        }
    }

    /// Reads a list of gateways: one peer ID per line, empty lines left
    /// out. A list that holds anything but peer IDs and line feeds is
    /// refused.
    pub fn parse(content: &str) -> (r: Result<KnownGateways, MalformedGatewayList>)
        ensures
            r is Ok <==> is_well_formed(content@),
            r matches Ok(set) ==> set.wf() && set@ == listed_ids(content@),
    {
        if !content.is_ascii() {
            proof {
                let i = choose|i: int|
                    0 <= i < content@.len() && !('\0' <= #[trigger] content@[i] <= '\u{7f}');
                assert(!is_id_char(content@[i]) && content@[i] != '\n');
            }
            return Err(MalformedGatewayList);
        }
        let n = content.unicode_len();
        let mut set = KnownGateways::new();
        let mut start: usize = 0;
        let mut i: usize = 0;
        proof {
            assert(ids_before(content@, 0) =~= Set::<Seq<char>>::empty());
        }
        while i < n
            invariant
                content.is_ascii(),
                n == content@.len(),
                start <= i <= n,
                set.wf(),
                start == 0 || content@[start - 1] == '\n',
                forall|j: int| start <= j < i ==> content@[j] != '\n',
                forall|j: int| 0 <= j < i ==> content@[j] == '\n' || is_id_char(#[trigger] content@[j]),
                set@ == ids_before(content@, start as int),
            decreases n - i,
        {
            let b = content.get_ascii(i);
            if b == 10 {
                proof {
                    assert(content@[i as int] == '\n');
                    assert(is_line(content@, start as int, i as int));
                    lemma_line_closed(content@, start as int, i as int);
                }
                if start < i {
                    set.insert(content.substring_ascii(start, i));
                }
                start = i + 1;
            } else if !((48 <= b && b <= 57) || (97 <= b && b <= 122) || (65 <= b && b <= 90)) {
                proof {
                    assert(!is_id_char(content@[i as int]) && content@[i as int] != '\n');
                }
                return Err(MalformedGatewayList);
            }
            i += 1;
        }
        proof {
            assert(is_line(content@, start as int, n as int));
            lemma_last_line(content@, start as int);
        }
        if start < n {
            set.insert(content.substring_ascii(start, n));
        }
        Ok(set)
    }

    /// Replaces the set by what a list names. A malformed list is refused,
    /// and the set stays as it was.
    pub fn reload(&mut self, content: &str) -> (r: Result<(), MalformedGatewayList>)
        requires
            old(self).wf(),
        ensures
            final(self).wf(),
            r is Ok <==> is_well_formed(content@),
            r is Ok ==> final(self)@ == listed_ids(content@),
            r is Err ==> final(self)@ == old(self)@,
    {
        match KnownGateways::parse(content) {
            Ok(set) => {
                *self = set;
                Ok(())
            },
            Err(e) => Err(e),
        }
    }
}

} // verus!
