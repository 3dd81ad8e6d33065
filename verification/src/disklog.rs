//! The form of the disk log: one encoded event per line.

use vstd::prelude::*;

verus! {

/// The byte that ends a record of the log.
pub const RECORD_END: u8 = 10;

/// That an encoded event holds a line feed, and so cannot be one record.
#[derive(Clone, Copy, Debug, PartialEq, Eq, Structural)]
pub struct LineFeedInRecord {
    /// Where the first line feed stands.
    pub at: usize,
}

/// Whether an encoded event can be a record: it holds no line feed.
pub open spec fn is_record(encoded: Seq<u8>) -> bool {
    forall|i: int| 0 <= i < encoded.len() ==> encoded[i] != RECORD_END
}

/// The first line feed in an encoded event is at `at`.
pub open spec fn first_line_feed(encoded: Seq<u8>, at: int) -> bool {
    &&& 0 <= at < encoded.len()
    &&& encoded[at] == RECORD_END
    &&& forall|i: int| 0 <= i < at ==> encoded[i] != RECORD_END
}

/// Makes the line that is appended to the log for one encoded event: the
/// event, then a line feed. An event that holds a line feed itself is
/// refused, since the log could not be taken apart again.
pub fn frame_record(encoded: &Vec<u8>) -> (r: Result<Vec<u8>, LineFeedInRecord>)
    ensures
        r is Ok <==> is_record(encoded@),
        r matches Ok(line) ==> line@ == encoded@.push(RECORD_END),
        r matches Err(e) ==> first_line_feed(encoded@, e.at as int),
{
    let mut line: Vec<u8> = Vec::new();
    let mut i: usize = 0;
    while i < encoded.len()
        invariant
            i <= encoded.len(),
            line@ == encoded@.take(i as int),
            forall|j: int| 0 <= j < i ==> encoded@[j] != RECORD_END,
        decreases encoded.len() - i,
    {
        let b = encoded[i];
        if b == RECORD_END {
            return Err(LineFeedInRecord { at: i });
        }
        line.push(b);
        proof {
            assert(encoded@.take(i + 1) =~= encoded@.take(i as int).push(b));
        }
        i += 1;
    }
    proof {
        assert(encoded@.take(i as int) =~= encoded@);
    }
    line.push(RECORD_END);
    Ok(line)
}

/// A log is a run of records, each closed by its line feed. Appending a
/// framed record to a log gives a log again, with that record as its last.
pub open spec fn log_of(records: Seq<Seq<u8>>) -> Seq<u8>
    decreases records.len(),
{
    if records.len() == 0 {
        Seq::empty()
    } else {
        log_of(records.drop_last()) + records.last().push(RECORD_END)
    }
}

/// The log can be taken apart in one way only: two runs of records that
/// give the same log are the same run.
pub proof fn log_determines_records(first: Seq<Seq<u8>>, second: Seq<Seq<u8>>)
    requires
        forall|i: int| 0 <= i < first.len() ==> is_record(#[trigger] first[i]),
        forall|i: int| 0 <= i < second.len() ==> is_record(#[trigger] second[i]),
        log_of(first) == log_of(second),
    ensures
        first == second,
    decreases first.len(),
{
    if first.len() == 0 {
        if second.len() > 0 {
            assert(log_of(second).len() > 0);
            assert(log_of(first).len() == 0);
        }
        assert(first =~= second);
    } else if second.len() == 0 {
        assert(log_of(first).len() > 0);
        assert(log_of(second).len() == 0);
    } else {
        let a = first.last();
        let b = second.last();
        let front_a = log_of(first.drop_last());
        let front_b = log_of(second.drop_last());
        let whole = log_of(first);
        assert(whole == front_a + a.push(RECORD_END));
        assert(whole == front_b + b.push(RECORD_END));
        lemma_log_ends_in_line_feed(first.drop_last());
        lemma_log_ends_in_line_feed(second.drop_last());
        // The last record starts after the last line feed but the final one.
        if a.len() < b.len() {
            let at = whole.len() - 1 - a.len() - 1;
            assert(whole.len() == front_a.len() + a.len() + 1);
            assert(whole.len() == front_b.len() + b.len() + 1);
            if front_a.len() > 0 {
                assert(whole[at] == front_a[front_a.len() - 1]);
                assert(whole[at] == b.push(RECORD_END)[at - front_b.len()]);
                assert(b[at - front_b.len()] == RECORD_END);
            } else {
                assert(false);
            }
        } else if b.len() < a.len() {
            let at = whole.len() - 1 - b.len() - 1;
            assert(whole.len() == front_a.len() + a.len() + 1);
            assert(whole.len() == front_b.len() + b.len() + 1);
            if front_b.len() > 0 {
                assert(whole[at] == front_b[front_b.len() - 1]);
                assert(whole[at] == a.push(RECORD_END)[at - front_a.len()]);
                assert(a[at - front_a.len()] == RECORD_END);
            } else {
                assert(false);
            }
        }
        assert(a.len() == b.len());
        assert(front_a.len() == front_b.len());
        assert(front_a =~= front_b) by {
            assert forall|i: int| 0 <= i < front_a.len() implies front_a[i] == front_b[i] by {
                assert(whole[i] == front_a[i]);
                assert(whole[i] == front_b[i]);
            }
        }
        assert(a =~= b) by {
            assert forall|i: int| 0 <= i < a.len() implies a[i] == b[i] by {
                assert(whole[front_a.len() + i] == a.push(RECORD_END)[i]);
                assert(whole[front_b.len() + i] == b.push(RECORD_END)[i]);
            }
        }
        log_determines_records(first.drop_last(), second.drop_last());
        assert(first =~= first.drop_last().push(a));
        assert(second =~= second.drop_last().push(b));
    }
}

proof fn lemma_log_ends_in_line_feed(records: Seq<Seq<u8>>)
    ensures
        records.len() == 0 ==> log_of(records).len() == 0,
        records.len() > 0 ==> log_of(records).len() > 0 && log_of(records).last() == RECORD_END,
    decreases records.len(),
{
    if records.len() > 0 {
        let front = log_of(records.drop_last());
        let tail = records.last().push(RECORD_END);
        assert(log_of(records) == front + tail);
        assert((front + tail)[front.len() + tail.len() - 1] == tail[tail.len() - 1]);
    }
}

} // verus!
