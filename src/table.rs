use vstd::prelude::*;

use crate::connection::{Connection, ConnectionView};

verus! {

/// Sum of the byte counters of a sequence of records.
pub open spec fn total_bytes(s: Seq<ConnectionView>) -> nat
    decreases s.len(),
{
    if s.len() == 0 {
        0
    } else {
        total_bytes(s.drop_last()) + s.last().bytes
    }
}

/// No two records of `s` denote the same connection.
pub open spec fn all_distinct(s: Seq<ConnectionView>) -> bool {
    forall|i: int, j: int|
        0 <= i < s.len() && 0 <= j < s.len() && i != j ==> !(#[trigger] s[i]).same_connection(
            #[trigger] s[j],
        )
}

/// Some record of `s` denotes the connection of `c`.
pub open spec fn has_match(s: Seq<ConnectionView>, c: ConnectionView) -> bool {
    exists|i: int| 0 <= i < s.len() && (#[trigger] s[i]).same_connection(c)
}

/// Position `i` holds the first record of `s` that denotes the connection of `c`.
pub open spec fn is_first_match(s: Seq<ConnectionView>, c: ConnectionView, i: int) -> bool {
    &&& 0 <= i < s.len()
    &&& s[i].same_connection(c)
    &&& forall|j: int| 0 <= j < i ==> !(#[trigger] s[j]).same_connection(c)
}

/// The table after one more frame record `c`: merged into the first record
/// of its connection, or appended when the table has none.
pub open spec fn upsert_spec(s: Seq<ConnectionView>, c: ConnectionView) -> Seq<ConnectionView> {
    if exists|i: int| is_first_match(s, c, i) {
        let i = choose|i: int| is_first_match(s, c, i);
        s.update(i, s[i].merge(c))
    } else {
        s.push(c)
    }
}

/// The table built from an empty one by the frame records of `frames`, in order.
pub open spec fn table_of(frames: Seq<ConnectionView>) -> Seq<ConnectionView>
    decreases frames.len(),
{
    if frames.len() == 0 {
        Seq::empty()
    } else {
        upsert_spec(table_of(frames.drop_last()), frames.last())
    }
}

/// Sum of the lengths of the frames of `frames` that belong to the connection of `r`.
pub open spec fn bytes_of(frames: Seq<ConnectionView>, r: ConnectionView) -> nat
    decreases frames.len(),
{
    if frames.len() == 0 {
        0
    } else {
        bytes_of(frames.drop_last(), r) + if frames.last().same_connection(r) {
            frames.last().bytes
        } else {
            0
        }
    }
}

proof fn lemma_first_match_exists(s: Seq<ConnectionView>, c: ConnectionView, i: int)
    requires
        0 <= i < s.len(),
        s[i].same_connection(c),
    ensures
        exists|k: int| is_first_match(s, c, k),
    decreases i,
{
    if exists|j: int| 0 <= j < i && (#[trigger] s[j]).same_connection(c) {
        let j = choose|j: int| 0 <= j < i && (#[trigger] s[j]).same_connection(c);
        lemma_first_match_exists(s, c, j);
    } else {
        assert(is_first_match(s, c, i));
    }
}

proof fn lemma_first_match_unique(s: Seq<ConnectionView>, c: ConnectionView, i: int, k: int)
    requires
        is_first_match(s, c, i),
        is_first_match(s, c, k),
    ensures
        i == k,
{
    if i < k {
        assert(!s[i].same_connection(c));
    } else if k < i {
        assert(!s[k].same_connection(c));
    }
}

/// What `upsert_spec` does, spelled out by cases.
proof fn lemma_upsert_cases(s: Seq<ConnectionView>, c: ConnectionView)
    ensures
        has_match(s, c) ==> exists|i: int|
            is_first_match(s, c, i) && upsert_spec(s, c) == s.update(i, s[i].merge(c)),
        !has_match(s, c) ==> upsert_spec(s, c) == s.push(c),
{
    if has_match(s, c) {
        let i = choose|i: int| 0 <= i < s.len() && (#[trigger] s[i]).same_connection(c);
        lemma_first_match_exists(s, c, i);
    }
}

proof fn lemma_total_bytes_update(s: Seq<ConnectionView>, i: int, x: ConnectionView)
    requires
        0 <= i < s.len(),
    ensures
        total_bytes(s.update(i, x)) + s[i].bytes == total_bytes(s) + x.bytes,
        total_bytes(s) >= s[i].bytes,
    decreases s.len(),
{
    let t = s.update(i, x);
    if i == s.len() - 1 {
        assert(t.drop_last() =~= s.drop_last());
    } else {
        assert(t.drop_last() =~= s.drop_last().update(i, x));
        lemma_total_bytes_update(s.drop_last(), i, x);
    }
}

proof fn lemma_total_bytes_push(s: Seq<ConnectionView>, c: ConnectionView)
    ensures
        total_bytes(s.push(c)) == total_bytes(s) + c.bytes,
{
    assert(s.push(c).drop_last() =~= s);
}

/// Merging a frame record into the table keeps the table free of duplicate
/// connections, and afterwards the table holds the frame's connection.
pub proof fn lemma_upsert_keeps_distinct(s: Seq<ConnectionView>, c: ConnectionView)
    requires
        all_distinct(s),
    ensures
        all_distinct(upsert_spec(s, c)),
        has_match(upsert_spec(s, c), c),
        upsert_spec(s, c).len() == s.len() + if has_match(s, c) {
            0int
        } else {
            1int
        },
{
    lemma_upsert_cases(s, c);
    let t = upsert_spec(s, c);
    if has_match(s, c) {
        let i = choose|i: int|
            is_first_match(s, c, i) && upsert_spec(s, c) == s.update(i, s[i].merge(c));
        assert(t[i].same_connection(c));
        assert forall|a: int, b: int|
            0 <= a < t.len() && 0 <= b < t.len() && a != b implies !(#[trigger] t[a]).same_connection(
                #[trigger] t[b],
            ) by {
            assert(!s[a].same_connection(s[b]));
        }
    } else {
        assert(t[s.len() as int].same_connection(c));
        assert forall|a: int, b: int|
            0 <= a < t.len() && 0 <= b < t.len() && a != b implies !(#[trigger] t[a]).same_connection(
                #[trigger] t[b],
            ) by {
            if a < s.len() && b < s.len() {
                assert(!s[a].same_connection(s[b]));
            } else if a < s.len() {
                assert(!s[a].same_connection(c));
            } else {
                assert(!s[b].same_connection(c));
            }
        }
    }
}

proof fn lemma_bytes_of_same_endpoints(
    frames: Seq<ConnectionView>,
    a: ConnectionView,
    b: ConnectionView,
)
    requires
        a.same_endpoints(b),
    ensures
        bytes_of(frames, a) == bytes_of(frames, b),
    decreases frames.len(),
{
    if frames.len() > 0 {
        lemma_bytes_of_same_endpoints(frames.drop_last(), a, b);
    }
}

proof fn lemma_bytes_of_none(frames: Seq<ConnectionView>, r: ConnectionView)
    requires
        forall|k: int| 0 <= k < frames.len() ==> !(#[trigger] frames[k]).same_connection(r),
    ensures
        bytes_of(frames, r) == 0,
    decreases frames.len(),
{
    if frames.len() > 0 {
        let pre = frames.drop_last();
        assert forall|k: int| 0 <= k < pre.len() implies !(#[trigger] pre[k]).same_connection(r) by {
            assert(pre[k] == frames[k]);
        }
        assert(!frames[frames.len() - 1].same_connection(r));
        lemma_bytes_of_none(pre, r);
    }
}

/// The byte counter of every record of the table built from a sequence of
/// frames equals the sum of the lengths of the frames of that connection,
/// whichever direction each of them travelled and in whatever order they
/// came. The table holds no two records of one connection, and each frame
/// belongs to one of its records.
pub proof fn lemma_bytes_per_connection(frames: Seq<ConnectionView>)
    ensures
        all_distinct(table_of(frames)),
        forall|i: int|
            0 <= i < table_of(frames).len() ==> (#[trigger] table_of(frames)[i]).bytes
                == bytes_of(frames, table_of(frames)[i]),
        forall|k: int|
            0 <= k < frames.len() ==> has_match(table_of(frames), #[trigger] frames[k]),
    decreases frames.len(),
{
    if frames.len() > 0 {
        let pre = frames.drop_last();
        let c = frames.last();
        let t = table_of(pre);
        let t2 = table_of(frames);
        lemma_bytes_per_connection(pre);
        lemma_upsert_cases(t, c);
        lemma_upsert_keeps_distinct(t, c);
        assert(t2 == upsert_spec(t, c));
        // every earlier frame still has its record
        assert forall|k: int| 0 <= k < frames.len() implies has_match(
            t2,
            #[trigger] frames[k],
        ) by {
            if k < pre.len() {
                assert(frames[k] == pre[k]);
                assert(has_match(t, pre[k]));
                let i = choose|i: int| 0 <= i < t.len() && (#[trigger] t[i]).same_connection(pre[k]);
                assert(t2[i].same_endpoints(t[i]));
                assert(t2[i].same_connection(frames[k]));
            }
        }
        if has_match(t, c) {
            let i0 = choose|i: int|
                is_first_match(t, c, i) && upsert_spec(t, c) == t.update(i, t[i].merge(c));
            assert forall|i: int| 0 <= i < t2.len() implies (#[trigger] t2[i]).bytes == bytes_of(
                frames,
                t2[i],
            ) by {
                if i == i0 {
                    lemma_bytes_of_same_endpoints(pre, t2[i], t[i]);
                    assert(c.same_connection(t2[i]));
                } else {
                    assert(!t[i].same_connection(t[i0]));
                    assert(!c.same_connection(t[i]));
                    assert(t2[i] == t[i]);
                }
            }
        } else {
            assert forall|i: int| 0 <= i < t2.len() implies (#[trigger] t2[i]).bytes == bytes_of(
                frames,
                t2[i],
            ) by {
                if i < t.len() {
                    assert(!t[i].same_connection(c));
                    assert(!c.same_connection(t[i]));
                    assert(t2[i] == t[i]);
                } else {
                    assert(t2[i] == c);
                    assert forall|k: int| 0 <= k < pre.len() implies !(
                    #[trigger] pre[k]).same_connection(c) by {
                        assert(has_match(t, pre[k]));
                        let j = choose|j: int|
                            0 <= j < t.len() && (#[trigger] t[j]).same_connection(pre[k]);
                        assert(!t[j].same_connection(c));
                    }
                    lemma_bytes_of_none(pre, c);
                }
            }
        }
    }
}

/// Two frame records of one connection leave a single entry for it: the
/// second merges into the entry that the first merged into or created.
pub proof fn lemma_upsert_same_connection_once(
    s: Seq<ConnectionView>,
    c1: ConnectionView,
    c2: ConnectionView,
)
    requires
        all_distinct(s),
        c1.same_connection(c2),
    ensures
        upsert_spec(upsert_spec(s, c1), c2).len() == upsert_spec(s, c1).len(),
        upsert_spec(s, c1).len() <= s.len() + 1,
        s.len() == 0 ==> upsert_spec(upsert_spec(s, c1), c2).len() == 1,
        exists|i: int|
            0 <= i < upsert_spec(upsert_spec(s, c1), c2).len() && (#[trigger] upsert_spec(
                upsert_spec(s, c1),
                c2,
            )[i]).same_connection(c1) && forall|j: int|
                0 <= j < upsert_spec(upsert_spec(s, c1), c2).len() && j != i ==> !(
                #[trigger] upsert_spec(upsert_spec(s, c1), c2)[j]).same_connection(c1),
{
    let t1 = upsert_spec(s, c1);
    lemma_upsert_keeps_distinct(s, c1);
    let i = choose|i: int| 0 <= i < t1.len() && (#[trigger] t1[i]).same_connection(c1);
    assert(t1[i].same_connection(c2));
    assert(has_match(t1, c2));
    lemma_upsert_keeps_distinct(t1, c2);
    let t2 = upsert_spec(t1, c2);
    let k = choose|k: int| 0 <= k < t2.len() && (#[trigger] t2[k]).same_connection(c2);
    assert(t2[k].same_connection(c1));
    assert forall|j: int| 0 <= j < t2.len() && j != k implies !(
    #[trigger] t2[j]).same_connection(c1) by {
        assert(!t2[j].same_connection(t2[k]));
    }
}

/// Two frame records of different connections, neither of which the table
/// holds, give two new entries, in the order of the frames.
pub proof fn lemma_upsert_different_connections(
    s: Seq<ConnectionView>,
    c1: ConnectionView,
    c2: ConnectionView,
)
    requires
        !c1.same_connection(c2),
        !has_match(s, c1),
        !has_match(s, c2),
    ensures
        upsert_spec(upsert_spec(s, c1), c2) == s.push(c1).push(c2),
        upsert_spec(upsert_spec(s, c1), c2).len() == s.len() + 2,
{
    lemma_upsert_cases(s, c1);
    let t1 = s.push(c1);
    assert(!has_match(t1, c2)) by {
        if has_match(t1, c2) {
            let i = choose|i: int| 0 <= i < t1.len() && (#[trigger] t1[i]).same_connection(c2);
            if i < s.len() {
                assert(s[i] == t1[i]);
            }
        }
    }
    lemma_upsert_cases(t1, c2);
}

/// When frames come in time order, each record's start is no later than its
/// end: the start is the time of the connection's first frame and the end
/// that of its latest.
pub proof fn lemma_times_ordered(frames: Seq<ConnectionView>)
    requires
        forall|k: int|
            0 <= k < frames.len() ==> (#[trigger] frames[k]).ts_start == frames[k].ts_end,
        forall|j: int, k: int|
            0 <= j < k < frames.len() ==> (#[trigger] frames[j]).ts_end.as_micros()
                <= (#[trigger] frames[k]).ts_end.as_micros(),
    ensures
        forall|i: int|
            0 <= i < table_of(frames).len() ==> (#[trigger] table_of(frames)[i]).ts_start.as_micros()
                <= table_of(frames)[i].ts_end.as_micros(),
        frames.len() > 0 ==> forall|i: int|
            0 <= i < table_of(frames).len() ==> (#[trigger] table_of(frames)[i]).ts_end.as_micros()
                <= frames.last().ts_end.as_micros(),
    decreases frames.len(),
{
    if frames.len() > 0 {
        let pre = frames.drop_last();
        let c = frames.last();
        let t = table_of(pre);
        assert forall|j: int, k: int| 0 <= j < k < pre.len() implies (#[trigger] pre[j]).ts_end.as_micros()
            <= (#[trigger] pre[k]).ts_end.as_micros() by {
            assert(pre[j] == frames[j] && pre[k] == frames[k]);
        }
        assert forall|k: int| 0 <= k < pre.len() implies (#[trigger] pre[k]).ts_start
            == pre[k].ts_end by {
            assert(pre[k] == frames[k]);
        }
        lemma_times_ordered(pre);
        lemma_upsert_cases(t, c);
        if pre.len() > 0 {
            assert(pre.last() == frames[frames.len() - 2]);
            assert(frames[frames.len() - 2].ts_end.as_micros() <= frames[frames.len() - 1].ts_end.as_micros());
        }
    }
}

/// The connection records of a session in order of first appearance, with
/// at most one record per connection.
pub struct ConnectionTable {
    connections: Vec<Connection>,
    total: u64,
}

impl View for ConnectionTable {
    type V = Seq<ConnectionView>;

    closed spec fn view(&self) -> Seq<ConnectionView> {
        self.connections@.map_values(|c: Connection| c@)
    }
}

impl ConnectionTable {
    /// The table holds no two records of one connection, and its running
    /// total is the sum of the byte counters.
    pub closed spec fn wf(&self) -> bool {
        &&& all_distinct(self@)
        &&& self.total == total_bytes(self@)
    }

    /// An empty table.
    pub fn new() -> (r: ConnectionTable)
        ensures
            r.wf(),
            r@ == Seq::<ConnectionView>::empty(),
    {
        let r = ConnectionTable { connections: Vec::new(), total: 0 };
        assert(r@ =~= Seq::<ConnectionView>::empty());
        r
    }

    /// Number of records.
    pub fn len(&self) -> (r: usize)
        ensures
            r == self@.len(),
    {
        self.connections.len()
    }

    /// Sum of the byte counters of all records.
    pub fn total_bytes(&self) -> (r: u64)
        requires
            self.wf(),
        ensures
            r == total_bytes(self@),
    {
        self.total
    }

    /// The record at position `i`.
    pub fn get(&self, i: usize) -> (r: &Connection)
        requires
            i < self@.len(),
        ensures
            r@ == self@[i as int],
    {
        &self.connections[i]
    }

    /// Merges a frame record into the table: the first record of the same
    /// connection takes the frame's time as its end and adds its bytes;
    /// when there is none, the frame record is appended unchanged.
    pub fn upsert(&mut self, candidate: Connection)
        requires
            old(self).wf(),
            total_bytes(old(self)@) + candidate.bytes <= u64::MAX,
        ensures
            final(self).wf(),
            final(self)@ == upsert_spec(old(self)@, candidate@),
    {
        proof {
            lemma_upsert_cases(self@, candidate@);
            lemma_upsert_keeps_distinct(self@, candidate@);
        }
        let n = self.connections.len();
        let mut i: usize = 0;
        while i < n
            invariant
                n == self.connections.len(),
                0 <= i <= n,
                self.wf(),
                self@ == old(self)@,
                total_bytes(self@) + candidate.bytes <= u64::MAX,
                forall|j: int| 0 <= j < i ==> !(#[trigger] self@[j]).same_connection(candidate@),
            decreases n - i,
        {
            if self.connections[i] == candidate {
                let ghost s = self@;
                assert(is_first_match(s, candidate@, i as int));
                proof {
                    lemma_total_bytes_update(s, i as int, s[i as int].merge(candidate@));
                    let k = choose|k: int|
                        is_first_match(s, candidate@, k) && upsert_spec(s, candidate@) == s.update(
                            k,
                            s[k].merge(candidate@),
                        );
                    lemma_first_match_unique(s, candidate@, i as int, k);
                }
                let ts = candidate.ts_end;
                let b = candidate.bytes;
                self.connections[i].update(ts, b);
                self.total = self.total + b;
                assert(self@ =~= s.update(i as int, s[i as int].merge(candidate@)));
                return;
            }
            i = i + 1;
        }
        let ghost s = self@;
        assert(!has_match(s, candidate@));
        proof {
            lemma_total_bytes_push(s, candidate@);
        }
        self.total = self.total + candidate.bytes;
        self.connections.push(candidate);
        assert(self@ =~= s.push(candidate@));
    }

    /// A point-in-time copy of the records, in table order.
    pub fn snapshot(&self) -> (r: Vec<Connection>)
        ensures
            r@.map_values(|c: Connection| c@) == self@,
    {
        let mut out: Vec<Connection> = Vec::new();
        let mut i: usize = 0;
        while i < self.connections.len()
            invariant
                0 <= i <= self.connections.len(),
                out@.len() == i,
                forall|j: int| 0 <= j < i ==> (#[trigger] out@[j])@ == self.connections@[j]@,
            decreases self.connections.len() - i,
        {
            out.push(self.connections[i].clone());
            i = i + 1;
        }
        assert(out@.map_values(|c: Connection| c@) =~= self@);
        out
    }
}

} // verus!
