//! The file log batcher: lines destined for log files accumulate per
//! destination and are handed out as one batch once enough time has passed.
//!
//! The batcher holds no file handles. A crossing tick returns the whole
//! accumulated batch and clears it; whoever receives the batch writes the
//! files, and lines of a destination that fails to write are dropped, never
//! retried, so the batcher's memory stays bounded.

use vstd::prelude::*;

use crate::strutil::str_eq;

verus! {

/// The pending lines, one entry per destination path, in first-use order.
pub type PendingView = Seq<(Seq<char>, Seq<Seq<char>>)>;

/// The first entry with key `path`, or `-1` when there is none.
pub open spec fn find_key(m: PendingView, path: Seq<char>) -> int
    decreases m.len(),
{
    if m.len() == 0 {
        -1
    } else if m[0].0 == path {
        0
    } else {
        let r = find_key(m.drop_first(), path);
        if r < 0 {
            -1
        } else {
            r + 1
        }
    }
}

/// The lines pending for `path`, oldest first; empty when none are pending.
pub open spec fn pending_for(m: PendingView, path: Seq<char>) -> Seq<Seq<char>> {
    let k = find_key(m, path);
    if k < 0 {
        Seq::empty()
    } else {
        m[k].1
    }
}

/// One line added for `path`: appended to its entry, or opening a new entry
/// at the end when `path` has none.
pub open spec fn spec_add(m: PendingView, path: Seq<char>, line: Seq<char>) -> PendingView {
    let k = find_key(m, path);
    if k < 0 {
        m.push((path, seq![line]))
    } else {
        m.update(k, (m[k].0, m[k].1.push(line)))
    }
}

/// A whole sequence of lines added for `path`, in order.
pub open spec fn spec_add_all(m: PendingView, path: Seq<char>, lines: Seq<Seq<char>>) -> PendingView
    decreases lines.len(),
{
    if lines.len() == 0 {
        m
    } else {
        spec_add_all(spec_add(m, path, lines[0]), path, lines.drop_first())
    }
}

/// Adding the lines one more line extends the fold by one step.
pub proof fn lemma_add_all_snoc(m: PendingView, path: Seq<char>, lines: Seq<Seq<char>>, l: Seq<char>)
    ensures
        spec_add_all(m, path, lines.push(l)) == spec_add(spec_add_all(m, path, lines), path, l),
    decreases lines.len(),
{
    if lines.len() == 0 {
        assert(lines.push(l)[0] == l);
        assert(lines.push(l).drop_first() =~= Seq::<Seq<char>>::empty());
        assert(spec_add_all(m, path, lines.push(l)) == spec_add_all(
            spec_add(m, path, l),
            path,
            Seq::<Seq<char>>::empty(),
        ));
        assert(spec_add_all(m, path, lines) == m);
    } else {
        assert(lines.push(l)[0] == lines[0]);
        assert(lines.push(l).drop_first() =~= lines.drop_first().push(l));
        lemma_add_all_snoc(spec_add(m, path, lines[0]), path, lines.drop_first(), l);
        assert(spec_add_all(m, path, lines.push(l)) == spec_add_all(
            spec_add(m, path, lines[0]),
            path,
            lines.drop_first().push(l),
        ));
        assert(spec_add_all(m, path, lines) == spec_add_all(
            spec_add(m, path, lines[0]),
            path,
            lines.drop_first(),
        ));
    }
}

/// `find_key` lands on `k` when `k` holds the destination and nothing
/// before it does.
pub proof fn lemma_find_key_at(m: PendingView, path: Seq<char>, k: int)
    requires
        0 <= k < m.len(),
        m[k].0 == path,
        forall|j: int| 0 <= j < k ==> (#[trigger] m[j]).0 != path,
    ensures
        find_key(m, path) == k,
    decreases k,
{
    if k > 0 {
        lemma_find_key_at(m.drop_first(), path, k - 1);
    }
}

/// A destination that no entry names has no pending entry to find.
pub proof fn lemma_find_key_none(m: PendingView, path: Seq<char>)
    requires
        forall|j: int| 0 <= j < m.len() ==> (#[trigger] m[j]).0 != path,
    ensures
        find_key(m, path) == -1,
    decreases m.len(),
{
    if m.len() > 0 {
        lemma_find_key_none(m.drop_first(), path);
    }
}

/// Where `find_key` lands: on the first entry with this destination, or
/// nowhere when no entry has it.
pub proof fn lemma_find_key_props(m: PendingView, path: Seq<char>)
    ensures
        find_key(m, path) >= 0 ==> find_key(m, path) < m.len() && m[find_key(m, path)].0 == path
            && (forall|j: int| 0 <= j < find_key(m, path) ==> (#[trigger] m[j]).0 != path),
        find_key(m, path) < 0 ==> (forall|j: int|
            0 <= j < m.len() ==> (#[trigger] m[j]).0 != path),
    decreases m.len(),
{
    if m.len() > 0 && m[0].0 != path {
        lemma_find_key_props(m.drop_first(), path);
        let k = find_key(m, path);
        if k >= 0 {
            assert forall|j: int| 0 <= j < k implies (#[trigger] m[j]).0 != path by {
                if j > 0 {
                    assert(m[j] == m.drop_first()[j - 1]);
                }
            }
        } else {
            assert forall|j: int| 0 <= j < m.len() implies (#[trigger] m[j]).0 != path by {
                if j > 0 {
                    assert(m[j] == m.drop_first()[j - 1]);
                }
            }
        }
    }
}

/// Each destination occurs at most once among the entries.
pub open spec fn unique_keys(m: PendingView) -> bool {
    forall|i: int, j: int| 0 <= i < j < m.len() ==> (#[trigger] m[i]).0 != (#[trigger] m[j]).0
}

/// Adding a line never duplicates a destination entry.
proof fn lemma_spec_add_unique(m: PendingView, path: Seq<char>, line: Seq<char>)
    requires
        unique_keys(m),
    ensures
        unique_keys(spec_add(m, path, line)),
{
    lemma_find_key_props(m, path);
    let k = find_key(m, path);
    let m2 = spec_add(m, path, line);
    if k < 0 {
        assert forall|i: int, j: int| 0 <= i < j < m2.len() implies (#[trigger] m2[i]).0 != (
        #[trigger] m2[j]).0 by {
            if j < m.len() {
                assert(m2[i] == m[i] && m2[j] == m[j]);
            } else {
                assert(m2[j].0 == path);
                assert(m2[i] == m[i]);
            }
        }
    } else {
        assert forall|i: int, j: int| 0 <= i < j < m2.len() implies (#[trigger] m2[i]).0 != (
        #[trigger] m2[j]).0 by {
            assert(m2[i].0 == m[i].0);
            assert(m2[j].0 == m[j].0);
        }
    }
}

/// Accumulates log lines per destination file and releases them in timed
/// batches.
pub struct FileLogger {
    wait_time_ms: u64,
    since_last_write_ms: u64,
    file_paths: Vec<(String, Vec<String>)>,
}

impl FileLogger {
    /// The pending lines as a mathematical map-like sequence.
    pub closed spec fn pending(&self) -> PendingView {
        self.file_paths@.map_values(|p: (String, Vec<String>)| (p.0@, p.1.deep_view()))
    }

    pub closed spec fn spec_wait_time(&self) -> u64 {
        self.wait_time_ms
    }

    pub closed spec fn spec_since_last_write(&self) -> u64 {
        self.since_last_write_ms
    }

    /// Each destination has at most one entry.
    pub open spec fn wf(&self) -> bool {
        unique_keys(self.pending())
    }

    /// A fresh batcher: a fixed one-second flush cadence, nothing pending.
    pub fn new() -> (r: FileLogger)
        ensures
            r.spec_wait_time() == 1000,
            r.spec_since_last_write() == 0,
            r.pending() == Seq::<(Seq<char>, Seq<Seq<char>>)>::empty(),
            r.wf(),
    {
        let r = FileLogger { wait_time_ms: 1000, since_last_write_ms: 0, file_paths: Vec::new() };
        proof {
            assert(r.pending() =~= Seq::<(Seq<char>, Seq<Seq<char>>)>::empty());
        }
        r
    }

    /// Appends `line` to the pending list of `file_path`, opening the list
    /// when this is the destination's first line since the last flush.
    pub fn add_to_buffer(&mut self, file_path: String, line: &str)
        requires
            old(self).wf(),
        ensures
            final(self).wf(),
            final(self).pending() == spec_add(old(self).pending(), file_path@, line@),
            final(self).spec_wait_time() == old(self).spec_wait_time(),
            final(self).spec_since_last_write() == old(self).spec_since_last_write(),
    {
        let ghost m = self.pending();
        let n = self.file_paths.len();
        let mut i: usize = 0;
        while i < n
            invariant
                n == self.file_paths.len(),
                i <= n,
                forall|j: int| 0 <= j < i ==> (#[trigger] self.pending()[j]).0 != file_path@,
                *self == *old(self),
                m == self.pending(),
                unique_keys(m),
            decreases n - i,
        {
            if str_eq(self.file_paths[i].0.as_str(), file_path.as_str()) {
                let mut entry = self.file_paths.remove(i);
                entry.1.push(line.to_owned());
                self.file_paths.insert(i, entry);
                proof {
                    lemma_find_key_at(m, file_path@, i as int);
                    assert(self.pending() =~~= spec_add(m, file_path@, line@));
                    lemma_spec_add_unique(m, file_path@, line@);
                }
                return ;
            }
            i = i + 1;
        }
        let mut lines: Vec<String> = Vec::new();
        lines.push(line.to_owned());
        self.file_paths.push((file_path, lines));
        proof {
            lemma_find_key_none(m, self.file_paths@[n as int].0@);
            assert(lines.deep_view() =~~= seq![line@]);
            assert(self.pending() =~~= spec_add(m, self.file_paths@[n as int].0@, line@));
            lemma_spec_add_unique(m, self.file_paths@[n as int].0@, line@);
        }
    }

    /// Counts `tick_rate` more elapsed milliseconds. Once the accumulated
    /// time exceeds the configured wait, the whole pending batch is handed
    /// back, the pending lines are cleared atomically, and the accumulator
    /// restarts; otherwise nothing is released.
    pub fn tick(&mut self, tick_rate: u64) -> (flush: Option<Vec<(String, Vec<String>)>>)
        requires
            old(self).wf(),
        ensures
            final(self).wf(),
            final(self).spec_wait_time() == old(self).spec_wait_time(),
            ({
                let acc = if old(self).spec_since_last_write() + tick_rate <= u64::MAX {
                    old(self).spec_since_last_write() + tick_rate
                } else {
                    u64::MAX as int
                };
                if acc > old(self).spec_wait_time() {
                    &&& flush matches Some(batch) && batch@.map_values(
                        |p: (String, Vec<String>)| (p.0@, p.1.deep_view()),
                    ) == old(self).pending()
                    &&& final(self).pending() == Seq::<(Seq<char>, Seq<Seq<char>>)>::empty()
                    &&& final(self).spec_since_last_write() == 0
                } else {
                    &&& flush is None
                    &&& final(self).pending() == old(self).pending()
                    &&& final(self).spec_since_last_write() == acc
                }
            }),
    {
        let acc = if tick_rate <= u64::MAX - self.since_last_write_ms {
            self.since_last_write_ms + tick_rate
        } else {
            u64::MAX
        };
        self.since_last_write_ms = acc;
        if acc > self.wait_time_ms {
            let mut batch: Vec<(String, Vec<String>)> = Vec::new();
            core::mem::swap(&mut batch, &mut self.file_paths);
            self.since_last_write_ms = 0;
            proof {
                assert(self.pending() =~= Seq::<(Seq<char>, Seq<Seq<char>>)>::empty());
            }
            Some(batch)
        } else {
            None
        }
    }
}

} // verus!
