//! The session's standing guarantees, proved once and for all over the spec
//! functions the component contracts speak through.

use vstd::prelude::*;

use crate::amqp::Ampq;
use crate::file_logger::find_key;
use crate::file_logger::pending_for;
use crate::file_logger::spec_add;
use crate::file_logger::spec_add_all;
use crate::file_logger::PendingView;
use crate::ui::spec_offset_cap;
use crate::ui::spec_push_line;
use crate::ui::spec_push_lines;
use crate::ui::spec_scroll_down_pos;
use crate::ui::spec_scroll_up_pos;
use crate::ui::spec_window;

verus! {

proof fn lemma_unique_filter_at_most_one(s: Seq<Seq<char>>, name: Seq<char>)
    requires
        forall|i: int, j: int| 0 <= i < j < s.len() ==> #[trigger] s[i] != #[trigger] s[j],
    ensures
        s.filter(|x: Seq<char>| x == name).len() == (if s.contains(name) {
            1int
        } else {
            0int
        }),
    decreases s.len(),
{
    reveal(Seq::filter);
    if s.len() == 0 {
        assert(!s.contains(name));
    } else {
        let t = s.drop_last();
        let l = s.last();
        assert forall|i: int, j: int| 0 <= i < j < t.len() implies #[trigger] t[i] != (
        #[trigger] t[j]) by {
            assert(t[i] == s[i] && t[j] == s[j]);
        }
        lemma_unique_filter_at_most_one(t, name);
        if l == name {
            assert(!t.contains(name)) by {
                if t.contains(name) {
                    let k = choose|k: int| 0 <= k < t.len() && t[k] == name;
                    assert(s[k] == name && s[s.len() - 1] == name);
                }
            }
            assert(s.contains(name)) by {
                assert(s[s.len() - 1] == name);
            }
        } else {
            assert(s.contains(name) == t.contains(name)) by {
                if s.contains(name) {
                    let k = choose|k: int| 0 <= k < s.len() && s[k] == name;
                    assert(t[k] == name);
                }
                if t.contains(name) {
                    let k = choose|k: int| 0 <= k < t.len() && t[k] == name;
                    assert(s[k] == name);
                }
            }
        }
    }
}

/// At any instant, an exchange owns zero or one live worker handle, never
/// two, however often it is toggled: the engine's map never holds an
/// exchange name twice.
pub proof fn lemma_at_most_one_worker(engine: &Ampq, name: Seq<char>)
    requires
        engine.wf(),
    ensures
        engine.subs().filter(|x: Seq<char>| x == name).len() <= 1,
{
    lemma_unique_filter_at_most_one(engine.subs(), name);
}

/// Subscribing then unsubscribing before any delivery leaves the engine's
/// map exactly as it was: the subscribe toggle records the one handle, and
/// the unsubscribe toggle removes exactly it. The cancelled worker then
/// observes its signal and deletes the queue the subscribe derived — the
/// worker's own contract says a cancellation event always ends in
/// `DeleteQueueAndExit` — so no queue of this round is left behind.
pub proof fn lemma_subscribe_then_unsubscribe(subs: Seq<Seq<char>>, name: Seq<char>)
    requires
        !subs.contains(name),
    ensures
        subs.push(name).contains(name),
        subs.push(name).remove_value(name) == subs,
{
    let s1 = subs.push(name);
    assert(s1[s1.len() - 1] == name);
    assert(s1.contains(name));
    s1.index_of_first_ensures(name);
    let k = s1.index_of_first(name).unwrap();
    if k < subs.len() {
        assert(s1[k] == subs[k]);
        assert(subs.contains(name)) by {
            assert(subs[k] == name);
        }
    }
    assert(k == subs.len());
    assert(s1.remove(k) =~= subs);
}

/// What remains of a bounded history after any run of insertions: exactly
/// the most recent lines that fit its capacity, in insertion order. Filling
/// it past capacity evicts exactly the oldest line per insertion.
pub proof fn lemma_buffer_fifo(buf: Seq<Seq<char>>, cap: nat, ls: Seq<Seq<char>>)
    requires
        cap >= 1,
        buf.len() <= cap,
    ensures
        spec_push_lines(buf, cap, ls) == ({
            let total = buf + ls;
            total.skip(
                if total.len() > cap {
                    total.len() - cap
                } else {
                    0
                },
            )
        }),
    decreases ls.len(),
{
    let total = buf + ls;
    if ls.len() == 0 {
        assert(total =~= buf);
        assert(total.skip(0) =~= buf);
    } else {
        let l0 = ls[0];
        let m1 = spec_push_line(buf, cap, l0);
        if buf.len() < cap {
            assert(m1 =~= (buf + seq![l0]));
        } else {
            assert(m1 =~= (buf + seq![l0]).skip(1));
        }
        lemma_buffer_fifo(m1, cap, ls.drop_first());
        let total1 = m1 + ls.drop_first();
        let d1: int = if total1.len() > cap {
            total1.len() - cap
        } else {
            0
        };
        let d: int = if total.len() > cap {
            total.len() - cap
        } else {
            0
        };
        if buf.len() < cap {
            assert(total1 =~= total);
        } else {
            assert(total1 =~= total.skip(1));
            assert(d == d1 + 1);
        }
        assert(spec_push_lines(buf, cap, ls) == spec_push_lines(m1, cap, ls.drop_first()));
        assert(total1.skip(d1) =~= total.skip(d));
    }
}

/// The scroll window always lies within `[0, totalLines]`, in both modes and
/// for any stored offset — even a stale one after a resize. A scroll-up with
/// the window already at the top of history does not move the window, and a
/// scroll-down at the bottom does not move it either.
pub proof fn lemma_scroll_window_clamped(len: int, h: int, pos: int)
    requires
        0 <= len,
        0 <= h,
        0 <= pos,
    ensures
        ({
            let w = spec_window(len, h, pos, true);
            0 <= w.0 && w.0 <= w.1 && w.1 <= len
        }),
        ({
            let w = spec_window(len, h, pos, false);
            0 <= w.0 && w.0 <= w.1 && w.1 <= len
        }),
        pos >= spec_offset_cap(len, h) ==> spec_window(len, h, spec_scroll_up_pos(len, h, pos), true)
            == spec_window(len, h, pos, true),
        pos == 0 ==> spec_window(len, h, spec_scroll_down_pos(pos), true) == spec_window(
            len,
            h,
            pos,
            true,
        ),
{
}

proof fn lemma_keys_same_find(a: PendingView, b: PendingView, q: Seq<char>)
    requires
        a.len() == b.len(),
        forall|j: int| 0 <= j < a.len() ==> (#[trigger] a[j]).0 == b[j].0,
    ensures
        find_key(a, q) == find_key(b, q),
    decreases a.len(),
{
    if a.len() > 0 && a[0].0 != q {
        assert forall|j: int| 0 <= j < a.drop_first().len() implies (
        #[trigger] a.drop_first()[j]).0 == b.drop_first()[j].0 by {
            assert(a.drop_first()[j] == a[j + 1]);
            assert(b.drop_first()[j] == b[j + 1]);
            assert(a[j + 1].0 == b[j + 1].0);
        }
        lemma_keys_same_find(a.drop_first(), b.drop_first(), q);
    }
}

/// One line added for a destination lands at the end of exactly that
/// destination's pending list; every other destination's list is untouched.
pub proof fn lemma_pending_add(m: PendingView, path: Seq<char>, line: Seq<char>)
    ensures
        pending_for(spec_add(m, path, line), path) == pending_for(m, path).push(line),
        forall|q: Seq<char>|
            q != path ==> #[trigger] pending_for(spec_add(m, path, line), q) == pending_for(m, q),
{
    let k = find_key(m, path);
    let m2 = spec_add(m, path, line);
    crate::file_logger::lemma_find_key_props(m, path);
    if k < 0 {
        assert(m2 == m.push((path, seq![line])));
        assert(m2[m.len() as int].0 == path);
        assert forall|j: int| 0 <= j < m.len() implies (#[trigger] m2[j]).0 != path by {
            assert(m2[j] == m[j]);
        }
        crate::file_logger::lemma_find_key_at(m2, path, m.len() as int);
        assert(pending_for(m2, path) =~= pending_for(m, path).push(line));
        assert forall|q: Seq<char>| q != path implies #[trigger] pending_for(m2, q)
            == pending_for(m, q) by {
            crate::file_logger::lemma_find_key_props(m, q);
            let kq = find_key(m, q);
            if kq >= 0 {
                assert forall|j: int| 0 <= j < kq implies (#[trigger] m2[j]).0 != q by {
                    assert(m2[j] == m[j]);
                }
                assert(m2[kq] == m[kq]);
                crate::file_logger::lemma_find_key_at(m2, q, kq);
            } else {
                assert forall|j: int| 0 <= j < m2.len() implies (#[trigger] m2[j]).0 != q by {
                    if j < m.len() {
                        assert(m2[j] == m[j]);
                    } else {
                        assert(m2[j].0 == path);
                    }
                }
                crate::file_logger::lemma_find_key_none(m2, q);
            }
        }
    } else {
        assert(m2 == m.update(k, (m[k].0, m[k].1.push(line))));
        assert forall|j: int| 0 <= j < m2.len() implies (#[trigger] m2[j]).0 == m[j].0 by {}
        lemma_keys_same_find(m2, m, path);
        assert(pending_for(m2, path) == m2[k].1);
        assert(pending_for(m2, path) == pending_for(m, path).push(line));
        assert forall|q: Seq<char>| q != path implies #[trigger] pending_for(m2, q)
            == pending_for(m, q) by {
            lemma_keys_same_find(m2, m, q);
            let kq = find_key(m, q);
            if kq >= 0 {
                crate::file_logger::lemma_find_key_props(m, q);
                assert(m[kq].0 == q);
                assert(kq != k);
                assert(m2[kq] == m[kq]);
            }
        }
    }
}

/// Lines added for one destination accumulate in insertion order: after any
/// run of additions, that destination holds its old lines followed by the
/// new ones, and no other destination moved. A crossing tick then hands this
/// whole list out and leaves the destination's pending list empty — that is
/// the tick contract itself, so between two flushes nothing is lost,
/// reordered, or duplicated.
pub proof fn lemma_flush_on_tick(m: PendingView, path: Seq<char>, lines: Seq<Seq<char>>)
    ensures
        pending_for(spec_add_all(m, path, lines), path) == pending_for(m, path) + lines,
        forall|q: Seq<char>|
            q != path ==> #[trigger] pending_for(spec_add_all(m, path, lines), q) == pending_for(
                m,
                q,
            ),
    decreases lines.len(),
{
    if lines.len() == 0 {
        assert(pending_for(m, path) + lines =~= pending_for(m, path));
    } else {
        let m1 = spec_add(m, path, lines[0]);
        lemma_pending_add(m, path, lines[0]);
        lemma_flush_on_tick(m1, path, lines.drop_first());
        assert(pending_for(m, path).push(lines[0]) + lines.drop_first() =~= pending_for(m, path)
            + lines);
    }
}

} // verus!
