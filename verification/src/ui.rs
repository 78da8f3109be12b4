//! The interactive view state: the bounded line buffer with its scroll
//! window, the selector over configured exchanges, and the options editor.
//!
//! Everything here is plain data; drawing the state to a terminal happens
//! outside the crate, against the contracts below.

use vstd::prelude::*;

use crate::enums::ExchangeTypeSer;
use crate::enums::SelectedState;
use crate::exchange_options::ExchangeOptions;
use crate::file_logger::spec_add;
use crate::file_logger::FileLogger;
use crate::strutil::lemma_lex_le_total;
use crate::strutil::lemma_lex_le_trans;
use crate::strutil::lex_le;
use crate::strutil::lower_of;
use crate::strutil::spec_contains;
use crate::strutil::str_contains;
use crate::strutil::str_le;
use crate::strutil::to_lower;

verus! {

/// What editing the currently selected option asks of the caller: nothing
/// (the field was toggled in place), a text input, or a pick from the
/// exchange-kind list.
pub enum EditType {
    NoEdit,
    Text(String),
    MultiSelect(ExchangeTypeSer),
}

/// The fixed capacity of the line buffer.
pub const LINE_BUFFER_CAPACITY: usize = 1000;

/// The number of editable fields in the options editor.
pub const OPTION_FIELD_COUNT: usize = 7;

/// One row of the selector: the name an exchange is listed under, its
/// subscription state, and its identifier.
pub struct SelectorRow {
    pub name: String,
    pub state: SelectedState,
    pub id: u64,
}

impl Clone for SelectorRow {
    fn clone(&self) -> (r: Self)
        ensures
            r == *self,
    {
        SelectorRow { name: self.name.clone(), state: self.state, id: self.id }
    }
}

/// The mathematical content of a selector row.
pub open spec fn row_view(r: SelectorRow) -> (Seq<char>, SelectedState, u64) {
    (r.name@, r.state, r.id)
}

/// The row an exchange would be listed as.
pub open spec fn row_of(x: ExchangeOptions) -> (Seq<char>, SelectedState, u64) {
    (x.spec_display_name(), x.selected_state, x.id)
}

/// Whether a row passes the selection filter: its lower-cased name contains
/// the lower-cased filter text.
pub open spec fn row_kept(t: (Seq<char>, SelectedState, u64), filter: Seq<char>) -> bool {
    spec_contains(lower_of(t.0), lower_of(filter))
}

/// Rows in display order: names never decrease.
pub open spec fn rows_sorted(r: Seq<SelectorRow>) -> bool {
    forall|i: int, j: int|
        0 <= i < j < r.len() ==> lex_le((#[trigger] r[i]).name@, (#[trigger] r[j]).name@)
}

proof fn lemma_filter_push<A>(s: Seq<A>, pred: spec_fn(A) -> bool, a: A)
    ensures
        s.push(a).filter(pred) == (if pred(a) {
            s.filter(pred).push(a)
        } else {
            s.filter(pred)
        }),
{
    reveal(Seq::filter);
    assert(s.push(a).drop_last() =~= s);
    assert(s.push(a).last() == a);
}

proof fn lemma_to_multiset_map<A, B>(s: Seq<A>, t: Seq<A>, f: spec_fn(A) -> B)
    requires
        s.to_multiset() == t.to_multiset(),
    ensures
        s.map_values(f).to_multiset() == t.map_values(f).to_multiset(),
    decreases s.len(),
{
    broadcast use vstd::seq_lib::group_to_multiset_ensures;

    if s.len() == 0 {
        assert(s.len() == s.to_multiset().len());
        assert(t.len() == t.to_multiset().len());
        assert(t.len() == 0);
        assert(s.map_values(f) =~= t.map_values(f));
    } else {
        let x = s.last();
        assert(s.to_multiset().contains(x)) by {
            assert(s.contains(x));
        }
        assert(t.contains(x));
        let k = choose|k: int| 0 <= k < t.len() && t[k] == x;
        let s2 = s.remove(s.len() - 1);
        let t2 = t.remove(k);
        assert(s2.to_multiset() =~= s.to_multiset().remove(x));
        assert(t2.to_multiset() =~= t.to_multiset().remove(x));
        lemma_to_multiset_map(s2, t2, f);
        assert(s.map_values(f) =~= s2.map_values(f).push(f(x)));
        assert(s.map_values(f).to_multiset() =~= s2.map_values(f).to_multiset().insert(f(x)));
        assert(t.map_values(f).remove(k) =~= t2.map_values(f));
        assert(t2.map_values(f).to_multiset() =~= t.map_values(f).to_multiset().remove(f(x)));
        assert(t.map_values(f).to_multiset().contains(f(x))) by {
            assert(t.map_values(f)[k] == f(x));
            assert(t.map_values(f).contains(f(x)));
        }
        assert(t.map_values(f).to_multiset() =~= t2.map_values(f).to_multiset().insert(f(x)));
    }
}

fn sort_rows(rows: Vec<SelectorRow>) -> (r: Vec<SelectorRow>)
    ensures
        rows_sorted(r@),
        r@.to_multiset() == rows@.to_multiset(),
{
    broadcast use vstd::seq_lib::group_to_multiset_ensures;

    let mut out: Vec<SelectorRow> = Vec::new();
    let mut i: usize = 0;
    proof {
        assert(rows@.take(0) =~= Seq::<SelectorRow>::empty());
        assert(out@.to_multiset() =~= rows@.take(0).to_multiset());
    }
    while i < rows.len()
        invariant
            i <= rows@.len(),
            rows_sorted(out@),
            out@.to_multiset() == rows@.take(i as int).to_multiset(),
        decreases rows@.len() - i,
    {
        broadcast use vstd::seq_lib::group_to_multiset_ensures;

        let row = rows[i].clone();
        let mut j: usize = 0;
        while j < out.len() && str_le(out[j].name.as_str(), row.name.as_str())
            invariant
                j <= out@.len(),
                forall|k: int| 0 <= k < j ==> lex_le((#[trigger] out@[k]).name@, row.name@),
            decreases out@.len() - j,
        {
            j = j + 1;
        }
        let ghost prev = out@;
        out.insert(j, row);
        proof {
            assert forall|a: int, b: int|
                0 <= a < b < out@.len() implies lex_le(
                (#[trigger] out@[a]).name@,
                (#[trigger] out@[b]).name@,
            ) by {
                let jj = j as int;
                if b < jj {
                    assert(out@[a] == prev[a] && out@[b] == prev[b]);
                } else if a > jj {
                    assert(out@[a] == prev[a - 1] && out@[b] == prev[b - 1]);
                } else if a < jj && b == jj {
                    assert(out@[a] == prev[a]);
                    assert(lex_le(prev[a].name@, row.name@));
                } else if a == jj {
                    assert(out@[b] == prev[b - 1]);
                    if jj < prev.len() {
                        lemma_lex_le_total(prev[jj].name@, row.name@);
                        assert(lex_le(row.name@, prev[jj].name@));
                        if b - 1 > jj {
                            lemma_lex_le_trans(row.name@, prev[jj].name@, prev[b - 1].name@);
                        }
                    }
                } else {
                    assert(a < jj && b > jj);
                    assert(out@[a] == prev[a] && out@[b] == prev[b - 1]);
                }
            }
            assert(out@.remove(j as int) =~= prev);
            assert(prev.to_multiset() =~= out@.to_multiset().remove(row));
            assert(out@.to_multiset().contains(row)) by {
                assert(out@[j as int] == row);
            }
            assert(out@.to_multiset() =~= prev.to_multiset().insert(row));
            assert(rows@.take(i + 1).drop_last() =~= rows@.take(i as int));
            assert(rows@.take(i + 1) =~= rows@.take(i as int).push(rows@[i as int]));
        }
        i = i + 1;
    }
    proof {
        assert(rows@.take(i as int) =~= rows@);
    }
    out
}

/// The furthest a scroll offset can move the window up: with more history
/// than fits the viewport, the surplus; otherwise nowhere.
pub open spec fn spec_offset_cap(len: int, h: int) -> int {
    if len > h {
        len - h
    } else {
        0
    }
}

/// The half-open window of history a render pass shows, from the stored
/// line count, the viewport height and the scroll offset alone. Following
/// mode, or a history that fits, shows the most recent lines; scroll mode
/// moves the window up by the offset, clamped to the history.
pub open spec fn spec_window(len: int, h: int, pos: int, scroll_mode: bool) -> (int, int) {
    if !scroll_mode || len <= h {
        (
            len - (if len <= h {
                len
            } else {
                h
            }),
            len,
        )
    } else {
        let p = if pos <= len - h {
            pos
        } else {
            len - h
        };
        (len - h - p, len - p)
    }
}

/// Where one scroll-up step leaves the offset: one more line, stopped at
/// the top of history.
pub open spec fn spec_scroll_up_pos(len: int, h: int, pos: int) -> int {
    if pos < spec_offset_cap(len, h) {
        pos + 1
    } else {
        spec_offset_cap(len, h)
    }
}

/// Where one scroll-down step leaves the offset: one line back, stopped at
/// the bottom.
pub open spec fn spec_scroll_down_pos(pos: int) -> int {
    if pos > 0 {
        pos - 1
    } else {
        0
    }
}

/// One line entering a bounded history: appended, with the oldest line
/// evicted first when the history is at capacity.
pub open spec fn spec_push_line(buf: Seq<Seq<char>>, cap: nat, l: Seq<char>) -> Seq<Seq<char>> {
    if buf.len() < cap {
        buf.push(l)
    } else {
        buf.drop_first().push(l)
    }
}

/// A whole sequence of lines entering a bounded history, in order.
pub open spec fn spec_push_lines(buf: Seq<Seq<char>>, cap: nat, ls: Seq<Seq<char>>) -> Seq<
    Seq<char>,
>
    decreases ls.len(),
{
    if ls.len() == 0 {
        buf
    } else {
        spec_push_lines(spec_push_line(buf, cap, ls[0]), cap, ls.drop_first())
    }
}

/// Entering the lines one more line extends the fold by one step.
pub proof fn lemma_push_lines_snoc(buf: Seq<Seq<char>>, cap: nat, ls: Seq<Seq<char>>, l: Seq<char>)
    ensures
        spec_push_lines(buf, cap, ls.push(l)) == spec_push_line(spec_push_lines(buf, cap, ls), cap, l),
    decreases ls.len(),
{
    if ls.len() == 0 {
        assert(ls.push(l)[0] == l);
        assert(ls.push(l).drop_first() =~= Seq::<Seq<char>>::empty());
        assert(spec_push_lines(buf, cap, ls.push(l)) == spec_push_lines(
            spec_push_line(buf, cap, l),
            cap,
            Seq::<Seq<char>>::empty(),
        ));
        assert(spec_push_lines(buf, cap, ls) == buf);
    } else {
        assert(ls.push(l)[0] == ls[0]);
        assert(ls.push(l).drop_first() =~= ls.drop_first().push(l));
        lemma_push_lines_snoc(spec_push_line(buf, cap, ls[0]), cap, ls.drop_first(), l);
        assert(spec_push_lines(buf, cap, ls.push(l)) == spec_push_lines(
            spec_push_line(buf, cap, ls[0]),
            cap,
            ls.drop_first().push(l),
        ));
        assert(spec_push_lines(buf, cap, ls) == spec_push_lines(
            spec_push_line(buf, cap, ls[0]),
            cap,
            ls.drop_first(),
        ));
    }
}

/// The view state around the message window and the selector.
pub struct Ui {
    pub options_exchange: ExchangeOptions,
    pub show_logs: bool,
    pub string_input: String,
    pub selector_index: usize,
    pub options_window_index: usize,
    pub left_size: u16,
    pub right_size: u16,
    pub show_options: bool,
    pub show_string_input: bool,
    pub show_multi_select_input: bool,
    pub multi_select_index: usize,
    pub multi_select_list_items: Vec<String>,
    pub options_exchange_type: ExchangeTypeSer,
    pub options_count: usize,
    pub line_buffer: Vec<String>,
    pub line_buffer_size: usize,
    pub messages_window_height: usize,
    pub scroll_position: usize,
    pub messages_upper_scroll: usize,
    pub messages_lower_scroll: usize,
    pub selector_length: usize,
    pub selector_ids: Vec<u64>,
}

impl Ui {
    /// The rendered history, oldest line first.
    pub open spec fn lines(&self) -> Seq<Seq<char>> {
        self.line_buffer.deep_view()
    }

    /// The furthest the window can move up from the bottom: every line above
    /// that offset is already visible.
    pub open spec fn max_offset(&self) -> int {
        if self.lines().len() > self.messages_window_height {
            self.lines().len() - self.messages_window_height
        } else {
            0
        }
    }

    /// The state the view keeps in order: the buffer respects its capacity,
    /// the split sizes cover the whole width, the editor and kind-list
    /// indexes stay inside their fixed lists, and the scroll offset never
    /// points above the history.
    pub open spec fn wf(&self) -> bool {
        &&& self.line_buffer_size >= 1
        &&& self.lines().len() <= self.line_buffer_size
        &&& self.left_size + self.right_size == 100
        &&& self.left_size >= 1
        &&& self.right_size >= 1
        &&& self.options_count == OPTION_FIELD_COUNT
        &&& self.options_window_index < self.options_count
        &&& self.multi_select_list_items.deep_view() =~= seq![
            ExchangeTypeSer::Direct.spec_name(),
            ExchangeTypeSer::Fanout.spec_name(),
            ExchangeTypeSer::Topic.spec_name(),
            ExchangeTypeSer::Headers.spec_name(),
        ]
        &&& self.multi_select_index < 4
        &&& self.scroll_position <= self.lines().len()
    }

    /// A fresh view: empty history at full capacity, the selector at the
    /// top, a quarter/three-quarter split, logs shown, every popup hidden.
    pub fn new() -> (r: Ui)
        ensures
            r.wf(),
            r.lines() == Seq::<Seq<char>>::empty(),
            r.line_buffer_size == LINE_BUFFER_CAPACITY,
            r.selector_index == 0,
            r.options_window_index == 0,
            r.left_size == 25,
            r.right_size == 75,
            r.show_options == false,
            r.show_logs == true,
            r.show_string_input == false,
            r.show_multi_select_input == false,
            r.string_input@ == Seq::<char>::empty(),
            r.multi_select_index == 0,
            r.options_exchange_type == ExchangeTypeSer::Direct,
            r.options_count == OPTION_FIELD_COUNT,
            r.messages_window_height == 0,
            r.scroll_position == 0,
            r.messages_upper_scroll == 0,
            r.messages_lower_scroll == 0,
            r.selector_length == 0,
            r.selector_ids@ == Seq::<u64>::empty(),
    {
        let kinds = ExchangeTypeSer::iterator();
        let mut items: Vec<String> = Vec::new();
        let mut k: usize = 0;
        while k < kinds.len()
            invariant
                k <= kinds@.len(),
                kinds@ =~= seq![
                    ExchangeTypeSer::Direct,
                    ExchangeTypeSer::Fanout,
                    ExchangeTypeSer::Topic,
                    ExchangeTypeSer::Headers,
                ],
                items.deep_view() =~= kinds@.map_values(|t: ExchangeTypeSer| t.spec_name()).take(
                    k as int,
                ),
            decreases kinds@.len() - k,
        {
            let ghost prev = items.deep_view();
            let name = kinds[k].name();
            items.push(name);
            k = k + 1;
            proof {
                assert(items.deep_view() =~~= prev.push(kinds@[k - 1].spec_name()));
                assert(items.deep_view() =~~= kinds@.map_values(
                    |t: ExchangeTypeSer| t.spec_name(),
                ).take(k as int));
            }
        }
        let r = Ui {
            selector_index: 0,
            options_window_index: 0,
            left_size: 25,
            right_size: 75,
            show_options: false,
            show_logs: true,
            options_exchange: ExchangeOptions::default(),
            options_count: OPTION_FIELD_COUNT,
            line_buffer: Vec::new(),
            line_buffer_size: LINE_BUFFER_CAPACITY,
            messages_window_height: 0,
            show_string_input: false,
            string_input: String::new(),
            scroll_position: 0,
            messages_upper_scroll: 0,
            messages_lower_scroll: 0,
            show_multi_select_input: false,
            multi_select_index: 0,
            multi_select_list_items: items,
            options_exchange_type: ExchangeTypeSer::Direct,
            selector_length: 0,
            selector_ids: Vec::new(),
        };
        proof {
            assert(r.lines() =~= Seq::<Seq<char>>::empty());
            assert(r.multi_select_list_items.deep_view() =~= seq![
                ExchangeTypeSer::Direct.spec_name(),
                ExchangeTypeSer::Fanout.spec_name(),
                ExchangeTypeSer::Topic.spec_name(),
                ExchangeTypeSer::Headers.spec_name(),
            ]);
        }
        r
    }

    /// Appends one rendered line to the history. The buffer never grows past
    /// its capacity: at capacity, exactly the oldest line is evicted to make
    /// room, so the history is always the most recent lines in order.
    pub fn add_line(&mut self, line: &str)
        requires
            old(self).wf(),
        ensures
            final(self).wf(),
            old(self).lines().len() < old(self).line_buffer_size ==> final(self).lines()
                == old(self).lines().push(line@),
            old(self).lines().len() == old(self).line_buffer_size ==> final(self).lines()
                == old(self).lines().drop_first().push(line@),
            final(self).lines().len() <= final(self).line_buffer_size,
            final(self).scroll_position == old(self).scroll_position,
            *final(self) == (Ui {
                line_buffer: final(self).line_buffer,
                ..*old(self)
            }),
    {
        if self.line_buffer.len() == self.line_buffer_size {
            self.line_buffer.remove(0);
            proof {
                assert(self.lines() =~= old(self).lines().drop_first());
            }
        }
        let ghost mid = self.lines();
        self.line_buffer.push(line.to_owned());
        proof {
            assert(self.lines() =~= mid.push(line@));
        }
    }

    /// Forwards one rendered line to the batcher, under the exchange's log
    /// file; an exchange with no log file configured logs nothing.
    pub fn add_log(file_logger: &mut FileLogger, log_file: &str, line: &str)
        requires
            old(file_logger).wf(),
        ensures
            final(file_logger).wf(),
            log_file@.len() > 0 ==> final(file_logger).pending() == spec_add(
                old(file_logger).pending(),
                log_file@,
                line@,
            ),
            log_file@.len() == 0 ==> *final(file_logger) == *old(file_logger),
            final(file_logger).spec_wait_time() == old(file_logger).spec_wait_time(),
            final(file_logger).spec_since_last_write() == old(file_logger).spec_since_last_write(),
    {
        if log_file.unicode_len() > 0 {
            file_logger.add_to_buffer(log_file.to_owned(), line);
        }
    }

    /// The window of history shown this render pass, as half-open line
    /// bounds. In normal mode it is the most recent lines that fit the
    /// viewport; in scroll mode it is moved up by the stored offset, clamped
    /// so it never passes the first or the last line. The bounds are also
    /// stored for the scroll keys to consult.
    pub fn compute_window(&mut self, scroll_mode: bool) -> (w: (usize, usize))
        requires
            old(self).wf(),
        ensures
            final(self).wf(),
            w.0 <= w.1 <= final(self).lines().len(),
            w.1 - w.0 <= final(self).messages_window_height || final(self).messages_window_height
                == 0,
            final(self).messages_upper_scroll == w.0,
            final(self).messages_lower_scroll == w.1,
            ({
                let sw = spec_window(
                    old(self).lines().len() as int,
                    old(self).messages_window_height as int,
                    old(self).scroll_position as int,
                    scroll_mode,
                );
                w.0 == sw.0 && w.1 == sw.1
            }),
            ({
                let len = old(self).lines().len() as int;
                let h = old(self).messages_window_height as int;
                if !scroll_mode || len <= h {
                    w.0 == len - (if len <= h {
                        len
                    } else {
                        h
                    }) && w.1 == len
                } else {
                    ({
                        let p = if old(self).scroll_position <= len - h {
                            old(self).scroll_position as int
                        } else {
                            len - h
                        };
                        w.0 == len - h - p && w.1 == len - p
                    })
                }
            }),
            *final(self) == (Ui {
                messages_upper_scroll: final(self).messages_upper_scroll,
                messages_lower_scroll: final(self).messages_lower_scroll,
                ..*old(self)
            }),
    {
        let len = self.line_buffer.len();
        let h = self.messages_window_height;
        let upper: usize;
        let lower: usize;
        if !scroll_mode || len <= h {
            upper = if len <= h {
                0
            } else {
                len - h
            };
            lower = len;
        } else {
            let p = if self.scroll_position <= len - h {
                self.scroll_position
            } else {
                len - h
            };
            upper = len - h - p;
            lower = len - p;
        }
        self.messages_upper_scroll = upper;
        self.messages_lower_scroll = lower;
        (upper, lower)
    }

    /// One line up into older history; at the top of history this is a
    /// no-op.
    pub fn scroll_up(&mut self)
        requires
            old(self).wf(),
        ensures
            final(self).wf(),
            final(self).scroll_position == (if old(self).scroll_position < old(self).max_offset() {
                old(self).scroll_position + 1
            } else {
                old(self).max_offset()
            }),
            final(self).scroll_position == spec_scroll_up_pos(
                old(self).lines().len() as int,
                old(self).messages_window_height as int,
                old(self).scroll_position as int,
            ),
            *final(self) == (Ui {
                scroll_position: final(self).scroll_position,
                ..*old(self)
            }),
    {
        let len = self.line_buffer.len();
        let h = self.messages_window_height;
        let max_off = if len > h {
            len - h
        } else {
            0
        };
        if self.scroll_position < max_off {
            self.scroll_position = self.scroll_position + 1;
        } else {
            self.scroll_position = max_off;
        }
    }

    /// One line down towards the newest line; at the bottom this is a no-op.
    pub fn scroll_down(&mut self)
        requires
            old(self).wf(),
        ensures
            final(self).wf(),
            final(self).scroll_position == (if old(self).scroll_position > 0 {
                old(self).scroll_position - 1
            } else {
                0
            }),
            final(self).scroll_position == spec_scroll_down_pos(old(self).scroll_position as int),
            *final(self) == (Ui {
                scroll_position: final(self).scroll_position,
                ..*old(self)
            }),
    {
        if self.scroll_position > 0 {
            self.scroll_position = self.scroll_position - 1;
        }
    }

    /// A full window height up into older history, clamped at the top.
    pub fn scroll_up_page(&mut self)
        requires
            old(self).wf(),
        ensures
            final(self).wf(),
            final(self).scroll_position == (if old(self).scroll_position
                + old(self).messages_window_height < old(self).max_offset() {
                old(self).scroll_position + old(self).messages_window_height
            } else {
                old(self).max_offset()
            }),
            *final(self) == (Ui {
                scroll_position: final(self).scroll_position,
                ..*old(self)
            }),
    {
        let len = self.line_buffer.len();
        let h = self.messages_window_height;
        let max_off = if len > h {
            len - h
        } else {
            0
        };
        if self.scroll_position <= max_off && max_off - self.scroll_position > h {
            self.scroll_position = self.scroll_position + h;
        } else {
            self.scroll_position = max_off;
        }
    }

    /// A full window height down towards the newest line, clamped at the
    /// bottom.
    pub fn scroll_down_page(&mut self)
        requires
            old(self).wf(),
        ensures
            final(self).wf(),
            final(self).scroll_position == (if old(self).scroll_position >= old(self).messages_window_height {
                old(self).scroll_position - old(self).messages_window_height
            } else {
                0
            }),
            *final(self) == (Ui {
                scroll_position: final(self).scroll_position,
                ..*old(self)
            }),
    {
        if self.scroll_position >= self.messages_window_height {
            self.scroll_position = self.scroll_position - self.messages_window_height;
        } else {
            self.scroll_position = 0;
        }
    }

    /// Records the viewport height the renderer measured this pass.
    pub fn set_messages_window_height(&mut self, h: usize)
        requires
            old(self).wf(),
        ensures
            final(self).wf(),
            final(self).messages_window_height == h,
            *final(self) == (Ui {
                messages_window_height: h,
                ..*old(self)
            }),
    {
        self.messages_window_height = h;
    }

    /// Selector down one row, stopping at the last row.
    pub fn main_index_down(&mut self)
        requires
            old(self).wf(),
        ensures
            final(self).wf(),
            final(self).selector_index == (if old(self).selector_length > 0 && old(self).selector_index < old(self).selector_length - 1 {
                old(self).selector_index + 1
            } else {
                old(self).selector_index as int
            }),
            *final(self) == (Ui {
                selector_index: final(self).selector_index,
                ..*old(self)
            }),
    {
        if self.selector_length > 0 && self.selector_index < self.selector_length - 1 {
            self.selector_index = self.selector_index + 1;
        }
    }

    /// Selector up one row, stopping at the first row.
    pub fn main_index_up(&mut self)
        requires
            old(self).wf(),
        ensures
            final(self).wf(),
            final(self).selector_index == (if old(self).selector_index > 0 {
                old(self).selector_index - 1
            } else {
                0
            }),
            *final(self) == (Ui {
                selector_index: final(self).selector_index,
                ..*old(self)
            }),
    {
        if self.selector_index > 0 {
            self.selector_index = self.selector_index - 1;
        }
    }

    /// Options editor down one field, stopping at the last editable field.
    pub fn options_index_down(&mut self)
        requires
            old(self).wf(),
        ensures
            final(self).wf(),
            final(self).options_window_index == (if old(self).options_window_index < old(self).options_count - 1 {
                old(self).options_window_index + 1
            } else {
                old(self).options_window_index as int
            }),
            *final(self) == (Ui {
                options_window_index: final(self).options_window_index,
                ..*old(self)
            }),
    {
        if self.options_window_index < self.options_count - 1 {
            self.options_window_index = self.options_window_index + 1;
        }
    }

    /// Options editor up one field, stopping at the first field.
    pub fn options_index_up(&mut self)
        requires
            old(self).wf(),
        ensures
            final(self).wf(),
            final(self).options_window_index == (if old(self).options_window_index > 0 {
                old(self).options_window_index - 1
            } else {
                0
            }),
            *final(self) == (Ui {
                options_window_index: final(self).options_window_index,
                ..*old(self)
            }),
    {
        if self.options_window_index > 0 {
            self.options_window_index = self.options_window_index - 1;
        }
    }

    /// Kind list down one entry, stopping at the last kind.
    pub fn multi_select_index_down(&mut self)
        requires
            old(self).wf(),
        ensures
            final(self).wf(),
            final(self).multi_select_index == (if old(self).multi_select_index < 3 {
                old(self).multi_select_index + 1
            } else {
                old(self).multi_select_index as int
            }),
            *final(self) == (Ui {
                multi_select_index: final(self).multi_select_index,
                ..*old(self)
            }),
    {
        let options_count = ExchangeTypeSer::iterator().len();
        if self.multi_select_index < options_count - 1 {
            self.multi_select_index = self.multi_select_index + 1;
        }
    }

    /// Kind list up one entry, stopping at the first kind.
    pub fn multi_select_index_up(&mut self)
        requires
            old(self).wf(),
        ensures
            final(self).wf(),
            final(self).multi_select_index == (if old(self).multi_select_index > 0 {
                old(self).multi_select_index - 1
            } else {
                0
            }),
            *final(self) == (Ui {
                multi_select_index: final(self).multi_select_index,
                ..*old(self)
            }),
    {
        if self.multi_select_index > 0 {
            self.multi_select_index = self.multi_select_index - 1;
        }
    }

    /// Moves one percent of width from the left pane to the right, keeping
    /// at least one percent on the left.
    pub fn left_resize(&mut self)
        requires
            old(self).wf(),
        ensures
            final(self).wf(),
            final(self).left_size == (if old(self).left_size > 1 {
                old(self).left_size - 1
            } else {
                old(self).left_size as int
            }),
            final(self).left_size + final(self).right_size == 100,
            *final(self) == (Ui {
                left_size: final(self).left_size,
                right_size: final(self).right_size,
                ..*old(self)
            }),
    {
        if self.left_size > 1 {
            self.left_size = self.left_size - 1;
            self.right_size = self.right_size + 1;
        }
    }

    /// Moves one percent of width from the right pane to the left, keeping
    /// at least one percent on the right.
    pub fn right_resize(&mut self)
        requires
            old(self).wf(),
        ensures
            final(self).wf(),
            final(self).right_size == (if old(self).right_size > 1 {
                old(self).right_size - 1
            } else {
                old(self).right_size as int
            }),
            final(self).left_size + final(self).right_size == 100,
            *final(self) == (Ui {
                left_size: final(self).left_size,
                right_size: final(self).right_size,
                ..*old(self)
            }),
    {
        if self.right_size > 1 {
            self.right_size = self.right_size - 1;
            self.left_size = self.left_size + 1;
        }
    }

    /// Opens the options editor over the given exchange.
    pub fn show_options_popup(&mut self, exchange: ExchangeOptions)
        requires
            old(self).wf(),
        ensures
            final(self).wf(),
            final(self).options_exchange == exchange,
            final(self).show_options == true,
            *final(self) == (Ui {
                options_exchange: exchange,
                show_options: true,
                ..*old(self)
            }),
    {
        self.options_exchange = exchange;
        self.show_options = true;
    }

    /// Closes the options editor.
    pub fn hide_options_popup(&mut self)
        requires
            old(self).wf(),
        ensures
            final(self).wf(),
            *final(self) == (Ui {
                show_options: false,
                ..*old(self)
            }),
    {
        self.show_options = false;
    }

    /// The identifier of the exchange the selector rests on.
    pub fn get_selected_item_id(&self) -> (r: u64)
        requires
            self.selector_index < self.selector_ids@.len(),
        ensures
            r == self.selector_ids@[self.selector_index as int],
    {
        self.selector_ids[self.selector_index]
    }

    /// Opens the text input, pre-filled with the field's current text.
    pub fn show_string_input(&mut self, edit_string: String)
        requires
            old(self).wf(),
        ensures
            final(self).wf(),
            *final(self) == (Ui {
                show_string_input: true,
                string_input: edit_string,
                ..*old(self)
            }),
    {
        self.show_string_input = true;
        self.string_input = edit_string;
    }

    /// Opens the kind list, remembering the field's current kind.
    pub fn show_multi_select_input(&mut self, exchange_type: ExchangeTypeSer)
        requires
            old(self).wf(),
        ensures
            final(self).wf(),
            *final(self) == (Ui {
                show_multi_select_input: true,
                options_exchange_type: exchange_type,
                ..*old(self)
            }),
    {
        self.show_multi_select_input = true;
        self.options_exchange_type = exchange_type;
    }

    /// Closes the kind list without changing anything.
    pub fn hide_multi_select_input(&mut self)
        requires
            old(self).wf(),
        ensures
            final(self).wf(),
            *final(self) == (Ui {
                show_multi_select_input: false,
                ..*old(self)
            }),
    {
        self.show_multi_select_input = false;
    }

    /// Applies the picked exchange kind to the exchange under edit and
    /// closes the kind list.
    pub fn multi_select_change_value(&mut self)
        requires
            old(self).wf(),
        ensures
            final(self).wf(),
            final(self).show_multi_select_input == false,
            final(self).options_exchange.exchange_type == ExchangeTypeSer::spec_from_name(
                old(self).multi_select_list_items.deep_view()[old(self).multi_select_index as int],
            ),
            final(self).options_exchange == (ExchangeOptions {
                exchange_type: final(self).options_exchange.exchange_type,
                ..old(self).options_exchange
            }),
            *final(self) == (Ui {
                show_multi_select_input: false,
                options_exchange: final(self).options_exchange,
                ..*old(self)
            }),
    {
        self.show_multi_select_input = false;
        let selected = ExchangeTypeSer::from(self.multi_select_list_items[
            self.multi_select_index
        ].as_str());
        self.options_exchange.exchange_type = selected;
    }

    /// Starts editing the field the editor rests on. A boolean field is
    /// toggled on the spot; a text field hands back its current text for the
    /// text input; the kind field hands back the current kind for the kind
    /// list.
    pub fn options_change_value(&mut self) -> (r: EditType)
        requires
            old(self).wf(),
        ensures
            final(self).wf(),
            old(self).options_window_index == 0 ==> (r matches EditType::Text(s) && s@ == old(self).options_exchange.exchange_name@),
            old(self).options_window_index == 1 ==> (r matches EditType::MultiSelect(k) && k
                == old(self).options_exchange.exchange_type),
            old(self).options_window_index == 2 ==> (r matches EditType::Text(s) && s@ == old(self).options_exchange.queue_routing_key@),
            old(self).options_window_index == 3 ==> (r matches EditType::Text(s) && s@ == old(self).options_exchange.alias@),
            old(self).options_window_index == 4 ==> (r is NoEdit
                && final(self).options_exchange.pretty == !old(self).options_exchange.pretty
                && final(self).options_exchange == (ExchangeOptions {
                pretty: !old(self).options_exchange.pretty,
                ..old(self).options_exchange
            }) && *final(self) == (Ui {
                options_exchange: final(self).options_exchange,
                ..*old(self)
            })),
            old(self).options_window_index == 5 ==> (r matches EditType::Text(s) && s@ == old(self).options_exchange.log_file@),
            old(self).options_window_index == 6 ==> (r matches EditType::Text(s) && s@ == old(self).options_exchange.publish_file@),
            old(self).options_window_index != 4 ==> *final(self) == *old(self),
    {
        match self.options_window_index {
            0 => EditType::Text(self.options_exchange.exchange_name.clone()),
            1 => EditType::MultiSelect(self.options_exchange.exchange_type),
            2 => EditType::Text(self.options_exchange.queue_routing_key.clone()),
            3 => EditType::Text(self.options_exchange.alias.clone()),
            4 => {
                self.options_exchange.pretty = !self.options_exchange.pretty;
                EditType::NoEdit
            },
            5 => EditType::Text(self.options_exchange.log_file.clone()),
            _ => EditType::Text(self.options_exchange.publish_file.clone()),
        }
    }

    /// Writes the typed text into the text field under edit and closes the
    /// text input; the typed text is consumed. The kind field and the
    /// boolean field take no text.
    pub fn set_option_value_string(&mut self)
        requires
            old(self).wf(),
        ensures
            final(self).wf(),
            final(self).show_string_input == false,
            final(self).string_input@ == Seq::<char>::empty(),
            old(self).options_window_index == 0 ==> final(self).options_exchange
                == (ExchangeOptions {
                exchange_name: final(self).options_exchange.exchange_name,
                ..old(self).options_exchange
            }) && final(self).options_exchange.exchange_name@ == old(self).string_input@,
            old(self).options_window_index == 2 ==> final(self).options_exchange
                == (ExchangeOptions {
                queue_routing_key: final(self).options_exchange.queue_routing_key,
                ..old(self).options_exchange
            }) && final(self).options_exchange.queue_routing_key@ == old(self).string_input@,
            old(self).options_window_index == 3 ==> final(self).options_exchange
                == (ExchangeOptions {
                alias: final(self).options_exchange.alias,
                ..old(self).options_exchange
            }) && final(self).options_exchange.alias@ == old(self).string_input@,
            old(self).options_window_index == 5 ==> final(self).options_exchange
                == (ExchangeOptions {
                log_file: final(self).options_exchange.log_file,
                ..old(self).options_exchange
            }) && final(self).options_exchange.log_file@ == old(self).string_input@,
            old(self).options_window_index == 6 ==> final(self).options_exchange
                == (ExchangeOptions {
                publish_file: final(self).options_exchange.publish_file,
                ..old(self).options_exchange
            }) && final(self).options_exchange.publish_file@ == old(self).string_input@,
            old(self).options_window_index == 1 || old(self).options_window_index == 4 ==> final(self).options_exchange == old(self).options_exchange,
            *final(self) == (Ui {
                show_string_input: false,
                string_input: final(self).string_input,
                options_exchange: final(self).options_exchange,
                ..*old(self)
            }),
    {
        self.show_string_input = false;
        match self.options_window_index {
            0 => {
                self.options_exchange.exchange_name = self.string_input.clone();
            },
            2 => {
                self.options_exchange.queue_routing_key = self.string_input.clone();
            },
            3 => {
                self.options_exchange.alias = self.string_input.clone();
            },
            5 => {
                self.options_exchange.log_file = self.string_input.clone();
            },
            6 => {
                self.options_exchange.publish_file = self.string_input.clone();
            },
            _ => {},
        }
        self.string_input = String::new();
    }

    /// Recomputes the selector rows from the configured exchanges and the
    /// filter text: exchanges whose display name contains the filter
    /// (case-insensitively) are listed, sorted by name, and their
    /// identifiers are recorded so the selected row can be resolved.
    pub fn update_selector(&mut self, items: &Vec<ExchangeOptions>, filter: &str) -> (rows: Vec<
        SelectorRow,
    >)
        requires
            old(self).wf(),
        ensures
            final(self).wf(),
            rows_sorted(rows@),
            rows@.map_values(|r: SelectorRow| row_view(r)).to_multiset() == items@.map_values(|x: ExchangeOptions| row_of(x)).filter(
                |t: (Seq<char>, SelectedState, u64)| row_kept(t, filter@),
            ).to_multiset(),
            final(self).selector_ids@ == rows@.map_values(|r: SelectorRow| r.id),
            final(self).selector_length == rows@.len(),
            *final(self) == (Ui {
                selector_ids: final(self).selector_ids,
                selector_length: final(self).selector_length,
                ..*old(self)
            }),
    {
        broadcast use vstd::seq_lib::group_to_multiset_ensures;

        let ghost pred = |t: (Seq<char>, SelectedState, u64)| row_kept(t, filter@);
        let needle = to_lower(filter);
        let mut picked: Vec<SelectorRow> = Vec::new();
        let mut i: usize = 0;
        proof {
            assert(items@.take(0).map_values(|x: ExchangeOptions| row_of(x)) =~= Seq::<
                (Seq<char>, SelectedState, u64),
            >::empty());
            assert(picked@.map_values(|r: SelectorRow| row_view(r)) =~= items@.take(0).map_values(|x: ExchangeOptions| row_of(x)).filter(
                pred,
            ));
        }
        while i < items.len()
            invariant
                i <= items@.len(),
                needle@ == lower_of(filter@),
                picked@.map_values(|r: SelectorRow| row_view(r)) == items@.take(i as int).map_values(|x: ExchangeOptions| row_of(x)).filter(
                    pred,
                ),
                pred == (|t: (Seq<char>, SelectedState, u64)| row_kept(t, filter@)),
            decreases items@.len() - i,
        {
            let item = &items[i];
            let name = item.display_name();
            let lowered = to_lower(name.as_str());
            let ghost prev = picked@.map_values(|r: SelectorRow| row_view(r));
            if str_contains(lowered.as_str(), needle.as_str()) {
                picked.push(SelectorRow { name, state: item.selected_state, id: item.id });
                proof {
                    assert(picked@.map_values(|r: SelectorRow| row_view(r)) =~= prev.push(row_of(items@[i as int])));
                }
            }
            proof {
                let taken = items@.take(i as int).map_values(|x: ExchangeOptions| row_of(x));
                lemma_filter_push(taken, pred, row_of(items@[i as int]));
                assert(items@.take(i + 1).map_values(|x: ExchangeOptions| row_of(x)) =~= taken.push(
                    row_of(items@[i as int]),
                ));
                assert(picked@.map_values(|r: SelectorRow| row_view(r)) =~= items@.take(i + 1).map_values(
                    |x: ExchangeOptions| row_of(x),
                ).filter(pred));
            }
            i = i + 1;
        }
        proof {
            assert(items@.take(i as int) =~= items@);
        }
        let rows = sort_rows(picked);
        proof {
            lemma_to_multiset_map(picked@, rows@, |r: SelectorRow| row_view(r));
        }
        let mut ids: Vec<u64> = Vec::new();
        let mut k: usize = 0;
        while k < rows.len()
            invariant
                k <= rows@.len(),
                ids@ == rows@.take(k as int).map_values(|r: SelectorRow| r.id),
            decreases rows@.len() - k,
        {
            let ghost prev = ids@;
            ids.push(rows[k].id);
            k = k + 1;
            proof {
                assert(rows@.take(k as int) =~= rows@.take(k - 1).push(rows@[k - 1]));
                assert(ids@ =~= rows@.take(k as int).map_values(|r: SelectorRow| r.id));
            }
        }
        proof {
            assert(rows@.take(rows@.len() as int) =~= rows@);
        }
        self.selector_ids = ids;
        self.selector_length = rows.len();
        rows
    }

    /// The half-open row window of the selector list to draw: when the list
    /// outgrows the view, the window slides just far enough that the resting
    /// row stays visible; otherwise the whole list shows.
    pub fn selector_window(length: usize, window_height: usize, index: usize) -> (w: (usize, usize))
        ensures
            w.0 <= w.1 <= length,
            length <= window_height ==> w.0 == 0 && w.1 == length,
            length > window_height ==> w.1 - w.0 == window_height && ({
                let at = if index < length {
                    index as int
                } else {
                    length - 1
                };
                w.0 == (if at >= window_height {
                    at - window_height + 1
                } else {
                    0
                }) && (window_height > 0 ==> w.0 <= at < w.1)
            }),
    {
        if length > window_height {
            let at = if index < length {
                index
            } else {
                length - 1
            };
            let diff = if at >= window_height {
                at - window_height + 1
            } else {
                0
            };
            (diff, window_height + diff)
        } else {
            (0, length)
        }
    }

    /// Closes the text input and discards what was typed.
    pub fn hide_string_input(&mut self)
        requires
            old(self).wf(),
        ensures
            final(self).wf(),
            final(self).show_string_input == false,
            final(self).string_input@ == Seq::<char>::empty(),
            *final(self) == (Ui {
                show_string_input: false,
                string_input: final(self).string_input,
                ..*old(self)
            }),
    {
        self.show_string_input = false;
        self.string_input = String::new();
    }
}

} // verus!
