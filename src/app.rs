use std::collections::HashMap;
use vstd::prelude::*;
use vstd::std_specs::iter::IteratorSpec;

use crate::process::ProcessData;
use crate::ranking::{is_ranked, is_stable_arrangement, sort_rows};

verus! {

/// An event of the merged stream that drives the monitor: a key press, or
/// the periodic signal to sample again.
pub enum InputEvent<I> {
    Input(I),
    Tick,
}

/// The keys that the monitor tells apart.
#[derive(Clone, Copy, Debug, PartialEq, Eq, Structural)]
pub enum Key {
    Char(char),
    Up,
    Down,
    Other,
}

/// What the consumer loop does for an event.
#[derive(Clone, Copy, Debug, PartialEq, Eq, Structural)]
pub enum Command {
    Quit,
    SelectNext,
    SelectPrevious,
    Refresh,
    Ignore,
}

/// The command for an event: `q` and `x` quit, the arrow keys move the
/// selection, a tick samples again, and other keys are ignored.
pub open spec fn command_of(event: InputEvent<Key>) -> Command {
    match event {
        InputEvent::Tick => Command::Refresh,
        InputEvent::Input(Key::Char(c)) => if c == 'q' || c == 'x' {
            Command::Quit
        } else {
            Command::Ignore
        },
        InputEvent::Input(Key::Down) => Command::SelectNext,
        InputEvent::Input(Key::Up) => Command::SelectPrevious,
        InputEvent::Input(Key::Other) => Command::Ignore,
    }
}

/// Decides what the consumer loop does for an event.
pub fn command_for(event: &InputEvent<Key>) -> (r: Command)
    ensures
        r == command_of(*event),
{
    match event {
        InputEvent::Tick => Command::Refresh,
        InputEvent::Input(Key::Char(c)) => {
            if *c == 'q' || *c == 'x' {
                Command::Quit
            } else {
                Command::Ignore
            }
        },
        InputEvent::Input(Key::Down) => Command::SelectNext,
        InputEvent::Input(Key::Up) => Command::SelectPrevious,
        InputEvent::Input(Key::Other) => Command::Ignore,
    }
}

/// How long the event producer may wait for a key before the next tick is
/// due: what is left of the tick interval, or nothing once it has passed.
pub fn poll_timeout(tick_rate_ms: u64, elapsed_ms: u64) -> (r: u64)
    ensures
        elapsed_ms >= tick_rate_ms ==> r == 0,
        elapsed_ms < tick_rate_ms ==> r == tick_rate_ms - elapsed_ms,
{
    if elapsed_ms >= tick_rate_ms {
        0
    } else {
        tick_rate_ms - elapsed_ms
    }
}

/// The row below `i` among `n`, wrapping to the first.
pub open spec fn next_index(i: nat, n: nat) -> nat {
    if i + 1 >= n {
        0
    } else {
        i + 1
    }
}

/// The row above `i` among `n`, wrapping to the last.
pub open spec fn previous_index(i: nat, n: nat) -> nat {
    if i > 0 {
        (i - 1) as nat
    } else {
        (n - 1) as nat
    }
}

/// The row reached from `i` by `k` moves down among `n`.
pub open spec fn next_index_times(i: nat, k: nat, n: nat) -> nat
    decreases k,
{
    if k == 0 {
        i
    } else {
        next_index(next_index_times(i, (k - 1) as nat, n), n)
    }
}

/// A selection index kept in range after the rows changed: the last row
/// where there are fewer rows now.
pub open spec fn clamp_index(i: nat, n: nat) -> nat {
    if n == 0 {
        0
    } else if i >= n {
        (n - 1) as nat
    } else {
        i
    }
}

proof fn lemma_next_index_times_mod(i: nat, k: nat, n: nat)
    requires
        i < n,
    ensures
        next_index_times(i, k, n) as int == (i + k) as int % (n as int),
    decreases k,
{
    if k > 0 {
        lemma_next_index_times_mod(i, (k - 1) as nat, n);
        let j = (i + k - 1) % (n as int);
        vstd::arithmetic::div_mod::lemma_add_mod_noop(i + k - 1, 1, n as int);
        if n > 1 {
            vstd::arithmetic::div_mod::lemma_small_mod(1, n);
        }
        if j + 1 < n {
            vstd::arithmetic::div_mod::lemma_small_mod((j + 1) as nat, n);
        } else {
            vstd::arithmetic::div_mod::lemma_mod_self_0(n as int);
        }
    } else {
        vstd::arithmetic::div_mod::lemma_small_mod(i, n);
    }
}

/// Moving down once per row comes back to the row where it started, and
/// moving up from the first row reaches the last.
pub proof fn lemma_navigation_wraps(i: nat, n: nat)
    requires
        i < n,
    ensures
        next_index_times(i, n, n) == i,
        previous_index(0, n) == n - 1,
{
    lemma_next_index_times_mod(i, n, n);
    vstd::arithmetic::div_mod::lemma_add_mod_noop(i as int, n as int, n as int);
    vstd::arithmetic::div_mod::lemma_mod_self_0(n as int);
    vstd::arithmetic::div_mod::lemma_small_mod(i, n);
}

/// The values of `m` under the keys `ks`, in that order.
pub open spec fn values_at(ks: Seq<i32>, m: Map<i32, ProcessData>) -> Seq<ProcessData> {
    ks.map_values(|k: i32| m[k])
}

/// Whether `r` lists the values of `m` once per key, in ranking order.
pub open spec fn ranks_values(r: Seq<ProcessData>, m: Map<i32, ProcessData>) -> bool {
    &&& is_ranked(r)
    &&& exists|ks: Seq<i32>, p: Seq<int>|
        {
            &&& ks.no_duplicates()
            &&& ks.to_set() == m.dom()
            &&& #[trigger] is_stable_arrangement(r, values_at(ks, m), p)
        }
}

/// The state of the monitor's screen: the metrics of the last round and
/// the selected row.
pub struct App {
    data: HashMap<i32, ProcessData>,
    selected: usize,
}

/// The abstract state of an `App`.
pub struct AppView {
    pub data: Map<i32, ProcessData>,
    pub selected: nat,
}

impl View for App {
    type V = AppView;

    closed spec fn view(&self) -> AppView {
        AppView { data: self.data@, selected: self.selected as nat }
    }
}

impl ProcessData {
    /// A copy of this row.
    pub fn copy_row(&self) -> (r: ProcessData)
        ensures
            r == *self,
    {
        ProcessData {
            pid: self.pid,
            status: self.status.clone(),
            parent_pid: self.parent_pid,
            name: self.name.clone(),
            command: self.command.clone(),
            cpu_usage_percent: self.cpu_usage_percent,
            mem_usage_percent: self.mem_usage_percent,
            disk_read_bytes: self.disk_read_bytes,
            disk_write_bytes: self.disk_write_bytes,
            uid: self.uid,
            priority: self.priority,
        }
    }
}

impl App {
    /// Whether the selection is a row of the table, or 0 where it is empty.
    pub open spec fn wf(&self) -> bool {
        self@.selected == clamp_index(self@.selected, self@.data.len())
    }

    /// Starts with the given metrics and the first row selected.
    pub fn new(data: HashMap<i32, ProcessData>) -> (r: Self)
        ensures
            r.wf(),
            r@.data == data@,
            r@.selected == 0,
    {
        let data = data;
        Self { data, selected: 0 }
    }

    /// The metrics of the last round.
    pub fn data(&self) -> (r: &HashMap<i32, ProcessData>)
        ensures
            r@ == self@.data,
    {
        &self.data
    }

    /// The selected row.
    pub fn selected(&self) -> (r: usize)
        ensures
            r == self@.selected,
    {
        self.selected
    }

    /// Replaces the metrics wholesale; the selection keeps its position,
    /// moved to the last row where the table got shorter.
    pub fn update_data(&mut self, data: &HashMap<i32, ProcessData>)
        requires
            old(self).wf(),
        ensures
            final(self).wf(),
            final(self)@.data == data@,
            final(self)@.selected == clamp_index(old(self)@.selected, data@.len()),
    {
        self.data = data.clone();
        let n = self.data.len();
        if n == 0 {
            self.selected = 0;
        } else if self.selected >= n {
            self.selected = n - 1;
        }
    }

    /// Moves the selection one row down, from the last row to the first; does
    /// nothing on an empty table.
    pub fn select_next(&mut self)
        requires
            old(self).wf(),
        ensures
            final(self).wf(),
            final(self)@.data == old(self)@.data,
            old(self)@.data.len() == 0 ==> final(self)@.selected == old(self)@.selected,
            old(self)@.data.len() > 0 ==> final(self)@.selected == next_index(
                old(self)@.selected,
                old(self)@.data.len(),
            ),
    {
        let n = self.data.len();
        if n > 0 {
            if self.selected >= n - 1 {
                self.selected = 0;
            } else {
                self.selected = self.selected + 1;
            }
        }
    }

    /// Moves the selection one row up, from the first row to the last; does
    /// nothing on an empty table.
    pub fn select_previous(&mut self)
        requires
            old(self).wf(),
        ensures
            final(self).wf(),
            final(self)@.data == old(self)@.data,
            old(self)@.data.len() == 0 ==> final(self)@.selected == old(self)@.selected,
            old(self)@.data.len() > 0 ==> final(self)@.selected == previous_index(
                old(self)@.selected,
                old(self)@.data.len(),
            ),
    {
        let n = self.data.len();
        if n > 0 {
            if self.selected > 0 {
                self.selected = self.selected - 1;
            } else {
                self.selected = n - 1;
            }
        }
    }

    /// The rows of the table, in ranking order.
    pub fn sorted_rows(&self) -> (r: Vec<ProcessData>)
        ensures
            ranks_values(r@, self@.data),
    {
        let mut rows: Vec<ProcessData> = Vec::new();
        let ghost m = self.data@;
        let ghost ks = IteratorSpec::remaining(&self.data.keys()).unref();
        assert(ks.to_set() == m.dom());
        for k in it: self.data.keys()
            invariant
                m == self.data@,
                it.seq().unref() == ks,
                ks.to_set() == m.dom(),
                rows.len() == it.index(),
                forall|i: int| 0 <= i < rows.len() ==> #[trigger] rows[i] == m[ks[i]],
        {
            assert(ks[it.index()] == *k);
            assert(ks.contains(*k));
            if let Some(d) = self.data.get(k) {
                rows.push(d.copy_row());
            }
        }
        let ghost v = rows@;
        assert(v =~= values_at(ks, m));
        let r = sort_rows(rows);
        r
    }
}

} // verus!
