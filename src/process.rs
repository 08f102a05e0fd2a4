use std::collections::HashMap;
use vstd::prelude::*;
use vstd::string::*;
use vstd::utf8::encode_utf8;

verus! {

/// Units of a percentage: values are kept in millionths of a percent.
pub const PERCENT_SCALE: u128 = 1_000_000;

/// System-wide cumulative CPU tick buckets.
#[derive(Clone, Copy, Debug, PartialEq, Eq, Structural)]
pub struct CpuTime {
    pub user: u64,
    pub nice: u64,
    pub system: u64,
    pub idle: u64,
    pub iowait: u64,
    pub irq: u64,
    pub softirq: u64,
    pub steal: u64,
}

/// Idle ticks of a sample. As in this monitor's accounting convention, the
/// idle share is counted from the user bucket plus iowait, not from the idle
/// bucket.
pub open spec fn idle_ticks(t: CpuTime) -> nat {
    (t.user + t.iowait) as nat
}

/// Busy ticks of a sample.
pub open spec fn non_idle_ticks(t: CpuTime) -> nat {
    (t.user + t.nice + t.system + t.irq + t.softirq + t.steal) as nat
}

/// The CPU time that elapsed between two rounds, as the per-process
/// percentages need it.
#[derive(Clone, Copy, Debug, PartialEq, Eq, Structural)]
pub struct CpuUsage {
    /// Busy ticks of the interval, floored at 1 (where the interval had none,
    /// or the counters went back).
    pub elapsed_ticks: i128,
    /// All ticks of the interval. The busy fraction is
    /// `elapsed_ticks / total_delta`, or zero where `total_delta` is zero.
    pub total_delta: i128,
}

/// The interval between a round whose totals were `prev_idle`,
/// `prev_non_idle` and the sample `t`.
pub open spec fn usage_of(prev_idle: int, prev_non_idle: int, t: CpuTime) -> CpuUsage {
    let total_delta = (idle_ticks(t) + non_idle_ticks(t)) - (prev_idle + prev_non_idle);
    let idle_delta = idle_ticks(t) - prev_idle;
    let busy = total_delta - idle_delta;
    CpuUsage {
        elapsed_ticks: (if busy >= 1 { busy } else { 1 }) as i128,
        total_delta: total_delta as i128,
    }
}

/// Returns the idle and the busy ticks of a sample.
pub fn get_idle_times(times: &CpuTime) -> (r: (u128, u128))
    ensures
        r.0 == idle_ticks(*times),
        r.1 == non_idle_ticks(*times),
{
    let user = times.user as u128;
    let idle = user + times.iowait as u128;
    let non_idle = user + times.nice as u128 + times.system as u128 + times.irq as u128
        + times.softirq as u128 + times.steal as u128;
    (idle, non_idle)
}

/// Computes the interval since the previous round and stores the totals of
/// `times` as the previous round's.
pub fn calculate_usage(times: &CpuTime, prev_idle: &mut u128, prev_non_idle: &mut u128) -> (r:
    CpuUsage)
    requires
        *old(prev_idle) <= 2 * u64::MAX,
        *old(prev_non_idle) <= 6 * u64::MAX,
    ensures
        r == usage_of(*old(prev_idle) as int, *old(prev_non_idle) as int, *times),
        r.elapsed_ticks >= 1,
        *final(prev_idle) == idle_ticks(*times),
        *final(prev_non_idle) == non_idle_ticks(*times),
{
    let (idle, non_idle) = get_idle_times(times);
    let total = idle as i128 + non_idle as i128;
    let prev_total = *prev_idle as i128 + *prev_non_idle as i128;
    let total_delta: i128 = total - prev_total;
    let idle_delta: i128 = idle as i128 - *prev_idle as i128;
    *prev_idle = idle;
    *prev_non_idle = non_idle;
    let busy: i128 = total_delta - idle_delta;
    let elapsed_ticks: i128 = if busy >= 1 {
        busy
    } else {
        1
    };
    CpuUsage { elapsed_ticks, total_delta }
}

/// CPU share of a process whose ticks grew by `delta` over the interval
/// `usage`: `delta / elapsed * 100 * (elapsed / total_delta)`, rounded down,
/// in millionths of a percent. It is zero where no time elapsed or where the
/// interval's total is not positive; the elapsed factors cancel.
pub open spec fn cpu_percent(delta: nat, usage: CpuUsage) -> nat {
    if usage.elapsed_ticks == 0 || usage.total_delta <= 0 {
        0
    } else {
        ((delta * 100 * PERCENT_SCALE) as nat / (usage.total_delta as nat)) as nat
    }
}

/// Ticks gained since `prev`; zero where the counter went back (the id was
/// reused by a younger process, or the counter restarted).
pub open spec fn tick_delta(current: nat, prev: nat) -> nat {
    if current >= prev {
        (current - prev) as nat
    } else {
        0
    }
}

/// Resident memory as a share of the total, rounded down, in millionths of
/// a percent; zero where the total is unknown (zero).
pub open spec fn mem_percent(rss_bytes: nat, total_memory_bytes: nat) -> nat {
    if total_memory_bytes == 0 {
        0
    } else {
        ((rss_bytes * 100 * PERCENT_SCALE) as nat / total_memory_bytes) as nat
    }
}

/// Returns the CPU share of a process over `usage` and its new cumulative
/// tick count, `utime + stime`.
pub fn get_final_usage(utime: u64, stime: u64, usage: CpuUsage, prev_proc_times: u128) -> (r: (
    u128,
    u128,
))
    ensures
        r.1 == utime + stime,
        r.0 == cpu_percent(tick_delta(r.1 as nat, prev_proc_times as nat), usage),
{
    let new_proc_times = utime as u128 + stime as u128;
    let diff: u128 = if new_proc_times >= prev_proc_times {
        new_proc_times - prev_proc_times
    } else {
        0
    };
    if usage.elapsed_ticks == 0 || usage.total_delta <= 0 {
        (0, new_proc_times)
    } else {
        assert(diff * 100 * PERCENT_SCALE <= 0x3_0000_0000_0000_0000 * 100_000_000) by (nonlinear_arith)
            requires
                diff <= 0x2_0000_0000_0000_0000,
        ;
        let percent = diff * 100 * PERCENT_SCALE / (usage.total_delta as u128);
        (percent, new_proc_times)
    }
}

/// Returns the resident memory of a process as a share of the total.
pub fn memory_usage(rss_bytes: u64, total_memory_bytes: u64) -> (r: u128)
    ensures
        r == mem_percent(rss_bytes as nat, total_memory_bytes as nat),
{
    if total_memory_bytes == 0 {
        0
    } else {
        let rss = rss_bytes as u128;
        assert(rss * 100 * PERCENT_SCALE <= 0x1_0000_0000_0000_0000 * 100_000_000) by (nonlinear_arith)
            requires
                rss <= 0xFFFF_FFFF_FFFF_FFFF,
        ;
        rss * 100 * PERCENT_SCALE / (total_memory_bytes as u128)
    }
}

/// Longest name that the kernel keeps in a process's stat record; a name of
/// this length may have been cut short.
pub const MAX_STAT_NAME_LEN: usize = 12;

/// The part of `s` after its last `/`, if it holds one.
pub open spec fn last_segment(s: Seq<char>) -> Option<Seq<char>>
    decreases s.len(),
{
    if s.len() == 0 {
        None
    } else if s.last() == '/' {
        Some(Seq::empty())
    } else {
        match last_segment(s.drop_last()) {
            Some(t) => Some(t.push(s.last())),
            None => None,
        }
    }
}

/// Relies on str::rsplit_once: it splits at the last `/`, and yields the
/// part after it; `None` where `s` holds no `/`.
#[verifier::external_body]
fn after_last_slash(s: &str) -> (r: Option<String>)
    ensures
        match r {
            Some(t) => last_segment(s@) == Some(t@),
            None => last_segment(s@) is None,
        },
{
    s.rsplit_once('/').map(|(_prefix, suffix)| suffix.to_string())
}

/// The arguments of a command line joined by single spaces.
pub open spec fn joined(parts: Seq<Seq<char>>) -> Seq<char>
    decreases parts.len(),
{
    if parts.len() == 0 {
        Seq::empty()
    } else if parts.len() == 1 {
        parts[0]
    } else {
        joined(parts.drop_last()) + seq![' '] + parts.last()
    }
}

/// The views of a sequence of strings.
pub open spec fn views(v: Seq<String>) -> Seq<Seq<char>> {
    v.map_values(|s: String| s@)
}

/// The command shown for a process: its command line, or its short name in
/// brackets where the command line is empty (a kernel thread), or the short
/// name alone where the command line could not be read.
pub open spec fn command_of(comm: Seq<char>, cmdline: Option<Seq<Seq<char>>>) -> Seq<char> {
    match cmdline {
        None => comm,
        Some(parts) => if parts.len() == 0 {
            seq!['['] + comm + seq![']']
        } else {
            joined(parts)
        },
    }
}

/// The name shown for a process: its short name, unless that may have been
/// cut short and the command line's first argument holds a path, whose last
/// segment is then taken.
pub open spec fn name_of(comm: Seq<char>, cmdline: Option<Seq<Seq<char>>>) -> Seq<char> {
    match cmdline {
        Some(parts) => if parts.len() > 0 && encode_utf8(comm).len() >= MAX_STAT_NAME_LEN {
            match last_segment(parts[0]) {
                Some(t) => t,
                None => comm,
            }
        } else {
            comm
        },
        None => comm,
    }
}

/// The view of a command line that may not have been readable.
pub open spec fn cmdline_view(cmdline: Option<Vec<String>>) -> Option<Seq<Seq<char>>> {
    match cmdline {
        Some(v) => Some(views(v@)),
        None => None,
    }
}

fn join_parts(parts: &Vec<String>) -> (r: String)
    ensures
        r@ == joined(views(parts@)),
{
    let mut r = String::new();
    let mut i: usize = 0;
    while i < parts.len()
        invariant
            i <= parts.len(),
            r@ == joined(views(parts@.subrange(0, i as int))),
        decreases parts.len() - i,
    {
        let ghost next = views(parts@.subrange(0, i as int + 1));
        assert(next.drop_last() =~= views(parts@.subrange(0, i as int)));
        assert(next.last() == parts@[i as int]@);
        if i > 0 {
            r.append(" ");
        }
        r.append(parts[i].as_str());
        proof {
            reveal_strlit(" ");
            if i == 0 {
                assert(r@ =~= next[0]);
            } else {
                assert(r@ =~= joined(next.drop_last()) + seq![' '] + next.last());
            }
        }
        i = i + 1;
    }
    assert(parts@.subrange(0, i as int) =~= parts@);
    r
}

/// Returns the command and the name shown for a process, from its short
/// name and its command line (`None` where it could not be read).
pub fn get_process_strings(comm: &String, cmdline: &Option<Vec<String>>) -> (r: (String, String))
    ensures
        r.0@ == command_of(comm@, cmdline_view(*cmdline)),
        r.1@ == name_of(comm@, cmdline_view(*cmdline)),
{
    let truncated_name = comm.as_str();
    match cmdline {
        Some(parts) => {
            if parts.len() == 0 {
                let mut command = String::from_str("[");
                command.append(truncated_name);
                command.append("]");
                proof {
                    reveal_strlit("[");
                    reveal_strlit("]");
                    assert(command@ =~= seq!['['] + comm@ + seq![']']);
                }
                (command, comm.clone())
            } else {
                assert(views(parts@)[0] == parts@[0]@);
                assert(views(parts@).len() == parts@.len());
                let name = if truncated_name.as_bytes().len() >= MAX_STAT_NAME_LEN {
                    match after_last_slash(parts[0].as_str()) {
                        Some(segment) => segment,
                        None => comm.clone(),
                    }
                } else {
                    comm.clone()
                };
                (join_parts(parts), name)
            }
        },
        None => (comm.clone(), comm.clone()),
    }
}

/// What `sysinfo` shows for a process state letter.
pub open spec fn status_text_of(state: char) -> Seq<char> {
    match state {
        'R' => "Runnable"@,
        'S' => "Sleeping"@,
        'I' => "Idle"@,
        'D' => "UninterruptibleDiskSleep"@,
        'Z' => "Zombie"@,
        'T' => "Stopped"@,
        't' => "Tracing"@,
        'X' | 'x' => "Dead"@,
        'K' => "Wakekill"@,
        'W' => "Waking"@,
        'P' => "Parked"@,
        _ => "Unknown"@,
    }
}

/// Relies on sysinfo's `ProcessStatus::from(char)`, which maps a state letter
/// to a status, and on that status's `Display`, which names it.
#[verifier::external_body]
fn status_text(state: char) -> (r: String)
    ensures
        r@ == status_text_of(state),
{
    sysinfo::ProcessStatus::from(state).to_string()
}

/// What the process table of the system reports of one process in a round.
#[derive(Clone, Debug)]
pub struct ProcessSample {
    pub pid: i32,
    pub parent_pid: i32,
    /// Short name, as the kernel keeps it (at most 15 bytes).
    pub comm: String,
    /// Arguments of the command line; `None` where it could not be read.
    pub cmdline: Option<Vec<String>>,
    /// Cumulative ticks spent in user mode.
    pub utime: u64,
    /// Cumulative ticks spent in kernel mode.
    pub stime: u64,
    pub priority: i64,
    pub rss_bytes: u64,
    /// Cumulative bytes read and written; `None` where access was denied.
    pub io_bytes: Option<(u64, u64)>,
    pub uid: Option<u32>,
    /// State letter (`R`, `S`, `D`, ...).
    pub state: char,
}

/// Metrics of one live process in one round.
#[derive(Clone, Debug, Default)]
pub struct ProcessData {
    pub pid: i32,
    pub status: String,
    pub parent_pid: i32,
    pub name: String,
    pub command: String,
    /// CPU share over the last interval, in millionths of a percent.
    pub cpu_usage_percent: u128,
    /// Share of physical memory, in millionths of a percent.
    pub mem_usage_percent: u128,
    pub disk_read_bytes: Option<u64>,
    pub disk_write_bytes: Option<u64>,
    pub uid: Option<u32>,
    pub priority: i64,
}

/// Cumulative CPU ticks of a sampled process.
pub open spec fn ticks_of(s: ProcessSample) -> nat {
    (s.utime + s.stime) as nat
}

/// Whether `d` holds the metrics of the sample `s`, over the interval
/// `usage`, for a process whose ticks were `prev` in the round before.
pub open spec fn metrics_of(
    d: ProcessData,
    s: ProcessSample,
    usage: CpuUsage,
    prev: nat,
    total_memory_bytes: nat,
) -> bool {
    &&& d.pid == s.pid
    &&& d.parent_pid == s.parent_pid
    &&& d.priority == s.priority
    &&& d.uid == s.uid
    &&& d.status@ == status_text_of(s.state)
    &&& d.command@ == command_of(s.comm@, cmdline_view(s.cmdline))
    &&& d.name@ == name_of(s.comm@, cmdline_view(s.cmdline))
    &&& d.cpu_usage_percent == cpu_percent(tick_delta(ticks_of(s), prev), usage)
    &&& d.mem_usage_percent == mem_percent(s.rss_bytes as nat, total_memory_bytes)
    &&& d.disk_read_bytes == match s.io_bytes {
        Some(io) => Some(io.0),
        None => None::<u64>,
    }
    &&& d.disk_write_bytes == match s.io_bytes {
        Some(io) => Some(io.1),
        None => None::<u64>,
    }
}

impl ProcessData {
    /// Builds the metrics of a sampled process, and returns them with the
    /// process's new cumulative tick count.
    pub fn new(
        sample: &ProcessSample,
        usage: CpuUsage,
        prev_cpu_time: u128,
        total_memory_bytes: u64,
    ) -> (r: (Self, u128))
        ensures
            metrics_of(r.0, *sample, usage, prev_cpu_time as nat, total_memory_bytes as nat),
            r.1 == ticks_of(*sample),
    {
        let (command, name) = get_process_strings(&sample.comm, &sample.cmdline);
        let (cpu_usage_percent, new_process_time) = get_final_usage(
            sample.utime,
            sample.stime,
            usage,
            prev_cpu_time,
        );
        let (disk_read_bytes, disk_write_bytes) = match sample.io_bytes {
            Some(io) => (Some(io.0), Some(io.1)),
            None => (None, None),
        };
        let mem_usage_percent = memory_usage(sample.rss_bytes, total_memory_bytes);
        let data = ProcessData {
            pid: sample.pid,
            parent_pid: sample.parent_pid,
            cpu_usage_percent,
            mem_usage_percent,
            priority: sample.priority,
            disk_read_bytes,
            disk_write_bytes,
            name,
            command,
            uid: sample.uid,
            status: status_text(sample.state),
        };
        (data, new_process_time)
    }
}

/// The ids of a round's samples.
pub open spec fn pids_of(samples: Seq<ProcessSample>) -> Set<i32> {
    Set::new(|pid: i32| exists|i: int| 0 <= i < samples.len() && samples[i].pid == pid)
}

/// Whether no two samples of a round share an id.
pub open spec fn distinct_pids(samples: Seq<ProcessSample>) -> bool {
    forall|i: int, j: int|
        0 <= i < samples.len() && 0 <= j < samples.len() && i != j ==> samples[i].pid
            != samples[j].pid
}

/// Ticks that a process had in the round before: zero where it was not seen.
pub open spec fn prev_ticks(ticks: Map<i32, u128>, pid: i32) -> nat {
    if ticks.contains_key(pid) {
        ticks[pid] as nat
    } else {
        0
    }
}

/// Runs one sampling round: the metrics of every sampled process replace
/// those in `data`, the system totals of `times` become the previous round's,
/// and `cpu_times` then holds the tick count of exactly the sampled processes.
pub fn read_process_data(
    samples: &Vec<ProcessSample>,
    times: &CpuTime,
    data: &mut HashMap<i32, ProcessData>,
    prev_idle: &mut u128,
    prev_non_idle: &mut u128,
    cpu_times: &mut HashMap<i32, u128>,
    total_memory_bytes: u64,
)
    requires
        distinct_pids(samples@),
        *old(prev_idle) <= 2 * u64::MAX,
        *old(prev_non_idle) <= 6 * u64::MAX,
    ensures
        *final(prev_idle) == idle_ticks(*times),
        *final(prev_non_idle) == non_idle_ticks(*times),
        final(data)@.dom() == pids_of(samples@),
        final(cpu_times)@.dom() == pids_of(samples@),
        forall|i: int|
            0 <= i < samples@.len() ==> {
                let s = #[trigger] samples@[i];
                &&& metrics_of(
                    final(data)@[s.pid],
                    s,
                    usage_of(*old(prev_idle) as int, *old(prev_non_idle) as int, *times),
                    prev_ticks(old(cpu_times)@, s.pid),
                    total_memory_bytes as nat,
                )
                &&& final(cpu_times)@[s.pid] == ticks_of(s)
            },
{
    let usage = calculate_usage(times, prev_idle, prev_non_idle);
    data.clear();
    let mut new_times: HashMap<i32, u128> = HashMap::new();
    let mut i: usize = 0;
    while i < samples.len()
        invariant
            i <= samples.len(),
            distinct_pids(samples@),
            data@.dom() == pids_of(samples@.subrange(0, i as int)),
            new_times@.dom() == pids_of(samples@.subrange(0, i as int)),
            forall|j: int|
                0 <= j < i ==> {
                    let s = #[trigger] samples@[j];
                    &&& metrics_of(
                        data@[s.pid],
                        s,
                        usage,
                        prev_ticks(cpu_times@, s.pid),
                        total_memory_bytes as nat,
                    )
                    &&& new_times@[s.pid] == ticks_of(s)
                },
        decreases samples.len() - i,
    {
        let sample = &samples[i];
        let pid = sample.pid;
        let prev: u128 = match cpu_times.get(&pid) {
            Some(t) => *t,
            None => 0,
        };
        let (process_data, new_process_cpu_times) = ProcessData::new(
            sample,
            usage,
            prev,
            total_memory_bytes,
        );
        new_times.insert(pid, new_process_cpu_times);
        data.insert(pid, process_data);
        proof {
            let before = samples@.subrange(0, i as int);
            let after = samples@.subrange(0, i as int + 1);
            assert(pids_of(after) =~= pids_of(before).insert(pid)) by {
                assert forall|p: i32| pids_of(after).contains(p) implies pids_of(
                    before,
                ).insert(pid).contains(p) by {
                    let k = choose|k: int| 0 <= k < after.len() && after[k].pid == p;
                    if k < i {
                        assert(before[k].pid == p);
                    }
                }
                assert forall|p: i32| pids_of(before).insert(pid).contains(p) implies pids_of(
                    after,
                ).contains(p) by {
                    if p == pid {
                        assert(after[i as int].pid == p);
                    } else {
                        let k = choose|k: int| 0 <= k < before.len() && before[k].pid == p;
                        assert(after[k].pid == p);
                    }
                }
            }
        }
        i = i + 1;
    }
    assert(samples@.subrange(0, i as int) =~= samples@);
    *cpu_times = new_times;
}

/// A process whose tick count is the same in two consecutive rounds reports
/// no CPU use, whatever the interval.
pub proof fn lemma_unchanged_ticks_report_no_cpu(s: ProcessSample, usage: CpuUsage, prev: nat)
    requires
        ticks_of(s) == prev,
    ensures
        cpu_percent(tick_delta(ticks_of(s), prev), usage) == 0,
{
}

/// Where the system counters of a round add up to those of the round before,
/// the interval is empty and every process reports no CPU use, whatever its
/// ticks did.
pub proof fn lemma_empty_interval_reports_no_cpu(
    prev_idle: nat,
    prev_non_idle: nat,
    t: CpuTime,
    delta: nat,
)
    requires
        idle_ticks(t) + non_idle_ticks(t) == prev_idle + prev_non_idle,
    ensures
        usage_of(prev_idle as int, prev_non_idle as int, t).total_delta == 0,
        cpu_percent(delta, usage_of(prev_idle as int, prev_non_idle as int, t)) == 0,
{
}

/// A record of a round whose process kept its tick count from the round
/// before shows no CPU use.
pub proof fn lemma_record_of_unchanged_ticks_shows_no_cpu(
    d: ProcessData,
    s: ProcessSample,
    usage: CpuUsage,
    prev: nat,
    total_memory_bytes: nat,
)
    requires
        metrics_of(d, s, usage, prev, total_memory_bytes),
        ticks_of(s) == prev,
    ensures
        d.cpu_usage_percent == 0,
{
    lemma_unchanged_ticks_report_no_cpu(s, usage, prev);
}

/// Every record of a round whose system counters add up to those of the
/// round before shows no CPU use.
pub proof fn lemma_records_of_empty_interval_show_no_cpu(
    d: ProcessData,
    s: ProcessSample,
    prev_idle: nat,
    prev_non_idle: nat,
    t: CpuTime,
    prev: nat,
    total_memory_bytes: nat,
)
    requires
        idle_ticks(t) + non_idle_ticks(t) == prev_idle + prev_non_idle,
        metrics_of(
            d,
            s,
            usage_of(prev_idle as int, prev_non_idle as int, t),
            prev,
            total_memory_bytes,
        ),
    ensures
        d.cpu_usage_percent == 0,
{
    lemma_empty_interval_reports_no_cpu(prev_idle, prev_non_idle, t, tick_delta(ticks_of(s), prev));
}

} // verus!
