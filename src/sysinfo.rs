use std::collections::HashMap;
use vstd::prelude::*;

use crate::process::{
    self, CpuTime, ProcessData, ProcessSample, distinct_pids, idle_ticks, metrics_of,
    non_idle_ticks, pids_of, prev_ticks, ticks_of, usage_of,
};

verus! {

/// Accounting state kept from one sampling round to the next.
pub struct Sysinfo {
    prev_idle: u128,
    prev_non_idle: u128,
    cpu_times: HashMap<i32, u128>,
    pub total_memory_bytes: u64,
}

/// The abstract state of a `Sysinfo`.
pub struct SysinfoView {
    /// Idle ticks of the previous round.
    pub prev_idle: nat,
    /// Busy ticks of the previous round.
    pub prev_non_idle: nat,
    /// Cumulative ticks of each process seen in the previous round.
    pub ticks: Map<i32, u128>,
    pub total_memory_bytes: nat,
}

impl View for Sysinfo {
    type V = SysinfoView;

    closed spec fn view(&self) -> SysinfoView {
        SysinfoView {
            prev_idle: self.prev_idle as nat,
            prev_non_idle: self.prev_non_idle as nat,
            ticks: self.cpu_times@,
            total_memory_bytes: self.total_memory_bytes as nat,
        }
    }
}

impl Sysinfo {
    /// Whether the previous totals are those of a real sample.
    pub closed spec fn wf(&self) -> bool {
        &&& self.prev_idle <= 2 * u64::MAX
        &&& self.prev_non_idle <= 6 * u64::MAX
    }

    /// Starts the accounting with no previous round, for a machine with
    /// `total_memory_bytes` of physical memory.
    pub fn new(total_memory_bytes: u64) -> (r: Self)
        ensures
            r.wf(),
            r@.prev_idle == 0,
            r@.prev_non_idle == 0,
            r@.ticks == Map::<i32, u128>::empty(),
            r@.total_memory_bytes == total_memory_bytes,
    {
        Sysinfo { prev_idle: 0, prev_non_idle: 0, cpu_times: HashMap::new(), total_memory_bytes }
    }

    /// Runs one sampling round on the processes `samples` and the system
    /// counters `times`; `data` then holds the metrics of exactly the sampled
    /// processes.
    pub fn read_process_data(
        &mut self,
        samples: &Vec<ProcessSample>,
        times: &CpuTime,
        data: &mut HashMap<i32, ProcessData>,
    )
        requires
            old(self).wf(),
            distinct_pids(samples@),
        ensures
            final(self).wf(),
            final(self)@.prev_idle == idle_ticks(*times),
            final(self)@.prev_non_idle == non_idle_ticks(*times),
            final(self)@.total_memory_bytes == old(self)@.total_memory_bytes,
            final(self)@.ticks.dom() == pids_of(samples@),
            final(data)@.dom() == pids_of(samples@),
            forall|i: int|
                0 <= i < samples@.len() ==> {
                    let s = #[trigger] samples@[i];
                    &&& metrics_of(
                        final(data)@[s.pid],
                        s,
                        usage_of(
                            old(self)@.prev_idle as int,
                            old(self)@.prev_non_idle as int,
                            *times,
                        ),
                        prev_ticks(old(self)@.ticks, s.pid),
                        old(self)@.total_memory_bytes,
                    )
                    &&& final(self)@.ticks[s.pid] == ticks_of(s)
                },
    {
        process::read_process_data(
            samples,
            times,
            data,
            &mut self.prev_idle,
            &mut self.prev_non_idle,
            &mut self.cpu_times,
            self.total_memory_bytes,
        );
    }
}

} // verus!
