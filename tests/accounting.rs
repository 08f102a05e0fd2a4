use std::collections::HashMap;
use task_manager_linux::process::{
    get_final_usage, get_process_strings, memory_usage, read_process_data, CpuTime, CpuUsage,
    ProcessData, ProcessSample,
};
use task_manager_linux::sysinfo::Sysinfo;

fn buckets(user: u64, idle: u64) -> CpuTime {
    CpuTime { user, nice: 0, system: 0, idle, iowait: 0, irq: 0, softirq: 0, steal: 0 }
}

fn sample(pid: i32, ticks: u64) -> ProcessSample {
    ProcessSample {
        pid,
        parent_pid: 1,
        comm: "worker".to_string(),
        cmdline: Some(vec!["/usr/bin/worker".to_string(), "--fast".to_string()]),
        utime: ticks,
        stime: 0,
        priority: 20,
        rss_bytes: 104857600,
        io_bytes: Some((4096, 8192)),
        uid: Some(1000),
        state: 'R',
    }
}

fn round(sys: &mut Sysinfo, samples: &Vec<ProcessSample>, times: &CpuTime) -> HashMap<i32, ProcessData> {
    let mut data = HashMap::new();
    sys.read_process_data(samples, times, &mut data);
    data
}

#[test]
fn busy_interval_gives_expected_cpu_share() {
    let mut sys = Sysinfo::new(1073741824);
    let first = round(&mut sys, &vec![sample(42, 20)], &buckets(100, 900));
    // first round: all 200 ticks are new, 100 of them busy
    assert_eq!(first[&42].cpu_usage_percent, 10_000_000);
    let second = round(&mut sys, &vec![sample(42, 40)], &buckets(150, 950));
    assert_eq!(second[&42].cpu_usage_percent, 20_000_000);
}

#[test]
fn interval_between_two_rounds() {
    let mut prev_idle: u128 = 0;
    let mut prev_non_idle: u128 = 0;
    let mut data = HashMap::new();
    let mut ticks = HashMap::new();
    read_process_data(&vec![], &buckets(100, 900), &mut data, &mut prev_idle, &mut prev_non_idle, &mut ticks, 1);
    assert_eq!((prev_idle, prev_non_idle), (100, 100));
    let usage = task_manager_linux::process::calculate_usage(&buckets(150, 950), &mut prev_idle, &mut prev_non_idle);
    assert_eq!(usage, CpuUsage { elapsed_ticks: 50, total_delta: 100 });
    assert_eq!(get_final_usage(40, 0, usage, 20), (20_000_000, 40));
}

#[test]
fn unchanged_ticks_report_no_cpu() {
    let mut sys = Sysinfo::new(1073741824);
    round(&mut sys, &vec![sample(5, 300)], &buckets(100, 900));
    let next = round(&mut sys, &vec![sample(5, 300)], &buckets(180, 990));
    assert_eq!(next[&5].cpu_usage_percent, 0);
}

#[test]
fn identical_system_counters_report_no_cpu() {
    let mut sys = Sysinfo::new(1073741824);
    round(&mut sys, &vec![sample(1, 10), sample(2, 10)], &buckets(500, 900));
    let next = round(&mut sys, &vec![sample(1, 90), sample(2, 500)], &buckets(500, 900));
    assert_eq!(next[&1].cpu_usage_percent, 0);
    assert_eq!(next[&2].cpu_usage_percent, 0);
}

#[test]
fn tick_map_follows_the_live_processes() {
    let mut prev_idle: u128 = 0;
    let mut prev_non_idle: u128 = 0;
    let mut data = HashMap::new();
    let mut ticks = HashMap::new();
    ticks.insert(99, 7u128);
    read_process_data(
        &vec![sample(1, 10), sample(2, 20)],
        &buckets(100, 900),
        &mut data,
        &mut prev_idle,
        &mut prev_non_idle,
        &mut ticks,
        1073741824,
    );
    let mut keys: Vec<i32> = ticks.keys().copied().collect();
    keys.sort();
    assert_eq!(keys, vec![1, 2]);
    assert_eq!(ticks[&2], 20);
    let mut rows: Vec<i32> = data.keys().copied().collect();
    rows.sort();
    assert_eq!(rows, vec![1, 2]);
}

#[test]
fn vanished_process_is_forgotten_and_reused_id_never_goes_negative() {
    let mut sys = Sysinfo::new(1073741824);
    round(&mut sys, &vec![sample(7, 100), sample(8, 0)], &buckets(100, 900));
    let second = round(&mut sys, &vec![sample(8, 0)], &buckets(150, 950));
    assert!(!second.contains_key(&7));
    // id 7 comes back with fewer ticks than it had two rounds ago
    let third = round(&mut sys, &vec![sample(7, 30), sample(8, 0)], &buckets(200, 1000));
    assert_eq!(third[&7].cpu_usage_percent, 30_000_000);
}

#[test]
fn lower_tick_count_is_clamped_to_zero() {
    let usage = CpuUsage { elapsed_ticks: 50, total_delta: 100 };
    assert_eq!(get_final_usage(5, 5, usage, 100), (0, 10));
}

#[test]
fn memory_share_of_hundred_mib_in_one_gib() {
    assert_eq!(memory_usage(104857600, 1073741824), 9_765_625);
    let mut sys = Sysinfo::new(1073741824);
    let data = round(&mut sys, &vec![sample(3, 0)], &buckets(1, 1));
    assert_eq!(data[&3].mem_usage_percent, 9_765_625);
}

#[test]
fn unknown_total_memory_gives_zero_share() {
    assert_eq!(memory_usage(4096, 0), 0);
}

#[test]
fn record_carries_the_sample() {
    let mut sys = Sysinfo::new(1073741824);
    let data = round(&mut sys, &vec![sample(11, 0)], &buckets(1, 1));
    let d = &data[&11];
    assert_eq!(d.pid, 11);
    assert_eq!(d.parent_pid, 1);
    assert_eq!(d.priority, 20);
    assert_eq!(d.uid, Some(1000));
    assert_eq!(d.disk_read_bytes, Some(4096));
    assert_eq!(d.disk_write_bytes, Some(8192));
    assert_eq!(d.status, "Runnable");
    assert_eq!(d.command, "/usr/bin/worker --fast");
    assert_eq!(d.name, "worker");
}

#[test]
fn denied_io_leaves_disk_counters_absent() {
    let mut s = sample(12, 0);
    s.io_bytes = None;
    s.uid = None;
    s.state = 'S';
    let mut sys = Sysinfo::new(1073741824);
    let data = round(&mut sys, &vec![s], &buckets(1, 1));
    assert_eq!(data[&12].disk_read_bytes, None);
    assert_eq!(data[&12].disk_write_bytes, None);
    assert_eq!(data[&12].uid, None);
    assert_eq!(data[&12].status, "Sleeping");
}

#[test]
fn kernel_thread_command_is_bracketed() {
    let (command, name) = get_process_strings(&"kworker/0:1".to_string(), &Some(vec![]));
    assert_eq!(command, "[kworker/0:1]");
    assert_eq!(name, "kworker/0:1");
}

#[test]
fn unreadable_command_line_falls_back_to_short_name() {
    let (command, name) = get_process_strings(&"sshd".to_string(), &None);
    assert_eq!(command, "sshd");
    assert_eq!(name, "sshd");
}

#[test]
fn long_short_name_takes_last_path_segment() {
    let (command, name) = get_process_strings(
        &"gnome-shell-ca".to_string(),
        &Some(vec!["/usr/libexec/gnome-shell-calendar-server".to_string()]),
    );
    assert_eq!(command, "/usr/libexec/gnome-shell-calendar-server");
    assert_eq!(name, "gnome-shell-calendar-server");
}

#[test]
fn long_short_name_without_path_is_kept() {
    let (command, name) = get_process_strings(
        &"averylongname".to_string(),
        &Some(vec!["averylongname".to_string(), "-v".to_string()]),
    );
    assert_eq!(command, "averylongname -v");
    assert_eq!(name, "averylongname");
}

#[test]
fn counters_going_back_floor_elapsed_ticks_at_one() {
    let mut prev_idle: u128 = 0;
    let mut prev_non_idle: u128 = 10;
    let usage = task_manager_linux::process::calculate_usage(&buckets(0, 0), &mut prev_idle, &mut prev_non_idle);
    assert_eq!(usage, CpuUsage { elapsed_ticks: 1, total_delta: -10 });
    assert_eq!(get_final_usage(40, 0, usage, 0), (0, 40));
}
