use std::collections::HashMap;
use task_manager_linux::app::{command_for, poll_timeout, App, Command, InputEvent, Key};
use task_manager_linux::process::ProcessData;
use task_manager_linux::ranking::sort_rows;

fn row(pid: i32, cpu: u128, mem: u128) -> ProcessData {
    ProcessData {
        pid,
        cpu_usage_percent: cpu,
        mem_usage_percent: mem,
        ..ProcessData::default()
    }
}

fn table(n: i32) -> HashMap<i32, ProcessData> {
    let mut m = HashMap::new();
    for pid in 0..n {
        m.insert(pid, row(pid, pid as u128, 0));
    }
    m
}

#[test]
fn sort_orders_by_cpu_then_memory() {
    let rows = vec![row(1, 5, 1), row(2, 9, 0), row(3, 5, 7), row(4, 0, 9)];
    let pids: Vec<i32> = sort_rows(rows).iter().map(|r| r.pid).collect();
    assert_eq!(pids, vec![2, 3, 1, 4]);
}

#[test]
fn sort_keeps_order_of_equal_rows() {
    let rows = vec![row(10, 3, 3), row(11, 8, 0), row(12, 3, 3), row(13, 3, 3)];
    let pids: Vec<i32> = sort_rows(rows).iter().map(|r| r.pid).collect();
    assert_eq!(pids, vec![11, 10, 12, 13]);
}

#[test]
fn sort_of_no_rows_is_empty() {
    assert!(sort_rows(vec![]).is_empty());
}

#[test]
fn table_rows_are_ranked() {
    let mut m = HashMap::new();
    m.insert(1, row(1, 2, 0));
    m.insert(2, row(2, 2, 5));
    m.insert(3, row(3, 7, 0));
    let app = App::new(m);
    let pids: Vec<i32> = app.sorted_rows().iter().map(|r| r.pid).collect();
    assert_eq!(pids, vec![3, 2, 1]);
}

#[test]
fn select_next_row_count_times_returns_to_start() {
    let mut app = App::new(table(4));
    app.select_next();
    let start = app.selected();
    for _ in 0..4 {
        app.select_next();
    }
    assert_eq!(app.selected(), start);
}

#[test]
fn select_next_wraps_from_last_row() {
    let mut app = App::new(table(3));
    app.select_next();
    app.select_next();
    assert_eq!(app.selected(), 2);
    app.select_next();
    assert_eq!(app.selected(), 0);
}

#[test]
fn select_previous_from_first_row_reaches_last() {
    let mut app = App::new(table(5));
    app.select_previous();
    assert_eq!(app.selected(), 4);
    app.select_previous();
    assert_eq!(app.selected(), 3);
}

#[test]
fn navigation_on_empty_table_does_nothing() {
    let mut app = App::new(HashMap::new());
    app.select_next();
    app.select_previous();
    assert_eq!(app.selected(), 0);
}

#[test]
fn shorter_table_clamps_selection() {
    let mut app = App::new(table(5));
    app.select_previous();
    assert_eq!(app.selected(), 4);
    app.update_data(&table(2));
    assert_eq!(app.selected(), 1);
    assert_eq!(app.data().len(), 2);
    app.update_data(&HashMap::new());
    assert_eq!(app.selected(), 0);
}

#[test]
fn events_map_to_commands() {
    assert_eq!(command_for(&InputEvent::Tick), Command::Refresh);
    assert_eq!(command_for(&InputEvent::Input(Key::Char('q'))), Command::Quit);
    assert_eq!(command_for(&InputEvent::Input(Key::Char('x'))), Command::Quit);
    assert_eq!(command_for(&InputEvent::Input(Key::Char('a'))), Command::Ignore);
    assert_eq!(command_for(&InputEvent::Input(Key::Down)), Command::SelectNext);
    assert_eq!(command_for(&InputEvent::Input(Key::Up)), Command::SelectPrevious);
    assert_eq!(command_for(&InputEvent::Input(Key::Other)), Command::Ignore);
}

#[test]
fn poll_waits_for_rest_of_interval() {
    assert_eq!(poll_timeout(1800, 300), 1500);
    assert_eq!(poll_timeout(1800, 1800), 0);
    assert_eq!(poll_timeout(1800, 2500), 0);
}
