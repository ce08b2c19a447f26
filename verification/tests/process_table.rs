use nuko::process_table::{entry_in_directory, ProcessEntry, ProcessSnapshot};
use nuko::registry::Registry;

fn process(pid: u32, cwd: Option<&str>, cpu_usage: u32, memory: u64) -> ProcessEntry {
    ProcessEntry { pid, cwd: cwd.map(|c| c.to_string()), cpu_usage, memory }
}

#[test]
fn empty_snapshot_matches_nothing() {
    let snapshot = ProcessSnapshot::new();
    assert_eq!(snapshot.len(), 0);
    assert!(!snapshot.is_running("/srv/a"));
    assert_eq!(snapshot.pids_in("/srv/a"), Vec::<u32>::new());
    assert_eq!(snapshot.usage_in("/srv/a"), (0, 0));
}

#[test]
fn snapshot_selects_by_working_directory() {
    let mut snapshot = ProcessSnapshot::new();
    assert!(snapshot.record(process(3, Some("/srv/a"), 150, 10)));
    assert!(snapshot.record(process(1, Some("/srv/b"), 250, 20)));
    assert!(snapshot.record(process(2, None, 350, 30)));
    assert!(snapshot.record(process(9, Some("/srv/a"), 450, 40)));
    assert_eq!(snapshot.len(), 4);
    assert!(snapshot.is_running("/srv/a"));
    assert!(snapshot.is_running("/srv/b"));
    assert!(!snapshot.is_running("/srv"));
    assert!(!snapshot.is_running(""));
    assert_eq!(snapshot.pids_in("/srv/a"), vec![3, 9]);
    assert_eq!(snapshot.pids_in("/srv/b"), vec![1]);
    assert_eq!(snapshot.usage_in("/srv/a"), (600, 50));
    assert_eq!(snapshot.usage_in("/srv/b"), (250, 20));
    assert_eq!(snapshot.usage_in("/srv/c"), (0, 0));
}

#[test]
fn snapshot_refuses_what_would_overflow_its_totals() {
    let mut snapshot = ProcessSnapshot::new();
    assert!(snapshot.record(process(1, Some("/srv/a"), 1, u64::MAX - 1)));
    assert!(!snapshot.record(process(2, Some("/srv/a"), 1, 2)));
    assert_eq!(snapshot.len(), 1);
    assert!(snapshot.record(process(3, Some("/srv/a"), u32::MAX, 1)));
    assert_eq!(snapshot.len(), 2);
    assert_eq!(snapshot.usage_in("/srv/a"), (u32::MAX as u64 + 1, u64::MAX));
    assert_eq!(snapshot.pids_in("/srv/a"), vec![1, 3]);
}

#[test]
fn a_process_without_directory_is_in_no_directory() {
    assert!(!entry_in_directory(&process(1, None, 0, 0), ""));
    assert!(entry_in_directory(&process(1, Some(""), 0, 0), ""));
    assert!(entry_in_directory(&process(1, Some("/a"), 0, 0), "/a"));
    assert!(!entry_in_directory(&process(1, Some("/a"), 0, 0), "/A"));
}

#[test]
fn registry_holds_each_key_once() {
    let mut registry: Registry<u32> = Registry::new();
    assert_eq!(registry.len(), 0);
    assert_eq!(registry.insert("a".to_string(), 1), None);
    assert_eq!(registry.insert("b".to_string(), 2), None);
    assert_eq!(registry.insert("a".to_string(), 3), Some(1));
    assert_eq!(registry.len(), 2);
    assert_eq!(registry.get("a"), Some(&3));
    assert_eq!(registry.get("b"), Some(&2));
    assert_eq!(registry.get("c"), None);
    assert!(registry.contains_key("a"));
    assert!(!registry.contains_key("A"));
    assert_eq!(registry.remove("a"), Some(3));
    assert_eq!(registry.remove("a"), None);
    assert_eq!(registry.len(), 1);
    assert_eq!(registry.get("b"), Some(&2));
    assert_eq!(registry.insert("c".to_string(), 4), None);
    assert_eq!(registry.remove("b"), Some(2));
    assert_eq!(registry.get("c"), Some(&4));
    assert_eq!(registry.len(), 1);
}

#[test]
fn registry_appends_to_registered_lists_only() {
    let mut registry: Registry<Vec<String>> = Registry::new();
    assert!(!registry.append("a", "x".to_string()));
    assert_eq!(registry.len(), 0);
    registry.insert("a".to_string(), vec![]);
    registry.insert("b".to_string(), vec!["k".to_string()]);
    assert!(registry.append("a", "x".to_string()));
    assert!(registry.append("a", "y".to_string()));
    assert_eq!(registry.get("a"), Some(&vec!["x".to_string(), "y".to_string()]));
    assert_eq!(registry.get("b"), Some(&vec!["k".to_string()]));
}
