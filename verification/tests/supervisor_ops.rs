use nuko::error::SupervisorError;
use nuko::instance::{
    after_directive, command_sent, get_instance_by_id, get_instance_info, get_instance_logs,
    get_instance_metrics, get_instance_status, get_logs_map, get_stdin_map, instance_dir,
    kill_instance, list_instances, register_spawn, relay_line, sample_instance, send_command,
    start_instance, stop_by_signal, stop_instance, AfterDirective, BackgroundTask,
    InstanceStore, OutputStream, RelayStep, Signal, SignalOrder, Started, StopPlan,
    StoredInstance, StreamRead,
};
use nuko::models::{InstanceConfig, InstanceInfo, InstanceMetrics, JavaConfig, MetadataConfig};
use nuko::process_table::{ProcessEntry, ProcessSnapshot};
use nuko::supervisor::{Notification, Supervisor};

fn config(id: &str, name: &str, java: JavaConfig) -> InstanceConfig {
    InstanceConfig {
        id: id.to_string(),
        name: name.to_string(),
        software: "papermc".to_string(),
        version: "1.20.4".to_string(),
        loader: None,
        custom_jar_path: None,
        java,
        metadata: MetadataConfig {
            created_at: "2024-05-01T10:00:00+00:00".to_string(),
            last_played: None,
            play_time_minutes: 7,
        },
    }
}

fn plain_java() -> JavaConfig {
    JavaConfig {
        min_memory: "2G".to_string(),
        max_memory: "4G".to_string(),
        java_path: None,
        additional_args: vec![],
    }
}

fn store() -> InstanceStore {
    InstanceStore {
        data_dir: "/data".to_string(),
        instances: vec![
            StoredInstance {
                directory: "/data/instances/survival".to_string(),
                config: config("abc123", "survival", plain_java()),
            },
            StoredInstance {
                directory: "/data/instances/creative".to_string(),
                config: config("def456", "creative", plain_java()),
            },
        ],
    }
}

fn process(pid: u32, cwd: Option<&str>, cpu_usage: u32, memory: u64) -> ProcessEntry {
    ProcessEntry { pid, cwd: cwd.map(|c| c.to_string()), cpu_usage, memory }
}

fn snapshot(entries: Vec<ProcessEntry>) -> ProcessSnapshot {
    let mut snapshot = ProcessSnapshot::new();
    for entry in entries {
        assert!(snapshot.record(entry));
    }
    snapshot
}

fn not_found(id: &str) -> SupervisorError {
    SupervisorError::NotFound { id: id.to_string() }
}

#[test]
fn unknown_identifier_is_not_found_by_every_operation() {
    let store = store();
    let procs = snapshot(vec![process(1, Some("/data/instances/survival"), 0, 0)]);
    let mut supervisor: Supervisor<u32> = Supervisor::new();
    supervisor.worker_started("ghost", Some(9));

    assert_eq!(start_instance(&store, &procs, "ghost"), Err(not_found("ghost")));
    assert!(matches!(stop_instance(&mut supervisor, &store, "ghost"), Err(e) if e == not_found("ghost")));
    assert!(supervisor.has_channel("ghost"));
    assert_eq!(stop_by_signal(&store, &procs, "ghost"), Err(not_found("ghost")));
    assert_eq!(get_instance_status(&store, &procs, "ghost"), Err(not_found("ghost")));
    assert_eq!(get_instance_info(&store, &procs, "ghost"), Err(not_found("ghost")));
    assert_eq!(get_instance_metrics(&store, &procs, "ghost"), Err(not_found("ghost")));
    assert_eq!(
        sample_instance(&store, &procs, "ghost", "12:00:00".to_string()),
        Err(not_found("ghost"))
    );
    assert_eq!(send_command(&supervisor, &store, "ghost"), Err(not_found("ghost")));
    assert_eq!(kill_instance(&mut supervisor, &store, &procs, "ghost"), Err(not_found("ghost")));
    assert!(!supervisor.has_channel("ghost"));
    assert!(matches!(get_instance_by_id(&store, "ghost"), Err(e) if e == not_found("ghost")));
}

#[test]
fn lookup_returns_the_first_configuration_of_an_identifier() {
    let mut store = store();
    store.instances.push(StoredInstance {
        directory: "/data/instances/copy".to_string(),
        config: config("abc123", "copy", plain_java()),
    });
    assert_eq!(get_instance_by_id(&store, "abc123").unwrap().name, "survival");
    assert_eq!(get_instance_by_id(&store, "def456").unwrap().name, "creative");
}

#[test]
fn instance_directory_is_under_instances() {
    assert_eq!(instance_dir("/data", "survival"), "/data/instances/survival");
    assert_eq!(instance_dir("", ""), "/instances/");
}

#[test]
fn start_is_refused_while_a_process_runs_in_the_directory() {
    let store = store();
    let procs = snapshot(vec![
        process(10, None, 0, 0),
        process(11, Some("/data/instances/survival"), 0, 0),
    ]);
    assert_eq!(
        start_instance(&store, &procs, "abc123"),
        Err(SupervisorError::AlreadyRunning { name: "survival".to_string() })
    );
    assert!(start_instance(&store, &procs, "def456").is_ok());
}

#[test]
fn directory_must_match_exactly() {
    let store = store();
    let procs = snapshot(vec![
        process(1, Some("/data/instances/survival/"), 0, 0),
        process(2, Some("/data/instances/survival/world"), 0, 0),
        process(3, Some("/data/instances/surviva"), 0, 0),
        process(4, None, 0, 0),
    ]);
    assert_eq!(get_instance_status(&store, &procs, "abc123"), Ok(false));
    assert!(start_instance(&store, &procs, "abc123").is_ok());
}

#[test]
fn launch_command_orders_its_arguments() {
    let mut store = store();
    store.instances[0].config.java = JavaConfig {
        min_memory: "512M".to_string(),
        max_memory: "".to_string(),
        java_path: Some("/opt/jdk/bin/java".to_string()),
        additional_args: vec!["-XX:+UseG1GC".to_string(), "-Dfile.encoding=UTF-8".to_string()],
    };
    let command = start_instance(&store, &ProcessSnapshot::new(), "abc123").unwrap();
    assert_eq!(command.program, "/opt/jdk/bin/java");
    assert_eq!(
        command.args,
        vec!["-Xms512M", "-XX:+UseG1GC", "-Dfile.encoding=UTF-8", "-jar", "server.jar", "nogui"]
    );
    assert_eq!(command.working_dir, "/data/instances/survival");

    store.instances[0].config.java = JavaConfig {
        min_memory: "".to_string(),
        max_memory: "".to_string(),
        java_path: None,
        additional_args: vec![],
    };
    let command = start_instance(&store, &ProcessSnapshot::new(), "abc123").unwrap();
    assert_eq!(command.program, "java");
    assert_eq!(command.args, vec!["-jar", "server.jar", "nogui"]);
}

#[test]
fn stopping_a_never_started_instance_is_not_running() {
    let store = store();
    let mut supervisor: Supervisor<u32> = Supervisor::new();
    assert!(matches!(stop_instance(&mut supervisor, &store, "abc123"), Ok(StopPlan::Signal)));
    let idle = snapshot(vec![process(5, Some("/data/instances/creative"), 0, 0)]);
    assert_eq!(
        stop_by_signal(&store, &idle, "abc123"),
        Err(SupervisorError::NotRunning { name: "survival".to_string() })
    );
}

#[test]
fn stop_takes_the_channel_and_hands_out_the_directive() {
    let store = store();
    let mut supervisor: Supervisor<u32> = Supervisor::new();
    supervisor.worker_started("abc123", Some(41));
    supervisor.worker_started("def456", Some(42));
    match stop_instance(&mut supervisor, &store, "abc123") {
        Ok(StopPlan::Graceful { channel, directive }) => {
            assert_eq!(channel, 41);
            assert_eq!(directive, "stop\n");
        }
        _ => panic!("expected a graceful stop"),
    }
    assert!(!supervisor.has_channel("abc123"));
    assert!(supervisor.has_channel("def456"));
    assert_eq!(
        after_directive(true, true),
        AfterDirective::Finished { notify: Notification::StateChanged }
    );
    assert_eq!(after_directive(true, false), AfterDirective::FallBack);
    assert_eq!(after_directive(false, true), AfterDirective::FallBack);
    assert_eq!(after_directive(false, false), AfterDirective::FallBack);
    assert!(matches!(stop_instance(&mut supervisor, &store, "abc123"), Ok(StopPlan::Signal)));
}

#[test]
fn fallback_orders_a_termination_signal_for_every_matching_process() {
    let store = store();
    let procs = snapshot(vec![
        process(7, Some("/data/instances/survival"), 0, 0),
        process(8, Some("/data/instances/creative"), 0, 0),
        process(9, Some("/data/instances/survival"), 0, 0),
    ]);
    let order = stop_by_signal(&store, &procs, "abc123").unwrap();
    assert_eq!(
        order,
        SignalOrder {
            pids: vec![7, 9],
            signal: Signal::Terminate,
            notify: Notification::StateChanged
        }
    );
}

#[test]
fn kill_removes_the_channel_even_when_nothing_runs() {
    let store = store();
    let mut supervisor: Supervisor<u32> = Supervisor::new();
    supervisor.worker_started("abc123", Some(1));
    supervisor.record_line("abc123", "Done".to_string());
    let idle = ProcessSnapshot::new();
    assert_eq!(
        kill_instance(&mut supervisor, &store, &idle, "abc123"),
        Err(SupervisorError::NotRunning { name: "survival".to_string() })
    );
    assert!(!supervisor.has_channel("abc123"));
    assert_eq!(get_instance_logs(&supervisor, "abc123"), vec!["Done"]);
}

#[test]
fn kill_orders_a_kill_signal() {
    let store = store();
    let mut supervisor: Supervisor<u32> = Supervisor::new();
    supervisor.worker_started("abc123", Some(1));
    let procs = snapshot(vec![
        process(30, Some("/data/instances/survival"), 0, 0),
        process(31, Some("/data/instances/survival"), 0, 0),
    ]);
    let order = kill_instance(&mut supervisor, &store, &procs, "abc123").unwrap();
    assert_eq!(
        order,
        SignalOrder { pids: vec![30, 31], signal: Signal::Kill, notify: Notification::StateChanged }
    );
    assert!(!supervisor.has_channel("abc123"));
}

#[test]
fn logs_keep_the_order_of_arrival() {
    let mut supervisor: Supervisor<u32> = Supervisor::new();
    assert_eq!(get_instance_logs(&supervisor, "abc123"), Vec::<String>::new());
    supervisor.record_line("abc123", "lost".to_string());
    assert_eq!(get_instance_logs(&supervisor, "abc123"), Vec::<String>::new());

    supervisor.worker_started("abc123", Some(1));
    supervisor.worker_started("def456", None);
    let lines = ["[out] one", "[err] two", "[out] three", "[out] three", ""];
    for (i, line) in lines.iter().enumerate() {
        let raised = supervisor.record_line("abc123", line.to_string());
        assert_eq!(
            raised,
            Notification::LogLine { id: "abc123".to_string(), line: line.to_string() }
        );
        assert_eq!(raised.event_name(), "instance-log-abc123");
        assert_eq!(get_instance_logs(&supervisor, "abc123"), lines[..=i].to_vec());
    }
    assert_eq!(get_instance_logs(&supervisor, "def456"), Vec::<String>::new());
    assert!(!supervisor.has_channel("def456"));

    supervisor.worker_exited("abc123");
    assert_eq!(get_instance_logs(&supervisor, "abc123"), lines.to_vec());
    supervisor.worker_started("abc123", Some(2));
    assert_eq!(get_instance_logs(&supervisor, "abc123"), Vec::<String>::new());
}

#[test]
fn registries_are_reachable() {
    let mut supervisor: Supervisor<u32> = Supervisor::new();
    supervisor.worker_started("abc123", Some(5));
    supervisor.record_line("abc123", "hello".to_string());
    assert_eq!(get_logs_map(&supervisor).get("abc123"), Some(&vec!["hello".to_string()]));
    assert_eq!(get_logs_map(&supervisor).get("def456"), None);
    assert_eq!(get_stdin_map(&supervisor).get("abc123"), Some(&5));
    assert_eq!(get_stdin_map(&supervisor).len(), 1);
}

#[test]
fn restart_replaces_a_stale_channel() {
    let mut supervisor: Supervisor<u32> = Supervisor::new();
    assert_eq!(supervisor.worker_started("abc123", Some(1)), Notification::StateChanged);
    supervisor.worker_started("abc123", Some(2));
    assert_eq!(supervisor.channel("abc123"), Some(&2));
    assert_eq!(supervisor.worker_exited("abc123"), Notification::StateChanged);
    assert_eq!(supervisor.channel("abc123"), None);
    assert_eq!(Notification::StateChanged.event_name(), "instances-updated");
}

#[test]
fn sending_needs_a_channel_and_drops_a_failed_one() {
    let store = store();
    let mut supervisor: Supervisor<u32> = Supervisor::new();
    assert_eq!(
        send_command(&supervisor, &store, "abc123"),
        Err(SupervisorError::NotRunning { name: "survival".to_string() })
    );
    supervisor.worker_started("abc123", Some(77));
    assert_eq!(send_command(&supervisor, &store, "abc123"), Ok(&77));
    assert_eq!(command_sent(&mut supervisor, "abc123", None), Ok(()));
    assert!(supervisor.has_channel("abc123"));
    assert_eq!(
        command_sent(&mut supervisor, "abc123", Some("broken pipe".to_string())),
        Err(SupervisorError::IoFailure { detail: "broken pipe".to_string() })
    );
    assert!(!supervisor.has_channel("abc123"));
    assert_eq!(
        supervisor.take_channel("abc123"),
        Err(SupervisorError::ChannelUnavailable { id: "abc123".to_string() })
    );
}

#[test]
fn metrics_sum_over_the_matching_processes() {
    let store = store();
    let procs = snapshot(vec![
        process(1, Some("/data/instances/survival"), 1250, 1000),
        process(2, Some("/data/instances/creative"), 9999, 5),
        process(3, Some("/data/instances/survival"), 375, 24),
        process(4, None, 1, 1),
    ]);
    assert_eq!(
        sample_instance(&store, &procs, "abc123", "08:15:59".to_string()),
        Ok(InstanceMetrics { time: "08:15:59".to_string(), cpu_usage: 1625, memory_usage: 1024 })
    );
    assert_eq!(
        sample_instance(&store, &ProcessSnapshot::new(), "abc123", "t".to_string()),
        Ok(InstanceMetrics { time: "t".to_string(), cpu_usage: 0, memory_usage: 0 })
    );
}

#[test]
fn metrics_carry_the_time_of_day() {
    let store = store();
    let procs = snapshot(vec![process(1, Some("/data/instances/survival"), 100, 2048)]);
    let sample = get_instance_metrics(&store, &procs, "abc123").unwrap();
    assert_eq!(sample.cpu_usage, 100);
    assert_eq!(sample.memory_usage, 2048);
    let time: Vec<char> = sample.time.chars().collect();
    assert_eq!(time.len(), 8);
    for (i, c) in time.iter().enumerate() {
        if i == 2 || i == 5 {
            assert_eq!(*c, ':');
        } else {
            assert!(c.is_ascii_digit());
        }
    }
}

#[test]
fn info_and_list_report_the_running_state() {
    let store = store();
    let procs = snapshot(vec![process(1, Some("/data/instances/creative"), 0, 0)]);
    let survival = InstanceInfo {
        id: "abc123".to_string(),
        name: "survival".to_string(),
        software: "papermc".to_string(),
        version: "1.20.4".to_string(),
        running: false,
    };
    let creative = InstanceInfo {
        id: "def456".to_string(),
        name: "creative".to_string(),
        software: "papermc".to_string(),
        version: "1.20.4".to_string(),
        running: true,
    };
    assert_eq!(get_instance_info(&store, &procs, "abc123"), Ok(survival.clone()));
    assert_eq!(get_instance_info(&store, &procs, "def456"), Ok(creative.clone()));
    assert_eq!(list_instances(&store, &procs), vec![survival, creative]);
    let empty = InstanceStore { data_dir: "/data".to_string(), instances: vec![] };
    assert_eq!(list_instances(&empty, &procs), vec![]);
}

#[test]
fn list_goes_by_the_directory_in_which_the_configuration_was_found() {
    let mut store = store();
    store.instances[0].directory = "/data/instances/renamed".to_string();
    let procs = snapshot(vec![process(1, Some("/data/instances/renamed"), 0, 0)]);
    assert!(list_instances(&store, &procs)[0].running);
    assert_eq!(get_instance_status(&store, &procs, "abc123"), Ok(false));
}

#[test]
fn errors_have_descriptive_messages() {
    assert_eq!(not_found("x1").message(), "Instance with id x1 not found");
    assert_eq!(
        SupervisorError::AlreadyRunning { name: "survival".to_string() }.message(),
        "Instance 'survival' is already running"
    );
    assert_eq!(
        SupervisorError::NotRunning { name: "survival".to_string() }.message(),
        "Instance 'survival' is not running"
    );
    assert_eq!(
        SupervisorError::SpawnFailed { detail: "No such file or directory".to_string() }.message(),
        "Failed to start Java process: No such file or directory"
    );
    assert_eq!(
        SupervisorError::IoFailure { detail: "broken pipe".to_string() }.message(),
        "broken pipe"
    );
    assert_eq!(
        SupervisorError::ChannelUnavailable { id: "abc123".to_string() }.message(),
        "No command channel for instance abc123"
    );
}

#[test]
fn a_failed_spawn_registers_nothing() {
    let mut supervisor: Supervisor<u32> = Supervisor::new();
    assert_eq!(
        register_spawn(&mut supervisor, "abc123", Err("No such file or directory".to_string())),
        Err(SupervisorError::SpawnFailed { detail: "No such file or directory".to_string() })
    );
    assert!(!supervisor.has_channel("abc123"));
    assert_eq!(get_logs_map(&supervisor).len(), 0);

    let started = Started {
        detach: vec![
            BackgroundTask::Relay(OutputStream::Stdout),
            BackgroundTask::Relay(OutputStream::Stderr),
            BackgroundTask::Reaper,
        ],
        notify: Notification::StateChanged,
    };
    assert_eq!(register_spawn(&mut supervisor, "abc123", Ok(Some(3))), Ok(started.clone()));
    assert_eq!(supervisor.channel("abc123"), Some(&3));
    assert_eq!(get_logs_map(&supervisor).get("abc123"), Some(&vec![]));
    assert_eq!(register_spawn(&mut supervisor, "def456", Ok(None)), Ok(started));
    assert!(!supervisor.has_channel("def456"));
    assert_eq!(get_logs_map(&supervisor).get("def456"), Some(&vec![]));
}

#[test]
fn a_relay_records_lines_until_its_stream_ends_or_fails() {
    let mut supervisor: Supervisor<u32> = Supervisor::new();
    supervisor.worker_started("abc123", None);
    assert_eq!(
        relay_line(&mut supervisor, "abc123", StreamRead::Line("one".to_string())),
        RelayStep::Publish(Notification::LogLine {
            id: "abc123".to_string(),
            line: "one".to_string()
        })
    );
    assert_eq!(relay_line(&mut supervisor, "abc123", StreamRead::Failed), RelayStep::Stop);
    assert_eq!(relay_line(&mut supervisor, "abc123", StreamRead::End), RelayStep::Stop);
    assert_eq!(
        relay_line(&mut supervisor, "abc123", StreamRead::Line("two".to_string())),
        RelayStep::Publish(Notification::LogLine {
            id: "abc123".to_string(),
            line: "two".to_string()
        })
    );
    assert_eq!(get_instance_logs(&supervisor, "abc123"), vec!["one", "two"]);
}
