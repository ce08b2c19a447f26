use nuko::instance::{
    after_directive, get_instance_status, start_instance, stop_instance, AfterDirective,
    InstanceStore, StopPlan, StoredInstance,
};
use nuko::launch::StreamMode;
use nuko::models::{InstanceConfig, JavaConfig, MetadataConfig};
use nuko::process_table::{ProcessEntry, ProcessSnapshot};
use nuko::supervisor::{Notification, Supervisor};

fn survival_store() -> InstanceStore {
    InstanceStore {
        data_dir: "/data".to_string(),
        instances: vec![StoredInstance {
            directory: "/data/instances/survival".to_string(),
            config: InstanceConfig {
                id: "abc123".to_string(),
                name: "survival".to_string(),
                software: "vanilla".to_string(),
                version: "1.21".to_string(),
                loader: None,
                custom_jar_path: None,
                java: JavaConfig {
                    min_memory: "2G".to_string(),
                    max_memory: "4G".to_string(),
                    java_path: None,
                    additional_args: vec![],
                },
                metadata: MetadataConfig {
                    created_at: "2024-01-01T00:00:00+00:00".to_string(),
                    last_played: None,
                    play_time_minutes: 0,
                },
            },
        }],
    }
}

#[test]
fn start_then_graceful_stop_of_survival() {
    let store = survival_store();
    let mut supervisor: Supervisor<Vec<u8>> = Supervisor::new();

    let idle = ProcessSnapshot::new();
    let command = start_instance(&store, &idle, "abc123").unwrap();
    assert_eq!(command.program, "java");
    assert_eq!(command.args, vec!["-Xms2G", "-Xmx4G", "-jar", "server.jar", "nogui"]);
    assert_eq!(command.working_dir, "/data/instances/survival");
    assert_eq!(
        (command.stdin, command.stdout, command.stderr),
        (StreamMode::Piped, StreamMode::Piped, StreamMode::Piped)
    );

    let raised = supervisor.worker_started("abc123", Some(Vec::new()));
    assert_eq!(raised, Notification::StateChanged);

    let mut busy = ProcessSnapshot::new();
    assert!(busy.record(ProcessEntry {
        pid: 4242,
        cwd: Some("/data/instances/survival".to_string()),
        cpu_usage: 1250,
        memory: 512,
    }));
    assert_eq!(get_instance_status(&store, &busy, "abc123"), Ok(true));

    match stop_instance(&mut supervisor, &store, "abc123").unwrap() {
        StopPlan::Graceful { mut channel, directive } => {
            channel.extend_from_slice(directive.as_bytes());
            assert_eq!(channel, b"stop\n");
        }
        StopPlan::Signal => panic!("a command channel was registered"),
    }
    assert_eq!(
        after_directive(true, true),
        AfterDirective::Finished { notify: Notification::StateChanged }
    );
    assert!(!supervisor.has_channel("abc123"));

    assert_eq!(get_instance_status(&store, &idle, "abc123"), Ok(false));
}
