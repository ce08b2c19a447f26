use nuko::config::{get_config, set_theme, theme_changed_event, LoadedConfig};
use nuko::filesystem::{
    config_file_name, create_directory, create_eula_txt, create_nuko_properties,
    new_instance_config, PlannedFile,
};
use nuko::instance::{
    create_instance, creation_failure, open_instance_view, CreationPlan, CreationStep,
    InstanceWindow,
};
use nuko::models::{GlobalConfig, Instance, InstanceConfig, JavaConfig, MetadataConfig};
use nuko::supervisor::Notification;

fn wanted() -> Instance {
    Instance {
        name: "survival".to_string(),
        software: "fabric".to_string(),
        version: "1.20.4".to_string(),
        loader: Some("0.15.7".to_string()),
        custom_jar_path: None,
    }
}

#[test]
fn new_configuration_has_default_launch_settings() {
    let config = new_instance_config(&wanted(), "id-1".to_string(), "then".to_string());
    assert_eq!(
        config,
        InstanceConfig {
            id: "id-1".to_string(),
            name: "survival".to_string(),
            software: "fabric".to_string(),
            version: "1.20.4".to_string(),
            loader: Some("0.15.7".to_string()),
            custom_jar_path: None,
            java: JavaConfig {
                min_memory: "2G".to_string(),
                max_memory: "4G".to_string(),
                java_path: None,
                additional_args: vec![],
            },
            metadata: MetadataConfig {
                created_at: "then".to_string(),
                last_played: None,
                play_time_minutes: 0,
            },
        }
    );
}

#[test]
fn properties_get_a_random_identifier_and_the_current_time() {
    let first = create_nuko_properties(&wanted());
    let second = create_nuko_properties(&wanted());
    assert_ne!(first.id, second.id);
    for config in [&first, &second] {
        let id = uuid::Uuid::parse_str(&config.id).unwrap();
        assert_eq!(id.get_version_num(), 4);
        assert_eq!(config.id, id.hyphenated().to_string());
        assert_eq!(config.id.len(), 36);
        let created = chrono::DateTime::parse_from_rfc3339(&config.metadata.created_at).unwrap();
        assert_eq!(created.offset().local_minus_utc(), 0);
        let expected = new_instance_config(
            &wanted(),
            config.id.clone(),
            config.metadata.created_at.clone(),
        );
        assert_eq!(*config, expected);
    }
}

#[test]
fn planned_files_have_fixed_names_and_contents() {
    assert_eq!(
        create_eula_txt(),
        PlannedFile { name: "eula.txt".to_string(), content: "eula=true".to_string() }
    );
    assert_eq!(config_file_name(), "nuko.toml");
    assert_eq!(create_directory("/data", "survival"), "/data/instances/survival");
}

#[test]
fn settings_default_to_the_dark_theme() {
    assert_eq!(
        get_config(None),
        LoadedConfig { config: GlobalConfig { theme: "dark".to_string() }, persist: true }
    );
    assert_eq!(
        get_config(Some(GlobalConfig { theme: "light".to_string() })),
        LoadedConfig { config: GlobalConfig { theme: "light".to_string() }, persist: false }
    );
}

#[test]
fn theme_is_replaced() {
    let light = GlobalConfig { theme: "light".to_string() };
    assert_eq!(set_theme(None, "light".to_string()), light);
    assert_eq!(set_theme(Some(GlobalConfig { theme: "dark".to_string() }), "light".to_string()), light);
    assert_eq!(theme_changed_event(), "theme-changed");
}

#[test]
fn creation_is_planned_step_by_step() {
    let plan = create_instance(
        "survival".to_string(),
        "fabric".to_string(),
        "1.20.4".to_string(),
        Some("0.15.7".to_string()),
        true,
        None,
        false,
    );
    assert_eq!(
        plan,
        Ok(CreationPlan {
            instance: wanted(),
            steps: vec![
                CreationStep::CreateDirectory,
                CreationStep::CopyIcon,
                CreationStep::WriteProperties,
                CreationStep::DownloadServer,
                CreationStep::WriteEula,
            ],
            notify: Notification::StateChanged,
        })
    );
    let plain = create_instance(
        "survival".to_string(),
        "fabric".to_string(),
        "1.20.4".to_string(),
        Some("0.15.7".to_string()),
        false,
        None,
        false,
    );
    assert_eq!(
        plain.unwrap().steps,
        vec![
            CreationStep::CreateDirectory,
            CreationStep::WriteProperties,
            CreationStep::DownloadServer,
            CreationStep::WriteEula,
        ]
    );
}

#[test]
fn creation_is_refused_for_an_existing_directory() {
    let plan = create_instance(
        "survival".to_string(),
        "vanilla".to_string(),
        "1.20.4".to_string(),
        None,
        true,
        None,
        true,
    );
    assert_eq!(plan, Err("Instance 'survival' already exists".to_string()));
}

#[test]
fn creation_failures_name_the_step() {
    assert_eq!(
        creation_failure(CreationStep::CreateDirectory, "denied"),
        "Error calling create_directory: denied"
    );
    assert_eq!(creation_failure(CreationStep::CopyIcon, "gone"), "Failed to copy server icon: gone");
    assert_eq!(
        creation_failure(CreationStep::WriteProperties, "x"),
        "Error calling create_nuko_manifest: x"
    );
    assert_eq!(
        creation_failure(CreationStep::DownloadServer, "x"),
        "Error calling download_server_jar: x"
    );
    assert_eq!(creation_failure(CreationStep::WriteEula, ""), "Error calling create_eula_txt: ");
}

#[test]
fn instance_window_is_labelled_by_identifier() {
    assert_eq!(
        open_instance_view("abc123", "survival"),
        InstanceWindow {
            label: "instance-abc123".to_string(),
            page: "/abc123".to_string(),
            title: "nuko | survival".to_string(),
            width: 1000,
            height: 800,
        }
    );
}
