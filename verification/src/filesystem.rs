//! What is placed in an instance's directory when the instance is created.
//!
//! Nothing here touches a disk: each function says which file or directory is
//! wanted and what it holds, and the caller writes it.
use crate::clock::utc_timestamp;
use crate::identity::{fresh_identifier, is_random_uuid};
use crate::instance::{instance_dir, instance_dir_of};
use crate::models::{
    Instance, InstanceConfig, InstanceConfigView, InstanceView, JavaConfig, JavaConfigView,
    MetadataConfig, MetadataConfigView,
};
use crate::text::{copy_opt_text, texts};
use vstd::prelude::*;

verus! {

/// A file to write: its name inside the instance directory and its content.
#[derive(Debug, Clone, PartialEq, Eq)]
pub struct PlannedFile {
    pub name: String,
    pub content: String,
}

/// The directory to create for the instance called `name`:
/// `<data_dir>/instances/<name>`.
pub fn create_directory(data_dir: &str, name: &str) -> (dir: String)
    ensures
        dir@ == instance_dir_of(data_dir@, name@),
{
    instance_dir(data_dir, name)
}

/// The file that records the acceptance of the licence: `eula.txt`, holding
/// `eula=true`.
pub fn create_eula_txt() -> (file: PlannedFile)
    ensures
        file.name@ == "eula.txt"@,
        file.content@ == "eula=true"@,
{
    PlannedFile { name: "eula.txt".to_string(), content: "eula=true".to_string() }
}

/// The name of the file that holds an instance's configuration.
pub fn config_file_name() -> (name: String)
    ensures
        name@ == "nuko.toml"@,
{
    "nuko.toml".to_string()
}

/// The launch settings of a new instance: 2G to 4G of memory, the default
/// executable, no additional arguments.
pub open spec fn default_java() -> JavaConfigView {
    JavaConfigView {
        min_memory: "2G"@,
        max_memory: "4G"@,
        java_path: None,
        additional_args: Seq::<Seq<char>>::empty(),
    }
}

/// The configuration of a new instance with identifier `id`, created at
/// `created_at`: what was asked for, the default launch settings, and no play
/// time yet.
pub open spec fn new_config_of(instance: InstanceView, id: Seq<char>, created_at: Seq<char>)
    -> InstanceConfigView {
    InstanceConfigView {
        id,
        name: instance.name,
        software: instance.software,
        version: instance.version,
        loader: instance.loader,
        custom_jar_path: instance.custom_jar_path,
        java: default_java(),
        metadata: MetadataConfigView { created_at, last_played: None, play_time_minutes: 0 },
    }
}

/// Builds the configuration of a new instance from its identifier and the
/// time of its creation.
pub fn new_instance_config(instance: &Instance, id: String, created_at: String) -> (config:
    InstanceConfig)
    ensures
        config@ == new_config_of(instance@, id@, created_at@),
{
    let additional_args: Vec<String> = Vec::new();
    assert(texts(additional_args@) =~= Seq::<Seq<char>>::empty());
    InstanceConfig {
        id,
        name: instance.name.clone(),
        software: instance.software.clone(),
        version: instance.version.clone(),
        loader: copy_opt_text(&instance.loader),
        custom_jar_path: copy_opt_text(&instance.custom_jar_path),
        java: JavaConfig {
            min_memory: "2G".to_string(),
            max_memory: "4G".to_string(),
            java_path: None,
            additional_args,
        },
        metadata: MetadataConfig { created_at, last_played: None, play_time_minutes: 0 },
    }
}

/// Builds the configuration that is persisted for a new instance.  The
/// identifier is drawn at random and the time of creation is read now; the
/// caller writes the configuration to the file named by
/// [`config_file_name`].
pub fn create_nuko_properties(instance: &Instance) -> (config: InstanceConfig)
    ensures
        is_random_uuid(config@.id),
        config@ == new_config_of(instance@, config@.id, config@.metadata.created_at),
{
    let id = fresh_identifier();
    let created_at = utc_timestamp();
    new_instance_config(instance, id, created_at)
}

} // verus!
