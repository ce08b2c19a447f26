//! Plain data types: instance descriptions and the documents exchanged with
//! the version and download services.
use crate::text::{opt_text, texts};
use vstd::prelude::*;

verus! {

// ---------------------------------------------------------------- versions

/// The list of game versions published by the vendor.
#[derive(Debug, Clone, PartialEq, Eq)]
pub struct MojangVersionManifest {
    pub versions: Vec<MojangVersion>,
}

/// One published game version and its kind (`release`, `snapshot`, ...).
#[derive(Debug, Clone, PartialEq, Eq)]
pub struct MojangVersion {
    pub id: String,
    pub version_type: String,
}

/// The game versions a Paper project supports, oldest first.
#[derive(Debug, Clone, PartialEq, Eq)]
pub struct PaperProjectResponse {
    pub versions: Vec<String>,
}

/// A game version known to Fabric, and whether it is stable.
#[derive(Debug, Clone, PartialEq, Eq)]
pub struct FabricGameVersion {
    pub version: String,
    pub stable: bool,
}

/// One entry of the list of Fabric loaders for a game version.
#[derive(Debug, Clone, PartialEq, Eq)]
pub struct FabricLoaderVersion {
    pub loader: FabricLoader,
}

/// A Fabric loader release.
#[derive(Debug, Clone, PartialEq, Eq)]
pub struct FabricLoader {
    pub version: String,
}

// --------------------------------------------------------------- instances

/// What a caller asks for when creating an instance.
#[derive(Debug, Clone, PartialEq, Eq)]
pub struct Instance {
    pub name: String,
    pub software: String,
    pub version: String,
    pub loader: Option<String>,
    pub custom_jar_path: Option<String>,
}

/// The persisted description of an instance.
#[derive(Debug, Clone, PartialEq, Eq)]
pub struct InstanceConfig {
    pub id: String,
    pub name: String,
    pub software: String,
    pub version: String,
    pub loader: Option<String>,
    pub custom_jar_path: Option<String>,
    pub java: JavaConfig,
    pub metadata: MetadataConfig,
}

/// What the instance list shows of one instance.
#[derive(Debug, Clone, PartialEq, Eq)]
pub struct InstanceInfo {
    pub id: String,
    pub name: String,
    pub software: String,
    pub version: String,
    pub running: bool,
}

/// A point-in-time sample of the resources an instance uses.
///
/// `cpu_usage` is counted in hundredths of a percent of one core and
/// `memory_usage` in bytes.
#[derive(Debug, Clone, PartialEq, Eq)]
pub struct InstanceMetrics {
    pub time: String,
    pub cpu_usage: u64,
    pub memory_usage: u64,
}

/// How the worker's runtime is launched.
#[derive(Debug, Clone, PartialEq, Eq)]
pub struct JavaConfig {
    pub min_memory: String,
    pub max_memory: String,
    pub java_path: Option<String>,
    pub additional_args: Vec<String>,
}

/// Bookkeeping kept with an instance.
#[derive(Debug, Clone, PartialEq, Eq)]
pub struct MetadataConfig {
    pub created_at: String,
    pub last_played: Option<String>,
    pub play_time_minutes: u64,
}

// ------------------------------------------------------ download (vanilla)

/// The vendor's version manifest with the address of each version's details.
#[derive(Debug, Clone, PartialEq, Eq)]
pub struct VersionManifest {
    pub versions: Vec<VersionEntry>,
}

/// One version of the manifest.
#[derive(Debug, Clone, PartialEq, Eq)]
pub struct VersionEntry {
    pub id: String,
    pub url: String,
}

/// The details document of one version.
#[derive(Debug, Clone, PartialEq, Eq)]
pub struct VersionDetails {
    pub downloads: VersionDownloads,
}

/// The downloads offered for one version.
#[derive(Debug, Clone, PartialEq, Eq)]
pub struct VersionDownloads {
    pub server: DownloadItem,
}

/// A downloadable file and its checksum.
#[derive(Debug, Clone, PartialEq, Eq)]
pub struct DownloadItem {
    pub url: String,
    pub sha1: String,
}

// -------------------------------------------------------- download (paper)

/// The builds of one Paper version, oldest first.
#[derive(Debug, Clone, PartialEq, Eq)]
pub struct PaperBuilds {
    pub builds: Vec<PaperBuild>,
}

/// A Paper build number.
#[derive(Debug, Clone, Copy, PartialEq, Eq)]
pub struct PaperBuild {
    pub build: u32,
}

/// The description of one Paper build.
#[derive(Debug, Clone, PartialEq, Eq)]
pub struct PaperDownload {
    pub downloads: PaperArtifacts,
}

/// The files of one Paper build.
#[derive(Debug, Clone, PartialEq, Eq)]
pub struct PaperArtifacts {
    pub application: PaperFile,
}

/// A file of a Paper build.
#[derive(Debug, Clone, PartialEq, Eq)]
pub struct PaperFile {
    pub name: String,
    pub sha256: String,
}

// ------------------------------------------------------- download (fabric)

/// The description of a Fabric loader for one game version.
#[allow(non_snake_case)]
#[derive(Debug, Clone, PartialEq, Eq)]
pub struct FabricLoaderResponse {
    pub launcherMeta: FabricLauncherMeta,
}

/// Launcher data of a Fabric loader.
#[derive(Debug, Clone, PartialEq, Eq)]
pub struct FabricLauncherMeta {
    pub server: FabricServer,
}

/// Where the Fabric server launcher is found.
#[derive(Debug, Clone, PartialEq, Eq)]
pub struct FabricServer {
    pub url: String,
}

// ------------------------------------------------------------------ config

/// Application-wide settings.
#[derive(Debug, Clone, PartialEq, Eq)]
pub struct GlobalConfig {
    pub theme: String,
}

// ------------------------------------------------------------------- views

/// The mathematical content of a [`JavaConfig`].
pub struct JavaConfigView {
    pub min_memory: Seq<char>,
    pub max_memory: Seq<char>,
    pub java_path: Option<Seq<char>>,
    pub additional_args: Seq<Seq<char>>,
}

impl View for JavaConfig {
    type V = JavaConfigView;

    open spec fn view(&self) -> JavaConfigView {
        JavaConfigView {
            min_memory: self.min_memory@,
            max_memory: self.max_memory@,
            java_path: opt_text(self.java_path),
            additional_args: texts(self.additional_args@),
        }
    }
}

/// The mathematical content of a [`MetadataConfig`].
pub struct MetadataConfigView {
    pub created_at: Seq<char>,
    pub last_played: Option<Seq<char>>,
    pub play_time_minutes: u64,
}

impl View for MetadataConfig {
    type V = MetadataConfigView;

    open spec fn view(&self) -> MetadataConfigView {
        MetadataConfigView {
            created_at: self.created_at@,
            last_played: opt_text(self.last_played),
            play_time_minutes: self.play_time_minutes,
        }
    }
}

/// The mathematical content of an [`Instance`].
pub struct InstanceView {
    pub name: Seq<char>,
    pub software: Seq<char>,
    pub version: Seq<char>,
    pub loader: Option<Seq<char>>,
    pub custom_jar_path: Option<Seq<char>>,
}

impl View for Instance {
    type V = InstanceView;

    open spec fn view(&self) -> InstanceView {
        InstanceView {
            name: self.name@,
            software: self.software@,
            version: self.version@,
            loader: opt_text(self.loader),
            custom_jar_path: opt_text(self.custom_jar_path),
        }
    }
}

/// The mathematical content of an [`InstanceConfig`].
pub struct InstanceConfigView {
    pub id: Seq<char>,
    pub name: Seq<char>,
    pub software: Seq<char>,
    pub version: Seq<char>,
    pub loader: Option<Seq<char>>,
    pub custom_jar_path: Option<Seq<char>>,
    pub java: JavaConfigView,
    pub metadata: MetadataConfigView,
}

impl View for InstanceConfig {
    type V = InstanceConfigView;

    open spec fn view(&self) -> InstanceConfigView {
        InstanceConfigView {
            id: self.id@,
            name: self.name@,
            software: self.software@,
            version: self.version@,
            loader: opt_text(self.loader),
            custom_jar_path: opt_text(self.custom_jar_path),
            java: self.java@,
            metadata: self.metadata@,
        }
    }
}

/// The mathematical content of an [`InstanceInfo`].
pub struct InstanceInfoView {
    pub id: Seq<char>,
    pub name: Seq<char>,
    pub software: Seq<char>,
    pub version: Seq<char>,
    pub running: bool,
}

impl View for InstanceInfo {
    type V = InstanceInfoView;

    open spec fn view(&self) -> InstanceInfoView {
        InstanceInfoView {
            id: self.id@,
            name: self.name@,
            software: self.software@,
            version: self.version@,
            running: self.running,
        }
    }
}

/// The mathematical content of an [`InstanceMetrics`].
pub struct InstanceMetricsView {
    pub time: Seq<char>,
    pub cpu_usage: u64,
    pub memory_usage: u64,
}

impl View for InstanceMetrics {
    type V = InstanceMetricsView;

    open spec fn view(&self) -> InstanceMetricsView {
        InstanceMetricsView {
            time: self.time@,
            cpu_usage: self.cpu_usage,
            memory_usage: self.memory_usage,
        }
    }
}

} // verus!
