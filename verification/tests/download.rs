use nuko::download::{
    before_dash_of, character_key_of, download_server_jar, fabric_loaders_url, find_installed_jar,
    forge_installer_url, get_fabric_game_versions, get_fabric_loader_versions,
    get_forge_mc_versions, get_forge_versions, get_neoforge_mc_versions, get_neoforge_versions,
    get_paper_versions, get_purpur_versions, get_vanilla_versions, install_forge,
    install_neoforge, is_success_status, neoforge_installer_url, neoforge_prefix,
    paper_build_url, paper_builds_url, paper_download_url, paper_file_url, pick,
    resolve_fabric_url, resolve_paper_url, resolve_purpur_url, resolve_vanilla_url, reversed,
    server_jar_url, sort_versions, version_key_of, DownloadPlan, InstallerPlan, Pick,
    VersionOrder,
};
use nuko::models::{
    DownloadItem, FabricGameVersion, FabricLoader, FabricLoaderVersion, Instance, MojangVersion,
    MojangVersionManifest, PaperArtifacts, PaperBuild, PaperBuilds, PaperDownload, PaperFile,
    PaperProjectResponse, VersionDetails, VersionDownloads, VersionEntry, VersionManifest,
};
use nuko::sorting::{dedup, is_before, is_key_less};

fn chars(s: &str) -> Vec<char> {
    s.chars().collect()
}

fn texts(items: &[&str]) -> Vec<String> {
    items.iter().map(|s| s.to_string()).collect()
}

const FORGE_METADATA: &str = "<?xml version=\"1.0\" encoding=\"UTF-8\"?>\n<metadata>\n  <groupId>net.minecraftforge</groupId>\n  <versioning>\n    <versions>\n      <version>1.20.1-47.2.0</version>\r\n      <version>1.20.1-47.1.0</version>\n\t<version>1.20.1-47.10.0</version>  \n      <version>1.7.10-10.13.4.1614-1.7.10</version>\n      <version>1.19-41.0.1</version>\n      <version>1.7.10_pre4-10.12.2.1149-prerelease</version>\n      <version>1.20.10-1.0</version>\n      <version></version>\n      <version>broken\n      x<version>1.1-1</version>\n    </versions>\n  </versioning>\n</metadata>";

#[test]
fn version_keys_are_the_numbers_between_dots() {
    assert_eq!(version_key_of(&chars("1.20.1")), vec![1, 20, 1]);
    assert_eq!(version_key_of(&chars("1.7.10_pre4")), vec![1, 7]);
    assert_eq!(version_key_of(&chars("")), Vec::<u32>::new());
    assert_eq!(version_key_of(&chars("a.b")), Vec::<u32>::new());
    assert_eq!(version_key_of(&chars("+3..007.4294967296.5")), vec![3, 7, 5]);
    assert_eq!(before_dash_of(&chars("20.4.80-beta-2")), chars("20.4.80"));
    assert_eq!(before_dash_of(&chars("-x")), chars(""));
    assert_eq!(before_dash_of(&chars("plain")), chars("plain"));
    assert_eq!(character_key_of(&chars("aé")), vec![97, 233]);
}

#[test]
fn keys_compare_position_by_position() {
    assert!(is_key_less(&vec![1, 19], &vec![1, 20, 1]));
    assert!(is_key_less(&vec![1, 7], &vec![1, 7, 10]));
    assert!(is_key_less(&vec![], &vec![0]));
    assert!(!is_key_less(&vec![], &vec![]));
    assert!(!is_key_less(&vec![2], &vec![1, 9]));
    assert!(!is_key_less(&vec![1, 2], &vec![1, 2]));
    assert!(is_before(&vec![2], &vec![1], true));
    assert!(!is_before(&vec![2], &vec![1], false));
    assert!(!is_before(&vec![1], &vec![1], true));
}

#[test]
fn versions_sort_as_the_standard_library_sorts_them() {
    let given = texts(&["b", "a", "B", "", "ab", "a", "é", "1.10", "1.9", "z"]);
    let mut want = given.clone();
    want.sort();
    assert_eq!(sort_versions(given.clone(), VersionOrder::Characters), want);

    let versions = texts(&["1.2", "1.10", "1.2.1", "x", "1.2-b", "2", "1.10.0", "1.x.3", "1.2"]);
    let key = |s: &String| -> Vec<u32> { s.split('.').filter_map(|p| p.parse().ok()).collect() };
    let mut want = versions.clone();
    want.sort_by(|a, b| key(b).cmp(&key(a)));
    assert_eq!(sort_versions(versions.clone(), VersionOrder::NewestFirst), want);

    let release = |s: &String| -> Vec<u32> {
        let clean = s.split('-').next().unwrap_or(s);
        clean.split('.').filter_map(|p| p.parse().ok()).collect()
    };
    let mut want = versions.clone();
    want.sort_by(|a, b| release(b).cmp(&release(a)));
    assert_eq!(sort_versions(versions, VersionOrder::NewestReleaseFirst), want);
    assert_eq!(sort_versions(vec![], VersionOrder::NewestFirst), Vec::<String>::new());
}

#[test]
fn versions_with_equal_keys_keep_their_order() {
    let versions = texts(&["1.0-a", "1.x", "2.0", "1.0-b", "1"]);
    assert_eq!(
        sort_versions(versions, VersionOrder::NewestFirst),
        texts(&["2.0", "1.0-a", "1.x", "1.0-b", "1"])
    );
}

#[test]
fn repeats_are_removed_when_adjacent() {
    assert_eq!(dedup(&texts(&["a", "a", "b", "a", "a", "a"])), texts(&["a", "b", "a"]));
    assert_eq!(dedup(&texts(&[])), texts(&[]));
    assert_eq!(dedup(&texts(&["x"])), texts(&["x"]));
}

#[test]
fn vanilla_versions_are_the_releases() {
    let version = |id: &str, kind: &str| MojangVersion {
        id: id.to_string(),
        version_type: kind.to_string(),
    };
    let manifest = MojangVersionManifest {
        versions: vec![
            version("24w14a", "snapshot"),
            version("1.20.4", "release"),
            version("1.20.3", "release"),
            version("b1.8", "old_beta"),
            version("1.0", "Release"),
        ],
    };
    assert_eq!(get_vanilla_versions(&manifest), texts(&["1.20.4", "1.20.3"]));
    assert_eq!(get_vanilla_versions(&MojangVersionManifest { versions: vec![] }), texts(&[]));
}

#[test]
fn paper_and_purpur_versions_are_reversed() {
    let project = PaperProjectResponse { versions: texts(&["1.8.8", "1.19", "1.20.4"]) };
    assert_eq!(get_paper_versions(&project), texts(&["1.20.4", "1.19", "1.8.8"]));
    assert_eq!(get_purpur_versions(&texts(&["1.14.1", "1.21"])), texts(&["1.21", "1.14.1"]));
    assert_eq!(reversed(&texts(&[])), texts(&[]));
    assert_eq!(reversed(&texts(&["only"])), texts(&["only"]));
}

#[test]
fn fabric_versions_are_the_stable_ones() {
    let version = |v: &str, stable: bool| FabricGameVersion { version: v.to_string(), stable };
    let listed = vec![version("24w14a", false), version("1.20.4", true), version("1.20.3", true)];
    assert_eq!(get_fabric_game_versions(&listed), texts(&["1.20.4", "1.20.3"]));
    let loaders = vec![
        FabricLoaderVersion { loader: FabricLoader { version: "0.15.7".to_string() } },
        FabricLoaderVersion { loader: FabricLoader { version: "0.15.6".to_string() } },
    ];
    assert_eq!(get_fabric_loader_versions(&loaders), texts(&["0.15.7", "0.15.6"]));
    assert_eq!(get_fabric_loader_versions(&vec![]), texts(&[]));
    assert_eq!(fabric_loaders_url("1.20.4"), "https://meta.fabricmc.net/v2/versions/loader/1.20.4");
}

#[test]
fn forge_game_versions_are_unique_and_newest_first() {
    assert_eq!(
        get_forge_mc_versions(FORGE_METADATA),
        texts(&["1.20.10", "1.20.1", "1.19", "1.7.10", "1.7.10_pre4", ""])
    );
    assert_eq!(get_forge_mc_versions(""), texts(&[]));
    assert_eq!(get_forge_mc_versions("<version>1.2-3</version>"), texts(&["1.2"]));
}

#[test]
fn forge_builds_of_a_game_version_are_newest_first() {
    assert_eq!(
        get_forge_versions(FORGE_METADATA, "1.20.1"),
        texts(&["47.10.0", "47.2.0", "47.1.0"])
    );
    assert_eq!(get_forge_versions(FORGE_METADATA, "1.7.10"), texts(&["10.13.4.1614-1.7.10"]));
    assert_eq!(get_forge_versions(FORGE_METADATA, "1.20"), texts(&[]));
    assert_eq!(get_forge_versions(FORGE_METADATA, "1.7.10_pre4"), texts(&["10.12.2.1149-prerelease"]));
    assert_eq!(get_forge_versions(FORGE_METADATA, ""), texts(&[]));
}

#[test]
fn version_tags_are_recognised_line_by_line() {
    let head = |s: &str| pick(&Pick::TagHead, &chars(s)).map(|v| v.iter().collect::<String>());
    assert_eq!(head("  <version>1.2-3</version>\r"), Some("1.2".to_string()));
    assert_eq!(head("<version></version>"), Some("".to_string()));
    assert_eq!(head("<version>/version>"), None);
    assert_eq!(head("<version>1.2-3</version> x"), None);
    assert_eq!(head("<Version>1.2-3</Version>"), None);
    assert_eq!(head("<version>a</version></version>"), Some("a</version>".to_string()));
    let after = |s: &str| {
        pick(&Pick::TagAfter(chars("1.2-")), &chars(s)).map(|v| v.iter().collect::<String>())
    };
    assert_eq!(after("<version>1.2-3.4</version>"), Some("3.4".to_string()));
    assert_eq!(after("<version>1.2-</version>"), Some("".to_string()));
    assert_eq!(after("<version>1.20-3.4</version>"), None);
    assert_eq!(after("1.2-3.4"), None);
}

#[test]
fn neoforge_game_versions_are_derived_from_its_versions() {
    let listed = texts(&[
        "20.4.80-beta", "20.2.86", "21.0.1-beta", "20.4.237", "abc.1", "47", "+21.0.5", "020.6.1",
        "21.1", "21.x.1", ".5",
    ]);
    assert_eq!(
        get_neoforge_mc_versions(&listed),
        texts(&["1.21.1", "1.21", "1.21.x", "1.20.6", "1.20.4", "1.20.2"])
    );
    let mut want: Vec<String> = listed
        .iter()
        .filter_map(|v| {
            let parts: Vec<&str> = v.split('.').collect();
            if parts.len() >= 2 {
                match parts[0].parse::<u32>() {
                    Ok(major) if parts[1] == "0" => Some(format!("1.{}", major)),
                    Ok(major) => Some(format!("1.{}.{}", major, parts[1])),
                    Err(_) => None,
                }
            } else {
                None
            }
        })
        .collect();
    want.sort();
    want.dedup();
    let key = |s: &String| -> Vec<u32> { s.split('.').filter_map(|p| p.parse().ok()).collect() };
    want.sort_by(|a, b| key(b).cmp(&key(a)));
    assert_eq!(get_neoforge_mc_versions(&listed), want);
    assert_eq!(get_neoforge_mc_versions(&texts(&[])), texts(&[]));
    let game = |s: &str| pick(&Pick::NeoforgeGame, &chars(s)).map(|v| v.iter().collect::<String>());
    assert_eq!(game("21.0.1"), Some("1.21".to_string()));
    assert_eq!(game("20.4"), Some("1.20.4".to_string()));
    assert_eq!(game("20."), Some("1.20.".to_string()));
    assert_eq!(game("20"), None);
    assert_eq!(game("4294967296.1"), None);
}

#[test]
fn neoforge_versions_of_a_game_version_are_newest_first() {
    let listed = texts(&["20.4.80-beta", "20.2.86", "21.0.1-beta", "20.4.237", "20.4.9", "21.0.10", "20.40.1"]);
    assert_eq!(
        get_neoforge_versions(&listed, "1.20.4"),
        texts(&["20.4.237", "20.4.80-beta", "20.4.9"])
    );
    assert_eq!(get_neoforge_versions(&listed, "1.21"), texts(&["21.0.10", "21.0.1-beta"]));
    assert_eq!(get_neoforge_versions(&listed, "1.20.4.1"), texts(&[]));
    assert_eq!(get_neoforge_versions(&listed, "2.20.4"), texts(&[]));
    assert_eq!(get_neoforge_versions(&listed, "1.19"), texts(&[]));
    let prefix = |s: &str| neoforge_prefix(s).map(|v| v.iter().collect::<String>());
    assert_eq!(prefix("1.20.4"), Some("20.4.".to_string()));
    assert_eq!(prefix("1.21"), Some("21.0.".to_string()));
    assert_eq!(prefix("1."), Some(".0.".to_string()));
    assert_eq!(prefix("1.a.b.c"), None);
    assert_eq!(prefix("1"), None);
    assert_eq!(prefix(""), None);
}

#[test]
fn addresses_are_built_from_their_parts() {
    assert_eq!(paper_builds_url("1.20.4"), "https://api.papermc.io/v2/projects/paper/versions/1.20.4");
    assert_eq!(
        paper_build_url("1.20.4", 496),
        "https://api.papermc.io/v2/projects/paper/versions/1.20.4/builds/496"
    );
    assert_eq!(
        paper_download_url("1.20.4", 496, "paper-1.20.4-496.jar"),
        "https://api.papermc.io/v2/projects/paper/versions/1.20.4/builds/496/downloads/paper-1.20.4-496.jar"
    );
    assert_eq!(
        resolve_purpur_url("1.20.4"),
        "https://api.purpurmc.org/v2/purpur/1.20.4/latest/download"
    );
    assert_eq!(
        forge_installer_url("1.20.1", "47.2.0"),
        "https://maven.minecraftforge.net/net/minecraftforge/forge/1.20.1-47.2.0/forge-1.20.1-47.2.0-installer.jar"
    );
    assert_eq!(
        neoforge_installer_url("20.4.237"),
        "https://maven.neoforged.net/releases/net/neoforged/neoforge/20.4.237/neoforge-20.4.237-installer.jar"
    );
}

#[test]
fn vanilla_details_are_found_in_the_manifest() {
    let entry = |id: &str, url: &str| VersionEntry { id: id.to_string(), url: url.to_string() };
    let manifest = VersionManifest {
        versions: vec![entry("1.20.4", "u1"), entry("1.20.3", "u2"), entry("1.20.4", "u3")],
    };
    assert_eq!(resolve_vanilla_url(&manifest, "1.20.4"), Ok("u1".to_string()));
    assert_eq!(resolve_vanilla_url(&manifest, "1.20.3"), Ok("u2".to_string()));
    assert_eq!(
        resolve_vanilla_url(&manifest, "1.0"),
        Err("Version 1.0 not found in Mojang manifest".to_string())
    );
}

#[test]
fn paper_uses_the_last_build() {
    let builds = PaperBuilds { builds: vec![PaperBuild { build: 3 }, PaperBuild { build: 496 }] };
    assert_eq!(
        resolve_paper_url("1.20.4", &builds),
        Ok((496, "https://api.papermc.io/v2/projects/paper/versions/1.20.4/builds/496".to_string()))
    );
    assert_eq!(
        resolve_paper_url("1.20.4", &PaperBuilds { builds: vec![] }),
        Err("No Paper builds for 1.20.4".to_string())
    );
}

#[test]
fn files_are_taken_from_the_descriptions() {
    let details = VersionDetails {
        downloads: VersionDownloads {
            server: DownloadItem { url: "https://example.org/server.jar".to_string(), sha1: "ab".to_string() },
        },
    };
    assert_eq!(server_jar_url(&details), "https://example.org/server.jar");
    let described = PaperDownload {
        downloads: PaperArtifacts {
            application: PaperFile { name: "paper-1.20.4-496.jar".to_string(), sha256: "cd".to_string() },
        },
    };
    assert_eq!(
        paper_file_url("1.20.4", 496, &described),
        "https://api.papermc.io/v2/projects/paper/versions/1.20.4/builds/496/downloads/paper-1.20.4-496.jar"
    );
}

#[test]
fn fabric_uses_the_first_installer() {
    assert_eq!(
        resolve_fabric_url("1.20.4", &Some("0.15.7".to_string()), &texts(&["1.0.0", "0.11.2"])),
        Ok("https://meta.fabricmc.net/v2/versions/loader/1.20.4/0.15.7/1.0.0/server/jar".to_string())
    );
    assert_eq!(
        resolve_fabric_url("1.20.4", &None, &texts(&["1.0.0"])),
        Err("Fabric loader version missing".to_string())
    );
    assert_eq!(
        resolve_fabric_url("1.20.4", &Some("0.15.7".to_string()), &texts(&[])),
        Err("No Fabric installer versions found".to_string())
    );
}

fn instance(software: &str, loader: Option<&str>, custom: Option<&str>) -> Instance {
    Instance {
        name: "survival".to_string(),
        software: software.to_string(),
        version: "1.20.4".to_string(),
        loader: loader.map(|l| l.to_string()),
        custom_jar_path: custom.map(|c| c.to_string()),
    }
}

#[test]
fn download_plan_follows_the_software() {
    assert_eq!(
        download_server_jar(&instance("vanilla", None, None)),
        Ok(DownloadPlan::Vanilla {
            manifest_url: "https://piston-meta.mojang.com/mc/game/version_manifest_v2.json".to_string(),
            version: "1.20.4".to_string(),
        })
    );
    assert_eq!(
        download_server_jar(&instance("papermc", None, None)),
        Ok(DownloadPlan::Paper {
            builds_url: "https://api.papermc.io/v2/projects/paper/versions/1.20.4".to_string(),
            version: "1.20.4".to_string(),
        })
    );
    assert_eq!(
        download_server_jar(&instance("purpur", Some("ignored"), None)),
        Ok(DownloadPlan::Direct {
            url: "https://api.purpurmc.org/v2/purpur/1.20.4/latest/download".to_string()
        })
    );
    assert_eq!(
        download_server_jar(&instance("fabric", Some("0.15.7"), None)),
        Ok(DownloadPlan::Fabric {
            installers_url: "https://meta.fabricmc.net/v2/versions/installer".to_string(),
            version: "1.20.4".to_string(),
            loader: Some("0.15.7".to_string()),
        })
    );
    assert_eq!(
        download_server_jar(&instance("forge", Some("49.0.3"), None)),
        Ok(DownloadPlan::Installer(install_forge("1.20.4", "49.0.3")))
    );
    assert_eq!(
        download_server_jar(&instance("neoforge", Some("20.4.237"), None)),
        Ok(DownloadPlan::Installer(install_neoforge("20.4.237")))
    );
    assert_eq!(
        download_server_jar(&instance("custom", None, Some("/tmp/my.jar"))),
        Ok(DownloadPlan::CopyCustom { path: "/tmp/my.jar".to_string() })
    );
}

#[test]
fn download_plan_reports_what_is_missing() {
    let err = |s: &str| Err::<DownloadPlan, String>(s.to_string());
    assert_eq!(download_server_jar(&instance("fabric", None, None)), err("Fabric loader version missing"));
    assert_eq!(
        download_server_jar(&instance("forge", None, None)),
        err("Forge requires a loader/installer version")
    );
    assert_eq!(
        download_server_jar(&instance("neoforge", None, None)),
        err("NeoForge requires a loader/installer version")
    );
    assert_eq!(
        download_server_jar(&instance("custom", Some("x"), None)),
        err("Custom software requires a custom_jar_path")
    );
    assert_eq!(download_server_jar(&instance("spigot", None, None)), err("Unsupported software 'spigot'"));
    assert_eq!(download_server_jar(&instance("Vanilla", None, None)), err("Unsupported software 'Vanilla'"));
    assert_eq!(download_server_jar(&instance("", None, None)), err("Unsupported software ''"));
}

#[test]
fn success_is_any_status_of_the_two_hundreds() {
    assert!(is_success_status(200) && is_success_status(299) && is_success_status(204));
    assert!(!is_success_status(199) && !is_success_status(300) && !is_success_status(0));
}

#[test]
fn installers_are_described() {
    assert_eq!(
        install_forge("1.20.1", "47.2.0"),
        InstallerPlan {
            name: "Forge".to_string(),
            url: "https://maven.minecraftforge.net/net/minecraftforge/forge/1.20.1-47.2.0/forge-1.20.1-47.2.0-installer.jar".to_string(),
            installer_file: "forge-installer.jar".to_string(),
            log_file: "forge-installer.jar.log".to_string(),
            jar_prefix: "forge-".to_string(),
        }
    );
    assert_eq!(
        install_neoforge("20.4.237"),
        InstallerPlan {
            name: "NeoForge".to_string(),
            url: "https://maven.neoforged.net/releases/net/neoforged/neoforge/20.4.237/neoforge-20.4.237-installer.jar".to_string(),
            installer_file: "neoforge-installer.jar".to_string(),
            log_file: "neoforge-installer.jar.log".to_string(),
            jar_prefix: "neoforge-".to_string(),
        }
    );
}

#[test]
fn installed_server_is_the_first_matching_file() {
    let forge = install_forge("1.20.1", "47.2.0");
    let names = texts(&[
        "libraries", "forge-installer.jar", "forge-1.20.1.txt", "neoforge-1.jar",
        "forge-1.20.1-47.2.0-shim.jar", "forge-other.jar",
    ]);
    assert_eq!(find_installed_jar(&forge, &names), Some(4));
    assert_eq!(find_installed_jar(&install_neoforge("1"), &names), Some(3));
    assert_eq!(find_installed_jar(&forge, &texts(&["forge-installer.jar", "run.sh"])), None);
    assert_eq!(find_installed_jar(&forge, &texts(&["forge-.jar"])), Some(0));
    assert_eq!(find_installed_jar(&forge, &texts(&[])), None);
}
