use scarb_config::{AppDirs, Config, DEFAULT_TARGET_DIR_NAME, SCARB_LOG_ENV};

fn dirs() -> AppDirs {
    AppDirs {
        cache_dir: String::from("/home/user/.cache/scarb"),
        config_dir: String::from("/home/user/.config/scarb"),
        path_env: String::from("/usr/local/bin:/usr/bin"),
    }
}

fn config_at(manifest: &str) -> Config<&'static str, u32> {
    Config::init(String::from(manifest), dirs(), "ui", None, None, 0)
}

#[test]
fn root_and_target_dir_of_a_plain_project() {
    let config = config_at("/proj/Scarb.toml");
    assert_eq!(config.manifest_path(), "/proj/Scarb.toml");
    assert_eq!(config.root(), "/proj");
    assert_eq!(config.target_dir(), "/proj/target");
}

#[test]
fn root_is_the_manifest_path_without_its_file_name() {
    for manifest in [
        "/proj/Scarb.toml",
        "/a/b/c/Scarb.toml",
        "rel/dir/Scarb.toml",
        "./Scarb.toml",
        "/Scarb.toml",
        "Scarb.toml",
    ] {
        let config = config_at(manifest);
        let root = config.root();
        assert!(manifest.starts_with(root), "{manifest}: {root}");
        assert!(root.len() < manifest.len());
        let rest = manifest[root.len()..].trim_start_matches('/');
        assert_eq!(rest, "Scarb.toml", "{manifest}");
    }
}

#[test]
fn root_ignores_a_trailing_separator() {
    let config = config_at("/proj/sub/");
    assert_eq!(config.root(), "/proj");
}

#[test]
fn root_of_a_bare_manifest_name_is_empty() {
    let config = config_at("Scarb.toml");
    assert_eq!(config.root(), "");
    assert_eq!(config.target_dir(), "target");
}

#[test]
fn target_dir_override_is_taken_as_it_stands() {
    let config: Config<(), u32> = Config::init(
        String::from("/proj/Scarb.toml"),
        dirs(),
        (),
        Some(String::from("../elsewhere//out/")),
        None,
        0,
    );
    assert_eq!(config.target_dir(), "../elsewhere//out/");
    assert_eq!(config.root(), "/proj");
}

#[test]
fn default_target_dir_name() {
    assert_eq!(DEFAULT_TARGET_DIR_NAME, "target");
    assert_eq!(SCARB_LOG_ENV, "SCARB_LOG");
}

#[test]
fn try_init_refuses_a_path_without_parent() {
    for manifest in ["/", ""] {
        let config: Option<Config<(), u32>> =
            Config::try_init(String::from(manifest), dirs(), (), None, None, 0);
        assert!(config.is_none(), "{manifest:?}");
    }
}

#[test]
fn try_init_agrees_with_init() {
    let config: Config<(), u32> = Config::try_init(
        String::from("/proj/Scarb.toml"),
        dirs(),
        (),
        None,
        Some(String::from("debug")),
        42,
    )
    .unwrap();
    assert_eq!(config.manifest_path(), "/proj/Scarb.toml");
    assert_eq!(config.root(), "/proj");
    assert_eq!(config.target_dir(), "/proj/target");
    assert_eq!(config.scarb_log(), "debug");
    assert_eq!(config.elapsed_time(50), 8);
    assert!(!config.offline());
}

#[test]
fn log_filter_defaults_to_empty() {
    let config = config_at("/proj/Scarb.toml");
    assert_eq!(config.scarb_log(), "");
}

#[test]
fn log_filter_is_kept_verbatim() {
    let config: Config<(), u32> = Config::init(
        String::from("/proj/Scarb.toml"),
        dirs(),
        (),
        None,
        Some(String::from("scarb=trace, hyper = off ")),
        0,
    );
    assert_eq!(config.scarb_log(), "scarb=trace, hyper = off ");
}

#[test]
fn dirs_and_ui_are_handed_back() {
    let config = config_at("/proj/Scarb.toml");
    assert_eq!(config.dirs(), &dirs());
    assert_eq!(*config.ui(), "ui");
}

#[test]
fn a_new_context_is_online() {
    let config = config_at("/proj/Scarb.toml");
    assert!(!config.offline());
    assert!(config.network_allowed());
}

#[test]
fn set_offline_decides_network_allowed() {
    let mut config = config_at("/proj/Scarb.toml");
    config.set_offline(true);
    assert!(config.offline());
    assert!(!config.network_allowed());
    config.set_offline(false);
    assert!(!config.offline());
    assert!(config.network_allowed());
    config.set_offline(false);
    assert!(config.network_allowed());
}

#[test]
fn set_offline_leaves_the_rest_alone() {
    let mut config = config_at("/proj/Scarb.toml");
    config.set_offline(true);
    assert_eq!(config.manifest_path(), "/proj/Scarb.toml");
    assert_eq!(config.root(), "/proj");
    assert_eq!(config.target_dir(), "/proj/target");
    assert_eq!(config.dirs(), &dirs());
    assert_eq!(config.elapsed_time(5), 5);
}

#[test]
fn elapsed_time_is_now_minus_creation() {
    let config: Config<(), u32> =
        Config::init(String::from("/proj/Scarb.toml"), dirs(), (), None, None, 1_000);
    assert_eq!(config.elapsed_time(1_000), 0);
    assert_eq!(config.elapsed_time(1_001), 1);
    assert_eq!(config.elapsed_time(4_500), 3_500);
    assert_eq!(config.elapsed_time(u64::MAX), u64::MAX - 1_000);
}

#[test]
fn elapsed_time_before_creation_is_zero() {
    let config: Config<(), u32> =
        Config::init(String::from("/proj/Scarb.toml"), dirs(), (), None, None, 1_000);
    assert_eq!(config.elapsed_time(999), 0);
    assert_eq!(config.elapsed_time(0), 0);
}

#[test]
fn elapsed_time_does_not_go_down() {
    let config: Config<(), u32> =
        Config::init(String::from("/proj/Scarb.toml"), dirs(), (), None, None, 10);
    let mut last = 0;
    for now in [0, 5, 10, 11, 11, 40, 1_000, u64::MAX] {
        let elapsed = config.elapsed_time(now);
        assert!(elapsed >= last);
        last = elapsed;
    }
}

#[test]
fn two_contexts_do_not_interfere() {
    let mut first = config_at("/one/Scarb.toml");
    let second = config_at("/two/Scarb.toml");
    first.set_offline(true);
    assert!(!second.offline());
    assert_eq!(first.root(), "/one");
    assert_eq!(second.root(), "/two");
}
