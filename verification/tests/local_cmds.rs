use docsrs_cli::error::{DestructiveEffect, ErrorDetail, ErrorKind};
use docsrs_cli::local_cmds::{
    ambient_refusal, cache_clear_line, cache_path_line, cache_stats_line, config_init_line,
    config_init_must_refuse, config_path_lines, must_refuse_ambient, ConfigPathReport,
};

#[test]
fn destructive_verbs_refuse_an_ambient_target() {
    assert!(must_refuse_ambient(false, false));
    assert!(!must_refuse_ambient(true, false));
    assert!(!must_refuse_ambient(false, true));
    assert!(!config_init_must_refuse(false, false, false));
    assert!(config_init_must_refuse(true, false, false));
    assert!(!config_init_must_refuse(true, true, false));
    assert!(!config_init_must_refuse(true, false, true));
}

#[test]
fn refusal_names_the_target_and_the_flags() {
    let e = ambient_refusal("cache clear", "/home/u/.cache/docsrs-cli", "--cache-dir", "--yes", DestructiveEffect::Delete);
    assert_eq!(
        e.detail(),
        &ErrorDetail::AmbientTargetRefused {
            verb: "cache clear".to_string(),
            target: "/home/u/.cache/docsrs-cli".to_string(),
            target_flag: "--cache-dir".to_string(),
            waiver_flag: "--yes".to_string(),
            effect: DestructiveEffect::Delete,
        }
    );
    assert_eq!(
        e.message(),
        "cache clear would delete an ambient target it was never given: /home/u/.cache/docsrs-cli; name it in argv with --cache-dir <DIR>, or accept it with --yes"
    );
    assert_ne!(e.kind(), ErrorKind::Internal);
}

#[test]
fn cache_lines() {
    assert_eq!(cache_path_line(Some("/c"), "xdg", false), "cache_root=/c source=xdg no_cache=false");
    assert_eq!(cache_path_line(None, "xdg", true), "cache_root=<unresolved> source=xdg no_cache=true");
    assert_eq!(
        cache_clear_line(3, 4096, "/c", "cli"),
        "cache cleared: 3 entries, 4096 bytes freed (/c) target_source=cli"
    );
    assert_eq!(
        cache_stats_line("/c", "v1", 2, 10, 0, 3600, "3"),
        "cache root=/c layout=v1 entries=2 used=10B max=unlimited ttl=3600s parser=3"
    );
    assert_eq!(
        cache_stats_line("/c", "v1", 2, 10, 500, 60, "3"),
        "cache root=/c layout=v1 entries=2 used=10B max=500B ttl=60s parser=3"
    );
}

#[test]
fn config_lines() {
    let r = ConfigPathReport {
        config_dir: Some("/cfg"),
        config_source: "xdg",
        config_file: None,
        config_file_exists: false,
        config_toml_loaded: false,
        cache_dir: Some("/c"),
        cache_source: "cli",
        dotenv_runtime: false,
        secrets_layers: "none",
    };
    assert_eq!(
        config_path_lines(&r),
        "config_dir=/cfg source=xdg\nconfig_file=<unresolved> exists=false loaded=false\ncache_dir=/c source=cli\ndotenv_runtime=false secrets=none\n"
    );
    assert_eq!(config_init_line(false, "/cfg/config.toml", "xdg"), "config init: created /cfg/config.toml (target_source=xdg)");
    assert_eq!(config_init_line(true, "/cfg/config.toml", "cli"), "config init: overwrote /cfg/config.toml (target_source=cli)");
}
