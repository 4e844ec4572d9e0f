use umu_wrapper::cli::{Args, Subcommand};
use umu_wrapper::config::{bool_to_umu_bool, Config, Global, Profile, Template};
use umu_wrapper::error::Error;

fn resolved_profile() -> Profile {
    Profile {
        template: Some("base".to_string()),
        name: "game".to_string(),
        game_id: Some("umu-1".to_string()),
        store: Some("steam".to_string()),
        proton: Some("/opt/proton".to_string()),
        proton_verb: Some("run".to_string()),
        prefix: Some("/prefix".to_string()),
        exe: "game.exe".to_string(),
        args: Some(vec!["-windowed".to_string()]),
        no_proton: None,
    }
}

fn env_value<'a>(envs: &'a [(String, String)], key: &str) -> Option<&'a str> {
    envs.iter().find(|(k, _)| k == key).map(|(_, v)| v.as_str())
}

#[test]
fn umu_bool_encoding_is_fixed() {
    assert_eq!(bool_to_umu_bool(true), "_1_");
    assert_eq!(bool_to_umu_bool(false), "_0_");
}

#[test]
fn full_profile_emits_all_entries_in_order() {
    let d = resolved_profile().build_launch().unwrap();
    let keys: Vec<&str> = d.envs.iter().map(|(k, _)| k.as_str()).collect();
    assert_eq!(keys, vec!["GAMEID", "STORE", "PROTON_VERB", "PROTONPATH", "WINEPREFIX"]);
    assert_eq!(env_value(&d.envs, "GAMEID"), Some("umu-1"));
    assert_eq!(env_value(&d.envs, "STORE"), Some("steam"));
    assert_eq!(env_value(&d.envs, "PROTON_VERB"), Some("run"));
    assert_eq!(env_value(&d.envs, "PROTONPATH"), Some("/opt/proton"));
    assert_eq!(env_value(&d.envs, "WINEPREFIX"), Some("/prefix"));
    assert_eq!(d.exe, "game.exe");
    assert_eq!(d.args, vec!["-windowed".to_string()]);
}

#[test]
fn missing_engine_is_fatal() {
    let mut p = resolved_profile();
    p.proton = None;
    let err = p.build_launch().unwrap_err();
    assert_eq!(err, Error::MissingEngine);
}

#[test]
fn skip_engine_relaxes_engine_requirement() {
    let mut p = resolved_profile();
    p.proton = None;
    p.no_proton = Some(true);
    let d = p.build_launch().unwrap();
    assert_eq!(env_value(&d.envs, "NO_PROTON"), Some("_1_"));
    assert_eq!(env_value(&d.envs, "PROTONPATH"), None);
    assert_eq!(env_value(&d.envs, "PROTON_VERB"), None);
    assert_eq!(env_value(&d.envs, "WINEPREFIX"), None);
}

#[test]
fn explicit_false_flag_still_requires_engine() {
    let mut p = resolved_profile();
    p.proton = None;
    p.no_proton = Some(false);
    let err = p.build_launch().unwrap_err();
    assert_eq!(err, Error::MissingEngine);
}

#[test]
fn builder_regenerates_missing_prefix() {
    let mut p = resolved_profile();
    p.prefix = None;
    let d = p.build_launch().unwrap();
    assert_eq!(env_value(&d.envs, "WINEPREFIX"), Some("~/Games/umu/umu-1"));
}

#[test]
fn missing_args_become_empty() {
    let mut p = resolved_profile();
    p.args = None;
    let d = p.build_launch().unwrap();
    assert!(d.args.is_empty());
}

fn scenario_config() -> Config {
    let global = Global {
        proton: None,
        prefix: None,
        game_id: "0".to_string(),
        proton_verb: None,
        store: None,
        default_template: Some("base".to_string()),
    };
    let base = Template {
        name: "base".to_string(),
        prefix: Some("/prefix/base".to_string()),
        proton: Some("/opt/proton".to_string()),
        proton_verb: None,
        store: None,
        no_proton: None,
    };
    let game = Profile {
        template: None,
        name: "game".to_string(),
        game_id: None,
        store: None,
        proton: None,
        proton_verb: None,
        prefix: None,
        exe: "game.exe".to_string(),
        args: Some(vec!["-a".to_string(), "-b".to_string()]),
        no_proton: None,
    };
    Config { global, template: vec![base], profile: vec![game] }
}

fn args_for(profile: &str, trailing: Vec<String>) -> Args {
    Args {
        config: "unused.toml".to_string(),
        config_dir: "unused.toml.d".to_string(),
        profile: profile.to_string(),
        subcommand: Some(Subcommand::Run { args: trailing }),
    }
}

#[test]
fn run_resolves_and_builds() {
    let config = scenario_config();
    let d = args_for("game", vec![]).run(&config).unwrap();
    assert_eq!(d.exe, "game.exe");
    assert_eq!(d.args, vec!["-a".to_string(), "-b".to_string()]);
    assert_eq!(env_value(&d.envs, "PROTONPATH"), Some("/opt/proton"));
    assert_eq!(env_value(&d.envs, "WINEPREFIX"), Some("/prefix/base"));
    assert_eq!(env_value(&d.envs, "GAMEID"), Some("0"));
}

#[test]
fn run_trailing_args_override_exe_and_args() {
    let config = scenario_config();
    let trailing = vec!["other.exe".to_string(), "-x".to_string(), "-y".to_string()];
    let d = args_for("game", trailing).run(&config).unwrap();
    assert_eq!(d.exe, "other.exe");
    assert_eq!(d.args, vec!["-x".to_string(), "-y".to_string()]);
}

#[test]
fn run_without_subcommand_is_an_error() {
    let config = scenario_config();
    let mut args = args_for("game", vec![]);
    args.subcommand = None;
    let err = args.run(&config).unwrap_err();
    assert_eq!(err, Error::NoSubcommand);
}

#[test]
fn scenario_c_no_proton_profile_builds() {
    let mut config = scenario_config();
    config.template[0].proton = None;
    config.profile[0].no_proton = Some(true);
    let d = args_for("game", vec![]).run(&config).unwrap();
    assert_eq!(env_value(&d.envs, "NO_PROTON"), Some("_1_"));
    assert_eq!(env_value(&d.envs, "PROTONPATH"), None);
}

#[test]
fn run_propagates_resolution_errors() {
    let config = scenario_config();
    let err = args_for("ghost", vec![]).run(&config).unwrap_err();
    assert!(matches!(err, Error::NotFound { .. }));
}
