use theme_state::paths::{
    child_path, choose_dir, config_var, data_var, fallback_config_dir, fallback_data_dir,
    project_name, project_organization, project_qualifier, state_file, themes_dir,
};
use theme_state::{get_config_dir, get_data_dir, PathSet};

#[test]
fn config_override_wins() {
    let dir = get_config_dir(Some("/tmp/xcfg".to_string()), "myapp");
    assert_eq!(dir, "/tmp/xcfg");
}

#[test]
fn data_override_wins() {
    let dir = get_data_dir(Some("/tmp/xdata".to_string()), "myapp");
    assert_eq!(dir, "/tmp/xdata");
}

#[test]
fn override_is_taken_verbatim() {
    assert_eq!(get_config_dir(Some("relative/dir/".to_string()), "myapp"), "relative/dir/");
    assert_eq!(get_data_dir(Some("".to_string()), "myapp"), "");
}

#[test]
fn override_beats_the_operating_system() {
    let dir = choose_dir(
        Some("/tmp/xcfg".to_string()),
        Some("/home/alice/.config/myapp".to_string()),
        "./.config".to_string(),
    );
    assert_eq!(dir, "/tmp/xcfg");
}

#[test]
fn operating_system_beats_the_fallback() {
    let dir = choose_dir(None, Some("/home/alice/.config/myapp".to_string()), "./.config".to_string());
    assert_eq!(dir, "/home/alice/.config/myapp");
}

#[test]
fn fallback_is_the_last_resort() {
    assert_eq!(choose_dir(None, None, fallback_config_dir()), "./.config");
    assert_eq!(choose_dir(None, None, fallback_data_dir()), "./.data");
}

#[test]
fn fallbacks_lie_below_the_working_directory() {
    assert_eq!(fallback_config_dir(), "./.config");
    assert_eq!(fallback_data_dir(), "./.data");
}

#[test]
fn lookup_without_override_gives_a_directory() {
    let config = get_config_dir(None, "myapp");
    assert!(config == "./.config" || config.contains("myapp"), "{}", config);
    let data = get_data_dir(None, "myapp");
    assert!(data == "./.data" || data.contains("myapp"), "{}", data);
}

#[test]
fn lookup_is_repeatable() {
    assert_eq!(get_config_dir(None, "myapp"), get_config_dir(None, "myapp"));
    assert_eq!(get_data_dir(None, "myapp"), get_data_dir(None, "myapp"));
}

#[test]
fn project_name_is_upper_case() {
    assert_eq!(project_name("myapp"), "MYAPP");
    assert_eq!(project_name("hello_gp"), "HELLO_GP");
    assert_eq!(project_name("MyApp2"), "MYAPP2");
}

#[test]
fn override_variables() {
    assert_eq!(config_var("MYAPP"), "MYAPP_CONFIG");
    assert_eq!(data_var("MYAPP"), "MYAPP_DATA");
    assert_eq!(config_var(&project_name("hello_gp")), "HELLO_GP_CONFIG");
    assert_eq!(data_var(&project_name("hello_gp")), "HELLO_GP_DATA");
}

#[test]
fn child_path_joins_with_one_slash() {
    assert_eq!(child_path("/tmp/a", "state.json"), "/tmp/a/state.json");
    assert_eq!(child_path("/tmp/a/", "state.json"), "/tmp/a/state.json");
    assert_eq!(child_path("/", "themes"), "/themes");
    assert_eq!(child_path(".", ".config"), "./.config");
}

#[test]
fn child_of_the_empty_directory_is_relative() {
    assert_eq!(child_path("", "state.json"), "state.json");
}

#[test]
fn child_path_counts_characters_not_bytes() {
    assert_eq!(child_path("/home/zoë/café", "themes"), "/home/zoë/café/themes");
    assert_eq!(child_path("/home/日本/", "themes"), "/home/日本/themes");
}

#[test]
fn state_file_and_themes_dir() {
    assert_eq!(state_file("/tmp/a"), "/tmp/a/state.json");
    assert_eq!(themes_dir("/tmp/b"), "/tmp/b/themes");
    assert_eq!(state_file("./.config"), "./.config/state.json");
    assert_eq!(themes_dir("./.data"), "./.data/themes");
}

#[test]
fn env_override_scenario() {
    let paths = PathSet::resolve(Some("/tmp/a".to_string()), Some("/tmp/b".to_string()), "myapp");
    assert_eq!(paths.config_dir, "/tmp/a");
    assert_eq!(paths.data_dir, "/tmp/b");
    assert_eq!(state_file(&paths.config_dir), "/tmp/a/state.json");
    assert_eq!(themes_dir(&paths.data_dir), "/tmp/b/themes");
}

#[test]
fn resolve_decides_each_directory_alone() {
    let paths = PathSet::resolve(Some("/tmp/a".to_string()), None, "myapp");
    assert_eq!(paths.config_dir, "/tmp/a");
    assert_eq!(paths.data_dir, get_data_dir(None, "myapp"));
}

#[test]
fn lookup_asks_under_the_project_triple() {
    assert_eq!(project_qualifier(), "cn");
    assert_eq!(project_organization(), "o0x0o");
}

#[test]
fn lookup_without_override_is_the_fallback_or_absolute() {
    let config = get_config_dir(None, "myapp");
    assert!(config == "./.config" || config.starts_with('/'), "{}", config);
    assert_ne!(config, "");
    let data = get_data_dir(None, "myapp");
    assert!(data == "./.data" || data.starts_with('/'), "{}", data);
    assert_ne!(data, "");
    assert_ne!(config, "./.data");
    assert_ne!(data, "./.config");
}
