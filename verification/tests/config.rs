use open_url::config::Config;

#[test]
fn script_resolution_is_stable() {
    let name = "script-that-is-surely-not-installed".to_string();
    let first = Config::get_script_path(&name);
    let second = Config::get_script_path(&name);
    assert_eq!(first, second);
}

#[test]
fn config_path_lookup_is_stable() {
    let first = Config::get_config_path();
    let second = Config::get_config_path();
    assert_eq!(first, second);
}
