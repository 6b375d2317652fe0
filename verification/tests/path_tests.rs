use shellconfig::paths::config_path_with_home;
use shellconfig::paths::get_config_path;

#[test]
fn fish_path_lives_under_dot_config() {
    let path = config_path_with_home("Fish", Some("/home/user".to_string()));
    assert_eq!(path, "/home/user/.config/fish/config.fish");
}

#[test]
fn zsh_path_is_zshrc_in_home() {
    let path = config_path_with_home("Zsh", Some("/home/user".to_string()));
    assert_eq!(path, "/home/user/.zshrc");
}

#[test]
fn missing_home_falls_back_to_current_directory() {
    assert_eq!(
        config_path_with_home("Fish", None),
        "./.config/fish/config.fish"
    );
    assert_eq!(config_path_with_home("Zsh", None), "./.zshrc");
}

#[test]
fn unknown_shell_falls_back_to_relative_config() {
    assert_eq!(config_path_with_home("Bash", None), "config");
    assert_eq!(
        config_path_with_home("Bash", Some("/home/user".to_string())),
        "config"
    );
}

#[test]
fn resolved_zsh_path_uses_platform_home() {
    let path = get_config_path("Zsh");
    let expected = match dirs::home_dir() {
        Some(home) => format!("{}/.zshrc", home.to_string_lossy()),
        None => "./.zshrc".to_string(),
    };
    assert_eq!(path, expected);
}

#[test]
fn resolved_fish_path_ends_with_fish_config() {
    let path = get_config_path("Fish");
    assert!(path.ends_with("/.config/fish/config.fish"));
}
