use shellconfig::catalog::feature_catalog;
use shellconfig::catalog::selected_features;
use shellconfig::catalog::shell_catalog;
use shellconfig::render::generate_config;
use shellconfig::render::template_text;
use shellconfig::text::str_equal;

const FISH_HOMEBREW: &str = "\nif test -d /opt/homebrew\n    set -gx PATH /opt/homebrew/bin $PATH\n    set -gx MANPATH /opt/homebrew/share/man $MANPATH\n    set -gx INFOPATH /opt/homebrew/share/info $INFOPATH\nend\n";

const FISH_ZOXIDE: &str = "\nif type -q zoxide\n    zoxide init fish | source\nend\n";

const ZSH_HOMEBREW: &str = "\nif [ -d /opt/homebrew ]; then\n    export PATH=/opt/homebrew/bin:$PATH\n    export MANPATH=/opt/homebrew/share/man:$MANPATH\n    export INFOPATH=/opt/homebrew/share/info:$INFOPATH\nfi\n";

const ZSH_ZOXIDE: &str = "\nif command -v zoxide &> /dev/null; then\n    eval \"$(zoxide init zsh)\"\nfi\n";

#[test]
fn shell_catalog_lists_fish_then_zsh() {
    let shells = shell_catalog();
    assert_eq!(shells, vec!["Fish".to_string(), "Zsh".to_string()]);
}

#[test]
fn feature_catalog_is_same_for_both_shells() {
    let expected = vec![
        "Homebrew initialization".to_string(),
        "zoxide initialization".to_string(),
    ];
    assert_eq!(feature_catalog("Fish"), expected);
    assert_eq!(feature_catalog("Zsh"), expected);
}

#[test]
fn feature_catalog_of_unknown_shell_is_empty() {
    assert!(feature_catalog("Bash").is_empty());
}

#[test]
fn empty_selection_renders_empty_string() {
    assert_eq!(generate_config("Fish", &vec![]), "");
    assert_eq!(generate_config("Zsh", &vec![]), "");
}

#[test]
fn zsh_homebrew_renders_exact_template() {
    let features = vec!["Homebrew initialization".to_string()];
    assert_eq!(generate_config("Zsh", &features), ZSH_HOMEBREW);
}

#[test]
fn zsh_zoxide_renders_exact_template() {
    let features = vec!["zoxide initialization".to_string()];
    assert_eq!(generate_config("Zsh", &features), ZSH_ZOXIDE);
}

#[test]
fn fish_both_features_concatenate_in_order() {
    let features = vec![
        "Homebrew initialization".to_string(),
        "zoxide initialization".to_string(),
    ];
    let expected = format!("{}{}", FISH_HOMEBREW, FISH_ZOXIDE);
    assert_eq!(generate_config("Fish", &features), expected);
}

#[test]
fn fish_templates_differ_from_zsh_templates() {
    assert_ne!(template_text("Fish", "Homebrew initialization"), ZSH_HOMEBREW);
    assert_eq!(template_text("Fish", "zoxide initialization"), FISH_ZOXIDE);
    assert_eq!(template_text("Zsh", "Homebrew initialization"), ZSH_HOMEBREW);
}

#[test]
fn unknown_pairs_contribute_nothing() {
    let features = vec![
        "Homebrew initialization".to_string(),
        "no such feature".to_string(),
        "zoxide initialization".to_string(),
    ];
    let expected = format!("{}{}", ZSH_HOMEBREW, ZSH_ZOXIDE);
    assert_eq!(generate_config("Zsh", &features), expected);
    assert_eq!(generate_config("Bash", &features), "");
}

#[test]
fn selection_in_catalog_order_renders_both_blocks() {
    let catalog = feature_catalog("Zsh");
    let chosen = selected_features(&catalog, &vec![0, 1]);
    assert_eq!(chosen, catalog);
    let expected = format!("{}{}", ZSH_HOMEBREW, ZSH_ZOXIDE);
    assert_eq!(generate_config("Zsh", &chosen), expected);
}

#[test]
fn single_selection_maps_to_its_label() {
    let catalog = feature_catalog("Fish");
    let chosen = selected_features(&catalog, &vec![1]);
    assert_eq!(chosen, vec!["zoxide initialization".to_string()]);
    assert_eq!(generate_config("Fish", &chosen), FISH_ZOXIDE);
}

#[test]
fn str_equal_compares_whole_strings() {
    assert!(str_equal("Fish", "Fish"));
    assert!(!str_equal("Fish", "Zsh"));
    assert!(!str_equal("Fish", "Fish "));
    assert!(str_equal("", ""));
}
