use khafre::color::ThemePreference;
use khafre::config::{Config, DevConfig};

#[test]
fn test_config_defaults() {
    let c = Config::default();
    assert_eq!(c.sphinx.source_dir, "docs");
    assert_eq!(c.sphinx.build_dir, "_build/html");
    assert_eq!(c.sphinx.server.port, 0);
    assert!(c.sphinx.extra_args.is_empty());
    assert_eq!(c.python.interpreter, ".venv/bin/python");
    assert_eq!(c.editor.command, "nvim");
    assert_eq!(c.terminal.shell, None);
    assert_eq!(c.terminal.font_family, "Menlo");
    assert_eq!(c.terminal.font_size, 14);
    assert_eq!(c.terminal.theme_file, None);
    assert!(c.theme == ThemePreference::System);
}

#[test]
fn test_dev_config_apply_overrides() {
    let mut dev = DevConfig::default();
    dev.sphinx_source_dir = Some("src-docs".to_string());
    dev.shell = Some("/bin/zsh".to_string());
    dev.theme = Some(ThemePreference::Light);
    dev.sphinx_extra_args = Some(vec!["-W".to_string()]);

    let merged = dev.apply_to(Config::default());
    assert_eq!(merged.sphinx.source_dir, "src-docs");
    assert_eq!(merged.terminal.shell, Some("/bin/zsh".to_string()));
    assert!(merged.theme == ThemePreference::Light);
    assert_eq!(merged.sphinx.extra_args, vec!["-W".to_string()]);
    // untouched fields keep their base values
    assert_eq!(merged.sphinx.build_dir, "_build/html");
    assert_eq!(merged.python.interpreter, ".venv/bin/python");
    assert_eq!(merged.editor.command, "nvim");
    assert_eq!(merged.terminal.font_family, "Menlo");
}

#[test]
fn test_dev_config_empty_changes_nothing() {
    let merged = DevConfig::default().apply_to(Config::default());
    assert_eq!(merged.sphinx.source_dir, "docs");
    assert_eq!(merged.terminal.shell, None);
    assert!(merged.theme == ThemePreference::System);
}
