//! Configuration data: the application configuration tree, its default
//! values, and the development-override layer applied on top of a base
//! configuration. Reading configuration files is a caller's concern;
//! this module only owns the values and the override rules.

use vstd::prelude::*;
use crate::color::ThemePreference;

verus! {

/// Main application configuration.
#[derive(Clone, Debug)]
pub struct Config {
    /// Documentation-build configuration.
    pub sphinx: SphinxConfig,
    /// Python configuration.
    pub python: PythonConfig,
    /// Editor configuration.
    pub editor: EditorConfig,
    /// Terminal configuration.
    pub terminal: TerminalConfig,
    /// Theme preference (system, light, dark).
    pub theme: ThemePreference,
}

impl Default for Config {
    fn default() -> (c: Config)
        ensures
            c.sphinx.source_dir@ == "docs"@,
            c.sphinx.build_dir@ == "_build/html"@,
            c.sphinx.server.port == 0,
            c.sphinx.extra_args@.len() == 0,
            c.python.interpreter@ == ".venv/bin/python"@,
            c.editor.command@ == "nvim"@,
            c.terminal.shell is None,
            c.terminal.font_family@ == "Menlo"@,
            c.terminal.font_size == 14,
            c.terminal.theme_file is None,
            c.theme == ThemePreference::System,
    {
        Config {
            sphinx: SphinxConfig::default(),
            python: PythonConfig::default(),
            editor: EditorConfig::default(),
            terminal: TerminalConfig::default(),
            theme: ThemePreference::System,
        }
    }
}

/// Documentation-build configuration.
#[derive(Clone, Debug)]
pub struct SphinxConfig {
    /// Source directory.
    pub source_dir: String,
    /// Build directory.
    pub build_dir: String,
    /// Server configuration.
    pub server: SphinxServerConfig,
    /// Extra arguments for the build server.
    pub extra_args: Vec<String>,
}

impl Default for SphinxConfig {
    fn default() -> (c: SphinxConfig)
        ensures
            c.source_dir@ == "docs"@,
            c.build_dir@ == "_build/html"@,
            c.server.port == 0,
            c.extra_args@.len() == 0,
    {
        SphinxConfig {
            source_dir: "docs".to_owned(),
            build_dir: "_build/html".to_owned(),
            server: SphinxServerConfig::default(),
            extra_args: Vec::new(),
        }
    }
}

/// Documentation-build server configuration.
#[derive(Clone, Debug)]
pub struct SphinxServerConfig {
    /// Port (0 for auto-assign).
    pub port: u16,
}

impl Default for SphinxServerConfig {
    fn default() -> (c: SphinxServerConfig)
        ensures
            c.port == 0,
    {
        SphinxServerConfig { port: 0 }
    }
}

/// Python configuration.
#[derive(Clone, Debug)]
pub struct PythonConfig {
    /// Python interpreter path.
    pub interpreter: String,
}

impl Default for PythonConfig {
    fn default() -> (c: PythonConfig)
        ensures
            c.interpreter@ == ".venv/bin/python"@,
    {
        PythonConfig { interpreter: ".venv/bin/python".to_owned() }
    }
}

/// Editor configuration.
#[derive(Clone, Debug)]
pub struct EditorConfig {
    /// Editor command.
    pub command: String,
}

impl Default for EditorConfig {
    fn default() -> (c: EditorConfig)
        ensures
            c.command@ == "nvim"@,
    {
        EditorConfig { command: "nvim".to_owned() }
    }
}

/// Terminal configuration.
#[derive(Clone, Debug)]
pub struct TerminalConfig {
    /// Shell path; the platform default when absent.
    pub shell: Option<String>,
    /// Font family.
    pub font_family: String,
    /// Font size.
    pub font_size: u32,
    /// Theme file path.
    pub theme_file: Option<String>,
}

impl Default for TerminalConfig {
    fn default() -> (c: TerminalConfig)
        ensures
            c.shell is None,
            c.font_family@ == "Menlo"@,
            c.font_size == 14,
            c.theme_file is None,
    {
        TerminalConfig {
            shell: None,
            font_family: "Menlo".to_owned(),
            font_size: 14,
            theme_file: None,
        }
    }
}

/// Development-time overrides, applied on top of a base configuration;
/// a field that is set replaces the base value, one that is absent
/// leaves it alone.
#[derive(Clone, Debug)]
pub struct DevConfig {
    /// Override the documentation source directory.
    pub sphinx_source_dir: Option<String>,
    /// Override the documentation build directory.
    pub sphinx_build_dir: Option<String>,
    /// Override the Python interpreter path.
    pub python_interpreter: Option<String>,
    /// Override the shell path.
    pub shell: Option<String>,
    /// Override the theme preference.
    pub theme: Option<ThemePreference>,
    /// Override the extra build-server arguments.
    pub sphinx_extra_args: Option<Vec<String>>,
}

impl Default for DevConfig {
    fn default() -> (c: DevConfig)
        ensures
            c.sphinx_source_dir is None,
            c.sphinx_build_dir is None,
            c.python_interpreter is None,
            c.shell is None,
            c.theme is None,
            c.sphinx_extra_args is None,
    {
        DevConfig {
            sphinx_source_dir: None,
            sphinx_build_dir: None,
            python_interpreter: None,
            shell: None,
            theme: None,
            sphinx_extra_args: None,
        }
    }
}

impl DevConfig {
    /// Apply these overrides to a base configuration: every field that
    /// is set here replaces the base field, every other base field is
    /// returned unchanged.
    pub fn apply_to(&self, config: Config) -> (r: Config)
        ensures
            r.sphinx.source_dir == (match self.sphinx_source_dir {
                Some(d) => d,
                None => config.sphinx.source_dir,
            }),
            r.sphinx.build_dir == (match self.sphinx_build_dir {
                Some(d) => d,
                None => config.sphinx.build_dir,
            }),
            r.sphinx.server == config.sphinx.server,
            r.sphinx.extra_args@ == (match self.sphinx_extra_args {
                Some(a) => a@,
                None => config.sphinx.extra_args@,
            }),
            r.python.interpreter == (match self.python_interpreter {
                Some(p) => p,
                None => config.python.interpreter,
            }),
            r.editor == config.editor,
            r.terminal.shell == (match self.shell {
                Some(s) => Some(s),
                None => config.terminal.shell,
            }),
            r.terminal.font_family == config.terminal.font_family,
            r.terminal.font_size == config.terminal.font_size,
            r.terminal.theme_file == config.terminal.theme_file,
            r.theme == (match self.theme {
                Some(t) => t,
                None => config.theme,
            }),
    {
        let mut config = config;
        if let Some(dir) = &self.sphinx_source_dir {
            config.sphinx.source_dir = dir.clone();
        }
        if let Some(dir) = &self.sphinx_build_dir {
            config.sphinx.build_dir = dir.clone();
        }
        if let Some(interpreter) = &self.python_interpreter {
            config.python.interpreter = interpreter.clone();
        }
        if let Some(shell) = &self.shell {
            config.terminal.shell = Some(shell.clone());
        }
        if let Some(theme) = self.theme {
            config.theme = theme;
        }
        if let Some(args) = &self.sphinx_extra_args {
            config.sphinx.extra_args = args.clone();
            proof {
                assert(config.sphinx.extra_args@ =~= self.sphinx_extra_args->0@);
            }
        }
        config
    }
}

} // verus!
