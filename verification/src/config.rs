//! Configuration data: plain settings records handed in by the surrounding
//! application, which reads and writes the actual files. Directory entries
//! are held as plain path strings.

use vstd::prelude::*;
use std::collections::HashMap;

verus! {

/// Application-wide switches.
#[derive(Clone, Debug, PartialEq)]
pub struct GeneralConfig {
    pub auto_update: bool,
    pub telemetry: bool,
    pub crash_reporting: bool,
    pub startup_command: Option<String>,
    pub working_directory: Option<String>,
}

/// How the terminal itself behaves.
#[derive(Clone, Debug, PartialEq)]
pub struct TerminalConfig {
    pub shell: String,
    pub shell_args: Vec<String>,
    pub scrollback_lines: usize,
    pub cursor_blink: bool,
    pub cursor_style: String,
    pub bell: bool,
    pub bell_sound: Option<String>,
    pub word_separators: String,
    pub copy_on_select: bool,
    pub paste_on_right_click: bool,
}

/// Which plugins load and from where.
#[derive(Clone, Debug, PartialEq)]
pub struct PluginConfig {
    pub enabled_plugins: Vec<String>,
    pub plugin_directory: String,
    pub auto_update_plugins: bool,
    pub plugin_repositories: Vec<String>,
}

/// Theme selection and discovery.
#[derive(Clone, Debug, PartialEq)]
pub struct ThemeConfig {
    pub current_theme: String,
    pub theme_directories: Vec<String>,
    pub auto_switch_theme: bool,
    pub light_theme: String,
    pub dark_theme: String,
}

/// Keyset selection and discovery.
#[derive(Clone, Debug, PartialEq)]
pub struct KeysetConfig {
    pub current_keyset: String,
    pub keyset_directories: Vec<String>,
    pub custom_bindings: HashMap<String, String>,
}

/// Workflow discovery and limits.
#[derive(Clone, Debug, PartialEq)]
pub struct WorkflowConfig {
    pub enabled: bool,
    pub workflow_directories: Vec<String>,
    pub auto_execute: bool,
    pub max_concurrent_workflows: usize,
}

/// Script engine limits.
#[derive(Clone, Debug, PartialEq)]
pub struct ScriptingConfig {
    pub enabled: bool,
    pub default_language: String,
    pub script_directories: Vec<String>,
    pub timeout: u64,
    pub max_memory: usize,
    pub allowed_modules: Vec<String>,
}

/// Remote shell settings.
#[derive(Clone, Debug, PartialEq)]
pub struct SSHConfig {
    pub enabled: bool,
    pub default_user: Option<String>,
    pub key_directory: String,
    pub known_hosts_file: String,
    pub connection_timeout: u64,
    pub keep_alive_interval: u64,
}

/// Container tooling settings.
#[derive(Clone, Debug, PartialEq)]
pub struct DockerConfig {
    pub enabled: bool,
    pub socket_path: String,
    pub default_registry: String,
    pub auto_pull_images: bool,
    pub cleanup_containers: bool,
}

/// Renderer settings.
#[derive(Clone, Debug, PartialEq)]
pub struct GPUConfig {
    pub enabled: bool,
    pub backend: String,
    pub vsync: bool,
    pub max_fps: u32,
    pub power_preference: String,
}

/// In-process plugin sandbox settings.
#[derive(Clone, Debug, PartialEq)]
pub struct WASMConfig {
    pub enabled: bool,
    pub max_memory: usize,
    pub timeout: u64,
    pub allowed_imports: Vec<String>,
    pub sandbox_level: String,
}

/// The chords bound to the stock commands.
#[derive(Clone, Debug, PartialEq)]
pub struct KeybindingConfig {
    pub copy: String,
    pub paste: String,
    pub new_tab: String,
    pub close_tab: String,
    pub split_horizontal: String,
    pub split_vertical: String,
    pub search: String,
    pub command_palette: String,
    pub settings: String,
}

/// Diagnostics switches.
#[derive(Clone, Debug, PartialEq)]
pub struct DebugConfig {
    pub enabled: bool,
    pub log_level: String,
    pub log_file: Option<String>,
    pub performance_monitoring: bool,
    pub memory_profiling: bool,
}

} // verus!
