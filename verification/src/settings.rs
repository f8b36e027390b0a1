//! Configuration of the daemon, the editor, extensions and AI helpers.
//!
//! Paths are carried as plain strings; loading, saving and merging of
//! settings files is done by the boundary layer.

use vstd::prelude::*;

verus! {

/// Daemon connection and process settings, including the IPC limits.
#[derive(Debug, Clone, PartialEq)]
pub struct DaemonSettings {
    /// Socket address for IPC connection.
    pub daemon_socket: String,
    /// Auto-start daemon if not running.
    pub auto_start: bool,
    /// Daemon executable path, when fixed by configuration.
    pub executable_path: Option<String>,
    /// Connection timeout in seconds.
    pub connection_timeout: u64,
    /// Health check interval in seconds.
    pub health_check_interval: u64,
    /// IPC: cap on one frame's payload, in bytes.
    pub ipc_max_frame_bytes: u32,
    /// IPC: default request timeout, in milliseconds.
    pub ipc_request_timeout_ms: u64,
    /// IPC: cap on in-flight requests per connection (backpressure).
    pub ipc_max_inflight_per_conn: usize,
}

impl Default for DaemonSettings {
    /// The stock daemon settings: local loopback socket, auto-start, a
    /// 1 MiB frame cap, a 30 s request timeout, 1024 in-flight requests.
    fn default() -> (r: Self)
        ensures
            r.daemon_socket@ == "127.0.0.1:8877"@,
            r.auto_start == true,
            r.executable_path is None,
            r.connection_timeout == 5,
            r.health_check_interval == 30,
            r.ipc_max_frame_bytes == 1048576,
            r.ipc_request_timeout_ms == 30000,
            r.ipc_max_inflight_per_conn == 1024,
    {
        DaemonSettings {
            daemon_socket: "127.0.0.1:8877".to_owned(),
            auto_start: true,
            executable_path: None,
            connection_timeout: 5,
            health_check_interval: 30,
            ipc_max_frame_bytes: 1048576,
            ipc_request_timeout_ms: 30000,
            ipc_max_inflight_per_conn: 1024,
        }
    }
}

impl DaemonSettings {
    /// Applies the environment overrides for the IPC limits, already
    /// parsed by the boundary layer: each given value replaces its
    /// setting, an absent one leaves it.
    pub fn apply_ipc_overrides(
        &mut self,
        max_inflight: Option<usize>,
        max_frame: Option<u32>,
        timeout_ms: Option<u64>,
    )
        ensures
            final(self).ipc_max_inflight_per_conn == match max_inflight {
                Some(v) => v,
                None => old(self).ipc_max_inflight_per_conn,
            },
            final(self).ipc_max_frame_bytes == match max_frame {
                Some(v) => v,
                None => old(self).ipc_max_frame_bytes,
            },
            final(self).ipc_request_timeout_ms == match timeout_ms {
                Some(v) => v,
                None => old(self).ipc_request_timeout_ms,
            },
            final(self).daemon_socket == old(self).daemon_socket,
            final(self).auto_start == old(self).auto_start,
            final(self).executable_path == old(self).executable_path,
            final(self).connection_timeout == old(self).connection_timeout,
            final(self).health_check_interval == old(self).health_check_interval,
    {
        match max_inflight {
            Some(v) => {
                self.ipc_max_inflight_per_conn = v;
            },
            None => {},
        }
        match max_frame {
            Some(v) => {
                self.ipc_max_frame_bytes = v;
            },
            None => {},
        }
        match timeout_ms {
            Some(v) => {
                self.ipc_request_timeout_ms = v;
            },
            None => {},
        }
    }
}

/// Editor behavior settings.
#[derive(Debug, Clone, PartialEq)]
pub struct EditorSettings {
    /// Auto-save delay in milliseconds.
    pub auto_save_delay: u32,
    /// Maximum file size for syntax highlighting, in bytes.
    pub max_highlight_size: u32,
    /// Enable bracket matching.
    pub bracket_matching: bool,
    /// Auto-close brackets and quotes.
    pub auto_close_brackets: bool,
    /// Trim trailing whitespace on save.
    pub trim_trailing_whitespace: bool,
    /// Insert final newline on save.
    pub insert_final_newline: bool,
}

impl Default for EditorSettings {
    /// The stock editor settings: 1 s auto-save, 10 MiB highlight cap,
    /// all editing conveniences on.
    fn default() -> (r: Self)
        ensures
            r.auto_save_delay == 1000,
            r.max_highlight_size == 10485760,
            r.bracket_matching == true,
            r.auto_close_brackets == true,
            r.trim_trailing_whitespace == true,
            r.insert_final_newline == true,
    {
        EditorSettings {
            auto_save_delay: 1000,
            max_highlight_size: 10485760,
            bracket_matching: true,
            auto_close_brackets: true,
            trim_trailing_whitespace: true,
            insert_final_newline: true,
        }
    }
}

/// Extension and plugin settings.
#[derive(Debug, Clone, PartialEq)]
pub struct ExtensionSettings {
    /// Enable VS Code extension support.
    pub enable_vscode_extensions: bool,
    /// Enable legacy Atom package support.
    pub enable_atom_packages: bool,
    /// Enable native WASM plugins.
    pub enable_native_plugins: bool,
    /// Extension installation directory.
    pub extension_dir: String,
    /// Auto-update extensions.
    pub auto_update: bool,
    /// Open VSX registry URL.
    pub registry_url: String,
}

impl Default for ExtensionSettings {
    /// The stock extension settings; the extension directory falls back
    /// to a relative location until the boundary layer resolves the
    /// user's configuration directory.
    fn default() -> (r: Self)
        ensures
            r.enable_vscode_extensions == true,
            r.enable_atom_packages == true,
            r.enable_native_plugins == true,
            r.extension_dir@ == ".atom/atom-ide/extensions"@,
            r.auto_update == false,
            r.registry_url@ == "https://open-vsx.org"@,
    {
        ExtensionSettings {
            enable_vscode_extensions: true,
            enable_atom_packages: true,
            enable_native_plugins: true,
            extension_dir: ".atom/atom-ide/extensions".to_owned(),
            auto_update: false,
            registry_url: "https://open-vsx.org".to_owned(),
        }
    }
}

/// AI integration settings.
#[derive(Debug, Clone, PartialEq)]
pub struct AiSettings {
    /// Enable the coding assistant integration.
    pub enable_assistant: bool,
    /// API key, when not using browser sign-in.
    pub api_key: Option<String>,
    /// Enable MCP servers.
    pub enable_mcp: bool,
    /// MCP server configurations.
    pub mcp_servers: Vec<McpServerConfig>,
    /// Auto-complete with AI suggestions.
    pub enable_ai_completion: bool,
    /// AI model preference.
    pub model: String,
}

impl Default for AiSettings {
    /// The stock AI settings: assistant and MCP on, no key, no servers.
    fn default() -> (r: Self)
        ensures
            r.enable_assistant == true,
            r.api_key is None,
            r.enable_mcp == true,
            r.mcp_servers@.len() == 0,
            r.enable_ai_completion == true,
            r.model@ == "assistant-default"@,
    {
        AiSettings {
            enable_assistant: true,
            api_key: None,
            enable_mcp: true,
            mcp_servers: Vec::new(),
            enable_ai_completion: true,
            model: "assistant-default".to_owned(),
        }
    }
}

/// MCP server configuration.
#[derive(Debug, Clone, PartialEq)]
pub struct McpServerConfig {
    /// Server name/identifier.
    pub name: String,
    /// Command to start the server.
    pub command: String,
    /// Command arguments.
    pub args: Vec<String>,
    /// Environment variables, as key/value pairs with unique keys.
    pub env: Vec<(String, String)>,
    /// Auto-start with the IDE.
    pub auto_start: bool,
}

} // verus!
