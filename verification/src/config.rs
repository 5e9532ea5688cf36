//! Configuration bootstrap for the host process: the first-run files,
//! their exact content, and the plan of which files to create.
//!
//! A bootstrap never overwrites anything: the plan lists a file only
//! when it is absent. The caller reports which files exist, receives
//! the plan, and performs the writes. The idempotence law — a second
//! bootstrap over a fully bootstrapped directory plans nothing — is
//! proved here.

use vstd::prelude::*;
use vstd::string::StringExecFns;

use crate::paths::{path_join, path_joined, simplified_path, simplify_path};
use crate::text::{json_quote, json_quoted};

verus! {

/// The reserved name of the built-in tool-server entry in the
/// tool-server registry.
pub open spec fn default_server_name() -> Seq<char> {
    "__SYSTEM_DIVE_SERVER__"@
}

/// The reserved name of the built-in tool-server entry.
pub fn default_server_name_str() -> (r: String)
    ensures
        r@ == default_server_name(),
{
    "__SYSTEM_DIVE_SERVER__".to_owned()
}

/// The configuration files the bootstrap creates when absent.
#[derive(Clone, Copy, Debug, PartialEq, Eq, Structural)]
pub enum ConfigFile {
    /// Command-alias map, JSON; user-editable.
    CommandAlias,
    /// Custom rules, opaque text; user-editable.
    CustomRules,
    /// Tool-server registry, JSON.
    McpConfig,
    /// Model-selection defaults, JSON.
    ModelConfig,
    /// Plugin registry, JSON.
    PluginConfig,
    /// The worker's storage configuration, JSON.
    HttpdConfig,
}

impl ConfigFile {
    /// The file's name inside the configuration directory.
    pub open spec fn name_spec(self) -> Seq<char> {
        match self {
            ConfigFile::CommandAlias => "command_alias.json"@,
            ConfigFile::CustomRules => "customrules"@,
            ConfigFile::McpConfig => "mcp_config.json"@,
            ConfigFile::ModelConfig => "model_config.json"@,
            ConfigFile::PluginConfig => "plugin_config.json"@,
            ConfigFile::HttpdConfig => "dive_httpd.json"@,
        }
    }

    /// The file's name inside the configuration directory.
    pub fn name(self) -> (r: String)
        ensures
            r@ == self.name_spec(),
    {
        match self {
            ConfigFile::CommandAlias => "command_alias.json".to_owned(),
            ConfigFile::CustomRules => "customrules".to_owned(),
            ConfigFile::McpConfig => "mcp_config.json".to_owned(),
            ConfigFile::ModelConfig => "model_config.json".to_owned(),
            ConfigFile::PluginConfig => "plugin_config.json".to_owned(),
            ConfigFile::HttpdConfig => "dive_httpd.json".to_owned(),
        }
    }
}

/// Which configuration files already exist when the bootstrap runs.
#[derive(Clone, Copy, Debug, PartialEq, Eq, Structural)]
pub struct ExistingFiles {
    pub command_alias: bool,
    pub custom_rules: bool,
    pub mcp_config: bool,
    pub model_config: bool,
    pub plugin_config: bool,
    pub httpd_config: bool,
}

impl ExistingFiles {
    /// Whether `f` already exists.
    pub open spec fn has(self, f: ConfigFile) -> bool {
        match f {
            ConfigFile::CommandAlias => self.command_alias,
            ConfigFile::CustomRules => self.custom_rules,
            ConfigFile::McpConfig => self.mcp_config,
            ConfigFile::ModelConfig => self.model_config,
            ConfigFile::PluginConfig => self.plugin_config,
            ConfigFile::HttpdConfig => self.httpd_config,
        }
    }
}

/// What the bootstrap needs to know: which files exist, the platform,
/// and the already-normalized paths that appear inside the contents.
pub struct BootstrapEnv {
    /// Which configuration files already exist.
    pub existing: ExistingFiles,
    /// Whether the platform uses the bundled runtime shims (and
    /// backslashed paths) of the alias map.
    pub windows: bool,
    /// Normalized path of the bundled `npx` shim.
    pub npx_path: String,
    /// Normalized path of the bundled `npm` shim.
    pub npm_path: String,
    /// Normalized path of the built-in tool-server binary.
    pub def_mcp_bin_path: String,
    /// Whether that binary exists.
    pub def_mcp_bin_exists: bool,
    /// Normalized path of the directory holding the worker's database.
    pub db_dir: String,
}

/// Gather the bootstrap environment: the bundled runtime shims live
/// under `nodejs` inside the binaries directory, and every path that
/// ends up inside a configuration file is normalized first.
pub fn bootstrap_env(
    existing: ExistingFiles,
    windows: bool,
    bin_dir: &str,
    def_mcp_bin_path: &str,
    def_mcp_bin_exists: bool,
    config_dir: &str,
) -> (r: BootstrapEnv)
    ensures
        r.existing == existing,
        r.windows == windows,
        r.npx_path@ == simplified_path(path_joined(path_joined(bin_dir@, "nodejs"@), "npx.cmd"@)),
        r.npm_path@ == simplified_path(path_joined(path_joined(bin_dir@, "nodejs"@), "npm.cmd"@)),
        r.def_mcp_bin_path@ == simplified_path(def_mcp_bin_path@),
        r.def_mcp_bin_exists == def_mcp_bin_exists,
        r.db_dir@ == simplified_path(config_dir@),
{
    let nodejs_bin = path_join(bin_dir, "nodejs");
    BootstrapEnv {
        existing,
        windows,
        npx_path: simplify_path(path_join(nodejs_bin.as_str(), "npx.cmd").as_str()),
        npm_path: simplify_path(path_join(nodejs_bin.as_str(), "npm.cmd").as_str()),
        def_mcp_bin_path: simplify_path(def_mcp_bin_path),
        def_mcp_bin_exists,
        db_dir: simplify_path(config_dir),
    }
}

/// Content of the command-alias map: empty on platforms that find the
/// tools on the search path; the bundled shims, by absolute path, on
/// the platform that bundles them.
pub open spec fn alias_content_spec(windows: bool, npx: Seq<char>, npm: Seq<char>) -> Seq<char> {
    if windows {
        "{\"npx\":"@ + json_quoted(npx) + ",\"npm\":"@ + json_quoted(npm) + "}"@
    } else {
        "{}"@
    }
}

/// Content of the command-alias map.
pub fn alias_file_content(windows: bool, npx_path: &str, npm_path: &str) -> (r: String)
    ensures
        r@ == alias_content_spec(windows, npx_path@, npm_path@),
{
    if windows {
        let mut r = "{\"npx\":".to_owned();
        r.append(json_quote(npx_path).as_str());
        r.append(",\"npm\":");
        r.append(json_quote(npm_path).as_str());
        r.append("}");
        proof {
            assert(r@ =~= alias_content_spec(true, npx_path@, npm_path@));
        }
        r
    } else {
        "{}".to_owned()
    }
}

/// One registry entry for the built-in tool server: spoken to over
/// standard streams, enabled, started by the given command.
pub open spec fn server_entry_spec(command: Seq<char>) -> Seq<char> {
    "{\"transport\":\"stdio\",\"enabled\":true,\"command\":"@ + json_quoted(command) + "}"@
}

/// One registry entry for the built-in tool server.
pub fn server_entry(command: &str) -> (r: String)
    ensures
        r@ == server_entry_spec(command@),
{
    let mut r = "{\"transport\":\"stdio\",\"enabled\":true,\"command\":".to_owned();
    r.append(json_quote(command).as_str());
    r.append("}");
    proof {
        assert(r@ =~= server_entry_spec(command@));
    }
    r
}

/// Content of the tool-server registry: the built-in entry under its
/// reserved name when the built-in binary exists, an empty registry
/// otherwise.
pub open spec fn mcp_config_spec(bin_exists: bool, bin_path: Seq<char>) -> Seq<char> {
    if bin_exists {
        "{\"mcpServers\":{"@ + json_quoted(default_server_name()) + ":"@ + server_entry_spec(
            bin_path,
        ) + "}}"@
    } else {
        "{\"mcpServers\":{}}"@
    }
}

/// Content of the tool-server registry.
pub fn mcp_config_content(bin_exists: bool, bin_path: &str) -> (r: String)
    ensures
        r@ == mcp_config_spec(bin_exists, bin_path@),
{
    if bin_exists {
        let mut r = "{\"mcpServers\":{".to_owned();
        r.append(json_quote("__SYSTEM_DIVE_SERVER__").as_str());
        r.append(":");
        r.append(server_entry(bin_path).as_str());
        r.append("}}");
        proof {
            assert(r@ =~= mcp_config_spec(true, bin_path@));
        }
        r
    } else {
        "{\"mcpServers\":{}}".to_owned()
    }
}

/// Content of the model-selection defaults.
pub open spec fn model_config_spec() -> Seq<char> {
    "{\"activeProvider\":\"none\",\"enableTools\":true,\"disableDiveSystemPrompt\":false}"@
}

/// Content of the model-selection defaults.
pub fn model_config_content() -> (r: String)
    ensures
        r@ == model_config_spec(),
{
    "{\"activeProvider\":\"none\",\"enableTools\":true,\"disableDiveSystemPrompt\":false}".to_owned()
}

/// Content of the plugin registry: the one built-in platform plugin.
pub open spec fn plugin_config_spec() -> Seq<char> {
    "[{\"name\":\"oap-platform\",\"module\":\"dive_mcp_host.oap_plugin\",\"config\":{},\"ctx_manager\":\"dive_mcp_host.oap_plugin.OAPPlugin\",\"static_callbacks\":\"dive_mcp_host.oap_plugin.get_static_callbacks\"}]"@
}

/// Content of the plugin registry.
pub fn plugin_config_content() -> (r: String)
    ensures
        r@ == plugin_config_spec(),
{
    "[{\"name\":\"oap-platform\",\"module\":\"dive_mcp_host.oap_plugin\",\"config\":{},\"ctx_manager\":\"dive_mcp_host.oap_plugin.OAPPlugin\",\"static_callbacks\":\"dive_mcp_host.oap_plugin.get_static_callbacks\"}]".to_owned()
}

/// The connection URI of the worker's local database inside `db_dir`.
pub open spec fn db_uri_spec(db_dir: Seq<char>) -> Seq<char> {
    "sqlite:///"@ + db_dir + "/db.sqlite"@
}

/// The connection URI of the worker's local database.
pub fn db_uri(db_dir: &str) -> (r: String)
    ensures
        r@ == db_uri_spec(db_dir@),
{
    let mut r = "sqlite:///".to_owned();
    r.append(db_dir);
    r.append("/db.sqlite");
    proof {
        assert(r@ =~= db_uri_spec(db_dir@));
    }
    r
}

/// Content of the worker's storage configuration: the database URI,
/// pool sizing and recycling limits, and the migrate flag, with the
/// checkpointer pointed at the same database.
pub open spec fn httpd_config_spec(db_dir: Seq<char>) -> Seq<char> {
    "{\"db\":{\"uri\":"@ + json_quoted(db_uri_spec(db_dir))
        + ",\"pool_size\":5,\"pool_recycle\":60,\"max_overflow\":10,\"echo\":false,\"pool_pre_ping\":true,\"migrate\":true},\"checkpointer\":{\"uri\":"@
        + json_quoted(db_uri_spec(db_dir)) + "}}"@
}

/// Content of the worker's storage configuration.
pub fn httpd_config_content(db_dir: &str) -> (r: String)
    ensures
        r@ == httpd_config_spec(db_dir@),
{
    let uri = db_uri(db_dir);
    let quoted = json_quote(uri.as_str());
    let mut r = "{\"db\":{\"uri\":".to_owned();
    r.append(quoted.as_str());
    r.append(
        ",\"pool_size\":5,\"pool_recycle\":60,\"max_overflow\":10,\"echo\":false,\"pool_pre_ping\":true,\"migrate\":true},\"checkpointer\":{\"uri\":",
    );
    r.append(quoted.as_str());
    r.append("}}");
    proof {
        assert(r@ =~= httpd_config_spec(db_dir@));
    }
    r
}

/// The content the bootstrap gives file `f` under environment `env`.
pub open spec fn bootstrap_content(env: BootstrapEnv, f: ConfigFile) -> Seq<char> {
    match f {
        ConfigFile::CommandAlias => alias_content_spec(env.windows, env.npx_path@, env.npm_path@),
        ConfigFile::CustomRules => Seq::empty(),
        ConfigFile::McpConfig => mcp_config_spec(env.def_mcp_bin_exists, env.def_mcp_bin_path@),
        ConfigFile::ModelConfig => model_config_spec(),
        ConfigFile::PluginConfig => plugin_config_spec(),
        ConfigFile::HttpdConfig => httpd_config_spec(env.db_dir@),
    }
}

/// One file the bootstrap will create, with its content.
pub struct PlannedWrite {
    pub file: ConfigFile,
    pub content: String,
}

/// Model of one planned write.
pub open spec fn write_model(w: PlannedWrite) -> (ConfigFile, Seq<char>) {
    (w.file, w.content@)
}

/// Model of a list of planned writes.
pub open spec fn writes_model(ws: Seq<PlannedWrite>) -> Seq<(ConfigFile, Seq<char>)> {
    ws.map_values(|w: PlannedWrite| write_model(w))
}

/// The entry planned for file `f`: nothing when it exists, the file
/// with its content when it is absent.
pub open spec fn plan_entry(env: BootstrapEnv, f: ConfigFile) -> Seq<(ConfigFile, Seq<char>)> {
    if env.existing.has(f) {
        Seq::empty()
    } else {
        seq![(f, bootstrap_content(env, f))]
    }
}

/// The whole bootstrap plan: each absent file once, in a fixed order,
/// with its content; no file that exists.
pub open spec fn plan_model(env: BootstrapEnv) -> Seq<(ConfigFile, Seq<char>)> {
    plan_entry(env, ConfigFile::CommandAlias) + plan_entry(env, ConfigFile::CustomRules)
        + plan_entry(env, ConfigFile::McpConfig) + plan_entry(env, ConfigFile::ModelConfig)
        + plan_entry(env, ConfigFile::PluginConfig) + plan_entry(env, ConfigFile::HttpdConfig)
}

/// Compute the bootstrap plan: every absent configuration file, with
/// the content it is to be created with; never a file that exists.
pub fn plan_config_bootstrap(env: &BootstrapEnv) -> (writes: Vec<PlannedWrite>)
    ensures
        writes_model(writes@) == plan_model(*env),
{
    let mut writes: Vec<PlannedWrite> = Vec::new();
    if !env.existing.command_alias {
        let content = alias_file_content(env.windows, env.npx_path.as_str(), env.npm_path.as_str());
        writes.push(PlannedWrite { file: ConfigFile::CommandAlias, content });
    }
    if !env.existing.custom_rules {
        writes.push(PlannedWrite { file: ConfigFile::CustomRules, content: String::new() });
    }
    if !env.existing.mcp_config {
        let content = mcp_config_content(env.def_mcp_bin_exists, env.def_mcp_bin_path.as_str());
        writes.push(PlannedWrite { file: ConfigFile::McpConfig, content });
    }
    if !env.existing.model_config {
        writes.push(PlannedWrite { file: ConfigFile::ModelConfig, content: model_config_content() });
    }
    if !env.existing.plugin_config {
        writes.push(
            PlannedWrite { file: ConfigFile::PluginConfig, content: plugin_config_content() },
        );
    }
    if !env.existing.httpd_config {
        let content = httpd_config_content(env.db_dir.as_str());
        writes.push(PlannedWrite { file: ConfigFile::HttpdConfig, content });
    }
    proof {
        assert(writes_model(writes@) =~= plan_model(*env));
    }
    writes
}

/// Law (no overwrite): the bootstrap plan never names a file that
/// already exists, whatever the environment.
pub proof fn lemma_bootstrap_never_overwrites(env: BootstrapEnv, i: int)
    requires
        0 <= i < plan_model(env).len(),
    ensures
        !env.existing.has(plan_model(env)[i].0),
{
}

/// Law (idempotence): after a first bootstrap every configuration file
/// exists — created or already there — so a second bootstrap plans no
/// write at all, and in particular never touches the user-editable
/// files the first run created or found.
pub proof fn lemma_bootstrap_idempotent(env: BootstrapEnv)
    requires
        forall|f: ConfigFile| env.existing.has(f),
    ensures
        plan_model(env) =~= Seq::empty(),
{
    assert(env.existing.has(ConfigFile::CommandAlias));
    assert(env.existing.has(ConfigFile::CustomRules));
    assert(env.existing.has(ConfigFile::McpConfig));
    assert(env.existing.has(ConfigFile::ModelConfig));
    assert(env.existing.has(ConfigFile::PluginConfig));
    assert(env.existing.has(ConfigFile::HttpdConfig));
}

/// The existence flags after a bootstrap ran: every file exists.
pub fn all_files_existing() -> (r: ExistingFiles)
    ensures
        forall|f: ConfigFile| r.has(f),
{
    ExistingFiles {
        command_alias: true,
        custom_rules: true,
        mcp_config: true,
        model_config: true,
        plugin_config: true,
        httpd_config: true,
    }
}

} // verus!
