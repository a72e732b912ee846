//! Developer tooling: the commands of the command-line tool and the project
//! templates it scaffolds.
use vstd::prelude::*;
use crate::listing::{first_at, first_index, lemma_first_index, lemma_no_first_index, lemma_first_index_none, sort_desc, sort_desc_by_key, lemma_sort_desc, descending};
use crate::text::{contains, contains_text, lowercase_text, to_lower};

verus! {

/// Category of a plugin.
#[derive(Debug, Clone, Copy, PartialEq, Eq, Hash, Structural)]
pub enum PluginCategory {
    /// Adapters to AI frameworks.
    FrameworkAdapter,
    /// Tools and utilities.
    Tools,
    /// Data connectors.
    DataConnectors,
    /// Security and authentication.
    Security,
    /// Monitoring and observability.
    Monitoring,
    /// Development tools.
    Development,
    /// Custom extensions.
    Custom,
}

/// The versions and platforms a plugin works with.
#[derive(Debug, Clone)]
pub struct CompatibilityInfo {
    /// Version of the platform required.
    pub agentx_version: String,
    /// Platforms supported.
    pub supported_platforms: Vec<String>,
    /// Features required.
    pub required_features: Vec<String>,
}

/// A plugin that a plugin depends on.
#[derive(Debug, Clone)]
pub struct PluginDependency {
    /// Name.
    pub name: String,
    /// Version.
    pub version: String,
    /// Whether the dependency may be missing.
    pub optional: bool,
}

/// An option of a command.
#[derive(Debug, Clone)]
pub struct CliOption {
    /// Long name.
    pub name: String,
    /// Short name, if any.
    pub short: Option<String>,
    /// What it does.
    pub description: String,
    /// Whether it must be given.
    pub required: bool,
    /// Value when not given, if any.
    pub default_value: Option<String>,
}

/// A command of the command-line tool.
#[derive(Debug)]
pub struct CliCommand {
    /// Name.
    pub name: String,
    /// What it does.
    pub description: String,
    /// How it is called.
    pub usage: String,
    /// Options.
    pub options: Vec<CliOption>,
    /// Subcommands.
    pub subcommands: Vec<CliCommand>,
}

/// A project template. Its files are a list of distinct paths with their
/// contents.
#[derive(Debug, Clone)]
pub struct ProjectTemplate {
    /// Name.
    pub name: String,
    /// What it is for.
    pub description: String,
    /// Programming language.
    pub language: String,
    /// Framework.
    pub framework: String,
    /// Files, by path.
    pub files: Vec<(String, String)>,
    /// Dependencies.
    pub dependencies: Vec<String>,
    /// Steps to set the project up.
    pub setup_instructions: Vec<String>,
}

/// The view of an optional text.
pub open spec fn opt_text(t: Option<String>) -> Option<Seq<char>> {
    match t {
        Some(s) => Some(s@),
        None => None,
    }
}

/// Whether an option is the one described: not required, with the given
/// names, description and default.
pub open spec fn option_is(o: CliOption, name: Seq<char>, short: Seq<char>, description: Seq<char>, default: Seq<char>) -> bool {
    &&& o.name@ == name
    &&& opt_text(o.short) == Some(short)
    &&& o.description@ == description
    &&& !o.required
    &&& opt_text(o.default_value) == Some(default)
}

/// Whether a command has the given name, description and usage.
pub open spec fn command_is(c: CliCommand, name: Seq<char>, description: Seq<char>, usage: Seq<char>) -> bool {
    c.name@ == name && c.description@ == description && c.usage@ == usage
}

/// Whether a command has the given name, description and usage, and neither
/// options nor subcommands.
pub open spec fn leaf_is(c: CliCommand, name: Seq<char>, description: Seq<char>, usage: Seq<char>) -> bool {
    command_is(c, name, description, usage) && c.options@.len() == 0 && c.subcommands@.len() == 0
}

/// The built-in commands: `init` with a template and a language option,
/// `plugin` with `list`, `install` and `uninstall`, and `dev` with `start` and
/// `test`.
pub open spec fn default_commands(cmds: Seq<CliCommand>) -> bool {
    &&& cmds.len() == 3
    &&& command_is(cmds[0], "init"@, "初始化新的AgentX项目"@, "agentx init [OPTIONS] <project-name>"@)
    &&& cmds[0].options@.len() == 2
    &&& option_is(cmds[0].options@[0], "template"@, "t"@, "项目模板"@, "basic"@)
    &&& option_is(cmds[0].options@[1], "language"@, "l"@, "编程语言"@, "rust"@)
    &&& cmds[0].subcommands@.len() == 0
    &&& command_is(cmds[1], "plugin"@, "插件管理命令"@, "agentx plugin <subcommand>"@)
    &&& cmds[1].options@.len() == 0
    &&& cmds[1].subcommands@.len() == 3
    &&& leaf_is(cmds[1].subcommands@[0], "list"@, "列出已安装的插件"@, "agentx plugin list"@)
    &&& command_is(cmds[1].subcommands@[1], "install"@, "安装插件"@, "agentx plugin install <plugin-name>"@)
    &&& cmds[1].subcommands@[1].options@.len() == 1
    &&& option_is(cmds[1].subcommands@[1].options@[0], "version"@, "v"@, "插件版本"@, "latest"@)
    &&& cmds[1].subcommands@[1].subcommands@.len() == 0
    &&& leaf_is(cmds[1].subcommands@[2], "uninstall"@, "卸载插件"@, "agentx plugin uninstall <plugin-name>"@)
    &&& command_is(cmds[2], "dev"@, "开发工具命令"@, "agentx dev <subcommand>"@)
    &&& cmds[2].options@.len() == 0
    &&& cmds[2].subcommands@.len() == 2
    &&& command_is(cmds[2].subcommands@[0], "start"@, "启动开发服务器"@, "agentx dev start"@)
    &&& cmds[2].subcommands@[0].options@.len() == 1
    &&& option_is(cmds[2].subcommands@[0].options@[0], "port"@, "p"@, "服务器端口"@, "8080"@)
    &&& cmds[2].subcommands@[0].subcommands@.len() == 0
    &&& leaf_is(cmds[2].subcommands@[1], "test"@, "运行测试"@, "agentx dev test"@)
}
/// The file that `generate_rust_cargo_toml` writes.
pub open spec fn generate_rust_cargo_toml_text() -> Seq<char> {
    "[package]\nname = \"agentx-plugin\"\nversion = \"0.1.0\"\nedition = \"2021\"\n\n[dependencies]\nagentx-sdk = \"0.1.0\"\ntokio = { version = \"1.0\", features = [\"full\"] }\ntonic = \"0.10\"\nserde = { version = \"1.0\", features = [\"derive\"] }\nserde_json = \"1.0\"\ntracing = \"0.1\"\n"@
}
/// The file that `generate_rust_main` writes.
pub open spec fn generate_rust_main_text() -> Seq<char> {
    "use agentx_sdk::prelude::*;\nuse tokio;\n\n#[tokio::main]\nasync fn main() -> Result<(), Box<dyn std::error::Error>> {\n    tracing_subscriber::init();\n    \n    let plugin = MyPlugin::new();\n    let server = PluginServer::new(plugin);\n    \n    println!(\"启动AgentX插件服务器...\");\n    server.serve(\"0.0.0.0:50051\").await?;\n    \n    Ok(())\n}\n\nstruct MyPlugin;\n\nimpl MyPlugin {\n    fn new() -> Self {\n        Self\n    }\n}\n\n#[async_trait::async_trait]\nimpl Plugin for MyPlugin {\n    async fn execute(&self, request: PluginRequest) -> PluginResult<PluginResponse> {\n        // 实现插件逻辑\n        Ok(PluginResponse::success(\"Hello from AgentX plugin!\"))\n    }\n}\n"@
}
/// The file that `generate_rust_plugin` writes.
pub open spec fn generate_rust_plugin_text() -> Seq<char> {
    "// 插件实现文件\n// 在这里添加您的插件逻辑\n"@
}
/// The file that `generate_python_requirements` writes.
pub open spec fn generate_python_requirements_text() -> Seq<char> {
    "grpcio>=1.50.0\ngrpcio-tools>=1.50.0\nagentx-sdk>=0.1.0\nasyncio\n"@
}
/// The file that `generate_python_main` writes.
pub open spec fn generate_python_main_text() -> Seq<char> {
    "import asyncio\nfrom agentx_sdk import Plugin, PluginServer\n\nclass MyPlugin(Plugin):\n    async def execute(self, request):\n        # 实现插件逻辑\n        return {\"status\": \"success\", \"message\": \"Hello from AgentX Python plugin!\"}\n\nasync def main():\n    plugin = MyPlugin()\n    server = PluginServer(plugin)\n    \n    print(\"启动AgentX Python插件服务器...\")\n    await server.serve(\"0.0.0.0:50051\")\n\nif __name__ == \"__main__\":\n    asyncio.run(main())\n"@
}
/// The file that `generate_python_plugin` writes.
pub open spec fn generate_python_plugin_text() -> Seq<char> {
    "# 插件实现文件\n# 在这里添加您的插件逻辑\n"@
}

/// The texts of a sequence of strings.
pub open spec fn strs(v: Seq<String>) -> Seq<Seq<char>> {
    v.map_values(|s: String| s@)
}

/// The files of a template as paths with contents.
pub open spec fn file_texts(v: Seq<(String, String)>) -> Seq<(Seq<char>, Seq<char>)> {
    v.map_values(|f: (String, String)| (f.0@, f.1@))
}

/// The built-in templates: a Rust plugin and a Python plugin.
pub open spec fn default_templates(ts: Seq<ProjectTemplate>) -> bool {
    &&& ts.len() == 2
    &&& ts[0].name@ == "rust-plugin"@
    &&& ts[0].description@ == "Rust gRPC插件模板"@
    &&& ts[0].language@ == "rust"@
    &&& ts[0].framework@ == "agentx"@
    &&& file_texts(ts[0].files@) == seq![
        ("Cargo.toml"@, generate_rust_cargo_toml_text()),
        ("src/main.rs"@, generate_rust_main_text()),
        ("src/plugin.rs"@, generate_rust_plugin_text())]
    &&& strs(ts[0].dependencies@) == seq!["agentx-sdk"@, "tokio"@, "tonic"@]
    &&& strs(ts[0].setup_instructions@) == seq!["cargo build"@, "cargo test"@, "cargo run"@]
    &&& ts[1].name@ == "python-plugin"@
    &&& ts[1].description@ == "Python gRPC插件模板"@
    &&& ts[1].language@ == "python"@
    &&& ts[1].framework@ == "agentx"@
    &&& file_texts(ts[1].files@) == seq![
        ("requirements.txt"@, generate_python_requirements_text()),
        ("main.py"@, generate_python_main_text()),
        ("plugin.py"@, generate_python_plugin_text())]
    &&& strs(ts[1].dependencies@) == seq!["grpcio"@, "grpcio-tools"@, "agentx-sdk"@]
    &&& strs(ts[1].setup_instructions@) == seq!["pip install -r requirements.txt"@, "python main.py"@]
}

fn option(name: &str, short: &str, description: &str, default: &str) -> (r: CliOption)
    ensures
        option_is(r, name@, short@, description@, default@),
{
    CliOption {
        name: String::from_str(name),
        short: Some(String::from_str(short)),
        description: String::from_str(description),
        required: false,
        default_value: Some(String::from_str(default)),
    }
}

fn command(name: &str, description: &str, usage: &str, options: Vec<CliOption>, subcommands: Vec<CliCommand>) -> (r: CliCommand)
    ensures
        command_is(r, name@, description@, usage@),
        r.options@ == options@,
        r.subcommands@ == subcommands@,
{
    CliCommand {
        name: String::from_str(name),
        description: String::from_str(description),
        usage: String::from_str(usage),
        options,
        subcommands,
    }
}

fn string_list3(a: &str, b: &str, c: &str) -> (r: Vec<String>)
    ensures
        strs(r@) == seq![a@, b@, c@],
{
    let mut v: Vec<String> = Vec::new();
    v.push(String::from_str(a));
    v.push(String::from_str(b));
    v.push(String::from_str(c));
    assert(strs(v@) =~= seq![a@, b@, c@]);
    v
}

/// The names of a sequence of commands.
pub open spec fn command_names(v: Seq<CliCommand>) -> Seq<Seq<char>> {
    v.map_values(|c: CliCommand| c.name@)
}

/// The names of a sequence of templates.
pub open spec fn template_names(v: Seq<ProjectTemplate>) -> Seq<Seq<char>> {
    v.map_values(|t: ProjectTemplate| t.name@)
}

/// The commands of the command-line tool and the project templates.
pub struct CliToolManager {
    commands: Vec<CliCommand>,
    templates: Vec<ProjectTemplate>,
}

impl CliToolManager {
    /// The commands, in the order they were registered.
    pub closed spec fn commands_spec(&self) -> Seq<CliCommand> {
        self.commands@
    }

    /// The templates, in the order they were registered.
    pub closed spec fn templates_spec(&self) -> Seq<ProjectTemplate> {
        self.templates@
    }

    /// A tool with the built-in commands and templates.
    pub fn new() -> (r: Self)
        ensures
            default_commands(r.commands_spec()),
            default_templates(r.templates_spec()),
    {
        let mut m = CliToolManager { commands: Vec::new(), templates: Vec::new() };
        m.register_default_commands();
        m.register_default_templates();
        m
    }

    /// Registers the built-in commands, replacing any commands registered
    /// before.
    pub fn register_default_commands(&mut self)
        ensures
            default_commands(final(self).commands_spec()),
            final(self).templates_spec() == old(self).templates_spec(),
    {
        let mut init_options: Vec<CliOption> = Vec::new();
        init_options.push(option("template", "t", "项目模板", "basic"));
        init_options.push(option("language", "l", "编程语言", "rust"));
        let init_cmd = command("init", "初始化新的AgentX项目", "agentx init [OPTIONS] <project-name>", init_options, Vec::new());

        let mut install_options: Vec<CliOption> = Vec::new();
        install_options.push(option("version", "v", "插件版本", "latest"));
        let mut plugin_subs: Vec<CliCommand> = Vec::new();
        plugin_subs.push(command("list", "列出已安装的插件", "agentx plugin list", Vec::new(), Vec::new()));
        plugin_subs.push(command("install", "安装插件", "agentx plugin install <plugin-name>", install_options, Vec::new()));
        plugin_subs.push(command("uninstall", "卸载插件", "agentx plugin uninstall <plugin-name>", Vec::new(), Vec::new()));
        let plugin_cmd = command("plugin", "插件管理命令", "agentx plugin <subcommand>", Vec::new(), plugin_subs);

        let mut start_options: Vec<CliOption> = Vec::new();
        start_options.push(option("port", "p", "服务器端口", "8080"));
        let mut dev_subs: Vec<CliCommand> = Vec::new();
        dev_subs.push(command("start", "启动开发服务器", "agentx dev start", start_options, Vec::new()));
        dev_subs.push(command("test", "运行测试", "agentx dev test", Vec::new(), Vec::new()));
        let dev_cmd = command("dev", "开发工具命令", "agentx dev <subcommand>", Vec::new(), dev_subs);

        let mut commands: Vec<CliCommand> = Vec::new();
        commands.push(init_cmd);
        commands.push(plugin_cmd);
        commands.push(dev_cmd);
        self.commands = commands;
    }

    /// Registers the built-in templates, replacing any templates registered
    /// before.
    pub fn register_default_templates(&mut self)
        ensures
            default_templates(final(self).templates_spec()),
            final(self).commands_spec() == old(self).commands_spec(),
    {
        let mut rust_files: Vec<(String, String)> = Vec::new();
        rust_files.push((String::from_str("Cargo.toml"), self.generate_rust_cargo_toml()));
        rust_files.push((String::from_str("src/main.rs"), self.generate_rust_main()));
        rust_files.push((String::from_str("src/plugin.rs"), self.generate_rust_plugin()));
        assert(file_texts(rust_files@) =~= seq![
            ("Cargo.toml"@, generate_rust_cargo_toml_text()),
            ("src/main.rs"@, generate_rust_main_text()),
            ("src/plugin.rs"@, generate_rust_plugin_text())]);
        let rust_template = ProjectTemplate {
            name: String::from_str("rust-plugin"),
            description: String::from_str("Rust gRPC插件模板"),
            language: String::from_str("rust"),
            framework: String::from_str("agentx"),
            files: rust_files,
            dependencies: string_list3("agentx-sdk", "tokio", "tonic"),
            setup_instructions: string_list3("cargo build", "cargo test", "cargo run"),
        };
        let mut python_files: Vec<(String, String)> = Vec::new();
        python_files.push((String::from_str("requirements.txt"), self.generate_python_requirements()));
        python_files.push((String::from_str("main.py"), self.generate_python_main()));
        python_files.push((String::from_str("plugin.py"), self.generate_python_plugin()));
        assert(file_texts(python_files@) =~= seq![
            ("requirements.txt"@, generate_python_requirements_text()),
            ("main.py"@, generate_python_main_text()),
            ("plugin.py"@, generate_python_plugin_text())]);
        let mut python_steps: Vec<String> = Vec::new();
        python_steps.push(String::from_str("pip install -r requirements.txt"));
        python_steps.push(String::from_str("python main.py"));
        assert(strs(python_steps@) =~= seq!["pip install -r requirements.txt"@, "python main.py"@]);
        let python_template = ProjectTemplate {
            name: String::from_str("python-plugin"),
            description: String::from_str("Python gRPC插件模板"),
            language: String::from_str("python"),
            framework: String::from_str("agentx"),
            files: python_files,
            dependencies: string_list3("grpcio", "grpcio-tools", "agentx-sdk"),
            setup_instructions: python_steps,
        };
        let mut templates: Vec<ProjectTemplate> = Vec::new();
        templates.push(rust_template);
        templates.push(python_template);
        self.templates = templates;
    }

    /// The first command named `name`, if any.
    pub fn get_command(&self, name: &str) -> (r: Option<&CliCommand>)
        ensures
            match first_index(command_names(self.commands_spec()), name@) {
                Some(i) => r matches Some(c) && *c == self.commands_spec()[i],
                None => r is None,
            },
    {
        let ghost names = command_names(self.commands@);
        let mut i: usize = 0;
        while i < self.commands.len()
            invariant
                names == command_names(self.commands@),
                i <= self.commands@.len(),
                forall|j: int| 0 <= j < i ==> names[j] != name@,
            decreases self.commands@.len() - i,
        {
            if crate::text::same_text(self.commands[i].name.as_str(), name) {
                proof {
                    assert(first_at(names, name@, i as int));
                    lemma_first_index(names, name@, i as int);
                }
                return Some(&self.commands[i]);
            }
            i = i + 1;
        }
        proof {
            lemma_no_first_index(names, name@);
        }
        None
    }

    /// The first template named `name`, if any.
    pub fn get_template(&self, name: &str) -> (r: Option<&ProjectTemplate>)
        ensures
            match first_index(template_names(self.templates_spec()), name@) {
                Some(i) => r matches Some(t) && *t == self.templates_spec()[i],
                None => r is None,
            },
    {
        let ghost names = template_names(self.templates@);
        let mut i: usize = 0;
        while i < self.templates.len()
            invariant
                names == template_names(self.templates@),
                i <= self.templates@.len(),
                forall|j: int| 0 <= j < i ==> names[j] != name@,
            decreases self.templates@.len() - i,
        {
            if crate::text::same_text(self.templates[i].name.as_str(), name) {
                proof {
                    assert(first_at(names, name@, i as int));
                    lemma_first_index(names, name@, i as int);
                }
                return Some(&self.templates[i]);
            }
            i = i + 1;
        }
        proof {
            lemma_no_first_index(names, name@);
        }
        None
    }

    /// Every command, in the order they were registered.
    pub fn list_commands(&self) -> (r: Vec<&CliCommand>)
        ensures
            r@.len() == self.commands_spec().len(),
            forall|i: int| 0 <= i < r@.len() ==> *(#[trigger] r@[i]) == self.commands_spec()[i],
    {
        let mut out: Vec<&CliCommand> = Vec::new();
        let mut i: usize = 0;
        while i < self.commands.len()
            invariant
                i <= self.commands@.len(),
                out@.len() == i,
                forall|j: int| 0 <= j < i ==> *(#[trigger] out@[j]) == self.commands@[j],
            decreases self.commands@.len() - i,
        {
            out.push(&self.commands[i]);
            i = i + 1;
        }
        out
    }

    /// Every template, in the order they were registered.
    pub fn list_templates(&self) -> (r: Vec<&ProjectTemplate>)
        ensures
            r@.len() == self.templates_spec().len(),
            forall|i: int| 0 <= i < r@.len() ==> *(#[trigger] r@[i]) == self.templates_spec()[i],
    {
        let mut out: Vec<&ProjectTemplate> = Vec::new();
        let mut i: usize = 0;
        while i < self.templates.len()
            invariant
                i <= self.templates@.len(),
                out@.len() == i,
                forall|j: int| 0 <= j < i ==> *(#[trigger] out@[j]) == self.templates@[j],
            decreases self.templates@.len() - i,
        {
            out.push(&self.templates[i]);
            i = i + 1;
        }
        out
    }

    /// The file of the built-in template that this names.
    pub fn generate_rust_cargo_toml(&self) -> (r: String)
        ensures
            r@ == generate_rust_cargo_toml_text(),
    {
        String::from_str("[package]\nname = \"agentx-plugin\"\nversion = \"0.1.0\"\nedition = \"2021\"\n\n[dependencies]\nagentx-sdk = \"0.1.0\"\ntokio = { version = \"1.0\", features = [\"full\"] }\ntonic = \"0.10\"\nserde = { version = \"1.0\", features = [\"derive\"] }\nserde_json = \"1.0\"\ntracing = \"0.1\"\n")
    }

    /// The file of the built-in template that this names.
    pub fn generate_rust_main(&self) -> (r: String)
        ensures
            r@ == generate_rust_main_text(),
    {
        String::from_str("use agentx_sdk::prelude::*;\nuse tokio;\n\n#[tokio::main]\nasync fn main() -> Result<(), Box<dyn std::error::Error>> {\n    tracing_subscriber::init();\n    \n    let plugin = MyPlugin::new();\n    let server = PluginServer::new(plugin);\n    \n    println!(\"启动AgentX插件服务器...\");\n    server.serve(\"0.0.0.0:50051\").await?;\n    \n    Ok(())\n}\n\nstruct MyPlugin;\n\nimpl MyPlugin {\n    fn new() -> Self {\n        Self\n    }\n}\n\n#[async_trait::async_trait]\nimpl Plugin for MyPlugin {\n    async fn execute(&self, request: PluginRequest) -> PluginResult<PluginResponse> {\n        // 实现插件逻辑\n        Ok(PluginResponse::success(\"Hello from AgentX plugin!\"))\n    }\n}\n")
    }

    /// The file of the built-in template that this names.
    pub fn generate_rust_plugin(&self) -> (r: String)
        ensures
            r@ == generate_rust_plugin_text(),
    {
        String::from_str("// 插件实现文件\n// 在这里添加您的插件逻辑\n")
    }

    /// The file of the built-in template that this names.
    pub fn generate_python_requirements(&self) -> (r: String)
        ensures
            r@ == generate_python_requirements_text(),
    {
        String::from_str("grpcio>=1.50.0\ngrpcio-tools>=1.50.0\nagentx-sdk>=0.1.0\nasyncio\n")
    }

    /// The file of the built-in template that this names.
    pub fn generate_python_main(&self) -> (r: String)
        ensures
            r@ == generate_python_main_text(),
    {
        String::from_str("import asyncio\nfrom agentx_sdk import Plugin, PluginServer\n\nclass MyPlugin(Plugin):\n    async def execute(self, request):\n        # 实现插件逻辑\n        return {\"status\": \"success\", \"message\": \"Hello from AgentX Python plugin!\"}\n\nasync def main():\n    plugin = MyPlugin()\n    server = PluginServer(plugin)\n    \n    print(\"启动AgentX Python插件服务器...\")\n    await server.serve(\"0.0.0.0:50051\")\n\nif __name__ == \"__main__\":\n    asyncio.run(main())\n")
    }

    /// The file of the built-in template that this names.
    pub fn generate_python_plugin(&self) -> (r: String)
        ensures
            r@ == generate_python_plugin_text(),
    {
        String::from_str("# 插件实现文件\n# 在这里添加您的插件逻辑\n")
    }
}

impl Default for CliToolManager {
    fn default() -> (r: Self)
        ensures
            default_commands(r.commands_spec()),
            default_templates(r.templates_spec()),
    {
        CliToolManager::new()
    }
}

/// Why a request to the plugin market or the developer tools was refused.
#[derive(Debug, Clone, PartialEq, Eq)]
pub enum EcosystemError {
    /// The request is malformed.
    Validation(String),
    /// What it names does not exist.
    NotFound(String),
}

/// A review of a plugin.
#[derive(Debug, Clone)]
pub struct PluginReview {
    /// Who wrote it.
    pub reviewer: String,
    /// Stars given, from 1 to 5.
    pub rating: u8,
    /// What they wrote.
    pub comment: String,
    /// When, in milliseconds since the Unix epoch.
    pub created_at: i64,
}

/// A plugin offered on the market.
#[derive(Debug, Clone)]
pub struct PluginMarketEntry {
    /// Identifier, unique on the market.
    pub id: String,
    /// Name.
    pub name: String,
    /// What it does.
    pub description: String,
    /// Version.
    pub version: String,
    /// Author.
    pub author: String,
    /// Category.
    pub category: PluginCategory,
    /// Tags.
    pub tags: Vec<String>,
    /// Where to download it.
    pub download_url: String,
    /// Where its documentation is, if anywhere.
    pub documentation_url: Option<String>,
    /// Where its source is, if anywhere.
    pub source_code_url: Option<String>,
    /// Licence.
    pub license: String,
    /// When it was created, in milliseconds since the Unix epoch.
    pub created_at: i64,
    /// When it was last updated, in milliseconds since the Unix epoch.
    pub updated_at: i64,
    /// How often it was downloaded.
    pub downloads: u64,
    /// Its average rating, in thousandths of a star.
    pub rating_milli: u64,
    /// Its reviews.
    pub reviews: Vec<PluginReview>,
    /// What it works with.
    pub compatibility: CompatibilityInfo,
    /// The plugins it needs.
    pub dependencies: Vec<PluginDependency>,
}

/// The identifiers of a sequence of entries.
pub open spec fn market_ids(s: Seq<PluginMarketEntry>) -> Seq<Seq<char>> {
    s.map_values(|e: PluginMarketEntry| e.id@)
}

/// Whether no identifier occurs twice.
pub open spec fn ids_unique(s: Seq<PluginMarketEntry>) -> bool {
    forall|i: int, j: int| 0 <= i < j < s.len() ==> s[i].id@ != s[j].id@
}

/// `e` stored among `s`: in place of the first entry with its identifier, or
/// at the end.
pub open spec fn put_entry(s: Seq<PluginMarketEntry>, e: PluginMarketEntry) -> Seq<PluginMarketEntry> {
    match first_index(market_ids(s), e.id@) {
        Some(i) => s.update(i, e),
        None => s.push(e),
    }
}

/// The total of the stars of some reviews.
pub open spec fn review_sum(r: Seq<PluginReview>) -> nat
    decreases r.len(),
{
    if r.len() == 0 {
        0
    } else {
        review_sum(r.drop_last()) + r.last().rating as nat
    }
}

/// The average of the stars of some reviews, in thousandths, rounded down.
pub open spec fn average_milli(r: Seq<PluginReview>) -> nat {
    if r.len() == 0 {
        0
    } else {
        review_sum(r) * 1000 / r.len()
    }
}

/// How high an entry ranks in a search: its downloads plus a thousand per
/// star of its average rating, at most `u64::MAX`.
pub open spec fn market_score(e: PluginMarketEntry) -> u64 {
    if e.downloads + e.rating_milli > u64::MAX as int {
        u64::MAX
    } else {
        (e.downloads + e.rating_milli) as u64
    }
}

/// Whether `query` occurs in `text`, both taken in lower case.
pub open spec fn lowered_contains(text: Seq<char>, query: Seq<char>) -> bool {
    contains_text(lowercase_text(text), lowercase_text(query))
}

/// Whether an entry answers a search: of the category if one is given, and,
/// for a query that is not empty, with the query in its name, its
/// description or one of its tags, ignoring case.
pub open spec fn matches_search(e: PluginMarketEntry, query: Seq<char>, category: Option<PluginCategory>) -> bool {
    &&& (category matches Some(c) ==> e.category == c)
    &&& (query.len() == 0 || lowered_contains(e.name@, query) || lowered_contains(e.description@, query)
        || exists|k: int| 0 <= k < e.tags@.len() && lowered_contains(#[trigger] e.tags@[k]@, query))
}

/// The positions of the entries that answer a search, each with its score,
/// in the order they are stored.
pub open spec fn scored_matches(s: Seq<PluginMarketEntry>, query: Seq<char>, category: Option<PluginCategory>) -> Seq<(u64, usize)>
    decreases s.len(),
{
    if s.len() == 0 {
        Seq::empty()
    } else {
        let rest = scored_matches(s.drop_last(), query, category);
        if matches_search(s.last(), query, category) {
            rest.push((market_score(s.last()), (s.len() - 1) as usize))
        } else {
            rest
        }
    }
}

/// What a search returns: the answering entries ordered by score, highest
/// first; entries of equal score in the order they are stored.
pub open spec fn search_result(s: Seq<PluginMarketEntry>, query: Seq<char>, category: Option<PluginCategory>) -> Seq<PluginMarketEntry> {
    sort_desc(scored_matches(s, query, category)).map_values(|p: (u64, usize)| s[p.1 as int])
}

/// The entries that a sequence of references points to.
pub open spec fn market_derefs(r: Seq<&PluginMarketEntry>) -> Seq<PluginMarketEntry> {
    r.map_values(|p: &PluginMarketEntry| *p)
}

/// The plain view of the category index: categories with identifiers.
pub open spec fn index_view(v: Seq<(PluginCategory, String)>) -> Seq<(PluginCategory, Seq<char>)> {
    v.map_values(|p: (PluginCategory, String)| (p.0, p.1@))
}

/// The entries listed under `category`: for each registration filed under
/// it, in order, the entry now stored under that identifier.
pub open spec fn category_listing(index: Seq<(PluginCategory, Seq<char>)>, s: Seq<PluginMarketEntry>, category: PluginCategory) -> Seq<PluginMarketEntry>
    decreases index.len(),
{
    if index.len() == 0 {
        Seq::empty()
    } else {
        let rest = category_listing(index.drop_last(), s, category);
        let last = index.last();
        if last.0 == category {
            match first_index(market_ids(s), last.1) {
                Some(i) => rest.push(s[i]),
                None => rest,
            }
        } else {
            rest
        }
    }
}

/// Whether `after` is `before` with `review` added and its rating the new average.
pub open spec fn reviewed(before: PluginMarketEntry, after: PluginMarketEntry, review: PluginReview) -> bool {
    &&& after.reviews@ == before.reviews@.push(review)
    &&& after.rating_milli == average_milli(after.reviews@)
    &&& after == PluginMarketEntry { reviews: after.reviews, rating_milli: after.rating_milli, ..before }
}

/// The text of the refusal of a plugin without a name or version.
pub open spec fn missing_name_text() -> Seq<char> {
    "插件名称和版本不能为空"@
}

/// The text of the refusal of a request for a plugin that does not exist.
pub open spec fn no_plugin_text(id: Seq<char>) -> Seq<char> {
    "插件 "@ + id + " 不存在"@
}

/// The plugins on offer, with an index of them by category.
pub struct PluginMarketManager {
    plugins: Vec<PluginMarketEntry>,
    categories: Vec<(PluginCategory, String)>,
}

/// Whether `e` answers a search for `query` (whose lower-case form is
/// `lowered_query`) in `category`.
fn entry_matches(e: &PluginMarketEntry, query: &str, lowered_query: &str, category: Option<PluginCategory>) -> (r: bool)
    requires
        lowered_query@ == lowercase_text(query@),
    ensures
        r == matches_search(*e, query@, category),
{
    match category {
        Some(c) => {
            if e.category != c {
                return false;
            }
        },
        None => {},
    }
    if query.unicode_len() == 0 {
        return true;
    }
    let name = to_lower(e.name.as_str());
    if contains(name.as_str(), lowered_query) {
        return true;
    }
    let description = to_lower(e.description.as_str());
    if contains(description.as_str(), lowered_query) {
        return true;
    }
    let mut k: usize = 0;
    while k < e.tags.len()
        invariant
            k <= e.tags@.len(),
            lowered_query@ == lowercase_text(query@),
            category matches Some(c) ==> e.category == c,
            query@.len() != 0,
            forall|m: int| 0 <= m < k ==> !lowered_contains(#[trigger] e.tags@[m]@, query@),
        decreases e.tags@.len() - k,
    {
        let tag = to_lower(e.tags[k].as_str());
        if contains(tag.as_str(), lowered_query) {
            assert(lowered_contains(e.tags@[k as int]@, query@));
            assert(exists|j: int| 0 <= j < e.tags@.len() && lowered_contains(#[trigger] e.tags@[j]@, query@));
            return true;
        }
        k = k + 1;
    }
    false
}

/// The score of an entry in a search.
fn entry_score(e: &PluginMarketEntry) -> (r: u64)
    ensures
        r == market_score(*e),
{
    match e.downloads.checked_add(e.rating_milli) {
        Some(v) => v,
        None => u64::MAX,
    }
}

proof fn lemma_review_sum_prefix(r: Seq<PluginReview>, k: int)
    requires
        0 <= k <= r.len(),
    ensures
        review_sum(r.take(k)) <= review_sum(r),
    decreases r.len(),
{
    if k < r.len() {
        assert(r.drop_last().take(k) =~= r.take(k));
        lemma_review_sum_prefix(r.drop_last(), k);
    } else {
        assert(r.take(k) =~= r);
    }
}

impl PluginMarketManager {
    /// The plugins, in the order they were first registered.
    pub closed spec fn plugins_spec(&self) -> Seq<PluginMarketEntry> {
        self.plugins@
    }

    /// The category index: one (category, identifier) per registration, in order.
    pub closed spec fn index_spec(&self) -> Seq<(PluginCategory, Seq<char>)> {
        index_view(self.categories@)
    }

    /// An empty market.
    pub fn new() -> (r: Self)
        ensures
            r.plugins_spec().len() == 0,
            r.index_spec().len() == 0,
    {
        let r = PluginMarketManager { plugins: Vec::new(), categories: Vec::new() };
        assert(r.index_spec() =~= Seq::<(PluginCategory, Seq<char>)>::empty());
        r
    }

    fn find_plugin(&self, id: &str) -> (r: Option<usize>)
        ensures
            match r {
                Some(i) => first_at(market_ids(self.plugins@), id@, i as int)
                    && first_index(market_ids(self.plugins@), id@) == Some(i as int),
                None => first_index(market_ids(self.plugins@), id@) is None,
            },
    {
        let ghost ids = market_ids(self.plugins@);
        let mut i: usize = 0;
        while i < self.plugins.len()
            invariant
                ids == market_ids(self.plugins@),
                i <= self.plugins@.len(),
                forall|j: int| 0 <= j < i ==> ids[j] != id@,
            decreases self.plugins@.len() - i,
        {
            if crate::text::same_text(self.plugins[i].id.as_str(), id) {
                proof {
                    assert(first_at(ids, id@, i as int));
                    lemma_first_index(ids, id@, i as int);
                }
                return Some(i);
            }
            i = i + 1;
        }
        proof {
            lemma_no_first_index(ids, id@);
        }
        None
    }

    /// Registers a plugin: refused when its name or version is empty;
    /// otherwise filed under its category and stored, in place of a plugin
    /// registered before under the same identifier.
    pub fn register_plugin(&mut self, plugin: PluginMarketEntry) -> (r: Result<(), EcosystemError>)
        ensures
            r is Err <==> (plugin.name@.len() == 0 || plugin.version@.len() == 0),
            r is Err ==> (r matches Err(EcosystemError::Validation(m)) && m@ == missing_name_text()),
            r is Err ==> final(self).plugins_spec() == old(self).plugins_spec()
                && final(self).index_spec() == old(self).index_spec(),
            r is Ok ==> final(self).plugins_spec() == put_entry(old(self).plugins_spec(), plugin)
                && final(self).index_spec() == old(self).index_spec().push((plugin.category, plugin.id@)),
    {
        if plugin.name.unicode_len() == 0 || plugin.version.unicode_len() == 0 {
            return Err(EcosystemError::Validation(String::from_str("插件名称和版本不能为空")));
        }
        let id = plugin.id.clone();
        let entry_id = plugin.id.as_str();
        let ghost pid = plugin.id@;
        proof {
            assert(id@ == pid);
        }
        self.categories.push((plugin.category, id));
        assert(self.index_spec() =~= old(self).index_spec().push((plugin.category, pid)));
        match self.find_plugin(entry_id) {
            Some(i) => {
                self.plugins.set(i, plugin);
            },
            None => {
                self.plugins.push(plugin);
            },
        }
        Ok(())
    }

    /// The entries that answer a search (see `matches_search`), ordered by
    /// score, highest first.
    pub fn search_plugins(&self, query: &str, category: Option<PluginCategory>) -> (r: Vec<&PluginMarketEntry>)
        ensures
            market_derefs(r@) == search_result(self.plugins_spec(), query@, category),
    {
        let lowered = to_lower(query);
        let ghost all = self.plugins@;
        let n = self.plugins.len();
        let mut scored: Vec<(u64, usize)> = Vec::new();
        let mut i: usize = 0;
        while i < n
            invariant
                n == all.len(),
                all == self.plugins@,
                lowered@ == lowercase_text(query@),
                i <= n,
                scored@ == scored_matches(all.take(i as int), query@, category),
                forall|k: int| 0 <= k < scored@.len() ==> (#[trigger] scored@[k]).1 < i,
            decreases n - i,
        {
            assert(all.take(i + 1).drop_last() =~= all.take(i as int));
            assert(all.take(i + 1).last() == all[i as int]);
            if entry_matches(&self.plugins[i], query, lowered.as_str(), category) {
                let score = entry_score(&self.plugins[i]);
                scored.push((score, i));
            }
            i = i + 1;
        }
        assert(all.take(n as int) =~= all);
        let ghost found = scored@;
        let sorted = sort_desc_by_key(scored);
        proof {
            lemma_sort_desc(found);
        }
        let mut out: Vec<&PluginMarketEntry> = Vec::new();
        let mut j: usize = 0;
        while j < sorted.len()
            invariant
                n == all.len(),
                all == self.plugins@,
                sorted@ == sort_desc(found),
                found == scored_matches(all, query@, category),
                forall|k: int| 0 <= k < found.len() ==> (#[trigger] found[k]).1 < n,
                forall|k: int| 0 <= k < sorted@.len() ==> found.contains(#[trigger] sorted@[k]),
                j <= sorted@.len(),
                out@.len() == j,
                forall|k: int| 0 <= k < j ==> *(#[trigger] out@[k]) == all[sorted@[k].1 as int],
            decreases sorted@.len() - j,
        {
            let idx = sorted[j].1;
            proof {
                assert(found.contains(sorted@[j as int]));
                let m = choose|m: int| 0 <= m < found.len() && found[m] == sorted@[j as int];
                assert(found[m].1 < n);
            }
            out.push(&self.plugins[idx]);
            j = j + 1;
        }
        assert(market_derefs(out@) =~= search_result(all, query@, category));
        out
    }

    /// The plugin registered under `id`, if any.
    pub fn get_plugin(&self, id: &str) -> (r: Option<&PluginMarketEntry>)
        ensures
            match first_index(market_ids(self.plugins_spec()), id@) {
                Some(i) => r matches Some(p) && *p == self.plugins_spec()[i],
                None => r is None,
            },
    {
        match self.find_plugin(id) {
            Some(i) => Some(&self.plugins[i]),
            None => None,
        }
    }

    /// The plugins filed under `category`, one per registration under it, in
    /// the order of registration (see `category_listing`).
    pub fn get_plugins_by_category(&self, category: &PluginCategory) -> (r: Vec<&PluginMarketEntry>)
        ensures
            market_derefs(r@) == category_listing(self.index_spec(), self.plugins_spec(), *category),
    {
        let ghost index = self.index_spec();
        let n = self.categories.len();
        let mut out: Vec<&PluginMarketEntry> = Vec::new();
        let mut i: usize = 0;
        while i < n
            invariant
                n == self.categories@.len(),
                index == index_view(self.categories@),
                i <= n,
                market_derefs(out@) == category_listing(index.take(i as int), self.plugins@, *category),
            decreases n - i,
        {
            assert(index.take(i + 1).drop_last() =~= index.take(i as int));
            assert(index.take(i + 1).last() == index[i as int]);
            let c = self.categories[i].0;
            if c == *category {
                match self.find_plugin(self.categories[i].1.as_str()) {
                    Some(k) => {
                        let ghost before = market_derefs(out@);
                        out.push(&self.plugins[k]);
                        assert(market_derefs(out@) =~= before.push(self.plugins@[k as int]));
                    },
                    None => {},
                }
            }
            i = i + 1;
        }
        assert(index.take(n as int) =~= index);
        out
    }

    /// Adds a review to the plugin registered under `plugin_id` and sets its
    /// rating to the new average; refused when there is no such plugin.
    pub fn add_review(&mut self, plugin_id: &str, review: PluginReview) -> (r: Result<(), EcosystemError>)
        requires
            forall|i: int| 0 <= i < old(self).plugins_spec().len() && old(self).plugins_spec()[i].id@ == plugin_id@
                ==> review_sum(#[trigger] old(self).plugins_spec()[i].reviews@) + review.rating <= u32::MAX,
        ensures
            final(self).index_spec() == old(self).index_spec(),
            match first_index(market_ids(old(self).plugins_spec()), plugin_id@) {
                Some(i) => r is Ok && final(self).plugins_spec().len() == old(self).plugins_spec().len()
                    && final(self).plugins_spec() == old(self).plugins_spec().update(i, final(self).plugins_spec()[i])
                    && reviewed(old(self).plugins_spec()[i], final(self).plugins_spec()[i], review),
                None => (r matches Err(EcosystemError::NotFound(m)) && m@ == no_plugin_text(plugin_id@))
                    && final(self).plugins_spec() == old(self).plugins_spec(),
            },
    {
        match self.find_plugin(plugin_id) {
            Some(i) => {
                proof {
                    assert(market_ids(self.plugins@)[i as int] == self.plugins@[i as int].id@);
                    assert(review_sum(old(self).plugins_spec()[i as int].reviews@) + review.rating <= u32::MAX);
                }
                let mut e = self.plugins.remove(i);
                let ghost before = e;
                e.reviews.push(review);
                let ghost all = e.reviews@;
                assert(all.drop_last() =~= before.reviews@);
                let m = e.reviews.len();
                let mut total: u64 = 0;
                let mut k: usize = 0;
                while k < m
                    invariant
                        m == all.len(),
                        all == e.reviews@,
                        review_sum(all) <= u32::MAX,
                        k <= m,
                        total == review_sum(all.take(k as int)),
                    decreases m - k,
                {
                    assert(all.take(k + 1).drop_last() =~= all.take(k as int));
                    assert(all.take(k + 1).last() == all[k as int]);
                    proof {
                        lemma_review_sum_prefix(all, k + 1);
                    }
                    total = total + e.reviews[k].rating as u64;
                    k = k + 1;
                }
                assert(all.take(m as int) =~= all);
                assert(total * 1000 <= u32::MAX * 1000) by (nonlinear_arith)
                    requires total <= u32::MAX;
                e.rating_milli = total * 1000 / (m as u64);
                self.plugins.insert(i, e);
                assert(self.plugins@ =~= old(self).plugins@.update(i as int, e));
                assert(self.index_spec() =~= old(self).index_spec());
                Ok(())
            },
            None => {
                let msg = crate::text::join2("插件 ", plugin_id);
                let msg = crate::text::join2(msg.as_str(), " 不存在");
                Err(EcosystemError::NotFound(msg))
            },
        }
    }

    /// Counts a download of the plugin registered under `plugin_id`; refused
    /// when there is no such plugin.
    pub fn increment_downloads(&mut self, plugin_id: &str) -> (r: Result<(), EcosystemError>)
        requires
            forall|i: int| 0 <= i < old(self).plugins_spec().len() && old(self).plugins_spec()[i].id@ == plugin_id@
                ==> (#[trigger] old(self).plugins_spec()[i]).downloads < u64::MAX,
        ensures
            final(self).index_spec() == old(self).index_spec(),
            match first_index(market_ids(old(self).plugins_spec()), plugin_id@) {
                Some(i) => r is Ok && final(self).plugins_spec() == old(self).plugins_spec().update(i,
                    PluginMarketEntry { downloads: (old(self).plugins_spec()[i].downloads + 1) as u64, ..old(self).plugins_spec()[i] }),
                None => (r matches Err(EcosystemError::NotFound(m)) && m@ == no_plugin_text(plugin_id@))
                    && final(self).plugins_spec() == old(self).plugins_spec(),
            },
    {
        match self.find_plugin(plugin_id) {
            Some(i) => {
                proof {
                    assert(market_ids(self.plugins@)[i as int] == self.plugins@[i as int].id@);
                    assert(old(self).plugins_spec()[i as int].downloads < u64::MAX);
                }
                let mut e = self.plugins.remove(i);
                e.downloads = e.downloads + 1;
                self.plugins.insert(i, e);
                assert(self.plugins@ =~= old(self).plugins@.update(i as int, e));
                assert(self.index_spec() =~= old(self).index_spec());
                Ok(())
            },
            None => {
                let msg = crate::text::join2("插件 ", plugin_id);
                let msg = crate::text::join2(msg.as_str(), " 不存在");
                Err(EcosystemError::NotFound(msg))
            },
        }
    }
}

impl Default for PluginMarketManager {
    fn default() -> (r: Self)
        ensures
            r.plugins_spec().len() == 0,
            r.index_spec().len() == 0,
    {
        PluginMarketManager::new()
    }
}

/// Storing a plugin keeps identifiers unique: it replaces the plugin stored
/// under its identifier, if there is one.
pub proof fn lemma_put_entry_keeps_ids_unique(s: Seq<PluginMarketEntry>, e: PluginMarketEntry)
    requires
        ids_unique(s),
    ensures
        ids_unique(put_entry(s, e)),
        market_ids(put_entry(s, e)).contains(e.id@),
{
    let ids = market_ids(s);
    match first_index(ids, e.id@) {
        Some(i) => {
            assert(first_at(ids, e.id@, i)) by {
                assert(exists|k: int| first_at(ids, e.id@, k));
            }
            let t = s.update(i, e);
            assert forall|a: int, b: int| 0 <= a < b < t.len() implies t[a].id@ != t[b].id@ by {
                assert(ids[i] == s[i].id@);
            }
            assert(market_ids(t)[i] == e.id@);
        },
        None => {
            lemma_first_index_none(ids, e.id@);
            let t = s.push(e);
            assert forall|a: int, b: int| 0 <= a < b < t.len() implies t[a].id@ != t[b].id@ by {
                if b == s.len() {
                    assert(ids[a] == s[a].id@);
                }
            }
            assert(market_ids(t)[s.len() as int] == e.id@);
        },
    }
}

proof fn lemma_scored_matches(s: Seq<PluginMarketEntry>, query: Seq<char>, category: Option<PluginCategory>)
    requires
        s.len() <= usize::MAX,
    ensures
        forall|k: int| 0 <= k < scored_matches(s, query, category).len() ==> {
            let p = #[trigger] scored_matches(s, query, category)[k];
            &&& p.1 < s.len()
            &&& matches_search(s[p.1 as int], query, category)
            &&& p.0 == market_score(s[p.1 as int])
        },
        forall|k: int| 0 <= k < s.len() && matches_search(#[trigger] s[k], query, category)
            ==> scored_matches(s, query, category).contains((market_score(s[k]), k as usize)),
    decreases s.len(),
{
    if s.len() > 0 {
        let init = s.drop_last();
        lemma_scored_matches(init, query, category);
        let rest = scored_matches(init, query, category);
        let all = scored_matches(s, query, category);
        assert forall|k: int| 0 <= k < all.len() implies {
            let p = #[trigger] all[k];
            &&& p.1 < s.len()
            &&& matches_search(s[p.1 as int], query, category)
            &&& p.0 == market_score(s[p.1 as int])
        } by {
            if k < rest.len() {
                assert(all[k] == rest[k]);
                assert(init[rest[k].1 as int] == s[rest[k].1 as int]);
            }
        }
        assert forall|k: int| 0 <= k < s.len() && matches_search(#[trigger] s[k], query, category)
            implies all.contains((market_score(s[k]), k as usize)) by {
            if k < init.len() {
                assert(init[k] == s[k]);
                let m = choose|m: int| 0 <= m < rest.len() && rest[m] == (market_score(init[k]), k as usize);
                assert(all[m] == rest[m]);
            } else {
                assert(all[rest.len() as int] == (market_score(s[k]), k as usize));
            }
        }
    }
}

/// A search returns its answers ranked by score, highest first: every plugin
/// it returns answers it, and every stored plugin that answers it is returned.
pub proof fn lemma_search_ranked(s: Seq<PluginMarketEntry>, query: Seq<char>, category: Option<PluginCategory>)
    requires
        s.len() <= usize::MAX,
    ensures
        forall|i: int, j: int| 0 <= i < j < search_result(s, query, category).len() ==>
            market_score(search_result(s, query, category)[i]) >= market_score(search_result(s, query, category)[j]),
        forall|k: int| 0 <= k < search_result(s, query, category).len() ==>
            matches_search(#[trigger] search_result(s, query, category)[k], query, category),
        forall|k: int| 0 <= k < s.len() && matches_search(#[trigger] s[k], query, category) ==>
            search_result(s, query, category).contains(s[k]),
{
    let sc = scored_matches(s, query, category);
    let sorted = sort_desc(sc);
    let r = search_result(s, query, category);
    lemma_scored_matches(s, query, category);
    lemma_sort_desc(sc);
    assert forall|k: int| 0 <= k < sorted.len() implies {
        let p = #[trigger] sorted[k];
        p.1 < s.len() && matches_search(s[p.1 as int], query, category) && p.0 == market_score(s[p.1 as int])
    } by {
        assert(sc.contains(sorted[k]));
        let m = choose|m: int| 0 <= m < sc.len() && sc[m] == sorted[k];
        assert(sc[m] == sorted[k]);
    }
    assert forall|i: int, j: int| 0 <= i < j < r.len() implies market_score(r[i]) >= market_score(r[j]) by {
        assert(r[i] == s[sorted[i].1 as int]);
        assert(r[j] == s[sorted[j].1 as int]);
        assert(sorted[i].0 >= sorted[j].0);
    }
    assert forall|k: int| 0 <= k < r.len() implies matches_search(#[trigger] r[k], query, category) by {
        assert(r[k] == s[sorted[k].1 as int]);
    }
    assert forall|k: int| 0 <= k < s.len() && matches_search(#[trigger] s[k], query, category) implies r.contains(s[k]) by {
        let p = (market_score(s[k]), k as usize);
        assert(sc.contains(p));
        let m = choose|m: int| 0 <= m < sc.len() && sc[m] == p;
        assert(sorted.contains(sc[m]));
        let q = choose|q: int| 0 <= q < sorted.len() && sorted[q] == sc[m];
        assert(r[q] == s[k]);
    }
}

/// The text of the refusal of a template that does not exist.
pub open spec fn no_template_text(name: Seq<char>) -> Seq<char> {
    "模板 "@ + name + " 不存在"@
}

/// The plugin market and the command-line tooling.
pub struct DeveloperEcosystemManager {
    market: PluginMarketManager,
    cli: CliToolManager,
}

impl DeveloperEcosystemManager {
    /// The plugin market.
    pub closed spec fn market_spec(&self) -> PluginMarketManager {
        self.market
    }

    /// The command-line tooling.
    pub closed spec fn cli_spec(&self) -> CliToolManager {
        self.cli
    }

    /// An empty market and the built-in commands and templates.
    pub fn new() -> (r: Self)
        ensures
            r.market_spec().plugins_spec().len() == 0,
            r.market_spec().index_spec().len() == 0,
            default_commands(r.cli_spec().commands_spec()),
            default_templates(r.cli_spec().templates_spec()),
    {
        DeveloperEcosystemManager { market: PluginMarketManager::new(), cli: CliToolManager::new() }
    }

    /// The plugin market.
    pub fn market(&mut self) -> (r: &mut PluginMarketManager)
        ensures
            *r == old(self).market_spec(),
            final(self).market_spec() == *final(r),
            final(self).cli_spec() == old(self).cli_spec(),
    {
        &mut self.market
    }

    /// The command-line tooling.
    pub fn cli(&self) -> (r: &CliToolManager)
        ensures
            *r == self.cli_spec(),
    {
        &self.cli
    }

    /// Checks that a plugin can be scaffolded from `template`: refused when
    /// no template has that name.
    pub fn generate_plugin_scaffold(&self, name: &str, template: &str, output_dir: &str) -> (r: Result<(), EcosystemError>)
        ensures
            match first_index(template_names(self.cli_spec().templates_spec()), template@) {
                Some(_) => r is Ok,
                None => r matches Err(EcosystemError::NotFound(m)) && m@ == no_template_text(template@),
            },
    {
        match self.cli.get_template(template) {
            Some(_) => Ok(()),
            None => {
                let msg = crate::text::join2("模板 ", template);
                let msg = crate::text::join2(msg.as_str(), " 不存在");
                Err(EcosystemError::NotFound(msg))
            },
        }
    }
}

impl Default for DeveloperEcosystemManager {
    fn default() -> (r: Self)
        ensures
            r.market_spec().plugins_spec().len() == 0,
            r.market_spec().index_spec().len() == 0,
            default_commands(r.cli_spec().commands_spec()),
            default_templates(r.cli_spec().templates_spec()),
    {
        DeveloperEcosystemManager::new()
    }
}

} // verus!
