//! A builder that assembles a CLI from static, dynamic and conditional
//! modules, applying module and global prefixes to their commands.

use vstd::prelude::*;
use crate::data::command_definition::{ CommandDefinition, CommandView, full_name_of };
use crate::data::command_status::full_command_name;
use crate::data::argument::args_view;
use crate::text::{ owned, push_str, push_char, chars_of, str_eq, contains };
use crate::multi_yaml::types::{ ConflictReport, ConflictType, report_view };
use crate::data::kind::strs;

verus! {

broadcast use vstd::string::group_string_axioms;

/// How the builder assembles commands.
#[derive(Debug, Clone, Copy, PartialEq, Eq, Structural)]
pub enum AggregationMode {
    /// Commands known when the program is built.
    Static,
    /// Commands loaded while the program runs.
    Dynamic,
    /// Both.
    Hybrid,
    /// Chosen from the modules present.
    Auto,
}

/// How a registry looks commands up.
#[derive(Debug, Clone, Copy, PartialEq, Eq, Structural)]
pub enum RegistryMode {
    /// Only commands compiled in.
    StaticOnly,
    /// Only commands registered while running.
    DynamicOnly,
    /// Both.
    Hybrid,
}

/// A module whose commands are given directly.
#[derive(Debug)]
pub struct StaticModule {
    pub name: String,
    pub commands: Vec<CommandDefinition>,
    pub prefix: Option<String>,
    pub enabled: bool,
}

/// A module whose commands are read from a manifest file.
#[derive(Debug)]
pub struct DynamicModule {
    pub name: String,
    pub yaml_path: String,
    pub prefix: Option<String>,
    pub enabled: bool,
}

/// A module included only when a feature is enabled.
#[derive(Debug)]
pub struct ConditionalModule {
    pub name: String,
    pub feature: String,
    pub module: Box<StaticModule>,
}

/// Any of the module kinds.
#[derive(Debug)]
pub enum ModuleSource {
    Static(StaticModule),
    Dynamic(DynamicModule),
    Conditional(ConditionalModule),
}

/// Settings of the assembled CLI.
#[derive(Debug)]
pub struct CliConfig {
    pub app_name: String,
    pub global_prefix: Option<String>,
    pub auto_help: bool,
    pub detect_conflicts: bool,
    /// Setting overrides, as key and value.
    pub env_overrides: Vec<(String, String)>,
    pub exclude_env_overrides: Vec<String>,
}

/// Assembles a CLI from modules.
#[derive(Debug)]
pub struct CliBuilder {
    mode: AggregationMode,
    static_modules: Vec<StaticModule>,
    dynamic_modules: Vec<DynamicModule>,
    conditional_modules: Vec<ConditionalModule>,
    config: CliConfig,
    features: Vec<String>,
}

/// A module's value: its name, commands, prefix and whether it is enabled.
pub struct ModuleView {
    pub name: Seq<char>,
    pub commands: Seq<CommandView>,
    pub prefix: Option<Seq<char>>,
    pub enabled: bool,
}

/// The value of the builder.
pub struct BuilderState {
    pub mode: AggregationMode,
    pub static_modules: Seq<ModuleView>,
    /// Each dynamic module's name, manifest path, prefix and whether it is enabled.
    pub dynamic_modules: Seq<(Seq<char>, Seq<char>, Option<Seq<char>>, bool)>,
    /// Each conditional module's name, feature and commands.
    pub conditional_modules: Seq<(Seq<char>, Seq<char>, Seq<CommandView>)>,
    pub app_name: Seq<char>,
    pub global_prefix: Option<Seq<char>>,
    pub auto_help: bool,
    pub detect_conflicts: bool,
    /// The setting overrides, as key and value.
    pub env_overrides: Seq<(Seq<char>, Seq<char>)>,
    /// The settings excluded from overriding.
    pub exclude_env_overrides: Seq<Seq<char>>,
    /// The features treated as enabled.
    pub features: Seq<Seq<char>>,
}

/// The values of command definitions.
pub open spec fn cmds_view(v: Seq<CommandDefinition>) -> Seq<CommandView> {
    v.map_values(|c: CommandDefinition| c@)
}

/// An optional string's characters.
pub open spec fn ostr(o: Option<String>) -> Option<Seq<char>> {
    match o {
        Some(s) => Some(s@),
        None => None,
    }
}

/// The value of a module.
pub open spec fn module_view(m: StaticModule) -> ModuleView {
    ModuleView { name: m.name@, commands: cmds_view(m.commands@), prefix: ostr(m.prefix), enabled: m.enabled }
}

impl View for CliBuilder {
    type V = BuilderState;

    closed spec fn view(&self) -> BuilderState {
        BuilderState {
            mode: self.mode,
            static_modules: self.static_modules@.map_values(|m: StaticModule| module_view(m)),
            dynamic_modules: self.dynamic_modules@.map_values(
                |m: DynamicModule| (m.name@, m.yaml_path@, ostr(m.prefix), m.enabled),
            ),
            conditional_modules: self.conditional_modules@.map_values(
                |m: ConditionalModule| (m.name@, m.feature@, cmds_view(m.module.commands@)),
            ),
            app_name: self.config.app_name@,
            global_prefix: ostr(self.config.global_prefix),
            auto_help: self.config.auto_help,
            detect_conflicts: self.config.detect_conflicts,
            env_overrides: self.config.env_overrides@.map_values(|e: (String, String)| (e.0@, e.1@)),
            exclude_env_overrides: self.config.exclude_env_overrides@.map_values(|e: String| e@),
            features: self.features@.map_values(|f: String| f@),
        }
    }
}

/// `p` with a leading `.` added, followed by `rest`.
pub open spec fn dotted(p: Seq<char>, rest: Seq<char>) -> Seq<char> {
    seq!['.'] + p + rest
}

/// The namespace a command gets under a prefix: `.prefix` followed by its
/// own namespace.
pub open spec fn prefixed_namespace(prefix: Option<Seq<char>>, namespace: Seq<char>) -> Seq<char> {
    match prefix {
        Some(p) => dotted(p, namespace),
        None => namespace,
    }
}

/// A command with its namespace under the module prefix and then the global prefix.
pub open spec fn with_prefixes(c: CommandView, module_prefix: Option<Seq<char>>, global_prefix: Option<Seq<char>>) -> CommandView {
    CommandView { namespace: prefixed_namespace(global_prefix, prefixed_namespace(module_prefix, c.namespace)), ..c }
}

/// The name under which a command of a module is checked for conflicts:
/// with a module prefix, `.prefix`, its namespace and its name; without
/// one, its name alone; then the global prefix in front.
pub open spec fn final_name(c: CommandView, module_prefix: Option<Seq<char>>, global_prefix: Option<Seq<char>>) -> Seq<char> {
    let stripped = if c.name.len() > 0 && c.name[0] == '.' { c.name.drop_first() } else { c.name };
    let n = match module_prefix {
        Some(p) => dotted(p, c.namespace) + seq!['.'] + stripped,
        None => c.name,
    };
    match global_prefix {
        Some(g) => dotted(g, n),
        None => n,
    }
}

/// The features whose names are aliases of others.
pub open spec fn canonical_feature(f: Seq<char>) -> Seq<char> {
    if f == "static_commands"@ { "static_registry"@ }
    else if f == "multi_yaml"@ { "multi_file"@ }
    else if f == "test_feature"@ { "advanced_cli_tests"@ }
    else if f == "advanced"@ { "full"@ }
    else { f }
}

/// The features a conditional module can ask for.
pub open spec fn is_known_feature(f: Seq<char>) -> bool {
    f == "enabled"@ || f == "simd"@ || f == "repl"@ || f == "enhanced_repl"@ || f == "static_registry"@
        || f == "multi_file"@ || f == "advanced_cli_tests"@ || f == "wasm"@ || f == "on_unknown_suggest"@
        || f == "full"@
}

/// Whether a conditional module's feature is on: a known feature (or an
/// alias of one) that is in the enabled set.
pub open spec fn feature_on(features: Seq<Seq<char>>, f: Seq<char>) -> bool {
    is_known_feature(canonical_feature(f)) && features.contains(canonical_feature(f))
}


/// The value of a builder with nothing added: automatic mode, application
/// name `app`, no global prefix, auto-help and conflict detection on, no
/// features.
pub open spec fn fresh_builder() -> BuilderState {
    BuilderState {
        mode: AggregationMode::Auto,
        static_modules: Seq::<ModuleView>::empty(),
        dynamic_modules: Seq::<(Seq<char>, Seq<char>, Option<Seq<char>>, bool)>::empty(),
        conditional_modules: Seq::<(Seq<char>, Seq<char>, Seq<CommandView>)>::empty(),
        app_name: "app"@,
        global_prefix: None,
        auto_help: true,
        detect_conflicts: true,
        env_overrides: Seq::<(Seq<char>, Seq<char>)>::empty(),
        exclude_env_overrides: Seq::<Seq<char>>::empty(),
        features: Seq::<Seq<char>>::empty(),
    }
}

impl CliBuilder {
    /// A builder with nothing added; see `fresh_builder`.
    pub fn new() -> (r: Self)
        ensures
            r@ == fresh_builder(),
    {
        let r = CliBuilder {
            mode: AggregationMode::Auto,
            static_modules: Vec::new(),
            dynamic_modules: Vec::new(),
            conditional_modules: Vec::new(),
            config: CliConfig {
                app_name: owned("app"),
                global_prefix: None,
                auto_help: true,
                detect_conflicts: true,
                env_overrides: Vec::new(),
                exclude_env_overrides: Vec::new(),
            },
            features: Vec::new(),
        };
        proof {
            assert(r@.static_modules =~= Seq::<ModuleView>::empty());
            assert(r@.dynamic_modules =~= Seq::<(Seq<char>, Seq<char>, Option<Seq<char>>, bool)>::empty());
            assert(r@.conditional_modules =~= Seq::<(Seq<char>, Seq<char>, Seq<CommandView>)>::empty());
            assert(r@.features =~= Seq::<Seq<char>>::empty());
            assert(r@.env_overrides =~= Seq::<(Seq<char>, Seq<char>)>::empty());
            assert(r@.exclude_env_overrides =~= Seq::<Seq<char>>::empty());
        }
        r
    }

    /// Sets the aggregation mode.
    pub fn mode(self, mode: AggregationMode) -> (r: Self)
        ensures
            r@ == (BuilderState { mode: mode, ..self@ }),
    {
        let mut s = self;
        s.mode = mode;
        s
    }

    fn add_static(self, m: StaticModule) -> (r: Self)
        ensures
            r@ == (BuilderState { static_modules: self@.static_modules.push(module_view(m)), ..self@ }),
    {
        let mut s = self;
        let ghost before = s.static_modules@;
        s.static_modules.push(m);
        assert(s.static_modules@.map_values(|m: StaticModule| module_view(m))
            =~= before.map_values(|m: StaticModule| module_view(m)).push(module_view(m)));
        s
    }

    /// Adds an enabled static module without a prefix.
    pub fn static_module(self, name: &str, commands: Vec<CommandDefinition>) -> (r: Self)
        ensures
            r@ == (BuilderState {
                static_modules: self@.static_modules.push(
                    ModuleView { name: name@, commands: cmds_view(commands@), prefix: None, enabled: true },
                ),
                ..self@
            }),
    {
        self.add_static(StaticModule { name: owned(name), commands, prefix: None, enabled: true })
    }

    /// Adds an enabled static module whose commands go under `prefix`.
    pub fn static_module_with_prefix(self, name: &str, prefix: &str, commands: Vec<CommandDefinition>) -> (r: Self)
        ensures
            r@ == (BuilderState {
                static_modules: self@.static_modules.push(
                    ModuleView { name: name@, commands: cmds_view(commands@), prefix: Some(prefix@), enabled: true },
                ),
                ..self@
            }),
    {
        self.add_static(StaticModule { name: owned(name), commands, prefix: Some(owned(prefix)), enabled: true })
    }

    fn add_dynamic(self, m: DynamicModule) -> (r: Self)
        ensures
            r@ == (BuilderState {
                dynamic_modules: self@.dynamic_modules.push((m.name@, m.yaml_path@, ostr(m.prefix), m.enabled)),
                ..self@
            }),
    {
        let mut s = self;
        let ghost before = s.dynamic_modules@;
        let ghost mv = (m.name@, m.yaml_path@, ostr(m.prefix), m.enabled);
        s.dynamic_modules.push(m);
        assert(s.dynamic_modules@.map_values(|m: DynamicModule| (m.name@, m.yaml_path@, ostr(m.prefix), m.enabled))
            =~= before.map_values(|m: DynamicModule| (m.name@, m.yaml_path@, ostr(m.prefix), m.enabled)).push(mv));
        s
    }

    /// Adds an enabled module read from a manifest file.
    pub fn dynamic_module(self, name: &str, yaml_path: String) -> (r: Self)
        ensures
            r@ == (BuilderState { dynamic_modules: self@.dynamic_modules.push((name@, yaml_path@, None, true)), ..self@ }),
    {
        self.add_dynamic(DynamicModule { name: owned(name), yaml_path, prefix: None, enabled: true })
    }

    /// Adds an enabled module read from a manifest file, under `prefix`.
    pub fn dynamic_module_with_prefix(self, name: &str, yaml_path: String, prefix: &str) -> (r: Self)
        ensures
            r@ == (BuilderState {
                dynamic_modules: self@.dynamic_modules.push((name@, yaml_path@, Some(prefix@), true)),
                ..self@
            }),
    {
        self.add_dynamic(DynamicModule { name: owned(name), yaml_path, prefix: Some(owned(prefix)), enabled: true })
    }

    /// Adds a module included when `feature` is enabled.
    pub fn conditional_module(self, name: &str, feature: &str, commands: Vec<CommandDefinition>) -> (r: Self)
        ensures
            r@ == (BuilderState {
                conditional_modules: self@.conditional_modules.push((name@, feature@, cmds_view(commands@))),
                ..self@
            }),
    {
        let mut s = self;
        let ghost before = s.conditional_modules@;
        let ghost mv = (name@, feature@, cmds_view(commands@));
        let m = ConditionalModule {
            name: owned(name),
            feature: owned(feature),
            module: Box::new(StaticModule { name: owned(name), commands, prefix: None, enabled: true }),
        };
        s.conditional_modules.push(m);
        assert(s.conditional_modules@.map_values(|m: ConditionalModule| (m.name@, m.feature@, cmds_view(m.module.commands@)))
            =~= before.map_values(|m: ConditionalModule| (m.name@, m.feature@, cmds_view(m.module.commands@))).push(mv));
        s
    }

    /// Sets the application name.
    pub fn app_name(self, name: &str) -> (r: Self)
        ensures
            r@ == (BuilderState { app_name: name@, ..self@ }),
    {
        let mut s = self;
        s.config.app_name = owned(name);
        s
    }

    /// Sets the prefix put in front of every command's namespace.
    pub fn global_prefix(self, prefix: &str) -> (r: Self)
        ensures
            r@ == (BuilderState { global_prefix: Some(prefix@), ..self@ }),
    {
        let mut s = self;
        s.config.global_prefix = Some(owned(prefix));
        s
    }

    /// Turns generated help commands on or off.
    pub fn auto_help(self, enabled: bool) -> (r: Self)
        ensures
            r@ == (BuilderState { auto_help: enabled, ..self@ }),
    {
        let mut s = self;
        s.config.auto_help = enabled;
        s
    }

    /// Turns conflict detection on or off.
    pub fn detect_conflicts(self, enabled: bool) -> (r: Self)
        ensures
            r@ == (BuilderState { detect_conflicts: enabled, ..self@ }),
    {
        let mut s = self;
        s.config.detect_conflicts = enabled;
        s
    }

    /// Treats a feature as enabled for conditional modules.
    pub fn enable_feature(self, feature: &str) -> (r: Self)
        ensures
            r@ == (BuilderState { features: self@.features.push(feature@), ..self@ }),
    {
        let mut s = self;
        let ghost before = s.features@;
        s.features.push(owned(feature));
        assert(s.features@.map_values(|f: String| f@) =~= before.map_values(|f: String| f@).push(feature@));
        s
    }

    /// The aggregation mode.
    pub fn aggregation_mode(&self) -> (r: &AggregationMode)
        ensures
            *r == self@.mode,
    {
        &self.mode
    }

    /// The CLI settings.
    pub fn config(&self) -> (r: &CliConfig)
        ensures
            r.app_name@ == self@.app_name,
            ostr(r.global_prefix) == self@.global_prefix,
            r.auto_help == self@.auto_help,
            r.detect_conflicts == self@.detect_conflicts,
            r.env_overrides@.map_values(|e: (String, String)| (e.0@, e.1@)) == self@.env_overrides,
            r.exclude_env_overrides@.map_values(|e: String| e@) == self@.exclude_env_overrides,
    {
        &self.config
    }

    /// The number of static modules.
    pub fn static_modules_count(&self) -> (r: usize)
        ensures
            r == self@.static_modules.len(),
    {
        self.static_modules.len()
    }

    /// The number of dynamic modules.
    pub fn dynamic_modules_count(&self) -> (r: usize)
        ensures
            r == self@.dynamic_modules.len(),
    {
        self.dynamic_modules.len()
    }

    /// The number of conditional modules.
    pub fn conditional_modules_count(&self) -> (r: usize)
        ensures
            r == self@.conditional_modules.len(),
    {
        self.conditional_modules.len()
    }

    /// The registry mode that suits the modules present: hybrid with static
    /// or conditional modules, dynamic-only with only dynamic modules,
    /// static-only with none.
    pub fn detect_optimal_mode(&self) -> (r: RegistryMode)
        ensures
            r == (if self@.static_modules.len() > 0 || self@.conditional_modules.len() > 0 {
                RegistryMode::Hybrid
            } else if self@.dynamic_modules.len() > 0 {
                RegistryMode::DynamicOnly
            } else {
                RegistryMode::StaticOnly
            }),
    {
        let has_static = self.static_modules.len() > 0;
        let has_dynamic = self.dynamic_modules.len() > 0;
        let has_conditional = self.conditional_modules.len() > 0;
        if has_static || has_conditional {
            RegistryMode::Hybrid
        } else if has_dynamic {
            RegistryMode::DynamicOnly
        } else {
            RegistryMode::StaticOnly
        }
    }

    /// Whether a conditional module's feature is enabled; see `feature_on`.
    pub fn is_feature_enabled(&self, feature: &str) -> (r: bool)
        ensures
            r == feature_on(self@.features, feature@),
    {
        let canonical = if str_eq(feature, "static_commands") {
            "static_registry"
        } else if str_eq(feature, "multi_yaml") {
            "multi_file"
        } else if str_eq(feature, "test_feature") {
            "advanced_cli_tests"
        } else if str_eq(feature, "advanced") {
            "full"
        } else {
            feature
        };
        let known = str_eq(canonical, "enabled") || str_eq(canonical, "simd") || str_eq(canonical, "repl")
            || str_eq(canonical, "enhanced_repl") || str_eq(canonical, "static_registry")
            || str_eq(canonical, "multi_file") || str_eq(canonical, "advanced_cli_tests") || str_eq(canonical, "wasm")
            || str_eq(canonical, "on_unknown_suggest") || str_eq(canonical, "full");
        if !known {
            return false;
        }
        let ghost fv = self.features@.map_values(|f: String| f@);
        let mut k: usize = 0;
        while k < self.features.len()
            invariant
                k <= self.features@.len(),
                fv == self.features@.map_values(|f: String| f@),
                fv == self@.features,
                canonical@ == canonical_feature(feature@),
                is_known_feature(canonical@),
                forall|m: int| 0 <= m < k ==> fv[m] != canonical@,
            decreases self.features@.len() - k,
        {
            if str_eq(self.features[k].as_str(), canonical) {
                assert(fv[k as int] == canonical@);
                assert(fv.contains(canonical@));
                return true;
            }
            k = k + 1;
        }
        false
    }

    /// The name under which a command is checked for conflicts; see `final_name`.
    pub fn compute_final_command_name(&self, cmd: &CommandDefinition, module_prefix: Option<&String>) -> (r: String)
        ensures
            r@ == final_name(cmd@, match module_prefix { Some(p) => Some(p@), None => None }, self@.global_prefix),
    {
        let name = cmd.name().as_str();
        let nv = chars_of(name);
        let mut n = String::new();
        match module_prefix {
            Some(p) => {
                push_char(&mut n, '.');
                push_str(&mut n, p.as_str());
                push_str(&mut n, cmd.namespace());
                push_char(&mut n, '.');
                if nv.len() > 0 && nv[0] == '.' {
                    crate::text::push_chars(&mut n, &crate::text::subvec(&nv, 1, nv.len()));
                    assert(nv@.subrange(1, nv@.len() as int) =~= nv@.drop_first());
                } else {
                    push_str(&mut n, name);
                }
            },
            None => {
                push_str(&mut n, name);
            },
        }
        let mut out = String::new();
        match &self.config.global_prefix {
            Some(g) => {
                push_char(&mut out, '.');
                push_str(&mut out, g.as_str());
            },
            None => {},
        }
        push_str(&mut out, n.as_str());
        assert(out@ =~= final_name(cmd@, match module_prefix { Some(p) => Some(p@), None => None }, self@.global_prefix));
        out
    }

    /// A command with its namespace under the module prefix and then the
    /// global prefix; see `with_prefixes`.
    pub fn apply_prefixes(&self, cmd: CommandDefinition, module_prefix: Option<&String>) -> (r: CommandDefinition)
        ensures
            r@ == with_prefixes(cmd@, match module_prefix { Some(p) => Some(p@), None => None }, self@.global_prefix),
    {
        let ghost mp = match module_prefix { Some(p) => Some(p@), None => None::<Seq<char>> };
        let mut c = cmd;
        proof {
            reveal_strlit(".");
        }
        match module_prefix {
            Some(p) => {
                let mut ns = owned(".");
                push_str(&mut ns, p.as_str());
                push_str(&mut ns, c.namespace());
                assert(ns@ =~= dotted(p@, cmd@.namespace));
                c = c.with_namespace(ns);
            },
            None => {},
        }
        assert(c@ == (CommandView { namespace: prefixed_namespace(mp, cmd@.namespace), ..cmd@ }));
        match &self.config.global_prefix {
            Some(g) => {
                let mut ns = owned(".");
                push_str(&mut ns, g.as_str());
                push_str(&mut ns, c.namespace());
                assert(ns@ =~= dotted(g@, prefixed_namespace(mp, cmd@.namespace)));
                c = c.with_namespace(ns);
            },
            None => {},
        }
        proof {
            assert(c@ == with_prefixes(cmd@, match module_prefix { Some(p) => Some(p@), None => None }, self@.global_prefix));
        }
        c
    }
}

impl Default for CliBuilder {
    fn default() -> (r: Self)
        ensures
            r@ == fresh_builder(),
    {
        CliBuilder::new()
    }
}

/// The name under which a command is checked for conflicts is the full
/// name it is registered under, when the module has a prefix or the
/// command is in the root namespace.
pub proof fn lemma_final_name_is_registered_name(
    c: CommandView,
    module_prefix: Option<Seq<char>>,
    global_prefix: Option<Seq<char>>,
)
    requires
        c.name.len() > 0 && c.name[0] == '.',
        module_prefix is Some || c.namespace.len() == 0,
    ensures
        final_name(c, module_prefix, global_prefix) == full_name_of(with_prefixes(c, module_prefix, global_prefix)),
{
    let w = with_prefixes(c, module_prefix, global_prefix);
    if w.namespace.len() > 0 {
        assert(w.namespace[0] == '.');
        assert(final_name(c, module_prefix, global_prefix) =~= w.namespace + seq!['.'] + c.name.drop_first());
    } else {
        assert(final_name(c, module_prefix, global_prefix) =~= c.name);
    }
}

/// A name and the modules that define it.
pub type Group = (Seq<char>, Seq<Seq<char>>);

/// The conflict-check entries of a module's commands: each command's final
/// name with the module's name.
pub open spec fn cmd_entries(cmds: Seq<CommandView>, prefix: Option<Seq<char>>, g: Option<Seq<char>>, module: Seq<char>) -> Seq<(Seq<char>, Seq<char>)> {
    cmds.map_values(|c: CommandView| (final_name(c, prefix, g), module))
}

/// The entries of the enabled static modules, in order.
pub open spec fn static_entries(mods: Seq<ModuleView>, g: Option<Seq<char>>) -> Seq<(Seq<char>, Seq<char>)>
    decreases mods.len(),
{
    if mods.len() == 0 {
        Seq::<(Seq<char>, Seq<char>)>::empty()
    } else {
        static_entries(mods.drop_last(), g) + if mods.last().enabled {
            cmd_entries(mods.last().commands, mods.last().prefix, g, mods.last().name)
        } else {
            Seq::<(Seq<char>, Seq<char>)>::empty()
        }
    }
}

/// The entries of the enabled dynamic modules, given each one's loaded commands.
pub open spec fn dynamic_entries(
    mods: Seq<(Seq<char>, Seq<char>, Option<Seq<char>>, bool)>,
    loaded: Seq<Seq<CommandView>>,
    g: Option<Seq<char>>,
) -> Seq<(Seq<char>, Seq<char>)>
    decreases mods.len(),
{
    if mods.len() == 0 {
        Seq::<(Seq<char>, Seq<char>)>::empty()
    } else {
        dynamic_entries(mods.drop_last(), loaded.drop_last(), g) + if mods.last().3 {
            cmd_entries(loaded.last(), mods.last().2, g, mods.last().0)
        } else {
            Seq::<(Seq<char>, Seq<char>)>::empty()
        }
    }
}

/// The entries of the conditional modules whose feature is on.
pub open spec fn conditional_entries(
    mods: Seq<(Seq<char>, Seq<char>, Seq<CommandView>)>,
    features: Seq<Seq<char>>,
    g: Option<Seq<char>>,
) -> Seq<(Seq<char>, Seq<char>)>
    decreases mods.len(),
{
    if mods.len() == 0 {
        Seq::<(Seq<char>, Seq<char>)>::empty()
    } else {
        conditional_entries(mods.drop_last(), features, g) + if feature_on(features, mods.last().1) {
            cmd_entries(mods.last().2, None, g, mods.last().0)
        } else {
            Seq::<(Seq<char>, Seq<char>)>::empty()
        }
    }
}

/// All conflict-check entries: static, then dynamic, then conditional modules.
pub open spec fn conflict_entries(b: BuilderState, loaded: Seq<Seq<CommandView>>) -> Seq<(Seq<char>, Seq<char>)> {
    static_entries(b.static_modules, b.global_prefix) + dynamic_entries(b.dynamic_modules, loaded, b.global_prefix)
        + conditional_entries(b.conditional_modules, b.features, b.global_prefix)
}

/// The position of the group of a name, or -1.
pub open spec fn group_index(groups: Seq<Group>, name: Seq<char>) -> int
    decreases groups.len(),
{
    if groups.len() == 0 {
        -1
    } else if group_index(groups.drop_last(), name) >= 0 {
        group_index(groups.drop_last(), name)
    } else if groups.last().0 == name {
        groups.len() - 1
    } else {
        -1
    }
}

/// The groups after one more entry: the module joins its name's group, or
/// a new group is started.
pub open spec fn add_entry(groups: Seq<Group>, name: Seq<char>, module: Seq<char>) -> Seq<Group> {
    let i = group_index(groups, name);
    if i >= 0 {
        groups.update(i, (name, groups[i].1.push(module)))
    } else {
        groups.push((name, seq![module]))
    }
}

/// The entries grouped by name, groups in order of first appearance.
pub open spec fn grouped(entries: Seq<(Seq<char>, Seq<char>)>) -> Seq<Group>
    decreases entries.len(),
{
    if entries.len() == 0 {
        Seq::<Group>::empty()
    } else {
        add_entry(grouped(entries.drop_last()), entries.last().0, entries.last().1)
    }
}

/// The reports of the groups with more than one module.
pub open spec fn reports_of(groups: Seq<Group>) -> Seq<(Seq<char>, Seq<Seq<char>>, ConflictType)>
    decreases groups.len(),
{
    if groups.len() == 0 {
        Seq::<(Seq<char>, Seq<Seq<char>>, ConflictType)>::empty()
    } else {
        reports_of(groups.drop_last()) + if groups.last().1.len() > 1 {
            seq![(groups.last().0, groups.last().1, ConflictType::NameCollision)]
        } else {
            Seq::<(Seq<char>, Seq<Seq<char>>, ConflictType)>::empty()
        }
    }
}

/// The conflicts of a builder: nothing when detection is off; else each
/// final name that more than one module defines, with those modules.
pub open spec fn conflicts_of(b: BuilderState, loaded: Seq<Seq<CommandView>>) -> Seq<(Seq<char>, Seq<Seq<char>>, ConflictType)> {
    if !b.detect_conflicts {
        Seq::<(Seq<char>, Seq<Seq<char>>, ConflictType)>::empty()
    } else {
        reports_of(grouped(conflict_entries(b, loaded)))
    }
}

/// The entries as characters.
pub open spec fn entries_view(v: Seq<(String, String)>) -> Seq<(Seq<char>, Seq<char>)> {
    v.map_values(|e: (String, String)| (e.0@, e.1@))
}

/// The groups as characters.
pub open spec fn groups_view(v: Seq<(String, Vec<String>)>) -> Seq<Group> {
    v.map_values(|g: (String, Vec<String>)| (g.0@, strs(g.1@)))
}

proof fn lemma_group_index(groups: Seq<Group>, name: Seq<char>, k: int)
    requires
        0 <= k <= groups.len(),
        forall|j: int| 0 <= j < k ==> (#[trigger] groups[j]).0 != name,
    ensures
        k < groups.len() && groups[k].0 == name ==> group_index(groups, name) == k,
        k == groups.len() ==> group_index(groups, name) == -1,
    decreases groups.len(),
{
    if groups.len() > 0 {
        let d = groups.drop_last();
        if k < groups.len() - 1 {
            lemma_group_index(d, name, k);
            assert(d[k] == groups[k]);
        } else {
            assert forall|j: int| 0 <= j < d.len() implies (#[trigger] d[j]).0 != name by {
                assert(d[j] == groups[j]);
            }
            lemma_group_index(d, name, d.len() as int);
        }
    }
}

fn push_entries(out: &mut Vec<(String, String)>, cmds: &Vec<CommandDefinition>, prefix: Option<&String>, g: &Option<String>, module: &str, b: &CliBuilder)
    requires
        ostr(*g) == b@.global_prefix,
    ensures
        entries_view(final(out)@) == entries_view(old(out)@) + cmd_entries(
            cmds_view(cmds@),
            match prefix { Some(p) => Some(p@), None => None },
            ostr(*g),
            module@,
        ),
{
    let ghost start = entries_view(old(out)@);
    let ghost pv = match prefix { Some(p) => Some(p@), None => None::<Seq<char>> };
    let ghost target = cmd_entries(cmds_view(cmds@), pv, ostr(*g), module@);
    let mut i: usize = 0;
    while i < cmds.len()
        invariant
            i <= cmds@.len(),
            ostr(*g) == b@.global_prefix,
            target == cmd_entries(cmds_view(cmds@), pv, ostr(*g), module@),
            pv == (match prefix { Some(p) => Some(p@), None => None::<Seq<char>> }),
            entries_view(out@) == start + target.take(i as int),
        decreases cmds@.len() - i,
    {
        let name = b.compute_final_command_name(&cmds[i], prefix);
        let ghost before = entries_view(out@);
        out.push((name, owned(module)));
        assert(entries_view(out@) =~= before.push(target[i as int]));
        assert(target.take(i as int + 1) =~= target.take(i as int).push(target[i as int]));
        i = i + 1;
    }
    assert(target.take(cmds@.len() as int) =~= target);
}

fn find_group(groups: &Vec<(String, Vec<String>)>, name: &str) -> (r: Option<usize>)
    ensures
        r matches Some(k) ==> k < groups@.len() && groups_view(groups@)[k as int].0 == name@
            && forall|j: int| 0 <= j < k ==> (#[trigger] groups_view(groups@)[j]).0 != name@,
        r is None ==> forall|j: int| 0 <= j < groups@.len() ==> (#[trigger] groups_view(groups@)[j]).0 != name@,
{
    let mut k: usize = 0;
    while k < groups.len()
        invariant
            k <= groups@.len(),
            forall|j: int| 0 <= j < k ==> (#[trigger] groups_view(groups@)[j]).0 != name@,
        decreases groups@.len() - k,
    {
        assert(groups_view(groups@)[k as int].0 == groups@[k as int].0@);
        if str_eq(groups[k].0.as_str(), name) {
            return Some(k);
        }
        k = k + 1;
    }
    None
}

fn group_entries(entries: &Vec<(String, String)>) -> (r: Vec<(String, Vec<String>)>)
    ensures
        groups_view(r@) == grouped(entries_view(entries@)),
{
    let ghost ev = entries_view(entries@);
    let mut groups: Vec<(String, Vec<String>)> = Vec::new();
    let mut i: usize = 0;
    assert(ev.take(0) =~= Seq::<(Seq<char>, Seq<char>)>::empty());
    assert(groups_view(groups@) =~= Seq::<Group>::empty());
    while i < entries.len()
        invariant
            i <= entries@.len(),
            ev == entries_view(entries@),
            groups_view(groups@) == grouped(ev.take(i as int)),
        decreases entries@.len() - i,
    {
        assert(ev.take(i as int + 1).drop_last() =~= ev.take(i as int));
        let name = &entries[i].0;
        let module = &entries[i].1;
        let ghost gv = groups_view(groups@);
        let found = find_group(&groups, name.as_str());
        proof {
            match found {
                Some(k) => lemma_group_index(gv, name@, k as int),
                None => lemma_group_index(gv, name@, gv.len() as int),
            }
            assert(ev[i as int] == (name@, module@));
        }
        match found {
            Some(idx) => {
                let ghost old_g = groups@;
                let mut g = groups.remove(idx);
                let ghost g_mods = strs(g.1@);
                g.1.push(module.clone());
                assert(strs(g.1@) =~= g_mods.push(module@));
                groups.insert(idx, g);
                assert forall|j: int| 0 <= j < groups@.len() implies #[trigger] groups_view(groups@)[j]
                    == gv.update(idx as int, (name@, gv[idx as int].1.push(module@)))[j] by {
                    if j != idx as int {
                        assert(groups@[j] == old_g[j]);
                    }
                }
                assert(groups_view(groups@) =~= gv.update(idx as int, (name@, gv[idx as int].1.push(module@))));
            },
            None => {
                let mut ms: Vec<String> = Vec::new();
                ms.push(module.clone());
                groups.push((name.clone(), ms));
                assert(strs(ms@) =~= seq![module@]);
                assert(groups_view(groups@) =~= gv.push((name@, seq![module@])));
            },
        }
        i = i + 1;
    }
    assert(ev.take(entries@.len() as int) =~= ev);
    groups
}

impl CliBuilder {
    /// The name clashes between modules: every final command name that more
    /// than one module defines, with the modules in order (nothing when
    /// detection is off). `loaded` holds the commands read from each dynamic
    /// module's manifest, in module order.
    pub fn detect_conflicts_report(&self, loaded: &Vec<Vec<CommandDefinition>>) -> (r: Vec<ConflictReport>)
        requires
            loaded@.len() == self@.dynamic_modules.len(),
        ensures
            r@.map_values(|c: ConflictReport| report_view(c))
                == conflicts_of(self@, loaded@.map_values(|v: Vec<CommandDefinition>| cmds_view(v@))),
    {
        let ghost lv = loaded@.map_values(|v: Vec<CommandDefinition>| cmds_view(v@));
        if !self.config.detect_conflicts {
            let r: Vec<ConflictReport> = Vec::new();
            assert(r@.map_values(|c: ConflictReport| report_view(c)) =~= Seq::<(Seq<char>, Seq<Seq<char>>, ConflictType)>::empty());
            return r;
        }
        let g = &self.config.global_prefix;
        let mut entries: Vec<(String, String)> = Vec::new();
        assert(entries_view(entries@) =~= Seq::<(Seq<char>, Seq<char>)>::empty());
        let ghost sm = self@.static_modules;
        let mut m: usize = 0;
        assert(sm.take(0) =~= Seq::<ModuleView>::empty());
        while m < self.static_modules.len()
            invariant
                m <= self.static_modules@.len(),
                sm == self@.static_modules,
                sm == self.static_modules@.map_values(|m: StaticModule| module_view(m)),
                ostr(*g) == self@.global_prefix,
                entries_view(entries@) == static_entries(sm.take(m as int), self@.global_prefix),
            decreases self.static_modules@.len() - m,
        {
            assert(sm.take(m as int + 1).drop_last() =~= sm.take(m as int));
            let module = &self.static_modules[m];
            assert(sm[m as int] == module_view(*module));
            if module.enabled {
                push_entries(&mut entries, &module.commands, module.prefix.as_ref(), g, module.name.as_str(), self);
            } else {
                assert(entries_view(entries@) =~= static_entries(sm.take(m as int + 1), self@.global_prefix));
            }
            m = m + 1;
        }
        assert(sm.take(sm.len() as int) =~= sm);
        let ghost after_static = entries_view(entries@);
        let ghost dm = self@.dynamic_modules;
        let mut d: usize = 0;
        assert(dm.take(0) =~= Seq::<(Seq<char>, Seq<char>, Option<Seq<char>>, bool)>::empty());
        assert(entries_view(entries@) =~= after_static + dynamic_entries(dm.take(0), lv.take(0), self@.global_prefix));
        while d < self.dynamic_modules.len()
            invariant
                d <= self.dynamic_modules@.len(),
                loaded@.len() == self.dynamic_modules@.len(),
                dm == self@.dynamic_modules,
                dm == self.dynamic_modules@.map_values(
                    |m: DynamicModule| (m.name@, m.yaml_path@, ostr(m.prefix), m.enabled),
                ),
                lv == loaded@.map_values(|v: Vec<CommandDefinition>| cmds_view(v@)),
                ostr(*g) == self@.global_prefix,
                entries_view(entries@) == after_static + dynamic_entries(dm.take(d as int), lv.take(d as int), self@.global_prefix),
            decreases self.dynamic_modules@.len() - d,
        {
            assert(dm.take(d as int + 1).drop_last() =~= dm.take(d as int));
            assert(lv.take(d as int + 1).drop_last() =~= lv.take(d as int));
            let module = &self.dynamic_modules[d];
            let ghost before = entries_view(entries@);
            if module.enabled {
                push_entries(&mut entries, &loaded[d], module.prefix.as_ref(), g, module.name.as_str(), self);
            }
            proof {
                vstd::seq_lib::lemma_concat_associative(after_static, dynamic_entries(dm.take(d as int), lv.take(d as int), self@.global_prefix),
                    if dm[d as int].3 { cmd_entries(lv[d as int], dm[d as int].2, self@.global_prefix, dm[d as int].0) } else { Seq::<(Seq<char>, Seq<char>)>::empty() });
            }
            assert(entries_view(entries@) =~= after_static + dynamic_entries(dm.take(d as int + 1), lv.take(d as int + 1), self@.global_prefix));
            d = d + 1;
        }
        assert(dm.take(dm.len() as int) =~= dm);
        assert(lv.take(lv.len() as int) =~= lv);
        let ghost after_dynamic = entries_view(entries@);
        let ghost cm = self@.conditional_modules;
        let mut c: usize = 0;
        assert(cm.take(0) =~= Seq::<(Seq<char>, Seq<char>, Seq<CommandView>)>::empty());
        assert(entries_view(entries@) =~= after_dynamic + conditional_entries(cm.take(0), self@.features, self@.global_prefix));
        while c < self.conditional_modules.len()
            invariant
                c <= self.conditional_modules@.len(),
                cm == self@.conditional_modules,
                cm == self.conditional_modules@.map_values(
                    |m: ConditionalModule| (m.name@, m.feature@, cmds_view(m.module.commands@)),
                ),
                ostr(*g) == self@.global_prefix,
                entries_view(entries@) == after_dynamic + conditional_entries(cm.take(c as int), self@.features, self@.global_prefix),
            decreases self.conditional_modules@.len() - c,
        {
            assert(cm.take(c as int + 1).drop_last() =~= cm.take(c as int));
            let module = &self.conditional_modules[c];
            if self.is_feature_enabled(module.feature.as_str()) {
                push_entries(&mut entries, &module.module.commands, None, g, module.name.as_str(), self);
            }
            proof {
                vstd::seq_lib::lemma_concat_associative(after_dynamic, conditional_entries(cm.take(c as int), self@.features, self@.global_prefix),
                    if feature_on(self@.features, cm[c as int].1) { cmd_entries(cm[c as int].2, None, self@.global_prefix, cm[c as int].0) } else { Seq::<(Seq<char>, Seq<char>)>::empty() });
            }
            assert(entries_view(entries@) =~= after_dynamic + conditional_entries(cm.take(c as int + 1), self@.features, self@.global_prefix));
            c = c + 1;
        }
        assert(cm.take(cm.len() as int) =~= cm);
        assert(entries_view(entries@) == conflict_entries(self@, lv));
        let groups = group_entries(&entries);
        let ghost gv = groups_view(groups@);
        let mut reports: Vec<ConflictReport> = Vec::new();
        let mut i: usize = 0;
        assert(gv.take(0) =~= Seq::<Group>::empty());
        assert(reports@.map_values(|c: ConflictReport| report_view(c)) =~= Seq::<(Seq<char>, Seq<Seq<char>>, ConflictType)>::empty());
        while i < groups.len()
            invariant
                i <= groups@.len(),
                gv == groups_view(groups@),
                reports@.map_values(|c: ConflictReport| report_view(c)) == reports_of(gv.take(i as int)),
            decreases groups@.len() - i,
        {
            assert(gv.take(i as int + 1).drop_last() =~= gv.take(i as int));
            let gr = &groups[i];
            if gr.1.len() > 1 {
                let ghost before = reports@.map_values(|c: ConflictReport| report_view(c));
                let rep = ConflictReport {
                    command_name: gr.0.clone(),
                    modules: crate::data::kind::clone_strings(&gr.1),
                    conflict_type: ConflictType::NameCollision,
                };
                assert(rep.modules@.map_values(|m: String| m@) == strs(rep.modules@));
                reports.push(rep);
                assert(reports@.map_values(|c: ConflictReport| report_view(c)) =~= before.push((gv[i as int].0, gv[i as int].1, ConflictType::NameCollision)));
            }
            i = i + 1;
        }
        assert(gv.take(gv.len() as int) =~= gv);
        reports
    }
}

/// The commands of the enabled static modules, prefixed, in order.
pub open spec fn static_registrations(mods: Seq<ModuleView>, g: Option<Seq<char>>) -> Seq<CommandView>
    decreases mods.len(),
{
    if mods.len() == 0 {
        Seq::<CommandView>::empty()
    } else {
        static_registrations(mods.drop_last(), g) + if mods.last().enabled {
            mods.last().commands.map_values(|c: CommandView| with_prefixes(c, mods.last().prefix, g))
        } else {
            Seq::<CommandView>::empty()
        }
    }
}

/// The commands loaded for an enabled dynamic module, without the help
/// commands among them, prefixed.
pub open spec fn loaded_registrations(cmds: Seq<CommandView>, prefix: Option<Seq<char>>, g: Option<Seq<char>>) -> Seq<CommandView>
    decreases cmds.len(),
{
    if cmds.len() == 0 {
        Seq::<CommandView>::empty()
    } else {
        loaded_registrations(cmds.drop_last(), prefix, g) + if crate::text::ends_with(full_name_of(cmds.last()), ".help"@) {
            Seq::<CommandView>::empty()
        } else {
            seq![with_prefixes(cmds.last(), prefix, g)]
        }
    }
}

/// The commands of the enabled dynamic modules, in order.
pub open spec fn dynamic_registrations(
    mods: Seq<(Seq<char>, Seq<char>, Option<Seq<char>>, bool)>,
    loaded: Seq<Seq<CommandView>>,
    g: Option<Seq<char>>,
) -> Seq<CommandView>
    decreases mods.len(),
{
    if mods.len() == 0 {
        Seq::<CommandView>::empty()
    } else {
        dynamic_registrations(mods.drop_last(), loaded.drop_last(), g) + if mods.last().3 {
            loaded_registrations(loaded.last(), mods.last().2, g)
        } else {
            Seq::<CommandView>::empty()
        }
    }
}

/// A conditional module's command: in the module's own namespace, under
/// the global prefix.
pub open spec fn conditional_command(c: CommandView, module: Seq<char>, g: Option<Seq<char>>) -> CommandView {
    CommandView { namespace: prefixed_namespace(g, seq!['.'] + module), ..c }
}

/// The commands of the conditional modules whose feature is on, in order.
pub open spec fn conditional_registrations(
    mods: Seq<(Seq<char>, Seq<char>, Seq<CommandView>)>,
    features: Seq<Seq<char>>,
    g: Option<Seq<char>>,
) -> Seq<CommandView>
    decreases mods.len(),
{
    if mods.len() == 0 {
        Seq::<CommandView>::empty()
    } else {
        conditional_registrations(mods.drop_last(), features, g) + if feature_on(features, mods.last().1) {
            mods.last().2.map_values(|c: CommandView| conditional_command(c, mods.last().0, g))
        } else {
            Seq::<CommandView>::empty()
        }
    }
}

/// The registry mode a build uses.
pub open spec fn build_mode(b: BuilderState) -> RegistryMode {
    match b.mode {
        AggregationMode::Static => RegistryMode::Hybrid,
        AggregationMode::Dynamic => RegistryMode::DynamicOnly,
        AggregationMode::Hybrid => RegistryMode::Hybrid,
        AggregationMode::Auto => if b.static_modules.len() > 0 || b.conditional_modules.len() > 0 {
            RegistryMode::Hybrid
        } else if b.dynamic_modules.len() > 0 {
            RegistryMode::DynamicOnly
        } else {
            RegistryMode::StaticOnly
        },
    }
}

/// What a build registers: the registry mode and the commands, in order.
#[derive(Debug)]
pub struct CliRegistration {
    pub mode: RegistryMode,
    pub commands: Vec<CommandDefinition>,
}

impl CliBuilder {
    /// The registry mode a build uses: static modules register dynamically,
    /// so the static mode is hybrid; the automatic mode is `detect_optimal_mode`.
    pub fn registry_mode(&self) -> (r: RegistryMode)
        ensures
            r == build_mode(self@),
    {
        match self.mode {
            AggregationMode::Static => RegistryMode::Hybrid,
            AggregationMode::Dynamic => RegistryMode::DynamicOnly,
            AggregationMode::Hybrid => RegistryMode::Hybrid,
            AggregationMode::Auto => self.detect_optimal_mode(),
        }
    }

    /// The commands of the enabled static modules, prefixed.
    pub fn register_static_modules(&self) -> (r: Vec<CommandDefinition>)
        ensures
            cmds_view(r@) == static_registrations(self@.static_modules, self@.global_prefix),
    {
        let ghost sm = self@.static_modules;
        let mut out: Vec<CommandDefinition> = Vec::new();
        let mut m: usize = 0;
        assert(sm.take(0) =~= Seq::<ModuleView>::empty());
        assert(cmds_view(out@) =~= Seq::<CommandView>::empty());
        while m < self.static_modules.len()
            invariant
                m <= self.static_modules@.len(),
                sm == self@.static_modules,
                sm == self.static_modules@.map_values(|m: StaticModule| module_view(m)),
                cmds_view(out@) == static_registrations(sm.take(m as int), self@.global_prefix),
            decreases self.static_modules@.len() - m,
        {
            assert(sm.take(m as int + 1).drop_last() =~= sm.take(m as int));
            let module = &self.static_modules[m];
            assert(sm[m as int] == module_view(*module));
            if module.enabled {
                let ghost start = cmds_view(out@);
                let ghost target = cmds_view(module.commands@).map_values(
                    |c: CommandView| with_prefixes(c, ostr(module.prefix), self@.global_prefix),
                );
                let mut i: usize = 0;
                while i < module.commands.len()
                    invariant
                        i <= module.commands@.len(),
                        target == cmds_view(module.commands@).map_values(
                            |c: CommandView| with_prefixes(c, ostr(module.prefix), self@.global_prefix),
                        ),
                        cmds_view(out@) == start + target.take(i as int),
                    decreases module.commands@.len() - i,
                {
                    let c = module.commands[i].clone();
                    let p = self.apply_prefixes(c, module.prefix.as_ref());
                    let ghost before = cmds_view(out@);
                    out.push(p);
                    assert(cmds_view(out@) =~= before.push(target[i as int]));
                    assert(target.take(i as int + 1) =~= target.take(i as int).push(target[i as int]));
                    i = i + 1;
                }
                assert(target.take(module.commands@.len() as int) =~= target);
            } else {
                assert(cmds_view(out@) =~= static_registrations(sm.take(m as int + 1), self@.global_prefix));
            }
            m = m + 1;
        }
        assert(sm.take(sm.len() as int) =~= sm);
        out
    }

    /// The commands loaded for the enabled dynamic modules, prefixed, with
    /// the help commands among them left out (registration generates them
    /// again). `loaded` holds each dynamic module's commands, in module order.
    pub fn register_dynamic_modules(&self, loaded: &Vec<Vec<CommandDefinition>>) -> (r: Vec<CommandDefinition>)
        requires
            loaded@.len() == self@.dynamic_modules.len(),
        ensures
            cmds_view(r@) == dynamic_registrations(
                self@.dynamic_modules,
                loaded@.map_values(|v: Vec<CommandDefinition>| cmds_view(v@)),
                self@.global_prefix,
            ),
    {
        let ghost lv = loaded@.map_values(|v: Vec<CommandDefinition>| cmds_view(v@));
        let ghost dm = self@.dynamic_modules;
        let mut out: Vec<CommandDefinition> = Vec::new();
        let mut d: usize = 0;
        assert(dm.take(0) =~= Seq::<(Seq<char>, Seq<char>, Option<Seq<char>>, bool)>::empty());
        assert(cmds_view(out@) =~= Seq::<CommandView>::empty());
        while d < self.dynamic_modules.len()
            invariant
                d <= self.dynamic_modules@.len(),
                loaded@.len() == self.dynamic_modules@.len(),
                dm == self@.dynamic_modules,
                dm == self.dynamic_modules@.map_values(
                    |m: DynamicModule| (m.name@, m.yaml_path@, ostr(m.prefix), m.enabled),
                ),
                lv == loaded@.map_values(|v: Vec<CommandDefinition>| cmds_view(v@)),
                cmds_view(out@) == dynamic_registrations(dm.take(d as int), lv.take(d as int), self@.global_prefix),
            decreases self.dynamic_modules@.len() - d,
        {
            assert(dm.take(d as int + 1).drop_last() =~= dm.take(d as int));
            assert(lv.take(d as int + 1).drop_last() =~= lv.take(d as int));
            let module = &self.dynamic_modules[d];
            let ghost start = cmds_view(out@);
            if module.enabled {
                let cmds = &loaded[d];
                let ghost cv = cmds_view(cmds@);
                let mut i: usize = 0;
                assert(cv.take(0) =~= Seq::<CommandView>::empty());
                assert(cmds_view(out@) =~= start + loaded_registrations(cv.take(0), ostr(module.prefix), self@.global_prefix));
                while i < cmds.len()
                    invariant
                        i <= cmds@.len(),
                        cv == cmds_view(cmds@),
                        cmds_view(out@) == start + loaded_registrations(cv.take(i as int), ostr(module.prefix), self@.global_prefix),
                    decreases cmds@.len() - i,
                {
                    assert(cv.take(i as int + 1).drop_last() =~= cv.take(i as int));
                    assert(cv[i as int] == cmds@[i as int]@);
                    let ghost before = cmds_view(out@);
                    let full = cmds[i].full_name();
                    if !crate::command_validation::is_help_command(full.as_str()) {
                        let p = self.apply_prefixes(cmds[i].clone(), module.prefix.as_ref());
                        out.push(p);
                        assert(cmds_view(out@) =~= before.push(with_prefixes(cv[i as int], ostr(module.prefix), self@.global_prefix)));
                    }
                    proof {
                        reveal_strlit(".help");
                    }
                    assert(cmds_view(out@) =~= start + loaded_registrations(cv.take(i as int + 1), ostr(module.prefix), self@.global_prefix));
                    i = i + 1;
                }
                assert(cv.take(cmds@.len() as int) =~= cv);
            }
            assert(cmds_view(out@) =~= dynamic_registrations(dm.take(d as int + 1), lv.take(d as int + 1), self@.global_prefix));
            d = d + 1;
        }
        assert(dm.take(dm.len() as int) =~= dm);
        assert(lv.take(lv.len() as int) =~= lv);
        out
    }

    /// The commands of the conditional modules whose feature is on, each in
    /// its module's namespace under the global prefix.
    pub fn register_conditional_modules(&self) -> (r: Vec<CommandDefinition>)
        ensures
            cmds_view(r@) == conditional_registrations(self@.conditional_modules, self@.features, self@.global_prefix),
    {
        let ghost cm = self@.conditional_modules;
        let mut out: Vec<CommandDefinition> = Vec::new();
        let mut c: usize = 0;
        assert(cm.take(0) =~= Seq::<(Seq<char>, Seq<char>, Seq<CommandView>)>::empty());
        assert(cmds_view(out@) =~= Seq::<CommandView>::empty());
        proof {
            reveal_strlit(".");
        }
        while c < self.conditional_modules.len()
            invariant
                c <= self.conditional_modules@.len(),
                cm == self@.conditional_modules,
                cm == self.conditional_modules@.map_values(
                    |m: ConditionalModule| (m.name@, m.feature@, cmds_view(m.module.commands@)),
                ),
                cmds_view(out@) == conditional_registrations(cm.take(c as int), self@.features, self@.global_prefix),
            decreases self.conditional_modules@.len() - c,
        {
            assert(cm.take(c as int + 1).drop_last() =~= cm.take(c as int));
            let module = &self.conditional_modules[c];
            if self.is_feature_enabled(module.feature.as_str()) {
                let ghost start = cmds_view(out@);
                let cmds = &module.module.commands;
                let ghost target = cmds_view(cmds@).map_values(
                    |x: CommandView| conditional_command(x, module.name@, self@.global_prefix),
                );
                let mut i: usize = 0;
                while i < cmds.len()
                    invariant
                        i <= cmds@.len(),
                        target == cmds_view(cmds@).map_values(
                            |x: CommandView| conditional_command(x, module.name@, self@.global_prefix),
                        ),
                        cmds_view(out@) == start + target.take(i as int),
                    decreases cmds@.len() - i,
                {
                    proof {
                        reveal_strlit(".");
                    }
                    let mut ns = owned(".");
                    push_str(&mut ns, module.name.as_str());
                    assert(ns@ =~= seq!['.'] + module.name@);
                    let mut x = cmds[i].clone().with_namespace(ns);
                    match &self.config.global_prefix {
                        Some(g) => {
                            let mut ns2 = owned(".");
                            push_str(&mut ns2, g.as_str());
                            push_str(&mut ns2, x.namespace());
                            assert(ns2@ =~= dotted(g@, seq!['.'] + module.name@));
                            x = x.with_namespace(ns2);
                        },
                        None => {},
                    }
                    assert(x@ == target[i as int]);
                    let ghost before = cmds_view(out@);
                    out.push(x);
                    assert(cmds_view(out@) =~= before.push(target[i as int]));
                    assert(target.take(i as int + 1) =~= target.take(i as int).push(target[i as int]));
                    i = i + 1;
                }
                assert(target.take(cmds@.len() as int) =~= target);
            } else {
                assert(cmds_view(out@) =~= conditional_registrations(cm.take(c as int + 1), self@.features, self@.global_prefix));
            }
            c = c + 1;
        }
        assert(cm.take(cm.len() as int) =~= cm);
        out
    }

    /// What a build registers: the registry mode, then the commands of the
    /// static, dynamic and conditional modules, in that order.
    pub fn build(self, loaded: &Vec<Vec<CommandDefinition>>) -> (r: CliRegistration)
        requires
            loaded@.len() == self@.dynamic_modules.len(),
        ensures
            r.mode == build_mode(self@),
            cmds_view(r.commands@) == static_registrations(self@.static_modules, self@.global_prefix)
                + dynamic_registrations(
                    self@.dynamic_modules,
                    loaded@.map_values(|v: Vec<CommandDefinition>| cmds_view(v@)),
                    self@.global_prefix,
                ) + conditional_registrations(self@.conditional_modules, self@.features, self@.global_prefix),
    {
        let mode = self.registry_mode();
        let mut commands = self.register_static_modules();
        let mut dynamic = self.register_dynamic_modules(loaded);
        let mut conditional = self.register_conditional_modules();
        let ghost a = cmds_view(commands@);
        let ghost b = cmds_view(dynamic@);
        let ghost c = cmds_view(conditional@);
        commands.append(&mut dynamic);
        assert(cmds_view(commands@) =~= a + b);
        commands.append(&mut conditional);
        assert(cmds_view(commands@) =~= a + b + c);
        CliRegistration { mode, commands }
    }

    /// What a static build registers: the commands of the enabled static
    /// modules, prefixed, in hybrid mode; other modules are left out.
    pub fn build_static(self) -> (r: CliRegistration)
        ensures
            r.mode == RegistryMode::Hybrid,
            cmds_view(r.commands@) == static_registrations(self@.static_modules, self@.global_prefix),
    {
        let commands = self.register_static_modules();
        CliRegistration { mode: RegistryMode::Hybrid, commands }
    }
}

} // verus!
