//! Aggregation of the command manifests of several modules into one
//! command table: loading each module's manifest text, placing each
//! command under the module and global prefixes, and generating the
//! sources of the static table and of a build script.

use vstd::prelude::*;
use crate::data::command_definition::{ CommandDefinition, CommandView };
use crate::data::command_status::opt_view;
use crate::error::Error;
use crate::keyed::{
    entries_view, keys_of, distinct_keys, key_value, keyed_insert, insert_keyed, get_keyed,
};
use crate::multi_yaml::builder::{
    with_prefixes, dotted, CliBuilder, AggregationMode, RegistryMode, CliRegistration, cmds_view,
    static_registrations, dynamic_registrations, conditional_registrations, loaded_registrations, feature_on,
    ModuleView,
};
use crate::data::command_definition::fresh_command;
use crate::data::command_name::CommandName;
use crate::data::command_status::CommandStatus;
use crate::data::version_type::VersionType;
use crate::multi_yaml::codegen::{ registry_source, registry_keys, registry_values, is_phf_map_text, registry_source_of, entries_of, entry_keys };
use crate::multi_yaml::types::{ AggregationConfig, ModuleConfig, ConflictReport, ConflictResolutionStrategy };
use crate::text::{ owned, push_str, push_char, chars_of, str_eq, starts_with, starts_with_exec };
use crate::debug_text::{ to_uppercase, uppercase_text };

verus! {

broadcast use vstd::string::group_string_axioms;

/// Commands of several modules, gathered under one table.
#[derive(Debug)]
pub struct MultiYamlAggregator {
    config: AggregationConfig,
    /// Manifest text of each module, by module name.
    yaml_files: Vec<(String, String)>,
    /// Aggregated commands, by full name.
    commands: Vec<(String, CommandDefinition)>,
    conflicts: Vec<ConflictReport>,
}

/// `s` without one leading `.`.
pub open spec fn without_leading_dot(s: Seq<char>) -> Seq<char> {
    if s.len() > 0 && s[0] == '.' { s.drop_first() } else { s }
}

/// The key of an aggregated command: its name alone in the root
/// namespace, else the namespace, `.` and the name without its dot.
pub open spec fn aggregated_key(c: CommandView) -> Seq<char> {
    if c.namespace.len() == 0 {
        c.name
    } else {
        c.namespace + seq!['.'] + without_leading_dot(c.name)
    }
}

/// The table after the commands of one module, prefixed, are put in it
/// one after another under their keys.
pub open spec fn module_commands_into(
    es: Seq<(Seq<char>, CommandView)>,
    cmds: Seq<CommandView>,
    module_prefix: Option<Seq<char>>,
    global_prefix: Option<Seq<char>>,
) -> Seq<(Seq<char>, CommandView)>
    decreases cmds.len(),
{
    if cmds.len() == 0 {
        es
    } else {
        let prev = module_commands_into(es, cmds.drop_last(), module_prefix, global_prefix);
        let c = with_prefixes(cmds.last(), module_prefix, global_prefix);
        keyed_insert(prev, aggregated_key(c), c)
    }
}

/// The table after the enabled modules, in order, put in the commands
/// read from their manifests (found by module name).
pub open spec fn modules_into(
    es: Seq<(Seq<char>, CommandView)>,
    modules: Seq<ModuleConfig>,
    parsed: Seq<(Seq<char>, Seq<CommandView>)>,
    global_prefix: Option<Seq<char>>,
) -> Seq<(Seq<char>, CommandView)>
    decreases modules.len(),
{
    if modules.len() == 0 {
        es
    } else {
        let prev = modules_into(es, modules.drop_last(), parsed, global_prefix);
        let m = modules.last();
        if m.enabled && key_value(parsed, m.name@) is Some {
            module_commands_into(prev, key_value(parsed, m.name@)->0, opt_view(m.prefix), global_prefix)
        } else {
            prev
        }
    }
}

/// The parsed manifests as names and command views.
pub open spec fn parsed_view(p: Seq<(String, Vec<CommandDefinition>)>) -> Seq<(Seq<char>, Seq<CommandView>)> {
    p.map_values(|e: (String, Vec<CommandDefinition>)| (e.0@, e.1@.map_values(|c: CommandDefinition| c@)))
}

/// The placeholder manifest of a module whose file is missing: one
/// `example` command that names the module.
pub open spec fn sample_manifest(module_name: Seq<char>) -> Seq<char> {
    "---\n- name: \"example\"\n  namespace: \"\"\n  description: \"Example command from "@ + module_name
        + "\"\n  hint: \"Example\"\n  arguments: []\n  routine_link: null\n  status: \"stable\"\n  version: \"1.0.0\"\n  tags: []\n  aliases: []\n  permissions: []\n  idempotent: true\n  deprecation_message: \"\"\n  http_method_hint: \"GET\"\n  examples: []\n  auto_help_enabled: true\n"@
}

/// The manifest text of the `i`-th module: its file's content when it was
/// read, else the placeholder.
pub open spec fn module_text(modules: Seq<ModuleConfig>, contents: Seq<Option<String>>, i: int) -> Seq<char> {
    if i < contents.len() && contents[i] is Some {
        (contents[i]->0)@
    } else {
        sample_manifest(modules[i].name@)
    }
}

/// The manifest table after the first `n` modules' texts are put in it.
pub open spec fn texts_into(
    es: Seq<(Seq<char>, Seq<char>)>,
    modules: Seq<ModuleConfig>,
    contents: Seq<Option<String>>,
    n: int,
) -> Seq<(Seq<char>, Seq<char>)>
    decreases n,
{
    if n <= 0 {
        es
    } else {
        let prev = texts_into(es, modules, contents, n - 1);
        if modules[n - 1].enabled {
            keyed_insert(prev, modules[n - 1].name@, module_text(modules, contents, n - 1))
        } else {
            prev
        }
    }
}

/// `rel` resolved against `base`, as `Path::join` does on Unix: an
/// absolute `rel` replaces `base`, and a separator is put between them
/// where `base` does not end in one.
pub open spec fn path_join(base: Seq<char>, rel: Seq<char>) -> Seq<char> {
    if rel.len() > 0 && rel[0] == '/' {
        rel
    } else if base.len() == 0 || base.last() == '/' {
        base + rel
    } else {
        base + seq!['/'] + rel
    }
}

/// The paths of the manifests of the enabled modules, as build-script
/// change triggers.
pub open spec fn rerun_lines(base: Seq<char>, modules: Seq<ModuleConfig>) -> Seq<char>
    decreases modules.len(),
{
    if modules.len() == 0 {
        Seq::<char>::empty()
    } else {
        let m = modules.last();
        rerun_lines(base, modules.drop_last()) + if m.enabled {
            "  println!(\"cargo:rerun-if-changed="@ + path_join(base, m.yaml_path@) + "\");\n"@
        } else {
            Seq::<char>::empty()
        }
    }
}

/// The opening of the generated build script.
pub open spec fn build_rs_head() -> Seq<char> {
    "//! Build script for multi-YAML command aggregation\n//! This file is auto-generated - do not edit manually\n\nfn main() {\n  println!(\"cargo:rerun-if-changed=build.rs\");\n\n"@
}

/// The rest of the generated build script: aggregation and output.
pub open spec fn build_rs_tail() -> Seq<char> {
    "\n  // Add feature detection\n  #[cfg(feature = \"multi_yaml\")]\n  {\n    // Generate aggregated commands at build time\n    let mut aggregator = unilang::multi_yaml::MultiYamlAggregator::from_cargo_metadata(\n      &std::path::PathBuf::from(\"Cargo.toml\")\n    ).expect(\"Failed to create aggregator\");\n\n    aggregator.aggregate().expect(\"Failed to aggregate YAML files\");\n\n    // Generate static registry file\n    let output_path = std::path::PathBuf::from(\n      std::env::var(\"OUT_DIR\").expect(\"OUT_DIR not set\")\n    ).join(\"generated_commands.rs\");\n\n    aggregator.write_static_registry(&output_path)\n      .expect(\"Failed to write static registry\");\n  }\n}\n"@
}

/// A build script that reruns when a module manifest changes and
/// regenerates the static table.
pub open spec fn build_rs_text(base: Seq<char>, modules: Seq<ModuleConfig>) -> Seq<char> {
    build_rs_head() + rerun_lines(base, modules) + build_rs_tail()
}

/// The placeholder manifest; see `sample_manifest`.
fn sample_manifest_text(module_name: &str) -> (r: String)
    ensures
        r@ == sample_manifest(module_name@),
{
    let mut s = owned("---\n- name: \"example\"\n  namespace: \"\"\n  description: \"Example command from ");
    push_str(&mut s, module_name);
    push_str(&mut s, "\"\n  hint: \"Example\"\n  arguments: []\n  routine_link: null\n  status: \"stable\"\n  version: \"1.0.0\"\n  tags: []\n  aliases: []\n  permissions: []\n  idempotent: true\n  deprecation_message: \"\"\n  http_method_hint: \"GET\"\n  examples: []\n  auto_help_enabled: true\n");
    s
}

/// `rel` resolved against `base`; see `path_join`.
pub fn join_path(base: &str, rel: &str) -> (r: String)
    ensures
        r@ == path_join(base@, rel@),
{
    let b = chars_of(base);
    let q = chars_of(rel);
    if q.len() > 0 && q[0] == '/' {
        owned(rel)
    } else if b.len() == 0 || b[b.len() - 1] == '/' {
        let mut s = owned(base);
        push_str(&mut s, rel);
        s
    } else {
        let mut s = owned(base);
        push_char(&mut s, '/');
        push_str(&mut s, rel);
        s
    }
}

/// A command placed under the module and global prefixes; see `with_prefixes`.
fn prefixed_command(cmd: CommandDefinition, module_prefix: &Option<String>, global_prefix: &Option<String>) -> (r:
    CommandDefinition)
    ensures
        r@ == with_prefixes(cmd@, opt_view(*module_prefix), opt_view(*global_prefix)),
{
    let mut c = cmd;
    match module_prefix {
        Some(p) => {
            let mut ns = owned(".");
            push_str(&mut ns, p.as_str());
            push_str(&mut ns, c.namespace());
            proof { reveal_strlit("."); }
            assert(ns@ =~= dotted(p@, c@.namespace));
            c = c.with_namespace(ns);
        },
        None => {},
    }
    match global_prefix {
        Some(g) => {
            let mut ns = owned(".");
            push_str(&mut ns, g.as_str());
            push_str(&mut ns, c.namespace());
            proof { reveal_strlit("."); }
            assert(ns@ =~= dotted(g@, c@.namespace));
            c = c.with_namespace(ns);
        },
        None => {},
    }
    c
}

/// The key of an aggregated command; see `aggregated_key`.
fn aggregated_key_of(c: &CommandDefinition) -> (r: String)
    ensures
        r@ == aggregated_key(c@),
{
    let ns = c.namespace();
    let name = c.name().as_str();
    if ns.unicode_len() == 0 {
        owned(name)
    } else {
        let v = chars_of(name);
        let mut s = owned(ns);
        push_char(&mut s, '.');
        if v.len() > 0 && v[0] == '.' {
            let mut i: usize = 1;
            let ghost head = s@;
            while i < v.len()
                invariant
                    1 <= i <= v@.len(),
                    s@ == head + v@.subrange(1, i as int),
                decreases v@.len() - i,
            {
                push_char(&mut s, v[i]);
                i = i + 1;
                assert(s@ =~= head + v@.subrange(1, i as int));
            }
            assert(v@.subrange(1, v@.len() as int) =~= v@.drop_first());
        } else {
            push_str(&mut s, name);
        }
        s
    }
}

impl MultiYamlAggregator {
    /// The settings.
    pub closed spec fn config_spec(&self) -> AggregationConfig {
        self.config
    }

    /// The manifest texts by module name.
    pub closed spec fn yaml_view(&self) -> Seq<(Seq<char>, Seq<char>)> {
        entries_view(self.yaml_files@)
    }

    /// The aggregated commands by full name.
    pub closed spec fn commands_view(&self) -> Seq<(Seq<char>, CommandView)> {
        entries_view(self.commands@)
    }

    /// The detected conflicts.
    pub closed spec fn conflicts_spec(&self) -> Seq<ConflictReport> {
        self.conflicts@
    }

    /// The manifest table itself.
    pub closed spec fn yaml_files_spec(&self) -> Vec<(String, String)> {
        self.yaml_files
    }

    /// The full names of the aggregated commands are distinct.
    pub open spec fn wf(&self) -> bool {
        distinct_keys(self.commands_view())
    }

    /// An aggregator with the given settings and nothing loaded.
    pub fn new(config: AggregationConfig) -> (r: Self)
        ensures
            r.wf(),
            r.config_spec() == config,
            r.yaml_view().len() == 0,
            r.commands_view().len() == 0,
            r.conflicts_spec().len() == 0,
    {
        let r = MultiYamlAggregator { config, yaml_files: Vec::new(), commands: Vec::new(), conflicts: Vec::new() };
        assert(entries_view(r.yaml_files@) =~= Seq::<(Seq<char>, Seq<char>)>::empty());
        assert(entries_view(r.commands@) =~= Seq::<(Seq<char>, CommandView)>::empty());
        r
    }

    /// The manifest texts by module name, to be filled directly.
    pub fn yaml_files_mut(&mut self) -> (r: &mut Vec<(String, String)>)
        ensures
            *r == old(self).yaml_files_spec(),
            final(self).config_spec() == old(self).config_spec(),
            final(self).commands_view() == old(self).commands_view(),
            final(self).conflicts_spec() == old(self).conflicts_spec(),
            final(self).yaml_files_spec() == *final(r),
    {
        &mut self.yaml_files
    }

    /// The paths of the module manifests, in module order, each resolved
    /// against the base directory.
    pub fn module_paths(&self) -> (r: Vec<String>)
        ensures
            r@.len() == self.config_spec().modules@.len(),
            forall|i: int| 0 <= i < r@.len() ==> #[trigger] r@[i]@ == path_join(
                self.config_spec().base_dir@, self.config_spec().modules@[i].yaml_path@),
    {
        let mut r: Vec<String> = Vec::new();
        let mut i: usize = 0;
        while i < self.config.modules.len()
            invariant
                i <= self.config.modules@.len(),
                r@.len() == i,
                forall|j: int| 0 <= j < i ==> #[trigger] r@[j]@ == path_join(
                    self.config.base_dir@, self.config.modules@[j].yaml_path@),
            decreases self.config.modules@.len() - i,
        {
            r.push(join_path(self.config.base_dir.as_str(), self.config.modules[i].yaml_path.as_str()));
            i = i + 1;
        }
        r
    }

    /// Loads the manifest of each enabled module under its name: the
    /// content of its file when it was read (`contents`, in module order,
    /// `None` where the file does not exist), else the placeholder.
    pub fn load_yaml_files(&mut self, contents: &Vec<Option<String>>) -> (r: Result<(), Error>)
        ensures
            r is Ok,
            final(self).yaml_view() == texts_into(
                old(self).yaml_view(),
                old(self).config_spec().modules@,
                contents@,
                old(self).config_spec().modules@.len() as int,
            ),
            final(self).config_spec() == old(self).config_spec(),
            final(self).commands_view() == old(self).commands_view(),
            final(self).conflicts_spec() == old(self).conflicts_spec(),
    {
        let ghost start = entries_view(self.yaml_files@);
        let mut i: usize = 0;
        while i < self.config.modules.len()
            invariant
                i <= self.config.modules@.len(),
                self.config == old(self).config,
                self.commands == old(self).commands,
                self.conflicts == old(self).conflicts,
                start == entries_view(old(self).yaml_files@),
                entries_view(self.yaml_files@) == texts_into(start, self.config.modules@, contents@, i as int),
            decreases self.config.modules@.len() - i,
        {
            if self.config.modules[i].enabled {
                let text = if i < contents.len() && contents[i].is_some() {
                    match &contents[i] {
                        Some(c) => c.clone(),
                        None => String::new(),
                    }
                } else {
                    sample_manifest_text(self.config.modules[i].name.as_str())
                };
                assert(text@ == module_text(self.config.modules@, contents@, i as int));
                let name = self.config.modules[i].name.clone();
                insert_keyed(&mut self.yaml_files, name, text);
            }
            i = i + 1;
        }
        Ok(())
    }

    /// The placeholder manifest of a module; see `sample_manifest`.
    pub fn generate_sample_yaml_content(&self, module_name: &str) -> (r: String)
        ensures
            r@ == sample_manifest(module_name@),
    {
        sample_manifest_text(module_name)
    }

    fn put_module_commands(
        &mut self,
        cmds: &Vec<CommandDefinition>,
        module_prefix: &Option<String>,
        global_prefix: &Option<String>,
    )
        requires
            old(self).wf(),
        ensures
            final(self).wf(),
            final(self).commands_view() == module_commands_into(
                old(self).commands_view(),
                cmds@.map_values(|c: CommandDefinition| c@),
                opt_view(*module_prefix),
                opt_view(*global_prefix),
            ),
            final(self).config_spec() == old(self).config_spec(),
            final(self).yaml_view() == old(self).yaml_view(),
            final(self).conflicts_spec() == old(self).conflicts_spec(),
    {
        let ghost cv = cmds@.map_values(|c: CommandDefinition| c@);
        let ghost start = entries_view(self.commands@);
        let mut i: usize = 0;
        while i < cmds.len()
            invariant
                i <= cmds@.len(),
                cv == cmds@.map_values(|c: CommandDefinition| c@),
                self.wf(),
                self.config == old(self).config,
                self.yaml_files == old(self).yaml_files,
                self.conflicts == old(self).conflicts,
                start == entries_view(old(self).commands@),
                entries_view(self.commands@) == module_commands_into(
                    start, cv.take(i as int), opt_view(*module_prefix), opt_view(*global_prefix)),
            decreases cmds@.len() - i,
        {
            assert(cv.take(i as int + 1).drop_last() =~= cv.take(i as int));
            let c = prefixed_command(cmds[i].clone(), module_prefix, global_prefix);
            let key = aggregated_key_of(&c);
            insert_keyed(&mut self.commands, key, c);
            i = i + 1;
        }
        assert(cv.take(cmds@.len() as int) =~= cv);
    }

    /// Puts the commands of each enabled module into the table, under the
    /// module prefix and then the global prefix, keyed by full name; a
    /// later command replaces an earlier one with the same full name.
    /// `parsed` holds the commands read from each loaded manifest, by
    /// module name.
    pub fn process_yaml_files(&mut self, parsed: &Vec<(String, Vec<CommandDefinition>)>)
        requires
            old(self).wf(),
        ensures
            final(self).wf(),
            final(self).commands_view() == modules_into(
                old(self).commands_view(),
                old(self).config_spec().modules@,
                parsed_view(parsed@),
                opt_view(old(self).config_spec().global_prefix),
            ),
            final(self).config_spec() == old(self).config_spec(),
            final(self).yaml_view() == old(self).yaml_view(),
            final(self).conflicts_spec() == old(self).conflicts_spec(),
    {
        let ghost start = entries_view(self.commands@);
        let ghost pv = parsed_view(parsed@);
        let ghost mods = self.config.modules@;
        let mut i: usize = 0;
        while i < self.config.modules.len()
            invariant
                i <= mods.len(),
                mods == self.config.modules@,
                pv == parsed_view(parsed@),
                self.wf(),
                self.config == old(self).config,
                self.yaml_view() == old(self).yaml_view(),
                self.conflicts_spec() == old(self).conflicts_spec(),
                start == entries_view(old(self).commands@),
                entries_view(self.commands@) == modules_into(
                    start, mods.take(i as int), pv, opt_view(self.config.global_prefix)),
            decreases mods.len() - i,
        {
            assert(mods.take(i as int + 1).drop_last() =~= mods.take(i as int));
            assert(mods.take(i as int + 1).last() == mods[i as int]);
            if self.config.modules[i].enabled {
                match get_keyed(parsed, self.config.modules[i].name.as_str()) {
                    Some(cmds) => {
                        proof {
                            lemma_parsed_lookup(parsed@, self.config.modules@[i as int].name@);
                        }
                        let prefix = crate::data::command_status::clone_opt_string(&self.config.modules[i].prefix);
                        let global = crate::data::command_status::clone_opt_string(&self.config.global_prefix);
                        self.put_module_commands(cmds, &prefix, &global);
                    },
                    None => {
                        proof {
                            lemma_parsed_lookup(parsed@, self.config.modules@[i as int].name@);
                        }
                    },
                }
            }
            i = i + 1;
        }
        assert(mods.take(mods.len() as int) =~= mods);
    }

    /// The detected conflicts.
    pub fn conflicts(&self) -> (r: &Vec<ConflictReport>)
        ensures
            r@ == self.conflicts_spec(),
    {
        &self.conflicts
    }

    /// The aggregated commands by full name.
    pub fn commands(&self) -> (r: &Vec<(String, CommandDefinition)>)
        ensures
            entries_view(r@) == self.commands_view(),
    {
        &self.commands
    }

    /// The settings.
    pub fn config(&self) -> (r: &AggregationConfig)
        ensures
            *r == self.config_spec(),
    {
        &self.config
    }

    /// An aggregator with the settings read from a crate manifest; see
    /// `parse_cargo_metadata`.
    pub fn from_cargo_metadata(cargo_toml_path: &str) -> (r: Result<Self, Error>)
        ensures
            r is Ok,
            r->Ok_0.wf(),
            is_metadata_config(r->Ok_0.config_spec()),
            r->Ok_0.yaml_view().len() == 0,
            r->Ok_0.commands_view().len() == 0,
    {
        match parse_cargo_metadata(cargo_toml_path) {
            Ok(config) => Ok(Self::new(config)),
            Err(e) => Err(e),
        }
    }

    /// The Rust source of the static command table of the aggregated
    /// commands, its map literal built by `phf_codegen`; see
    /// `registry_source` and `is_phf_map_text`.
    pub fn generate_static_registry_source(&self) -> (r: String)
        requires
            self.wf(),
        ensures
            exists|m: Seq<char>|
                #![trigger registry_source(self.commands_view(), m)]
                is_phf_map_text("phf"@, registry_keys(self.commands_view()), registry_values(self.commands_view()), m)
                    && r@ == registry_source(self.commands_view(), m),
    {
        proof {
            let ev = entries_view(self.commands@);
            assert(entries_of(self.commands@) =~= ev);
            let ks = entry_keys(ev);
            assert forall|i: int, j: int| 0 <= i < j < ks.len() implies ks[i] != ks[j] by {
                assert(ks[i] == ev[i].0 && ks[j] == ev[j].0);
            }
        }
        registry_source_of(&self.commands)
    }

    /// A build script that reruns on changes of the enabled modules'
    /// manifests and regenerates the static table; see `build_rs_text`.
    pub fn generate_build_rs(&self) -> (r: String)
        ensures
            r@ == build_rs_text(self.config_spec().base_dir@, self.config_spec().modules@),
    {
        let mut s = owned("//! Build script for multi-YAML command aggregation\n//! This file is auto-generated - do not edit manually\n\nfn main() {\n  println!(\"cargo:rerun-if-changed=build.rs\");\n\n");
        let ghost head = s@;
        let ghost mods = self.config.modules@;
        let ghost base = self.config.base_dir@;
        let mut i: usize = 0;
        while i < self.config.modules.len()
            invariant
                i <= mods.len(),
                mods == self.config.modules@,
                base == self.config.base_dir@,
                s@ == head + rerun_lines(base, mods.take(i as int)),
            decreases mods.len() - i,
        {
            assert(mods.take(i as int + 1).drop_last() =~= mods.take(i as int));
            let ghost before = s@;
            if self.config.modules[i].enabled {
                let p = join_path(self.config.base_dir.as_str(), self.config.modules[i].yaml_path.as_str());
                push_str(&mut s, "  println!(\"cargo:rerun-if-changed=");
                push_str(&mut s, p.as_str());
                push_str(&mut s, "\");\n");
                assert(s@ =~= before + ("  println!(\"cargo:rerun-if-changed="@ + p@ + "\");\n"@));
            } else {
                assert(s@ =~= before + Seq::<char>::empty());
            }
            proof {
                vstd::seq_lib::lemma_concat_associative(head, rerun_lines(base, mods.take(i as int)),
                    s@.skip(before.len() as int));
                assert(s@.skip(before.len() as int) =~= (if mods[i as int].enabled {
                    "  println!(\"cargo:rerun-if-changed="@ + path_join(base, mods[i as int].yaml_path@) + "\");\n"@
                } else {
                    Seq::<char>::empty()
                }));
            }
            i = i + 1;
        }
        assert(mods.take(mods.len() as int) =~= mods);
        push_str(&mut s, "\n  // Add feature detection\n  #[cfg(feature = \"multi_yaml\")]\n  {\n    // Generate aggregated commands at build time\n    let mut aggregator = unilang::multi_yaml::MultiYamlAggregator::from_cargo_metadata(\n      &std::path::PathBuf::from(\"Cargo.toml\")\n    ).expect(\"Failed to create aggregator\");\n\n    aggregator.aggregate().expect(\"Failed to aggregate YAML files\");\n\n    // Generate static registry file\n    let output_path = std::path::PathBuf::from(\n      std::env::var(\"OUT_DIR\").expect(\"OUT_DIR not set\")\n    ).join(\"generated_commands.rs\");\n\n    aggregator.write_static_registry(&output_path)\n      .expect(\"Failed to write static registry\");\n  }\n}\n");
        proof {
            reveal_strlit("//! Build script for multi-YAML command aggregation\n//! This file is auto-generated - do not edit manually\n\nfn main() {\n  println!(\"cargo:rerun-if-changed=build.rs\");\n\n");
        }
        assert(s@ =~= build_rs_text(base, mods));
        s
    }
}

/// Whether the regular expression `pattern` (compiled by the `regex`
/// crate with its default settings) matches somewhere in `text`; `false`
/// when the pattern does not compile.
pub uninterp spec fn regex_finds(pattern: Seq<char>, text: Seq<char>) -> bool;

/// `regex::Regex::new` followed by `Regex::is_match`, with a pattern that
/// does not compile counted as no match. Compilation and matching depend
/// on the pattern and the text alone; the contract names the outcome.
#[verifier::external_body]
fn regex_is_match(pattern: &str, text: &str) -> (r: bool)
    ensures
        r == regex_finds(pattern@, text@),
{
    regex::Regex::new(pattern).map(|re| re.is_match(text)).unwrap_or(false)
}

/// `s` with every `*` replaced by `.*`.
pub open spec fn star_to_regex(s: Seq<char>) -> Seq<char>
    decreases s.len(),
{
    if s.len() == 0 {
        Seq::<char>::empty()
    } else {
        star_to_regex(s.drop_last()) + if s.last() == '*' { seq!['.', '*'] } else { seq![s.last()] }
    }
}

/// A file name matches a discovery pattern: a pattern with `*` is read as a
/// regular expression with each `*` made `.*`, found anywhere in the name;
/// any other pattern must equal the name.
pub open spec fn pattern_matches(pattern: Seq<char>, file_name: Seq<char>) -> bool {
    if pattern.contains('*') { regex_finds(star_to_regex(pattern), file_name) } else { file_name == pattern }
}

/// The last component of a relative path.
pub open spec fn last_component(p: Seq<char>) -> Seq<char> {
    match find_last(p, '/') {
        Some(i) => p.skip(i + 1),
        None => p,
    }
}

/// The last position of `c` in `s`, if any.
pub open spec fn find_last(s: Seq<char>, c: char) -> Option<int>
    decreases s.len(),
{
    if s.len() == 0 {
        None
    } else if s.last() == c {
        Some(s.len() - 1)
    } else {
        find_last(s.drop_last(), c)
    }
}

/// The stem of a file name, as `Path::file_stem` has it: `..` and names
/// without a dot after their first character stay whole; otherwise the
/// name before its last dot.
pub open spec fn file_stem(name: Seq<char>) -> Seq<char> {
    if name == ".."@ {
        name
    } else {
        match find_last(name, '.') {
            Some(d) => if d == 0 { name } else { name.take(d) },
            None => name,
        }
    }
}

/// The patterns discovery uses: the configured ones, or `*.yaml` and `*.yml`.
pub open spec fn discovery_patterns_of(configured: Seq<Seq<char>>) -> Seq<Seq<char>> {
    if configured.len() == 0 { seq!["*.yaml"@, "*.yml"@] } else { configured }
}

/// A file name matches one of the patterns.
pub open spec fn matches_any(patterns: Seq<Seq<char>>, file_name: Seq<char>) -> bool {
    exists|k: int| 0 <= k < patterns.len() && pattern_matches(#[trigger] patterns[k], file_name)
}

/// The module a discovered manifest adds: named by its file stem, at its
/// relative path, without prefix, enabled.
pub open spec fn discovered_module(m: ModuleConfig, relative_path: Seq<char>) -> bool {
    &&& m.name@ == file_stem(last_component(relative_path))
    &&& m.yaml_path@ == relative_path
    &&& m.prefix is None
    &&& m.enabled
}

fn find_last_exec(s: &Vec<char>, c: char) -> (r: Option<usize>)
    ensures
        match r {
            Some(i) => find_last(s@, c) == Some(i as int) && i < s.len(),
            None => find_last(s@, c) is None,
        },
{
    let mut j: usize = s.len();
    assert(s@.take(j as int) =~= s@);
    while j > 0
        invariant
            j <= s@.len(),
            forall|m: int| j <= m < s@.len() ==> s@[m] != c,
            find_last(s@.take(j as int), c) == find_last(s@, c),
        decreases j,
    {
        let t = Ghost(s@.take(j as int));
        assert(t@.last() == s@[j - 1]);
        if s[j - 1] == c {
            return Some(j - 1);
        }
        assert(t@.drop_last() =~= s@.take(j - 1));
        j = j - 1;
    }
    assert(s@.take(0).len() == 0);
    None
}

fn star_to_regex_exec(s: &Vec<char>) -> (r: String)
    ensures
        r@ == star_to_regex(s@),
{
    let mut out = String::new();
    let mut i: usize = 0;
    assert(s@.take(0) =~= Seq::<char>::empty());
    while i < s.len()
        invariant
            i <= s@.len(),
            out@ == star_to_regex(s@.take(i as int)),
        decreases s@.len() - i,
    {
        assert(s@.take(i as int + 1).drop_last() =~= s@.take(i as int));
        assert(s@.take(i as int + 1).last() == s@[i as int]);
        let ghost before = out@;
        if s[i] == '*' {
            push_char(&mut out, '.');
            push_char(&mut out, '*');
            assert(out@ =~= before + seq!['.', '*']);
        } else {
            push_char(&mut out, s[i]);
            assert(out@ =~= before + seq![s@[i as int]]);
        }
        i = i + 1;
    }
    assert(s@.take(s@.len() as int) =~= s@);
    out
}

/// Whether a file name matches a discovery pattern; see `pattern_matches`.
pub fn matches_pattern(pattern: &str, file_name: &str) -> (r: bool)
    ensures
        r == pattern_matches(pattern@, file_name@),
{
    let p = chars_of(pattern);
    if crate::text::contains_char(&p, '*') {
        let re = star_to_regex_exec(&p);
        regex_is_match(re.as_str(), file_name)
    } else {
        str_eq(file_name, pattern)
    }
}

fn file_stem_exec(name: &Vec<char>) -> (r: String)
    ensures
        r@ == file_stem(name@),
{
    proof {
        reveal_strlit("..");
    }
    if name.len() == 2 && name[0] == '.' && name[1] == '.' {
        assert(name@ =~= ".."@);
        return crate::text::string_of(name);
    }
    assert(name@ != ".."@) by {
        if name@ == ".."@ {
            assert(name@.len() == 2 && name@[0] == '.' && name@[1] == '.');
        }
    }
    match find_last_exec(name, '.') {
        Some(d) => {
            if d == 0 {
                crate::text::string_of(name)
            } else {
                crate::text::string_of(&crate::text::subvec(name, 0, d))
            }
        },
        None => crate::text::string_of(name),
    }
}

fn discovered_module_exec(relative_path: &String) -> (r: ModuleConfig)
    ensures
        discovered_module(r, relative_path@),
{
    let p = chars_of(relative_path.as_str());
    let last = match find_last_exec(&p, '/') {
        Some(i) => {
            let v = crate::text::subvec(&p, i + 1, p.len());
            assert(v@ =~= p@.skip(i as int + 1));
            v
        },
        None => p,
    };
    ModuleConfig { name: file_stem_exec(&last), yaml_path: relative_path.clone(), prefix: None, enabled: true }
}

impl MultiYamlAggregator {
    /// Adds a module for each discovered manifest: `files` are the paths,
    /// relative to the base directory, of the files found under it, in the
    /// order found; each whose file name matches a discovery pattern (see
    /// `discovery_patterns_of` and `pattern_matches`) adds a module, in
    /// order (see `discovered_module`).
    pub fn discover_yaml_files(&mut self, files: &Vec<String>) -> (r: Result<(), Error>)
        requires
            old(self).wf(),
        ensures
            r is Ok,
            final(self).wf(),
            final(self).commands_view() == old(self).commands_view(),
            final(self).yaml_view() == old(self).yaml_view(),
            final(self).conflicts_spec() == old(self).conflicts_spec(),
            ({
                let before = old(self).config_spec().modules@;
                let after = final(self).config_spec().modules@;
                let pats = discovery_patterns_of(old(self).config_spec().discovery_patterns@.map_values(
                    |s: String| s@));
                let found = files@.filter(|f: String| matches_any(pats, last_component(f@)));
                &&& after.len() == before.len() + found.len()
                &&& after.take(before.len() as int) == before
                &&& forall|k: int| 0 <= k < found.len() ==> discovered_module(
                    #[trigger] after[before.len() + k], found[k]@)
            }),
    {
        let ghost before = self.config.modules@;
        let mut patterns: Vec<String> = Vec::new();
        if self.config.discovery_patterns.len() == 0 {
            patterns.push(owned("*.yaml"));
            patterns.push(owned("*.yml"));
        } else {
            let mut q: usize = 0;
            while q < self.config.discovery_patterns.len()
                invariant
                    q <= self.config.discovery_patterns@.len(),
                    patterns@.map_values(|s: String| s@) == self.config.discovery_patterns@.map_values(
                        |s: String| s@).take(q as int),
                decreases self.config.discovery_patterns@.len() - q,
            {
                let ghost pb = patterns@.map_values(|s: String| s@);
                patterns.push(self.config.discovery_patterns[q].clone());
                assert(patterns@.map_values(|s: String| s@) =~= pb.push(self.config.discovery_patterns@[q as int]@));
                assert(self.config.discovery_patterns@.map_values(|s: String| s@).take(q as int + 1)
                    =~= pb.push(self.config.discovery_patterns@[q as int]@));
                q = q + 1;
            }
        }
        let ghost pats = discovery_patterns_of(self.config.discovery_patterns@.map_values(|s: String| s@));
        assert(patterns@.map_values(|s: String| s@) =~= pats);
        let ghost pred = |f: String| matches_any(pats, last_component(f@));
        let mut i: usize = 0;
        assert(files@.take(0) =~= Seq::<String>::empty());
        assert(files@.take(0).filter(pred) =~= Seq::<String>::empty()) by {
            reveal(Seq::filter);
        }
        assert(before.take(before.len() as int) =~= before);
        while i < files.len()
            invariant
                i <= files@.len(),
                patterns@.map_values(|s: String| s@) == pats,
                pred == (|f: String| matches_any(pats, last_component(f@))),
                self.wf(),
                self.commands == old(self).commands,
                self.yaml_files == old(self).yaml_files,
                self.conflicts == old(self).conflicts,
                before == old(self).config.modules@,
                pats == discovery_patterns_of(old(self).config.discovery_patterns@.map_values(|s: String| s@)),
                self.config.discovery_patterns == old(self).config.discovery_patterns,
                self.config.modules@.len() == before.len() + files@.take(i as int).filter(pred).len(),
                self.config.modules@.take(before.len() as int) == before,
                forall|k: int| 0 <= k < files@.take(i as int).filter(pred).len() ==> discovered_module(
                    #[trigger] self.config.modules@[before.len() + k], files@.take(i as int).filter(pred)[k]@),
            decreases files@.len() - i,
        {
            let ghost prev = files@.take(i as int);
            let ghost next = files@.take(i as int + 1);
            assert(next.drop_last() =~= prev);
            assert(next.last() == files@[i as int]);
            assert(next =~= prev.push(files@[i as int]));
            proof {
                reveal(Seq::filter);
                assert(next.filter(pred) == if pred(files@[i as int]) {
                    prev.filter(pred).push(files@[i as int])
                } else {
                    prev.filter(pred)
                });
            }
            let p = chars_of(files[i].as_str());
            let name = match find_last_exec(&p, '/') {
                Some(j) => {
                    let v = crate::text::subvec(&p, j + 1, p.len());
                    assert(v@ =~= p@.skip(j as int + 1));
                    crate::text::string_of(&v)
                },
                None => crate::text::string_of(&p),
            };
            assert(name@ == last_component(files@[i as int]@));
            let mut hit = false;
            let mut k: usize = 0;
            while k < patterns.len()
                invariant
                    k <= patterns@.len(),
                    patterns@.map_values(|s: String| s@) == pats,
                    hit == exists|m: int| 0 <= m < k && pattern_matches(#[trigger] pats[m], name@),
                decreases patterns@.len() - k,
            {
                if matches_pattern(patterns[k].as_str(), name.as_str()) {
                    hit = true;
                }
                assert(pats[k as int] == patterns@[k as int]@);
                k = k + 1;
            }
            assert(hit == matches_any(pats, name@));
            let ghost mods_before = self.config.modules@;
            if hit {
                let m = discovered_module_exec(&files[i]);
                self.config.modules.push(m);
                assert(self.config.modules@.take(before.len() as int) =~= before) by {
                    assert(self.config.modules@.take(before.len() as int) =~= mods_before.take(before.len() as int));
                }
            }
            i = i + 1;
        }
        assert(files@.take(files@.len() as int) =~= files@);
        Ok(())
    }
}

/// Every entry of the table is keyed by the full name of its command.
pub open spec fn keys_consistent(es: Seq<(Seq<char>, CommandView)>) -> bool {
    forall|i: int| 0 <= i < es.len() ==> (#[trigger] es[i]).0 == aggregated_key(es[i].1)
}

proof fn lemma_insert_consistent(es: Seq<(Seq<char>, CommandView)>, c: CommandView)
    requires
        keys_consistent(es),
    ensures
        keys_consistent(keyed_insert(es, aggregated_key(c), c)),
{
    let r = keyed_insert(es, aggregated_key(c), c);
    let k = aggregated_key(c);
    assert forall|i: int| 0 <= i < r.len() implies (#[trigger] r[i]).0 == aggregated_key(r[i].1) by {
        if crate::keyed::has_key(es, k) {
            crate::keyed::lemma_first_key_exists(es, k);
            let w = crate::keyed::key_index(es, k);
            if i == w {
                assert(r[i] == (k, c));
            } else {
                assert(r[i] == es[i]);
            }
        } else {
            if i < es.len() {
                assert(r[i] == es[i]);
            } else {
                assert(r[i] == (k, c));
            }
        }
    }
}

proof fn lemma_module_commands_consistent(
    es: Seq<(Seq<char>, CommandView)>,
    cmds: Seq<CommandView>,
    module_prefix: Option<Seq<char>>,
    global_prefix: Option<Seq<char>>,
)
    requires
        keys_consistent(es),
    ensures
        keys_consistent(module_commands_into(es, cmds, module_prefix, global_prefix)),
    decreases cmds.len(),
{
    if cmds.len() > 0 {
        lemma_module_commands_consistent(es, cmds.drop_last(), module_prefix, global_prefix);
        lemma_insert_consistent(
            module_commands_into(es, cmds.drop_last(), module_prefix, global_prefix),
            with_prefixes(cmds.last(), module_prefix, global_prefix),
        );
    }
}

/// Aggregation keeps the table keyed by full name: when every entry is
/// keyed by its command's full name, it still is after the commands of
/// any modules are put in.
pub proof fn lemma_aggregation_keys_consistent(
    es: Seq<(Seq<char>, CommandView)>,
    modules: Seq<ModuleConfig>,
    parsed: Seq<(Seq<char>, Seq<CommandView>)>,
    global_prefix: Option<Seq<char>>,
)
    requires
        keys_consistent(es),
    ensures
        keys_consistent(modules_into(es, modules, parsed, global_prefix)),
    decreases modules.len(),
{
    if modules.len() > 0 {
        lemma_aggregation_keys_consistent(es, modules.drop_last(), parsed, global_prefix);
        let m = modules.last();
        if m.enabled && key_value(parsed, m.name@) is Some {
            lemma_module_commands_consistent(
                modules_into(es, modules.drop_last(), parsed, global_prefix),
                key_value(parsed, m.name@)->0,
                opt_view(m.prefix),
                global_prefix,
            );
        }
    }
}

/// The lookup of a module's commands by name agrees with the views.
proof fn lemma_parsed_lookup(p: Seq<(String, Vec<CommandDefinition>)>, k: Seq<char>)
    ensures
        key_value(entries_view(p), k) is Some <==> key_value(parsed_view(p), k) is Some,
        key_value(entries_view(p), k) is Some ==> (key_value(entries_view(p), k)->0).map_values(
            |c: CommandDefinition| c@) == key_value(parsed_view(p), k)->0,
{
    let ev = entries_view(p);
    let pv = parsed_view(p);
    assert(forall|i: int| 0 <= i < p.len() ==> ev[i].0 == #[trigger] pv[i].0);
    if crate::keyed::has_key(ev, k) {
        crate::keyed::lemma_first_key_exists(ev, k);
        let i = crate::keyed::key_index(ev, k);
        assert(crate::keyed::first_key_at(ev, k, i));
        assert(crate::keyed::first_key_at(pv, k, i));
        crate::keyed::lemma_first_key_unique(pv, k, i);
    } else {
        if crate::keyed::has_key(pv, k) {
            let i = choose|i: int| 0 <= i < pv.len() && pv[i].0 == k;
            assert(ev[i].0 == k);
        }
    }
}

/// The settings that crate metadata gives: manifests under `commands`,
/// the `math` module (`math.yaml`, prefix `math`) and the `utils` module
/// (`tests/test_data/utils.yaml`, prefix `util`), both enabled, and
/// defaults otherwise.
pub open spec fn is_metadata_config(c: AggregationConfig) -> bool {
    &&& c.base_dir@ == "commands"@
    &&& c.modules@.len() == 2
    &&& c.modules@[0].name@ == "math"@
    &&& c.modules@[0].yaml_path@ == "math.yaml"@
    &&& opt_view(c.modules@[0].prefix) == Some("math"@)
    &&& c.modules@[0].enabled
    &&& c.modules@[1].name@ == "utils"@
    &&& c.modules@[1].yaml_path@ == "tests/test_data/utils.yaml"@
    &&& opt_view(c.modules@[1].prefix) == Some("util"@)
    &&& c.modules@[1].enabled
    &&& c.global_prefix is None
    &&& !c.detect_conflicts
    &&& c.env_overrides@.len() == 0
    &&& c.conflict_resolution == ConflictResolutionStrategy::Fail
    &&& !c.auto_discovery
    &&& c.discovery_patterns@.len() == 0
    &&& c.namespace_isolation.enabled && c.namespace_isolation.separator@ == "."@
    &&& !c.namespace_isolation.strict_mode
}

fn module_config(name: &str, yaml_path: &str, prefix: &str) -> (r: ModuleConfig)
    ensures
        r.name@ == name@,
        r.yaml_path@ == yaml_path@,
        opt_view(r.prefix) == Some(prefix@),
        r.enabled,
{
    ModuleConfig { name: owned(name), yaml_path: owned(yaml_path), prefix: Some(owned(prefix)), enabled: true }
}

/// The aggregation settings of a crate manifest. The manifest itself is
/// not read: the settings are fixed (see `is_metadata_config`), and the
/// result is always `Ok`.
pub fn parse_cargo_metadata(cargo_toml_path: &str) -> (r: Result<AggregationConfig, Error>)
    ensures
        r is Ok,
        is_metadata_config(r->Ok_0),
{
    let mut config = AggregationConfig::default();
    config.base_dir = owned("commands");
    let mut modules: Vec<ModuleConfig> = Vec::new();
    modules.push(module_config("math", "math.yaml", "math"));
    modules.push(module_config("utils", "tests/test_data/utils.yaml", "util"));
    config.modules = modules;
    Ok(config)
}

/// Setting overrides taken from environment variables.
#[derive(Debug)]
pub struct EnvConfigParser {
    overrides: Vec<(String, String)>,
}

/// The overrides after the variables whose names start with `prefix`
/// are put in, in order.
pub open spec fn prefixed_into(
    es: Seq<(Seq<char>, Seq<char>)>,
    vars: Seq<(Seq<char>, Seq<char>)>,
    prefix: Seq<char>,
) -> Seq<(Seq<char>, Seq<char>)>
    decreases vars.len(),
{
    if vars.len() == 0 {
        es
    } else {
        let prev = prefixed_into(es, vars.drop_last(), prefix);
        let v = vars.last();
        if starts_with(v.0, prefix) { keyed_insert(prev, v.0, v.1) } else { prev }
    }
}

/// A flag setting: `false` turns it off; `true`, and any text that is not
/// a boolean, turns it on.
pub open spec fn flag_setting(v: Seq<char>) -> bool {
    v != "false"@
}

/// The name of a module's override variable: `UNILANG_MODULE_`, the module
/// name upper-cased, and the suffix.
pub open spec fn module_key(name: Seq<char>, suffix: Seq<char>) -> Seq<char> {
    "UNILANG_MODULE_"@ + uppercase_text(name) + suffix
}

/// A module's settings after the overrides: `_ENABLED` sets whether it is
/// enabled, `_PREFIX` its prefix (none when empty); the rest is kept.
pub open spec fn module_overridden(ov: Seq<(Seq<char>, Seq<char>)>, before: ModuleConfig, after: ModuleConfig) -> bool {
    &&& after.name == before.name
    &&& after.yaml_path == before.yaml_path
    &&& after.enabled == match key_value(ov, module_key(before.name@, "_ENABLED"@)) {
        Some(v) => flag_setting(v),
        None => before.enabled,
    }
    &&& opt_view(after.prefix) == match key_value(ov, module_key(before.name@, "_PREFIX"@)) {
        Some(v) => if v.len() == 0 { None } else { Some(v) },
        None => opt_view(before.prefix),
    }
}

fn module_key_exec(name: &str, suffix: &str) -> (r: String)
    ensures
        r@ == module_key(name@, suffix@),
{
    let mut k = owned("UNILANG_MODULE_");
    push_str(&mut k, to_uppercase(name).as_str());
    push_str(&mut k, suffix);
    k
}

impl EnvConfigParser {
    /// The overrides, by variable name.
    pub closed spec fn overrides_view(&self) -> Seq<(Seq<char>, Seq<char>)> {
        entries_view(self.overrides@)
    }

    /// A parser with no overrides.
    pub fn new() -> (r: Self)
        ensures
            r.overrides_view().len() == 0,
    {
        let r = EnvConfigParser { overrides: Vec::new() };
        assert(entries_view(r.overrides@) =~= Seq::<(Seq<char>, Seq<char>)>::empty());
        r
    }

    /// Takes, from the given environment variables (name and value), those
    /// whose names start with `prefix`, in order; a later value replaces an
    /// earlier one under the same name.
    pub fn parse_with_prefix(&mut self, prefix: &str, vars: &Vec<(String, String)>) -> (r: Result<(), Error>)
        ensures
            r is Ok,
            final(self).overrides_view() == prefixed_into(old(self).overrides_view(), entries_view(vars@), prefix@),
    {
        let ghost start = entries_view(self.overrides@);
        let ghost vv = entries_view(vars@);
        let p = chars_of(prefix);
        let mut i: usize = 0;
        while i < vars.len()
            invariant
                i <= vars@.len(),
                vv == entries_view(vars@),
                p@ == prefix@,
                start == entries_view(old(self).overrides@),
                entries_view(self.overrides@) == prefixed_into(start, vv.take(i as int), prefix@),
            decreases vars@.len() - i,
        {
            assert(vv.take(i as int + 1).drop_last() =~= vv.take(i as int));
            if starts_with_exec(&chars_of(vars[i].0.as_str()), &p) {
                insert_keyed(&mut self.overrides, vars[i].0.clone(), vars[i].1.clone());
            }
            i = i + 1;
        }
        assert(vv.take(vars@.len() as int) =~= vv);
        Ok(())
    }

    /// Applies the overrides to the settings: `UNILANG_GLOBAL_PREFIX` sets
    /// the global prefix, `UNILANG_DETECT_CONFLICTS` conflict detection
    /// (see `flag_setting`), and each module's own variables its settings
    /// (see `module_overridden`); everything else is kept.
    pub fn apply_to_config(&self, config: &mut AggregationConfig)
        ensures
            opt_view(final(config).global_prefix) == match key_value(self.overrides_view(), "UNILANG_GLOBAL_PREFIX"@) {
                Some(v) => Some(v),
                None => opt_view(old(config).global_prefix),
            },
            final(config).detect_conflicts == match key_value(self.overrides_view(), "UNILANG_DETECT_CONFLICTS"@) {
                Some(v) => flag_setting(v),
                None => old(config).detect_conflicts,
            },
            final(config).modules@.len() == old(config).modules@.len(),
            forall|i: int| 0 <= i < old(config).modules@.len() ==> module_overridden(
                self.overrides_view(), #[trigger] old(config).modules@[i], final(config).modules@[i]),
            final(config).base_dir == old(config).base_dir,
            final(config).env_overrides == old(config).env_overrides,
            final(config).conflict_resolution == old(config).conflict_resolution,
            final(config).auto_discovery == old(config).auto_discovery,
            final(config).discovery_patterns == old(config).discovery_patterns,
            final(config).namespace_isolation == old(config).namespace_isolation,
    {
        let ghost ov = entries_view(self.overrides@);
        match get_keyed(&self.overrides, "UNILANG_GLOBAL_PREFIX") {
            Some(v) => {
                config.global_prefix = Some(v.clone());
            },
            None => {},
        }
        match get_keyed(&self.overrides, "UNILANG_DETECT_CONFLICTS") {
            Some(v) => {
                config.detect_conflicts = !str_eq(v.as_str(), "false");
            },
            None => {},
        }
        let ghost mods = config.modules@;
        let ghost c1 = *config;
        let mut i: usize = 0;
        while i < config.modules.len()
            invariant
                i <= mods.len(),
                config.global_prefix == c1.global_prefix,
                config.detect_conflicts == c1.detect_conflicts,
                config.base_dir == c1.base_dir,
                config.env_overrides == c1.env_overrides,
                config.conflict_resolution == c1.conflict_resolution,
                config.auto_discovery == c1.auto_discovery,
                config.discovery_patterns == c1.discovery_patterns,
                config.namespace_isolation == c1.namespace_isolation,
                config.modules@.len() == mods.len(),
                ov == entries_view(self.overrides@),
                forall|j: int| 0 <= j < i ==> module_overridden(ov, #[trigger] mods[j], config.modules@[j]),
                forall|j: int| i <= j < mods.len() ==> #[trigger] config.modules@[j] == mods[j],
            decreases mods.len() - i,
        {
            let mut m = config.modules[i].clone();
            let ghost before = m;
            match get_keyed(&self.overrides, module_key_exec(m.name.as_str(), "_ENABLED").as_str()) {
                Some(v) => {
                    m.enabled = !str_eq(v.as_str(), "false");
                },
                None => {},
            }
            match get_keyed(&self.overrides, module_key_exec(m.name.as_str(), "_PREFIX").as_str()) {
                Some(v) => {
                    m.prefix = if v.unicode_len() == 0 { None } else { Some(v.clone()) };
                },
                None => {},
            }
            assert(module_overridden(ov, before, m));
            config.modules.set(i, m);
            i = i + 1;
        }
    }
}

impl Default for EnvConfigParser {
    /// A parser with no overrides.
    fn default() -> (r: Self)
        ensures
            r.overrides_view().len() == 0,
    {
        EnvConfigParser::new()
    }
}

/// A command of the root namespace with the given name, description and
/// hint, active, at version `1.0.0`.
pub open spec fn plain_command(name: Seq<char>, description: Seq<char>, hint: Seq<char>) -> CommandView {
    CommandView { hint: hint, ..fresh_command(name, description) }
}

fn plain_command_exec(name: &str, description: &str, hint: &str) -> (r: CommandDefinition)
    requires
        name@.len() > 0 && name@[0] == '.',
    ensures
        r@ == plain_command(name@, description@, hint@),
{
    proof {
        reveal_strlit("1.0.0");
    }
    let n = match CommandName::new(name) {
        Ok(n) => n,
        Err(_) => {
            assert(false);
            return CommandDefinition::new(CommandName::new(".").unwrap(), owned(description));
        },
    };
    let v = VersionType::new("1.0.0").unwrap();
    CommandDefinition::new(n, owned(description))
        .with_namespace(String::new())
        .with_hint(hint)
        .with_status(CommandStatus::Active)
        .with_version(v)
}

/// The aggregation of a single static module `core` holding the
/// `.version` command ("Show version information", hint "Version info"),
/// in static mode: registered in hybrid mode, that one command.
pub fn aggregate_cli_simple() -> (r: CliRegistration)
    ensures
        r.mode == RegistryMode::Hybrid,
        cmds_view(r.commands@) == seq![plain_command(".version"@, "Show version information"@, "Version info"@)],
{
    proof {
        reveal_strlit(".version");
    }
    let mut cmds: Vec<CommandDefinition> = Vec::new();
    cmds.push(plain_command_exec(".version", "Show version information", "Version info"));
    assert(cmds_view(cmds@) =~= seq![plain_command(".version"@, "Show version information"@, "Version info"@)]);
    let b = CliBuilder::new().mode(AggregationMode::Static).static_module("core", cmds);
    let ghost c = plain_command(".version"@, "Show version information"@, "Version info"@);
    let ghost m = ModuleView { name: "core"@, commands: seq![c], prefix: None, enabled: true };
    assert(b@.static_modules =~= seq![m]);
    assert(b@.dynamic_modules.len() == 0);
    assert(b@.conditional_modules.len() == 0);
    let loaded: Vec<Vec<CommandDefinition>> = Vec::new();
    let r = b.build(&loaded);
    proof {
        let mods = seq![m];
        assert(mods.drop_last() =~= Seq::<ModuleView>::empty());
        assert(m.commands.map_values(|x: CommandView| with_prefixes(x, m.prefix, None)) =~= seq![c]);
        assert(static_registrations(Seq::<ModuleView>::empty(), None) =~= Seq::<CommandView>::empty());
        assert(mods.last() == m);
        assert(static_registrations(mods, None) =~= seq![c]);
        assert(loaded@.map_values(|v: Vec<CommandDefinition>| cmds_view(v@)) =~= Seq::<Seq<CommandView>>::empty());
    }
    r
}

/// The aggregation of an application `myapp` under the global prefix
/// `myapp`, in hybrid mode: the static module `core` with the `.version`
/// command under the prefix `core`, the module `utils` read from
/// `tests/test_data/utils.yaml` under the prefix `util` (its commands,
/// as read, are `utils_commands`), and the module `advanced` with a
/// `.debug` command when the feature `test_feature` is on, which it is
/// not. Registered in hybrid mode: the prefixed `.version` command, then
/// the `utils` commands as a dynamic module registers them.
pub fn aggregate_cli_complex(utils_commands: Vec<CommandDefinition>) -> (r: CliRegistration)
    ensures
        r.mode == RegistryMode::Hybrid,
        cmds_view(r.commands@) == seq![with_prefixes(
            plain_command(".version"@, "Show version"@, "Show version"@), Some("core"@), Some("myapp"@))]
            + loaded_registrations(cmds_view(utils_commands@), Some("util"@), Some("myapp"@)),
{
    proof {
        reveal_strlit(".version");
        reveal_strlit(".debug");
    }
    let ghost uv = cmds_view(utils_commands@);
    let mut core_cmds: Vec<CommandDefinition> = Vec::new();
    core_cmds.push(plain_command_exec(".version", "Show version", "Show version"));
    let mut advanced_cmds: Vec<CommandDefinition> = Vec::new();
    advanced_cmds.push(plain_command_exec(".debug", "Debug mode", "Debug mode"));
    assert(cmds_view(core_cmds@) =~= seq![plain_command(".version"@, "Show version"@, "Show version"@)]);
    assert(cmds_view(advanced_cmds@) =~= seq![plain_command(".debug"@, "Debug mode"@, "Debug mode"@)]);
    let b = CliBuilder::new()
        .mode(AggregationMode::Hybrid)
        .app_name("myapp")
        .global_prefix("myapp")
        .static_module_with_prefix("core", "core", core_cmds)
        .dynamic_module_with_prefix("utils", owned("tests/test_data/utils.yaml"), "util")
        .conditional_module("advanced", "test_feature", advanced_cmds);
    let ghost c = plain_command(".version"@, "Show version"@, "Show version"@);
    let ghost d = plain_command(".debug"@, "Debug mode"@, "Debug mode"@);
    let ghost m = ModuleView { name: "core"@, commands: seq![c], prefix: Some("core"@), enabled: true };
    let ghost g = Some("myapp"@);
    assert(b@.static_modules =~= seq![m]);
    assert(b@.dynamic_modules =~= seq![("utils"@, "tests/test_data/utils.yaml"@, Some("util"@), true)]);
    assert(b@.conditional_modules =~= seq![("advanced"@, "test_feature"@, seq![d])]);
    assert(b@.features.len() == 0);
    let mut loaded: Vec<Vec<CommandDefinition>> = Vec::new();
    loaded.push(utils_commands);
    let r = b.build(&loaded);
    proof {
        let mods = seq![m];
        assert(mods.drop_last() =~= Seq::<ModuleView>::empty());
        assert(m.commands.map_values(|x: CommandView| with_prefixes(x, m.prefix, g)) =~= seq![with_prefixes(c, m.prefix, g)]);
        assert(static_registrations(Seq::<ModuleView>::empty(), g) =~= Seq::<CommandView>::empty());
        assert(mods.last() == m);
        assert(static_registrations(mods, g) =~= seq![with_prefixes(c, Some("core"@), g)]);
        let lv = loaded@.map_values(|v: Vec<CommandDefinition>| cmds_view(v@));
        assert(lv =~= seq![uv]);
        let dm = seq![("utils"@, "tests/test_data/utils.yaml"@, Some("util"@), true)];
        assert(dm.drop_last() =~= Seq::<(Seq<char>, Seq<char>, Option<Seq<char>>, bool)>::empty());
        assert(lv.drop_last() =~= Seq::<Seq<CommandView>>::empty());
        assert(dynamic_registrations(Seq::<(Seq<char>, Seq<char>, Option<Seq<char>>, bool)>::empty(),
            Seq::<Seq<CommandView>>::empty(), g) =~= Seq::<CommandView>::empty());
        assert(lv.last() == uv);
        assert(dynamic_registrations(dm, lv, g) =~= loaded_registrations(uv, Some("util"@), g));
        let cm = seq![("advanced"@, "test_feature"@, seq![d])];
        assert(cm.drop_last() =~= Seq::<(Seq<char>, Seq<char>, Seq<CommandView>)>::empty());
        assert(!feature_on(Seq::<Seq<char>>::empty(), "test_feature"@));
        assert(conditional_registrations(Seq::<(Seq<char>, Seq<char>, Seq<CommandView>)>::empty(),
            Seq::<Seq<char>>::empty(), g) =~= Seq::<CommandView>::empty());
        assert(cm.last().1 == "test_feature"@);
        assert(conditional_registrations(cm, Seq::<Seq<char>>::empty(), g) =~= Seq::<CommandView>::empty());
    }
    assert(cmds_view(r.commands@) =~= seq![with_prefixes(c, Some("core"@), g)]
        + loaded_registrations(uv, Some("util"@), g));
    r
}

} // verus!
