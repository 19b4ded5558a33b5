//! Configuration and reports of multi-module aggregation.

use vstd::prelude::*;
use crate::text::{ owned, str_eq };

verus! {

broadcast use vstd::string::group_string_axioms;

/// How clashing commands from different modules are resolved.
#[derive(Debug, Clone, Copy, PartialEq, Eq, Structural)]
pub enum ConflictResolutionStrategy {
    /// Stop with an error.
    Fail,
    /// Keep the first definition.
    UseFirst,
    /// Keep the last definition.
    UseLast,
    /// Merge the definitions.
    Merge,
}

impl Default for ConflictResolutionStrategy {
    fn default() -> (r: Self)
        ensures
            r == ConflictResolutionStrategy::Fail,
    {
        ConflictResolutionStrategy::Fail
    }
}

/// Whether module namespaces are kept apart, and how.
#[derive(Debug)]
pub struct NamespaceIsolation {
    pub enabled: bool,
    pub separator: String,
    pub strict_mode: bool,
}

impl Default for NamespaceIsolation {
    /// Isolation on, with `.` as separator, not strict.
    fn default() -> (r: Self)
        ensures
            r.enabled && r.separator@ == "."@ && !r.strict_mode,
    {
        NamespaceIsolation { enabled: true, separator: owned("."), strict_mode: false }
    }
}

/// One module of an aggregation: its name, manifest path, optional prefix
/// and whether it is enabled.
#[derive(Debug)]
pub struct ModuleConfig {
    pub name: String,
    pub yaml_path: String,
    pub prefix: Option<String>,
    pub enabled: bool,
}

impl Clone for ModuleConfig {
    fn clone(&self) -> (r: Self)
        ensures
            r == *self,
    {
        ModuleConfig {
            name: self.name.clone(),
            yaml_path: self.yaml_path.clone(),
            prefix: crate::data::command_status::clone_opt_string(&self.prefix),
            enabled: self.enabled,
        }
    }
}

/// What kind of clash a report describes.
#[derive(Debug, Clone, Copy, PartialEq, Eq, Structural)]
pub enum ConflictType {
    /// Several modules define the same command name.
    NameCollision,
    /// Definitions of one name disagree in their arguments.
    SignatureMismatch,
    /// Module prefixes clash.
    PrefixConflict,
}

/// A clash between modules over a command name.
#[derive(Debug)]
pub struct ConflictReport {
    pub command_name: String,
    pub modules: Vec<String>,
    pub conflict_type: ConflictType,
}

/// The value of a conflict report: the name, the modules in order, the kind.
pub open spec fn report_view(r: ConflictReport) -> (Seq<char>, Seq<Seq<char>>, ConflictType) {
    (r.command_name@, r.modules@.map_values(|m: String| m@), r.conflict_type)
}

/// The settings of an aggregation.
#[derive(Debug)]
pub struct AggregationConfig {
    /// Directory that module manifest paths are relative to.
    pub base_dir: String,
    pub modules: Vec<ModuleConfig>,
    pub global_prefix: Option<String>,
    pub detect_conflicts: bool,
    /// Setting overrides, as key and value.
    pub env_overrides: Vec<(String, String)>,
    pub conflict_resolution: ConflictResolutionStrategy,
    pub auto_discovery: bool,
    pub discovery_patterns: Vec<String>,
    pub namespace_isolation: NamespaceIsolation,
}

impl Default for AggregationConfig {
    /// No modules, no prefix, no conflict detection, failing on conflicts,
    /// no discovery, default namespace isolation.
    fn default() -> (r: Self)
        ensures
            r.base_dir@.len() == 0,
            r.modules@.len() == 0,
            r.global_prefix is None,
            !r.detect_conflicts,
            r.env_overrides@.len() == 0,
            r.conflict_resolution == ConflictResolutionStrategy::Fail,
            !r.auto_discovery,
            r.discovery_patterns@.len() == 0,
            r.namespace_isolation.enabled && r.namespace_isolation.separator@ == "."@
                && !r.namespace_isolation.strict_mode,
    {
        AggregationConfig {
            base_dir: String::new(),
            modules: Vec::new(),
            global_prefix: None,
            detect_conflicts: false,
            env_overrides: Vec::new(),
            conflict_resolution: ConflictResolutionStrategy::Fail,
            auto_discovery: false,
            discovery_patterns: Vec::new(),
            namespace_isolation: NamespaceIsolation::default(),
        }
    }
}

} // verus!
