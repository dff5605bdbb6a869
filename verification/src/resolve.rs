//! Resolution of a layered configuration record.
//!
//! A raw record is merged with its parent field by field, its include and
//! exclude glob patterns are aggregated into sets and expanded into concrete
//! match paths, and its filter fields are compiled once; the result is an
//! immutable configuration that can decide whether it applies to the
//! currently active application.

use vstd::prelude::*;

use crate::filters::{regex_compiles, regex_matches, CompiledFilter};
use crate::paths::{
    calculate_paths, distinct_strings, insert_unique, insert_unique_all, parent_dir, parent_of,
    path_difference,
};
use crate::record::{clone_opt_string, clone_opt_string_vec, ConfigView, ParsedConfig};
use crate::{STANDARD_EXCLUDE, STANDARD_INCLUDE};

verus! {

/// Why a configuration could not be resolved.
#[derive(Debug)]
pub enum ResolveError {
    /// The configuration file path has no parent directory.
    ParentResolveFailed,
    /// A filter field holds an invalid regular expression; the underlying
    /// compiler error is carried along.
    PatternCompileFailed(regex::Error),
}

/// The runtime-observed properties of the currently active application.
pub struct AppProperties<'a> {
    pub title: Option<&'a str>,
    pub class: Option<&'a str>,
    pub exec_name: Option<&'a str>,
}

/// Mathematical image of the application properties.
pub ghost struct AppView {
    pub title: Option<Seq<char>>,
    pub class: Option<Seq<char>>,
    pub exec_name: Option<Seq<char>>,
}

impl<'a> View for AppProperties<'a> {
    type V = AppView;

    open spec fn view(&self) -> AppView {
        AppView {
            title: self.title.deep_view(),
            class: self.class.deep_view(),
            exec_name: self.exec_name.deep_view(),
        }
    }
}

/// Field-wise inheritance: the child keeps every field it has; an absent
/// field is taken from the parent.
pub open spec fn spec_merge(child: ConfigView, parent: ConfigView) -> ConfigView {
    ConfigView {
        label: if child.label is Some {
            child.label
        } else {
            parent.label
        },
        includes: if child.includes is Some {
            child.includes
        } else {
            parent.includes
        },
        excludes: if child.excludes is Some {
            child.excludes
        } else {
            parent.excludes
        },
        extra_includes: if child.extra_includes is Some {
            child.extra_includes
        } else {
            parent.extra_includes
        },
        extra_excludes: if child.extra_excludes is Some {
            child.extra_excludes
        } else {
            parent.extra_excludes
        },
        use_standard_includes: if child.use_standard_includes is Some {
            child.use_standard_includes
        } else {
            parent.use_standard_includes
        },
        filter_title: if child.filter_title is Some {
            child.filter_title
        } else {
            parent.filter_title
        },
        filter_class: if child.filter_class is Some {
            child.filter_class
        } else {
            parent.filter_class
        },
        filter_exec: if child.filter_exec is Some {
            child.filter_exec
        } else {
            parent.filter_exec
        },
        filter_os: if child.filter_os is Some {
            child.filter_os
        } else {
            parent.filter_os
        },
    }
}

/// Whether the standard include and exclude patterns are seeded: the
/// tri-state field counts as true when absent.
pub open spec fn spec_use_standard(c: ConfigView) -> bool {
    c.use_standard_includes is None || c.use_standard_includes == Some(true)
}

/// The set of strings an optional pattern list contributes.
pub open spec fn opt_pattern_set(v: Option<Seq<Seq<char>>>) -> Set<Seq<char>> {
    match v {
        None => Set::empty(),
        Some(s) => s.to_set(),
    }
}

/// The effective include-pattern set: the standard pattern unless disabled,
/// every declared include, and every extra include unconditionally.
pub open spec fn spec_aggregate_includes(c: ConfigView) -> Set<Seq<char>> {
    (if spec_use_standard(c) {
        Set::empty().insert(STANDARD_INCLUDE@)
    } else {
        Set::empty()
    }).union(opt_pattern_set(c.includes)).union(opt_pattern_set(c.extra_includes))
}

/// The effective exclude-pattern set: the standard pattern unless disabled,
/// every declared exclude, and every extra exclude unconditionally.
pub open spec fn spec_aggregate_excludes(c: ConfigView) -> Set<Seq<char>> {
    (if spec_use_standard(c) {
        Set::empty().insert(STANDARD_EXCLUDE@)
    } else {
        Set::empty()
    }).union(opt_pattern_set(c.excludes)).union(opt_pattern_set(c.extra_excludes))
}

/// Whether every present filter field compiles.
pub open spec fn filters_compile(c: ConfigView) -> bool {
    &&& (c.filter_title matches Some(p) ==> regex_compiles(p))
    &&& (c.filter_class matches Some(p) ==> regex_compiles(p))
    &&& (c.filter_exec matches Some(p) ==> regex_compiles(p))
}

/// Whether one declared textual filter accepts the corresponding runtime
/// property: an absent filter is vacuously satisfied, while a declared
/// filter with an absent property fails.
pub open spec fn filter_accepts(pattern: Option<Seq<char>>, prop: Option<Seq<char>>) -> bool {
    match pattern {
        None => true,
        Some(p) => match prop {
            None => false,
            Some(t) => regex_matches(p, t),
        },
    }
}

/// Whether a declared operating-system identifier names the active one:
/// it must be one of the known identifiers and equal the active one.
pub open spec fn spec_os_accepts(declared: Seq<char>, active: Seq<char>) -> bool {
    declared == active && (declared == "windows"@ || declared == "macos"@ || declared
        == "linux"@)
}

/// Mathematical image of a resolved configuration.
pub ghost struct ResolvedView {
    pub parsed: ConfigView,
    pub match_paths: Seq<Seq<char>>,
    pub active_os: Seq<char>,
}

/// The context predicate: a record with no filter at all never matches;
/// otherwise every declared filter must hold.
pub open spec fn spec_is_match(c: ResolvedView, app: AppView) -> bool {
    if c.parsed.filter_os is None && c.parsed.filter_title is None && c.parsed.filter_exec
        is None && c.parsed.filter_class is None {
        false
    } else {
        &&& match c.parsed.filter_os {
            None => true,
            Some(o) => spec_os_accepts(o, c.active_os),
        }
        &&& filter_accepts(c.parsed.filter_title, app.title)
        &&& filter_accepts(c.parsed.filter_exec, app.exec_name)
        &&& filter_accepts(c.parsed.filter_class, app.class)
    }
}

/// The merged label, with a fixed sentinel for an absent one.
pub open spec fn spec_label(c: ConfigView) -> Seq<char> {
    match c.label {
        Some(l) => l,
        None => "none"@,
    }
}

/// Exact equality of two string slices.
fn str_eq(a: &str, b: &str) -> (r: bool)
    ensures
        r == (a@ == b@),
{
    let x: String = a.to_owned();
    let y: String = b.to_owned();
    x == y
}

/// Whether the declared operating-system identifier names the active one.
fn os_matches(declared: &str, active: &str) -> (r: bool)
    ensures
        r == spec_os_accepts(declared@, active@),
{
    let known = str_eq(declared, "windows") || str_eq(declared, "macos") || str_eq(
        declared,
        "linux",
    );
    str_eq(declared, active) && known
}

/// The record a load resolves: the given one, merged over the parent's
/// stored record when a parent is supplied.
pub open spec fn spec_merged(child: ConfigView, parent: Option<&ResolvedConfig>) -> ConfigView {
    match parent {
        None => child,
        Some(p) => spec_merge(child, p@.parsed),
    }
}

/// A fully materialized configuration: the merged record, the concrete
/// match paths, and the compiled filters. Immutable once constructed.
#[derive(Debug)]
pub struct ResolvedConfig {
    parsed: ParsedConfig,
    match_paths: Vec<String>,
    filter_title: Option<CompiledFilter>,
    filter_class: Option<CompiledFilter>,
    filter_exec: Option<CompiledFilter>,
    active_os: String,
}

impl View for ResolvedConfig {
    type V = ResolvedView;

    closed spec fn view(&self) -> ResolvedView {
        ResolvedView {
            parsed: self.parsed@,
            match_paths: self.match_paths.deep_view(),
            active_os: self.active_os@,
        }
    }
}

impl ResolvedConfig {
    /// Each compiled filter is exactly the compilation of the corresponding
    /// record field, and the match paths form a set.
    #[verifier::type_invariant]
    closed spec fn wf(self) -> bool {
        &&& match self.parsed@.filter_title {
            Some(p) => self.filter_title matches Some(f) && f.source_view() == p,
            None => self.filter_title is None,
        }
        &&& match self.parsed@.filter_class {
            Some(p) => self.filter_class matches Some(f) && f.source_view() == p,
            None => self.filter_class is None,
        }
        &&& match self.parsed@.filter_exec {
            Some(p) => self.filter_exec matches Some(f) && f.source_view() == p,
            None => self.filter_exec is None,
        }
        &&& distinct_strings(self.match_paths.deep_view())
    }

    /// The merged label, defaulting to a fixed sentinel when absent.
    pub fn label(&self) -> (r: &str)
        ensures
            r@ == spec_label(self@.parsed),
    {
        match &self.parsed.label {
            Some(l) => l.as_str(),
            None => "none",
        }
    }

    /// The resolved, deduplicated match-rule file paths. Their order carries
    /// no meaning; only value equality does.
    pub fn match_paths(&self) -> (r: &Vec<String>)
        ensures
            r.deep_view() == self@.match_paths,
            distinct_strings(r.deep_view()),
    {
        proof {
            use_type_invariant(self);
        }
        &self.match_paths
    }

    /// Whether this configuration applies to the given application context.
    pub fn is_match(&self, app: &AppProperties) -> (r: bool)
        ensures
            r == spec_is_match(self@, app@),
    {
        proof {
            use_type_invariant(self);
        }
        if self.parsed.filter_os.is_none() && self.parsed.filter_title.is_none()
            && self.parsed.filter_exec.is_none() && self.parsed.filter_class.is_none() {
            return false;
        }
        let is_os_match = match &self.parsed.filter_os {
            Some(filter_os) => os_matches(filter_os.as_str(), self.active_os.as_str()),
            None => true,
        };
        let is_title_match = match &self.filter_title {
            Some(title_regex) => match app.title {
                Some(title) => title_regex.matches(title),
                None => false,
            },
            None => true,
        };
        let is_exec_match = match &self.filter_exec {
            Some(exec_regex) => match app.exec_name {
                Some(exec) => exec_regex.matches(exec),
                None => false,
            },
            None => true,
        };
        let is_class_match = match &self.filter_class {
            Some(class_regex) => match app.class {
                Some(class) => class_regex.matches(class),
                None => false,
            },
            None => true,
        };
        is_os_match && is_exec_match && is_title_match && is_class_match
    }

    /// Resolves a record against its parent and surroundings: merge, pattern
    /// aggregation, glob expansion, filter compilation. `path` is where the
    /// record came from (patterns are expanded relative to its directory)
    /// and `active_os` identifies the running operating system. Fails
    /// exactly when the path has no parent directory or a present filter
    /// field does not compile.
    pub fn load(
        parsed: ParsedConfig,
        path: &str,
        active_os: &str,
        parent: Option<&ResolvedConfig>,
    ) -> (r: Result<ResolvedConfig, ResolveError>)
        ensures
            r is Err <==> (parent_of(path@) is None || !filters_compile(
                spec_merged(parsed@, parent),
            )),
            r matches Err(e) ==> ((e is ParentResolveFailed) <==> parent_of(path@) is None),
            r matches Err(e) ==> ((e is PatternCompileFailed) <==> (parent_of(path@) is Some
                && !filters_compile(spec_merged(parsed@, parent)))),
            r matches Ok(c) ==> c@.parsed == spec_merged(parsed@, parent),
            r matches Ok(c) ==> c@.active_os == active_os@,
            r matches Ok(c) ==> distinct_strings(c@.match_paths),
    {
        let mut config = parsed;
        if let Some(parent_config) = parent {
            Self::merge_parsed(&mut config, &parent_config.parsed);
        }
        let base_dir = match parent_dir(path) {
            Some(dir) => dir,
            None => {
                return Err(ResolveError::ParentResolveFailed);
            },
        };
        let match_paths = Self::generate_match_paths(&config, base_dir.as_str());
        let filter_title = match &config.filter_title {
            Some(source) => match CompiledFilter::compile(source.as_str()) {
                Ok(f) => Some(f),
                Err(e) => {
                    return Err(ResolveError::PatternCompileFailed(e));
                },
            },
            None => None,
        };
        let filter_class = match &config.filter_class {
            Some(source) => match CompiledFilter::compile(source.as_str()) {
                Ok(f) => Some(f),
                Err(e) => {
                    return Err(ResolveError::PatternCompileFailed(e));
                },
            },
            None => None,
        };
        let filter_exec = match &config.filter_exec {
            Some(source) => match CompiledFilter::compile(source.as_str()) {
                Ok(f) => Some(f),
                Err(e) => {
                    return Err(ResolveError::PatternCompileFailed(e));
                },
            },
            None => None,
        };
        Ok(
            ResolvedConfig {
                parsed: config,
                match_paths,
                filter_title,
                filter_class,
                filter_exec,
                active_os: active_os.to_owned(),
            },
        )
    }

    /// Field-wise inheritance merge: every absent field of `child` is filled
    /// from `parent`; a present field is never overridden.
    pub fn merge_parsed(child: &mut ParsedConfig, parent: &ParsedConfig)
        ensures
            final(child)@ == spec_merge(old(child)@, parent@),
    {
        if child.label.is_none() {
            child.label = clone_opt_string(&parent.label);
        }
        if child.includes.is_none() {
            child.includes = clone_opt_string_vec(&parent.includes);
        }
        if child.excludes.is_none() {
            child.excludes = clone_opt_string_vec(&parent.excludes);
        }
        if child.extra_includes.is_none() {
            child.extra_includes = clone_opt_string_vec(&parent.extra_includes);
        }
        if child.extra_excludes.is_none() {
            child.extra_excludes = clone_opt_string_vec(&parent.extra_excludes);
        }
        if child.use_standard_includes.is_none() {
            child.use_standard_includes = parent.use_standard_includes;
        }
        if child.filter_title.is_none() {
            child.filter_title = clone_opt_string(&parent.filter_title);
        }
        if child.filter_class.is_none() {
            child.filter_class = clone_opt_string(&parent.filter_class);
        }
        if child.filter_exec.is_none() {
            child.filter_exec = clone_opt_string(&parent.filter_exec);
        }
        if child.filter_os.is_none() {
            child.filter_os = clone_opt_string(&parent.filter_os);
        }
    }

    /// The effective include patterns as a deduplicated collection.
    pub fn aggregate_includes(config: &ParsedConfig) -> (r: Vec<String>)
        ensures
            distinct_strings(r.deep_view()),
            r.deep_view().to_set() == spec_aggregate_includes(config@),
    {
        let mut includes: Vec<String> = Vec::new();
        if config.use_standard_includes.is_none() || config.use_standard_includes.unwrap() {
            insert_unique(&mut includes, STANDARD_INCLUDE.to_owned());
        }
        if let Some(yaml_includes) = &config.includes {
            insert_unique_all(&mut includes, yaml_includes);
        }
        if let Some(extra_includes) = &config.extra_includes {
            insert_unique_all(&mut includes, extra_includes);
        }
        proof {
            assert(includes.deep_view().to_set() =~= spec_aggregate_includes(config@));
        }
        includes
    }

    /// The effective exclude patterns as a deduplicated collection.
    pub fn aggregate_excludes(config: &ParsedConfig) -> (r: Vec<String>)
        ensures
            distinct_strings(r.deep_view()),
            r.deep_view().to_set() == spec_aggregate_excludes(config@),
    {
        let mut excludes: Vec<String> = Vec::new();
        if config.use_standard_includes.is_none() || config.use_standard_includes.unwrap() {
            insert_unique(&mut excludes, STANDARD_EXCLUDE.to_owned());
        }
        if let Some(yaml_excludes) = &config.excludes {
            insert_unique_all(&mut excludes, yaml_excludes);
        }
        if let Some(extra_excludes) = &config.extra_excludes {
            insert_unique_all(&mut excludes, extra_excludes);
        }
        proof {
            assert(excludes.deep_view().to_set() =~= spec_aggregate_excludes(config@));
        }
        excludes
    }

    /// Expands the aggregated pattern sets and keeps every concrete include
    /// path that the exclude expansion did not also reach. What the
    /// expansions yield depends on the disk; how they are combined is stated
    /// exactly by `path_difference`.
    pub fn generate_match_paths(config: &ParsedConfig, base_dir: &str) -> (r: Vec<String>)
        ensures
            distinct_strings(r.deep_view()),
    {
        let includes = Self::aggregate_includes(config);
        let excludes = Self::aggregate_excludes(config);
        let exclude_paths = calculate_paths(base_dir, &excludes);
        let include_paths = calculate_paths(base_dir, &includes);
        path_difference(&include_paths, &exclude_paths)
    }
}

impl Default for ResolvedConfig {
    /// The resolution of the all-absent record: no paths, no filters.
    fn default() -> (r: Self)
        ensures
            r@.parsed == crate::record::empty_record(),
            r@.match_paths == Seq::<Seq<char>>::empty(),
    {
        let r = ResolvedConfig {
            parsed: ParsedConfig::default(),
            match_paths: Vec::new(),
            filter_title: None,
            filter_class: None,
            filter_exec: None,
            active_os: String::new(),
        };
        proof {
            assert(r.match_paths.deep_view() =~= Seq::<Seq<char>>::empty());
        }
        r
    }
}

/// With standard includes enabled (the field absent or true) the aggregated
/// include set always holds the standard pattern; with them disabled it
/// holds the pattern only where the declared or extra includes added it on
/// their own. The exclude set behaves the same way with its pattern.
pub proof fn lemma_standard_pattern_presence(c: ConfigView)
    ensures
        spec_use_standard(c) ==> spec_aggregate_includes(c).contains(STANDARD_INCLUDE@),
        spec_use_standard(c) ==> spec_aggregate_excludes(c).contains(STANDARD_EXCLUDE@),
        !spec_use_standard(c) ==> (spec_aggregate_includes(c).contains(STANDARD_INCLUDE@)
            <==> opt_pattern_set(c.includes).contains(STANDARD_INCLUDE@) || opt_pattern_set(
            c.extra_includes,
        ).contains(STANDARD_INCLUDE@)),
        !spec_use_standard(c) ==> (spec_aggregate_excludes(c).contains(STANDARD_EXCLUDE@)
            <==> opt_pattern_set(c.excludes).contains(STANDARD_EXCLUDE@) || opt_pattern_set(
            c.extra_excludes,
        ).contains(STANDARD_EXCLUDE@)),
{
}

/// An extra include or exclude entry reaches the aggregated set whatever the
/// standard-include switch says.
pub proof fn lemma_extra_always_aggregated(c: ConfigView, p: Seq<char>)
    ensures
        c.extra_includes matches Some(s) && s.contains(p) ==> spec_aggregate_includes(
            c,
        ).contains(p),
        c.extra_excludes matches Some(s) && s.contains(p) ==> spec_aggregate_excludes(
            c,
        ).contains(p),
{
}

/// Merging a record with itself changes nothing, in any field.
pub proof fn lemma_merge_idempotent(c: ConfigView)
    ensures
        spec_merge(c, c) == c,
{
}

/// Merge favors the child: a field the child has keeps its value, whatever
/// the parent holds.
pub proof fn lemma_merge_favors_child(child: ConfigView, parent: ConfigView)
    ensures
        child.label is Some ==> spec_merge(child, parent).label == child.label,
        child.includes is Some ==> spec_merge(child, parent).includes == child.includes,
        child.excludes is Some ==> spec_merge(child, parent).excludes == child.excludes,
        child.extra_includes is Some ==> spec_merge(child, parent).extra_includes
            == child.extra_includes,
        child.extra_excludes is Some ==> spec_merge(child, parent).extra_excludes
            == child.extra_excludes,
        child.use_standard_includes is Some ==> spec_merge(child, parent).use_standard_includes
            == child.use_standard_includes,
        child.filter_title is Some ==> spec_merge(child, parent).filter_title
            == child.filter_title,
        child.filter_class is Some ==> spec_merge(child, parent).filter_class
            == child.filter_class,
        child.filter_exec is Some ==> spec_merge(child, parent).filter_exec == child.filter_exec,
        child.filter_os is Some ==> spec_merge(child, parent).filter_os == child.filter_os,
{
}

/// A record with no filter at all never matches, whatever the application
/// properties are.
pub proof fn lemma_no_filters_never_match(c: ResolvedView, app: AppView)
    requires
        c.parsed.filter_os is None,
        c.parsed.filter_title is None,
        c.parsed.filter_exec is None,
        c.parsed.filter_class is None,
    ensures
        !spec_is_match(c, app),
{
}

/// A declared textual filter whose runtime property is absent makes the
/// whole match fail: missing runtime data is never ignored.
pub proof fn lemma_missing_property_never_match(c: ResolvedView, app: AppView)
    requires
        (c.parsed.filter_title is Some && app.title is None) || (c.parsed.filter_class is Some
            && app.class is None) || (c.parsed.filter_exec is Some && app.exec_name is None),
    ensures
        !spec_is_match(c, app),
{
}

} // verus!
