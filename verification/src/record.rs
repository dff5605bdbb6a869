//! The raw configuration record: one partially-specified document.
//!
//! Every field is optional; an absent field is semantically distinct from an
//! empty one (an absent `excludes` inherits from the parent, an empty
//! `excludes` overrides it with nothing).

use vstd::prelude::*;

verus! {

/// One configuration document as deserialized, never validated or enriched.
#[derive(Debug)]
pub struct ParsedConfig {
    /// Free-form identifying string.
    pub label: Option<String>,
    /// Glob patterns that replace the standard include set's role when
    /// present together with `use_standard_includes: false`.
    pub includes: Option<Vec<String>>,
    /// Glob patterns that replace the standard exclude set's role when
    /// present together with `use_standard_includes: false`.
    pub excludes: Option<Vec<String>>,
    /// Glob patterns always added to the include set.
    pub extra_includes: Option<Vec<String>>,
    /// Glob patterns always added to the exclude set.
    pub extra_excludes: Option<Vec<String>>,
    /// Tri-state: absent counts as true.
    pub use_standard_includes: Option<bool>,
    /// Regular-expression source matched against the window title.
    pub filter_title: Option<String>,
    /// Regular-expression source matched against the window class.
    pub filter_class: Option<String>,
    /// Regular-expression source matched against the executable name.
    pub filter_exec: Option<String>,
    /// Operating-system identifier the record is restricted to.
    pub filter_os: Option<String>,
}

/// Mathematical image of a record: each string as a sequence of characters.
pub ghost struct ConfigView {
    pub label: Option<Seq<char>>,
    pub includes: Option<Seq<Seq<char>>>,
    pub excludes: Option<Seq<Seq<char>>>,
    pub extra_includes: Option<Seq<Seq<char>>>,
    pub extra_excludes: Option<Seq<Seq<char>>>,
    pub use_standard_includes: Option<bool>,
    pub filter_title: Option<Seq<char>>,
    pub filter_class: Option<Seq<char>>,
    pub filter_exec: Option<Seq<char>>,
    pub filter_os: Option<Seq<char>>,
}

impl View for ParsedConfig {
    type V = ConfigView;

    open spec fn view(&self) -> ConfigView {
        ConfigView {
            label: self.label.deep_view(),
            includes: self.includes.deep_view(),
            excludes: self.excludes.deep_view(),
            extra_includes: self.extra_includes.deep_view(),
            extra_excludes: self.extra_excludes.deep_view(),
            use_standard_includes: self.use_standard_includes,
            filter_title: self.filter_title.deep_view(),
            filter_class: self.filter_class.deep_view(),
            filter_exec: self.filter_exec.deep_view(),
            filter_os: self.filter_os.deep_view(),
        }
    }
}

/// The record with every field absent: the base/default layer.
pub open spec fn empty_record() -> ConfigView {
    ConfigView {
        label: None,
        includes: None,
        excludes: None,
        extra_includes: None,
        extra_excludes: None,
        use_standard_includes: None,
        filter_title: None,
        filter_class: None,
        filter_exec: None,
        filter_os: None,
    }
}

impl Default for ParsedConfig {
    /// An empty document deserializes to the all-absent record.
    fn default() -> (r: Self)
        ensures
            r@ == empty_record(),
    {
        ParsedConfig {
            label: None,
            includes: None,
            excludes: None,
            extra_includes: None,
            extra_excludes: None,
            use_standard_includes: None,
            filter_title: None,
            filter_class: None,
            filter_exec: None,
            filter_os: None,
        }
    }
}

/// Value-preserving clone of an optional string.
pub fn clone_opt_string(v: &Option<String>) -> (r: Option<String>)
    ensures
        r == *v,
{
    match v {
        Some(s) => Some(s.clone()),
        None => None,
    }
}

/// Value-preserving clone of a vector of strings.
pub fn clone_string_vec(v: &Vec<String>) -> (r: Vec<String>)
    ensures
        r@ == v@,
{
    let mut r: Vec<String> = Vec::new();
    let mut i: usize = 0;
    while i < v.len()
        invariant
            i <= v.len(),
            r@ =~= v@.take(i as int),
        decreases v.len() - i,
    {
        r.push(v[i].clone());
        i = i + 1;
    }
    proof {
        assert(v@.take(v@.len() as int) =~= v@);
    }
    r
}

/// Value-preserving clone of an optional vector of strings.
pub fn clone_opt_string_vec(v: &Option<Vec<String>>) -> (r: Option<Vec<String>>)
    ensures
        r.deep_view() == v.deep_view(),
        r is Some <==> *v is Some,
{
    match v {
        Some(x) => Some(clone_string_vec(x)),
        None => None,
    }
}

} // verus!
