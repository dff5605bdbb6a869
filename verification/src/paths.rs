//! Concrete path computation.
//!
//! Glob expansion reads the filesystem, so nothing useful can be promised
//! about what one expansion yields; the logic that is worth stating — how
//! the yielded paths are combined, deduplicated and subtracted — is verified
//! here over whatever the expansion returned.

use vstd::prelude::*;

verus! {

/// What std's path parser gives as the parent of `path`: `None` for a root
/// or an empty path, the (possibly empty) directory prefix otherwise.
/// Decided by the path text alone.
pub uninterp spec fn parent_of(path: Seq<char>) -> Option<Seq<char>>;

/// Relies on std::path::Path::parent: a pure computation on the path text,
/// documented to return the path without its final component, and `None`
/// for a root or an empty path.
#[verifier::external_body]
pub(crate) fn parent_dir(path: &str) -> (r: Option<String>)
    ensures
        r.deep_view() == parent_of(path@),
{
    match std::path::Path::new(path).parent() {
        Some(p) => Some(p.to_string_lossy().into_owned()),
        None => None,
    }
}

/// Relies on glob::glob: expands a glob pattern (joined to `base_dir`)
/// against the filesystem, yielding every readable path that matches. The
/// result depends on what is on disk, so nothing is stated of it; an
/// invalid pattern or an unreadable entry yields nothing.
#[verifier::external_body]
fn expand_pattern(base_dir: &str, pattern: &str) -> Vec<String>
{
    let full = std::path::Path::new(base_dir).join(pattern);
    match glob::glob(&full.to_string_lossy()) {
        Ok(paths) => paths.flatten().map(|p| p.to_string_lossy().into_owned()).collect(),
        Err(_) => Vec::new(),
    }
}

/// Relies on std::path::Path::canonicalize: resolves `.` and `..`
/// components and symbolic links against the filesystem, so that two
/// spellings of one file compare equal; `None` where the path cannot be
/// resolved. The result depends on the disk, so nothing is stated of it.
#[verifier::external_body]
fn canonical_form(path: &str) -> Option<String>
{
    match std::path::Path::new(path).canonicalize() {
        Ok(p) => Some(p.to_string_lossy().into_owned()),
        Err(_) => None,
    }
}

/// The sequence holds pairwise distinct strings.
pub open spec fn distinct_strings(s: Seq<Seq<char>>) -> bool {
    forall|i: int, j: int| 0 <= i < j < s.len() ==> s[i] != s[j]
}

/// Whether `v` holds a string whose characters are `s@`.
pub(crate) fn contains_string(v: &Vec<String>, s: &String) -> (r: bool)
    ensures
        r == v.deep_view().contains(s@),
{
    let mut i: usize = 0;
    while i < v.len()
        invariant
            i <= v.len(),
            forall|k: int| 0 <= k < i ==> v.deep_view()[k] != s@,
        decreases v.len() - i,
    {
        if v[i] == *s {
            proof {
                assert(v.deep_view()[i as int] == s@);
            }
            return true;
        }
        i = i + 1;
    }
    false
}

/// Inserts `s` unless an equal string is already present, keeping the
/// collection a set.
pub(crate) fn insert_unique(v: &mut Vec<String>, s: String)
    requires
        distinct_strings(old(v).deep_view()),
    ensures
        distinct_strings(final(v).deep_view()),
        final(v).deep_view().to_set() == old(v).deep_view().to_set().insert(s@),
{
    let ghost pre = v.deep_view();
    let present = contains_string(v, &s);
    if !present {
        v.push(s);
        proof {
            assert(v.deep_view() =~= pre.push(s@));
            pre.lemma_push_to_set_commute(s@);
            assert(v.deep_view().to_set() =~= pre.to_set().insert(s@));
        }
    } else {
        proof {
            assert(pre.to_set() =~= pre.to_set().insert(s@));
        }
    }
}

/// Inserts every string of `items`, keeping the collection a set.
pub(crate) fn insert_unique_all(v: &mut Vec<String>, items: &Vec<String>)
    requires
        distinct_strings(old(v).deep_view()),
    ensures
        distinct_strings(final(v).deep_view()),
        final(v).deep_view().to_set() == old(v).deep_view().to_set().union(
            items.deep_view().to_set(),
        ),
{
    let ghost base = v.deep_view().to_set();
    let mut i: usize = 0;
    while i < items.len()
        invariant
            i <= items.len(),
            distinct_strings(v.deep_view()),
            v.deep_view().to_set() == base.union(items.deep_view().take(i as int).to_set()),
        decreases items.len() - i,
    {
        let ghost taken = items.deep_view().take(i as int);
        let ghost elem = items.deep_view()[i as int];
        insert_unique(v, items[i].clone());
        proof {
            assert(items.deep_view().take(i as int + 1) =~= taken.push(elem));
            taken.lemma_push_to_set_commute(elem);
            assert(v.deep_view().to_set() =~= base.union(
                items.deep_view().take(i as int + 1).to_set(),
            ));
        }
        i = i + 1;
    }
    proof {
        assert(items.deep_view().take(items.deep_view().len() as int) =~= items.deep_view());
    }
}

/// An excluded path never survives, however it was reached: exclusion is by
/// exact path identity.
pub proof fn lemma_excluded_path_absent(inc: Set<Seq<char>>, exc: Set<Seq<char>>, p: Seq<char>)
    requires
        exc.contains(p),
    ensures
        !inc.difference(exc).contains(p),
{
}

/// Expands each pattern against the filesystem and collects the canonical
/// forms of every matched path, deduplicated. What the expansion yields
/// depends on the disk, so the contract pins only the shape of the result.
pub fn calculate_paths(base_dir: &str, patterns: &Vec<String>) -> (r: Vec<String>)
    ensures
        distinct_strings(r.deep_view()),
{
    let mut out: Vec<String> = Vec::new();
    let mut i: usize = 0;
    while i < patterns.len()
        invariant
            distinct_strings(out.deep_view()),
        decreases patterns.len() - i,
    {
        let found = expand_pattern(base_dir, &patterns[i]);
        let mut j: usize = 0;
        while j < found.len()
            invariant
                distinct_strings(out.deep_view()),
            decreases found.len() - j,
        {
            if let Some(canonical) = canonical_form(&found[j]) {
                insert_unique(&mut out, canonical);
            }
            j = j + 1;
        }
        i = i + 1;
    }
    out
}

/// Every include path that is not among the exclude paths. Exclusion is by
/// exact path identity: a path present in `excludes` never appears in the
/// result, however many times `includes` reached it.
pub fn path_difference(includes: &Vec<String>, excludes: &Vec<String>) -> (r: Vec<String>)
    ensures
        distinct_strings(r.deep_view()),
        r.deep_view().to_set() == includes.deep_view().to_set().difference(
            excludes.deep_view().to_set(),
        ),
{
    let mut out: Vec<String> = Vec::new();
    let mut i: usize = 0;
    while i < includes.len()
        invariant
            i <= includes.len(),
            distinct_strings(out.deep_view()),
            out.deep_view().to_set() == includes.deep_view().take(i as int).to_set().difference(
                excludes.deep_view().to_set(),
            ),
        decreases includes.len() - i,
    {
        let ghost taken = includes.deep_view().take(i as int);
        let ghost elem = includes.deep_view()[i as int];
        let excluded = contains_string(excludes, &includes[i]);
        if !excluded {
            insert_unique(&mut out, includes[i].clone());
        }
        proof {
            assert(includes.deep_view().take(i as int + 1) =~= taken.push(elem));
            taken.lemma_push_to_set_commute(elem);
            assert(out.deep_view().to_set() =~= includes.deep_view().take(
                i as int + 1,
            ).to_set().difference(excludes.deep_view().to_set()));
        }
        i = i + 1;
    }
    proof {
        assert(includes.deep_view().take(includes.deep_view().len() as int)
            =~= includes.deep_view());
    }
    out
}

} // verus!
