//! Path and size filters.
//!
//! A filter is a conjunction of clauses. Each clause is the predicate that a
//! `FilterOptions` value describes: hidden entries are refused unless
//! allowed, a path must match one inclusion pattern when any is given, must
//! match no exclusion pattern, and a size must lie within the optional bounds.
//! Combining two filters with `and` joins their clauses, so the combined
//! filter admits exactly what both admit.

use vstd::prelude::*;
use crate::error::SyncError;
use crate::glob::{GlobPatterns, glob_set_builds, glob_set_matches};
use crate::text::{views_of, copy_strings, concat_strings, is_hidden, is_hidden_path, concat_str, chars_of};

verus! {

/// The options that describe one filter clause.
#[derive(Debug, Clone)]
pub struct FilterOptions {
    /// Patterns a path must match one of (none: no constraint).
    pub include_patterns: Vec<String>,
    /// Patterns a path must match none of.
    pub exclude_patterns: Vec<String>,
    /// Whether patterns match case-sensitively.
    pub case_sensitive: bool,
    /// Whether hidden entries are admitted.
    pub include_hidden: bool,
    /// Largest admitted size in bytes.
    pub max_file_size: Option<u64>,
    /// Smallest admitted size in bytes.
    pub min_file_size: Option<u64>,
}

impl Default for FilterOptions {
    fn default() -> (r: FilterOptions)
        ensures
            r.include_patterns@.len() == 0,
            r.exclude_patterns@.len() == 0,
            !r.case_sensitive,
            r.include_hidden,
            r.max_file_size is None,
            r.min_file_size is None,
    {
        FilterOptions {
            include_patterns: Vec::new(),
            exclude_patterns: Vec::new(),
            case_sensitive: false,
            include_hidden: true,
            max_file_size: None,
            min_file_size: None,
        }
    }
}

/// What a clause is made of: inclusion patterns, exclusion patterns, case
/// sensitivity, whether hidden entries pass, and the upper and lower size
/// bounds.
pub type ClauseView = (Seq<Seq<char>>, Seq<Seq<char>>, bool, bool, Option<u64>, Option<u64>);

impl View for FilterOptions {
    type V = ClauseView;

    open spec fn view(&self) -> ClauseView {
        (
            views_of(self.include_patterns@),
            views_of(self.exclude_patterns@),
            self.case_sensitive,
            self.include_hidden,
            self.max_file_size,
            self.min_file_size,
        )
    }
}

impl FilterOptions {
    /// The clause described by the default options: no patterns, case
    /// insensitive, hidden entries admitted, no size bounds.
    pub open spec fn default_view() -> ClauseView {
        (Seq::empty(), Seq::empty(), false, true, None, None)
    }
}

/// Whether the clause described by `o` admits the path.
pub open spec fn path_admitted(o: ClauseView, p: Seq<char>) -> bool {
    &&& o.3 || !is_hidden_path(p)
    &&& o.0.len() == 0 || glob_set_matches(o.0, o.2, p)
    &&& o.1.len() == 0 || !glob_set_matches(o.1, o.2, p)
}

/// Whether the clause described by `o` admits the size.
pub open spec fn size_admitted(o: ClauseView, size: u64) -> bool {
    &&& o.4 matches Some(m) ==> size <= m
    &&& o.5 matches Some(m) ==> size >= m
}

/// Whether the patterns of `o` compile.
pub open spec fn options_compile(o: FilterOptions) -> bool {
    clause_compiles(o@)
}

/// Every clause admits the path.
pub open spec fn all_admit_path(cs: Seq<ClauseView>, p: Seq<char>) -> bool {
    forall|i: int| 0 <= i < cs.len() ==> #[trigger] path_admitted(cs[i], p)
}

/// Every clause admits the size.
pub open spec fn all_admit_size(cs: Seq<ClauseView>, size: u64) -> bool {
    forall|i: int| 0 <= i < cs.len() ==> #[trigger] size_admitted(cs[i], size)
}

/// The smaller of two optional upper bounds, where `None` is no bound.
pub open spec fn tighter_max(a: Option<u64>, b: Option<u64>) -> Option<u64> {
    match (a, b) {
        (Some(x), Some(y)) => Some(if x <= y { x } else { y }),
        (Some(x), None) => Some(x),
        (None, Some(y)) => Some(y),
        (None, None) => None,
    }
}

/// The larger of two optional lower bounds, where `None` is no bound.
pub open spec fn tighter_min(a: Option<u64>, b: Option<u64>) -> Option<u64> {
    match (a, b) {
        (Some(x), Some(y)) => Some(if x >= y { x } else { y }),
        (Some(x), None) => Some(x),
        (None, Some(y)) => Some(y),
        (None, None) => None,
    }
}

/// Whether `m` is the merged description of `a` and `b`.
pub open spec fn is_merge_of(m: FilterOptions, a: FilterOptions, b: FilterOptions) -> bool {
    &&& m.include_patterns@ == a.include_patterns@ + b.include_patterns@
    &&& m.exclude_patterns@ == a.exclude_patterns@ + b.exclude_patterns@
    &&& m.case_sensitive == (a.case_sensitive || b.case_sensitive)
    &&& m.include_hidden == (a.include_hidden && b.include_hidden)
    &&& m.max_file_size == tighter_max(a.max_file_size, b.max_file_size)
    &&& m.min_file_size == tighter_min(a.min_file_size, b.min_file_size)
}

pub(crate) fn copy_options(o: &FilterOptions) -> (r: FilterOptions)
    ensures
        r.include_patterns@ == o.include_patterns@,
        r.exclude_patterns@ == o.exclude_patterns@,
        r.case_sensitive == o.case_sensitive,
        r.include_hidden == o.include_hidden,
        r.max_file_size == o.max_file_size,
        r.min_file_size == o.min_file_size,
{
    FilterOptions {
        include_patterns: copy_strings(&o.include_patterns),
        exclude_patterns: copy_strings(&o.exclude_patterns),
        case_sensitive: o.case_sensitive,
        include_hidden: o.include_hidden,
        max_file_size: o.max_file_size,
        min_file_size: o.min_file_size,
    }
}

/// Two option values that describe the same clause.
pub open spec fn same_options(a: FilterOptions, b: FilterOptions) -> bool {
    a@ == b@
}

/// One compiled clause.
struct FilterClause {
    options: FilterOptions,
    inclusion: Option<GlobPatterns>,
    exclusion: Option<GlobPatterns>,
}

spec fn clause_wf(c: FilterClause) -> bool {
    &&& (c.inclusion is None <==> c.options.include_patterns@.len() == 0)
    &&& (c.exclusion is None <==> c.options.exclude_patterns@.len() == 0)
    &&& c.inclusion matches Some(g) ==> g@ == (views_of(c.options.include_patterns@), c.options.case_sensitive)
    &&& c.exclusion matches Some(g) ==> g@ == (views_of(c.options.exclude_patterns@), c.options.case_sensitive)
}

fn duplicate_patterns(g: &Option<GlobPatterns>) -> (r: Option<GlobPatterns>)
    ensures
        (r is Some) == g is Some,
        r matches Some(x) ==> x@ == g->0@,
{
    match g {
        Some(x) => Some(x.duplicate()),
        None => None,
    }
}

fn duplicate_clause(c: &FilterClause) -> (r: FilterClause)
    requires
        clause_wf(*c),
    ensures
        clause_wf(r),
        same_options(r.options, c.options),
{
    FilterClause {
        options: copy_options(&c.options),
        inclusion: duplicate_patterns(&c.inclusion),
        exclusion: duplicate_patterns(&c.exclusion),
    }
}

fn clause_admits_path(c: &FilterClause, path: &str, hidden: bool) -> (r: bool)
    requires
        clause_wf(*c),
        hidden == is_hidden_path(path@),
    ensures
        r == path_admitted(c.options@, path@),
{
    if !c.options.include_hidden && hidden {
        return false;
    }
    match &c.inclusion {
        Some(g) => {
            if !g.is_match(path) {
                return false;
            }
        },
        None => {},
    }
    match &c.exclusion {
        Some(g) => {
            if g.is_match(path) {
                return false;
            }
        },
        None => {},
    }
    true
}

fn clause_admits_size(o: &FilterOptions, size: u64) -> (r: bool)
    ensures
        r == size_admitted(o@, size),
{
    match o.max_file_size {
        Some(m) => {
            if size > m {
                return false;
            }
        },
        None => {},
    }
    match o.min_file_size {
        Some(m) => {
            if size < m {
                return false;
            }
        },
        None => {},
    }
    true
}

/// A compiled filter: the conjunction of its clauses.
pub struct FileFilter {
    clauses: Vec<FilterClause>,
    options: FilterOptions,
}

impl FileFilter {
    #[verifier::type_invariant]
    spec fn wf(&self) -> bool {
        forall|i: int| 0 <= i < self.clauses@.len() ==> #[trigger] clause_wf(self.clauses@[i])
    }

    /// The options of each clause, in order.
    pub closed spec fn clauses(&self) -> Seq<ClauseView> {
        self.clauses@.map_values(|c: FilterClause| c.options@)
    }

    /// The options this filter reports.
    pub closed spec fn summary(&self) -> FilterOptions {
        self.options
    }

    /// Compiles a filter of one clause, or fails when a pattern is invalid.
    pub fn new(options: FilterOptions) -> (r: Result<FileFilter, SyncError>)
        ensures
            (r is Ok) == options_compile(options),
            r matches Ok(f) ==> f.clauses() == seq![options@] && f.summary()@ == options@,
            r matches Err(e) ==> e is FilterPattern,
    {
        let inclusion = if options.include_patterns.len() == 0 {
            None
        } else {
            match GlobPatterns::compile(&options.include_patterns, options.case_sensitive) {
                Some(g) => Some(g),
                None => {
                    return Err(SyncError::FilterPattern(
                        "Failed to compile inclusion patterns".to_owned(),
                    ));
                },
            }
        };
        let exclusion = if options.exclude_patterns.len() == 0 {
            None
        } else {
            match GlobPatterns::compile(&options.exclude_patterns, options.case_sensitive) {
                Some(g) => Some(g),
                None => {
                    return Err(SyncError::FilterPattern(
                        "Failed to compile exclusion patterns".to_owned(),
                    ));
                },
            }
        };
        let summary = copy_options(&options);
        let ghost options_view = options@;
        let clause = FilterClause { options, inclusion, exclusion };
        let mut clauses: Vec<FilterClause> = Vec::new();
        clauses.push(clause);
        let f = FileFilter { clauses, options: summary };
        assert(f.clauses() =~= seq![options_view]);
        Ok(f)
    }

    /// Whether every clause admits the path.
    pub fn should_include(&self, path: &str) -> (r: bool)
        ensures
            r == all_admit_path(self.clauses(), path@),
    {
        proof {
            use_type_invariant(self);
        }
        let hidden = is_hidden(path);
        let mut i: usize = 0;
        while i < self.clauses.len()
            invariant
                i <= self.clauses@.len(),
                hidden == is_hidden_path(path@),
                forall|k: int| 0 <= k < self.clauses@.len() ==> #[trigger] clause_wf(self.clauses@[k]),
                forall|k: int| 0 <= k < i ==> path_admitted(#[trigger] self.clauses()[k], path@),
            decreases self.clauses@.len() - i,
        {
            if !clause_admits_path(&self.clauses[i], path, hidden) {
                assert(!path_admitted(self.clauses()[i as int], path@));
                return false;
            }
            i = i + 1;
        }
        true
    }

    /// Whether every clause admits the size.
    pub fn should_include_size(&self, file_size: u64) -> (r: bool)
        ensures
            r == all_admit_size(self.clauses(), file_size),
    {
        let mut i: usize = 0;
        while i < self.clauses.len()
            invariant
                i <= self.clauses@.len(),
                forall|k: int| 0 <= k < i ==> size_admitted(#[trigger] self.clauses()[k], file_size),
            decreases self.clauses@.len() - i,
        {
            if !clause_admits_size(&self.clauses[i].options, file_size) {
                assert(!size_admitted(self.clauses()[i as int], file_size));
                return false;
            }
            i = i + 1;
        }
        true
    }

    /// Whether every clause admits both the path and the size.
    pub fn should_include_file(&self, path: &str, file_size: u64) -> (r: bool)
        ensures
            r == (all_admit_path(self.clauses(), path@) && all_admit_size(self.clauses(), file_size)),
    {
        self.should_include(path) && self.should_include_size(file_size)
    }

    /// The options this filter reports.
    pub fn options(&self) -> (r: &FilterOptions)
        ensures
            *r == self.summary(),
    {
        &self.options
    }

    /// A filter of one clause that admits files with any of the extensions.
    /// An extension may be given with or without its leading dot.
    pub fn by_extensions(extensions: &[&str], case_sensitive: bool) -> (r: Result<FileFilter, SyncError>)
        ensures
            (r is Ok) == glob_set_builds(extension_patterns(extensions@), case_sensitive)
                || extensions@.len() == 0,
            r matches Ok(f) ==> f.clauses().len() == 1 && {
                let o = f.clauses()[0];
                &&& o.0 == extension_patterns(extensions@)
                &&& o.1.len() == 0
                &&& o.2 == case_sensitive
                &&& o.3
                &&& o.4 is None
                &&& o.5 is None
            },
            r matches Err(e) ==> e is FilterPattern,
    {
        let mut patterns: Vec<String> = Vec::new();
        let mut i: usize = 0;
        while i < extensions.len()
            invariant
                i <= extensions@.len(),
                patterns@.len() == i,
                forall|k: int| 0 <= k < i ==> (#[trigger] patterns@[k])@ == extension_pattern_of(extensions@[k]@),
            decreases extensions@.len() - i,
        {
            let p = extension_pattern(extensions[i]);
            patterns.push(p);
            i = i + 1;
        }
        assert(views_of(patterns@) =~= extension_patterns(extensions@));
        let mut options = FilterOptions::default();
        options.include_patterns = patterns;
        options.case_sensitive = case_sensitive;
        FileFilter::new(options)
    }

    /// A filter of one clause that refuses commonly ignored files.
    pub fn exclude_common_ignore_patterns() -> (r: Result<FileFilter, SyncError>)
        ensures
            (r is Ok) == glob_set_builds(common_ignore_patterns(), false),
            r matches Ok(f) ==> f.clauses().len() == 1 && {
                let o = f.clauses()[0];
                &&& o.0.len() == 0
                &&& o.1 == common_ignore_patterns()
                &&& !o.2
                &&& o.3
                &&& o.4 is None
                &&& o.5 is None
            },
            r matches Err(e) ==> e is FilterPattern,
    {
        let v: Vec<String> = vec![
            "**/.git/**".to_owned(),
            "**/.svn/**".to_owned(),
            "**/.hg/**".to_owned(),
            "**/node_modules/**".to_owned(),
            "**/target/**".to_owned(),
            "**/.DS_Store".to_owned(),
            "**/Thumbs.db".to_owned(),
            "**/.vs/**".to_owned(),
            "**/.vscode/**".to_owned(),
            "**/bin/**".to_owned(),
            "**/obj/**".to_owned(),
            "**/*.tmp".to_owned(),
            "**/*.temp".to_owned(),
            "**/*.log".to_owned(),
        ];
        assert(views_of(v@) =~= common_ignore_patterns());
        let mut options = FilterOptions::default();
        options.exclude_patterns = v;
        FileFilter::new(options)
    }

    /// A filter of one clause that admits common text formats only.
    pub fn text_files_only() -> (r: Result<FileFilter, SyncError>)
        ensures
            (r is Ok) == glob_set_builds(text_file_patterns(), false),
            r matches Ok(f) ==> f.clauses().len() == 1 && {
                let o = f.clauses()[0];
                &&& o.0 == text_file_patterns()
                &&& o.1.len() == 0
                &&& !o.2
                &&& o.3
                &&& o.4 is None
                &&& o.5 is None
            },
            r matches Err(e) ==> e is FilterPattern,
    {
        let v: Vec<String> = vec![
            "**/*.txt".to_owned(),
            "**/*.md".to_owned(),
            "**/*.rst".to_owned(),
            "**/*.json".to_owned(),
            "**/*.xml".to_owned(),
            "**/*.yaml".to_owned(),
            "**/*.yml".to_owned(),
            "**/*.toml".to_owned(),
            "**/*.ini".to_owned(),
            "**/*.cfg".to_owned(),
            "**/*.conf".to_owned(),
        ];
        assert(views_of(v@) =~= text_file_patterns());
        let mut options = FilterOptions::default();
        options.include_patterns = v;
        FileFilter::new(options)
    }

    /// The filter of the default options, which admits every path and size.
    pub fn default_filter() -> (r: FileFilter)
        ensures
            r.clauses() == seq![FilterOptions::default_view()],
    {
        FileFilter::with_size_limits(None, None)
    }

    /// A filter of one clause with only size bounds.
    pub fn with_size_limits(min_size: Option<u64>, max_size: Option<u64>) -> (r: FileFilter)
        ensures
            r.clauses() == seq![(Seq::<Seq<char>>::empty(), Seq::<Seq<char>>::empty(), false, true, max_size, min_size)],
    {
        let mut options = FilterOptions::default();
        options.min_file_size = min_size;
        options.max_file_size = max_size;
        assert(options@.0 =~= Seq::<Seq<char>>::empty());
        assert(options@.1 =~= Seq::<Seq<char>>::empty());
        match FileFilter::new(options) {
            Ok(f) => f,
            Err(_) => {
                proof {
                    assert(false);
                }
                FileFilter { clauses: Vec::new(), options: FilterOptions::default() }
            },
        }
    }

    /// The conjunction of two filters. Every clause of both is kept, under
    /// the stricter case mode of the two: a clause matches case-sensitively
    /// when either filter did. Under that mode the combined filter admits
    /// exactly what both admit. It fails when a pattern does not compile in
    /// the stricter mode.
    pub fn and(&self, other: &FileFilter) -> (r: Result<FileFilter, SyncError>)
        ensures
            ({
                let strict = self.summary().case_sensitive || other.summary().case_sensitive;
                let cs = with_case(self.clauses(), strict) + with_case(other.clauses(), strict);
                &&& (r is Ok) == all_compile(cs)
                &&& r matches Ok(f) ==> f.clauses() == cs && is_merge_of(f.summary(), self.summary(), other.summary())
                &&& r matches Err(e) ==> e is FilterPattern
            }),
    {
        proof {
            use_type_invariant(self);
            use_type_invariant(other);
        }
        let strict = self.options.case_sensitive || other.options.case_sensitive;
        let ghost left = with_case(self.clauses(), strict);
        let ghost right = with_case(other.clauses(), strict);
        let mut clauses: Vec<FilterClause> = Vec::new();
        if !push_recased(&mut clauses, &self.clauses, strict) {
            assert(!all_compile(left + right)) by {
                let k = choose|k: int| 0 <= k < left.len() && !clause_compiles(#[trigger] left[k]);
                assert((left + right)[k] == left[k]);
            }
            return Err(SyncError::FilterPattern("Failed to compile patterns in the combined case mode".to_owned()));
        }
        if !push_recased(&mut clauses, &other.clauses, strict) {
            assert(!all_compile(left + right)) by {
                let k = choose|k: int| 0 <= k < right.len() && !clause_compiles(#[trigger] right[k]);
                assert((left + right)[left.len() + k] == right[k]);
            }
            return Err(SyncError::FilterPattern("Failed to compile patterns in the combined case mode".to_owned()));
        }
        let ghost cs = left + right;
        assert(all_compile(cs)) by {
            assert forall|k: int| 0 <= k < cs.len() implies #[trigger] clause_compiles(cs[k]) by {
                if k < left.len() {
                    assert(cs[k] == left[k]);
                } else {
                    assert(cs[k] == right[k - left.len()]);
                }
            }
        }
        let a = &self.options;
        let b = &other.options;
        let summary = FilterOptions {
            include_patterns: concat_strings(&a.include_patterns, &b.include_patterns),
            exclude_patterns: concat_strings(&a.exclude_patterns, &b.exclude_patterns),
            case_sensitive: strict,
            include_hidden: a.include_hidden && b.include_hidden,
            max_file_size: match (a.max_file_size, b.max_file_size) {
                (Some(x), Some(y)) => Some(if x <= y { x } else { y }),
                (Some(x), None) => Some(x),
                (None, Some(y)) => Some(y),
                (None, None) => None,
            },
            min_file_size: match (a.min_file_size, b.min_file_size) {
                (Some(x), Some(y)) => Some(if x >= y { x } else { y }),
                (Some(x), None) => Some(x),
                (None, Some(y)) => Some(y),
                (None, None) => None,
            },
        };
        let f = FileFilter { clauses, options: summary };
        assert(f.clauses() =~= cs);
        Ok(f)
    }
}

/// A clause under a case mode at least as strict as `strict`.
pub open spec fn recased(c: ClauseView, strict: bool) -> ClauseView {
    (c.0, c.1, c.2 || strict, c.3, c.4, c.5)
}

/// Every clause under a case mode at least as strict as `strict`.
pub open spec fn with_case(cs: Seq<ClauseView>, strict: bool) -> Seq<ClauseView> {
    cs.map_values(|c: ClauseView| recased(c, strict))
}

/// Whether a clause's patterns compile.
pub open spec fn clause_compiles(c: ClauseView) -> bool {
    &&& c.0.len() == 0 || glob_set_builds(c.0, c.2)
    &&& c.1.len() == 0 || glob_set_builds(c.1, c.2)
}

/// Whether every clause's patterns compile.
pub open spec fn all_compile(cs: Seq<ClauseView>) -> bool {
    forall|k: int| 0 <= k < cs.len() ==> #[trigger] clause_compiles(cs[k])
}

fn push_recased(out: &mut Vec<FilterClause>, src: &Vec<FilterClause>, strict: bool) -> (ok: bool)
    requires
        forall|k: int| 0 <= k < src@.len() ==> #[trigger] clause_wf(src@[k]),
        forall|k: int| 0 <= k < old(out)@.len() ==> #[trigger] clause_wf(old(out)@[k]),
    ensures
        forall|k: int| 0 <= k < final(out)@.len() ==> #[trigger] clause_wf(final(out)@[k]),
        ok == all_compile(with_case(src@.map_values(|c: FilterClause| c.options@), strict)),
        ok ==> final(out)@.map_values(|c: FilterClause| c.options@) == old(out)@.map_values(|c: FilterClause| c.options@)
            + with_case(src@.map_values(|c: FilterClause| c.options@), strict),
{
    let ghost target = with_case(src@.map_values(|c: FilterClause| c.options@), strict);
    let ghost start = old(out)@.map_values(|c: FilterClause| c.options@);
    let mut i: usize = 0;
    while i < src.len()
        invariant
            i <= src@.len(),
            target == with_case(src@.map_values(|c: FilterClause| c.options@), strict),
            forall|k: int| 0 <= k < src@.len() ==> #[trigger] clause_wf(src@[k]),
            forall|k: int| 0 <= k < out@.len() ==> #[trigger] clause_wf(out@[k]),
            out@.map_values(|c: FilterClause| c.options@) == start + target.subrange(0, i as int),
            forall|k: int| 0 <= k < i ==> clause_compiles(#[trigger] target[k]),
        decreases src@.len() - i,
    {
        assert(target[i as int] == recased(src@[i as int].options@, strict));
        match recase_clause(&src[i], strict) {
            Some(x) => {
                let ghost before = out@.map_values(|c: FilterClause| c.options@);
                out.push(x);
                assert(out@.map_values(|c: FilterClause| c.options@) =~= before.push(x.options@));
                assert(start + target.subrange(0, i + 1) =~= (start + target.subrange(0, i as int)).push(target[i as int]));
            },
            None => {
                assert(!clause_compiles(target[i as int]));
                return false;
            },
        }
        i = i + 1;
    }
    assert(target.subrange(0, src@.len() as int) =~= target);
    true
}

fn recompile(g: &Option<GlobPatterns>, patterns: &Vec<String>, cs: bool) -> (r: Option<Option<GlobPatterns>>)
    requires
        (g is None) == (patterns@.len() == 0),
    ensures
        (r is Some) == (patterns@.len() == 0 || glob_set_builds(views_of(patterns@), cs)),
        r matches Some(x) ==> ((x is None) == (patterns@.len() == 0) && (x matches Some(y) ==> y@ == (views_of(patterns@), cs))),
{
    match g {
        None => Some(None),
        Some(_) => match GlobPatterns::compile(patterns, cs) {
            Some(y) => Some(Some(y)),
            None => None,
        },
    }
}

fn recase_clause(c: &FilterClause, strict: bool) -> (r: Option<FilterClause>)
    requires
        clause_wf(*c),
    ensures
        (r is Some) == clause_compiles(recased(c.options@, strict)),
        r matches Some(x) ==> clause_wf(x) && x.options@ == recased(c.options@, strict),
{
    let cs = c.options.case_sensitive || strict;
    let inclusion = match recompile(&c.inclusion, &c.options.include_patterns, cs) {
        Some(x) => x,
        None => {
            return None;
        },
    };
    let exclusion = match recompile(&c.exclusion, &c.options.exclude_patterns, cs) {
        Some(x) => x,
        None => {
            return None;
        },
    };
    let mut options = copy_options(&c.options);
    options.case_sensitive = cs;
    Some(FilterClause { options, inclusion, exclusion })
}

/// Where both filters match in the same case mode, the recased clauses
/// are the clauses themselves, and the combined filter is exactly the
/// conjunction of the two.
pub proof fn lemma_same_case_keeps_clauses(cs: Seq<ClauseView>, strict: bool)
    requires
        forall|k: int| 0 <= k < cs.len() ==> (#[trigger] cs[k]).2 == strict,
    ensures
        with_case(cs, strict) == cs,
{
    assert(with_case(cs, strict) =~= cs);
}

impl Default for FileFilter {
    /// The filter of the default options, which admits every path and size.
    fn default() -> (r: FileFilter)
        ensures
            r.clauses() == seq![FilterOptions::default_view()],
    {
        FileFilter::default_filter()
    }
}

/// The inclusion pattern for one extension.
pub open spec fn extension_pattern_of(ext: Seq<char>) -> Seq<char> {
    if ext.len() > 0 && ext[0] == '.' {
        "**/*"@ + ext
    } else {
        "**/*."@ + ext
    }
}

/// The inclusion patterns for a list of extensions.
pub open spec fn extension_patterns(exts: Seq<&str>) -> Seq<Seq<char>> {
    exts.map_values(|e: &str| extension_pattern_of(e@))
}

fn extension_pattern(ext: &str) -> (r: String)
    ensures
        r@ == extension_pattern_of(ext@),
{
    let cs = chars_of(ext);
    if cs.len() > 0 && cs[0] == '.' {
        concat_str("**/*", ext)
    } else {
        concat_str("**/*.", ext)
    }
}

/// The exclusion patterns of `exclude_common_ignore_patterns`.
pub open spec fn common_ignore_patterns() -> Seq<Seq<char>> {
    seq![
        "**/.git/**"@, "**/.svn/**"@, "**/.hg/**"@, "**/node_modules/**"@, "**/target/**"@,
        "**/.DS_Store"@, "**/Thumbs.db"@, "**/.vs/**"@, "**/.vscode/**"@, "**/bin/**"@,
        "**/obj/**"@, "**/*.tmp"@, "**/*.temp"@, "**/*.log"@,
    ]
}

/// The inclusion patterns of `text_files_only`.
pub open spec fn text_file_patterns() -> Seq<Seq<char>> {
    seq![
        "**/*.txt"@, "**/*.md"@, "**/*.rst"@, "**/*.json"@, "**/*.xml"@, "**/*.yaml"@,
        "**/*.yml"@, "**/*.toml"@, "**/*.ini"@, "**/*.cfg"@, "**/*.conf"@,
    ]
}

/// A filter made by `and` admits a path and size exactly when both of the
/// filters it was made from admit them.
pub proof fn lemma_and_is_conjunction(
    a: Seq<ClauseView>,
    b: Seq<ClauseView>,
    p: Seq<char>,
    size: u64,
)
    ensures
        all_admit_path(a + b, p) == (all_admit_path(a, p) && all_admit_path(b, p)),
        all_admit_size(a + b, size) == (all_admit_size(a, size) && all_admit_size(b, size)),
{
    if all_admit_path(a, p) && all_admit_path(b, p) {
        assert forall|i: int| 0 <= i < (a + b).len() implies #[trigger] path_admitted((a + b)[i], p) by {
            if i >= a.len() {
                assert(path_admitted(b[i - a.len()], p));
            }
        }
    }
    if all_admit_path(a + b, p) {
        assert forall|i: int| 0 <= i < a.len() implies #[trigger] path_admitted(a[i], p) by {
            assert(path_admitted((a + b)[i], p));
        }
        assert forall|i: int| 0 <= i < b.len() implies #[trigger] path_admitted(b[i], p) by {
            assert(path_admitted((a + b)[a.len() + i], p));
        }
    }
    if all_admit_size(a, size) && all_admit_size(b, size) {
        assert forall|i: int| 0 <= i < (a + b).len() implies #[trigger] size_admitted((a + b)[i], size) by {
            if i >= a.len() {
                assert(size_admitted(b[i - a.len()], size));
            }
        }
    }
    if all_admit_size(a + b, size) {
        assert forall|i: int| 0 <= i < a.len() implies #[trigger] size_admitted(a[i], size) by {
            assert(size_admitted((a + b)[i], size));
        }
        assert forall|i: int| 0 <= i < b.len() implies #[trigger] size_admitted(b[i], size) by {
            assert(size_admitted((a + b)[a.len() + i], size));
        }
    }
}

/// Combining two filters that match in the same case mode gives a filter
/// that admits a path and size exactly when both filters admit them.
pub proof fn lemma_filter_and(f1: FileFilter, f2: FileFilter, combined: FileFilter, p: Seq<char>, size: u64)
    requires
        ({
            let strict = f1.summary().case_sensitive || f2.summary().case_sensitive;
            &&& forall|k: int| 0 <= k < f1.clauses().len() ==> (#[trigger] f1.clauses()[k]).2 == strict
            &&& forall|k: int| 0 <= k < f2.clauses().len() ==> (#[trigger] f2.clauses()[k]).2 == strict
            &&& combined.clauses() == with_case(f1.clauses(), strict) + with_case(f2.clauses(), strict)
        }),
    ensures
        all_admit_path(combined.clauses(), p) == (all_admit_path(f1.clauses(), p) && all_admit_path(f2.clauses(), p)),
        all_admit_size(combined.clauses(), size) == (all_admit_size(f1.clauses(), size) && all_admit_size(
            f2.clauses(),
            size,
        )),
{
    let strict = f1.summary().case_sensitive || f2.summary().case_sensitive;
    lemma_same_case_keeps_clauses(f1.clauses(), strict);
    lemma_same_case_keeps_clauses(f2.clauses(), strict);
    lemma_and_is_conjunction(f1.clauses(), f2.clauses(), p, size);
}

} // verus!
