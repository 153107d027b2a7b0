//! Template resolution: an immutable registry from logical template names to
//! filesystem paths, an auto-escape policy inferred from the resolved path's
//! extension, and the classification of a file read into "loaded", "absent"
//! and "hard failure".

use vstd::pervasive::VecAdditionalExecFns;
use vstd::prelude::*;

use crate::table;
use crate::text;

verus! {

/// Whether rendered output is escaped for its target format.
#[derive(Clone, Copy, Debug, PartialEq, Eq, Structural)]
pub enum EscapePolicy {
    Html,
    NoEscape,
}

/// A path with a final engine extension dropped: an engine extension says
/// who renders the file, not what format it holds, so `.html.j2` is treated
/// as `.html` when the escape policy is inferred.
pub open spec fn strip_engine_ext(path: Seq<char>) -> Seq<char> {
    if text::has_suffix(path, ".j2"@) {
        path.take(path.len() - 3)
    } else if text::has_suffix(path, ".jinja2"@) {
        path.take(path.len() - 7)
    } else if text::has_suffix(path, ".jinja"@) {
        path.take(path.len() - 6)
    } else {
        path
    }
}

/// The policy for a resolved path: HTML escaping for markup extensions, a
/// final engine extension ignored; none otherwise.
pub open spec fn escape_policy_of(path: Seq<char>) -> EscapePolicy {
    let base = strip_engine_ext(path);
    if text::has_suffix(base, ".html"@) || text::has_suffix(base, ".htm"@) || text::has_suffix(
        base,
        ".xml"@,
    ) {
        EscapePolicy::Html
    } else {
        EscapePolicy::NoEscape
    }
}

/// What the filesystem gave back when a registered template file was read.
pub enum ReadOutcome {
    /// The file was read in full.
    Content(String),
    /// The file does not exist at read time.
    FileAbsent,
    /// The read failed for a reason other than absence; the message describes
    /// the failure.
    Failure(String),
}

/// A read failure other than absence: fatal for the render call that needed
/// the template.
pub struct TemplateReadError {
    pub message: String,
}

/// A mapping from logical template names to filesystem paths, built once at
/// startup and only read thereafter. A name never maps to more than one
/// path.
pub struct TemplateRegistry {
    entries: Vec<(String, String)>,
}

impl View for TemplateRegistry {
    type V = Seq<(Seq<char>, Seq<char>)>;

    closed spec fn view(&self) -> Seq<(Seq<char>, Seq<char>)> {
        self.entries.deep_view()
    }
}

impl TemplateRegistry {
    /// Every name in the registry is bound at most once.
    pub open spec fn wf(&self) -> bool {
        table::keys_unique(self@)
    }

    /// An empty registry.
    pub fn new() -> (r: TemplateRegistry)
        ensures
            r@ == Seq::<(Seq<char>, Seq<char>)>::empty(),
            r.wf(),
    {
        let r = TemplateRegistry { entries: Vec::new() };
        proof {
            assert(r@ =~= Seq::<(Seq<char>, Seq<char>)>::empty());
        }
        r
    }

    /// Binds `name` to `path`. A name registered again maps to the new
    /// path — the last registration wins, as the scan's later findings
    /// override earlier ones — and every other name is untouched. Returns
    /// true when the name was fresh.
    pub fn register(&mut self, name: String, path: String) -> (r: bool)
        requires
            old(self).wf(),
        ensures
            final(self).wf(),
            r == (table::lookup(old(self)@, name@) is None),
            table::lookup(final(self)@, name@) == Some(path@),
            forall|other: Seq<char>|
                other != name@ ==> table::lookup(final(self)@, other) == table::lookup(
                    old(self)@,
                    other,
                ),
    {
        let ghost n = name@;
        let ghost p = path@;
        match table::find(&self.entries, name.as_str()) {
            Some(i) => {
                self.entries.set(i, (name, path));
                proof {
                    assert(self@ =~= old(self)@.update(i as int, (n, p)));
                    assert(forall|k: int|
                        0 <= k < self@.len() ==> self@[k].0 == old(self)@[k].0);
                    table::lemma_lookup_found_at(self@, n, i as int);
                    assert forall|other: Seq<char>| other != n implies table::lookup(
                        self@,
                        other,
                    ) == table::lookup(old(self)@, other) by {
                        table::lemma_lookup_update_value(old(self)@, i as int, p, other);
                    }
                }
                false
            },
            None => {
                proof {
                    table::lemma_lookup_none_no_key(self@, n, 0);
                }
                self.entries.push((name, path));
                proof {
                    assert(self@ =~= old(self)@.push((n, p)));
                    table::lemma_lookup_push(old(self)@, (n, p), n);
                    assert forall|other: Seq<char>| other != n implies table::lookup(
                        self@,
                        other,
                    ) == table::lookup(old(self)@, other) by {
                        table::lemma_lookup_push(old(self)@, (n, p), other);
                    }
                }
                true
            },
        }
    }

    /// Builds the registry from the name-path pairs a directory scan found.
    /// A name that occurs more than once maps to the path of its last
    /// occurrence.
    pub fn from_pairs(pairs: Vec<(String, String)>) -> (r: TemplateRegistry)
        ensures
            r.wf(),
            forall|key: Seq<char>| #[trigger]
                table::lookup(r@, key) == table::lookup_last(pairs.deep_view(), key),
    {
        let ghost pairs_view = pairs.deep_view();
        let mut registry = TemplateRegistry::new();
        let mut idx: usize = 0;
        while idx < pairs.len()
            invariant
                idx <= pairs.len(),
                pairs_view == pairs.deep_view(),
                pairs_view.len() == pairs.len(),
                registry.wf(),
                forall|key: Seq<char>| #[trigger]
                    table::lookup(registry@, key) == table::lookup_last(
                        pairs_view.take(idx as int),
                        key,
                    ),
            decreases pairs.len() - idx,
        {
            let pair = &pairs[idx];
            let name = pair.0.clone();
            let path = pair.1.clone();
            let ghost before = registry@;
            registry.register(name, path);
            proof {
                let taken = pairs_view.take(idx + 1);
                assert(taken.last() == pairs_view[idx as int]);
                assert(taken.drop_last() =~= pairs_view.take(idx as int));
                assert forall|key: Seq<char>| #[trigger]
                    table::lookup(registry@, key) == table::lookup_last(taken, key) by {
                    if key != pairs_view[idx as int].0 {
                        assert(table::lookup(registry@, key) == table::lookup(before, key));
                    }
                }
            }
            idx = idx + 1;
        }
        proof {
            assert(pairs_view.take(pairs_view.len() as int) =~= pairs_view);
        }
        registry
    }

    /// The number of registered templates.
    pub fn len(&self) -> (r: usize)
        ensures
            r == self@.len(),
    {
        self.entries.len()
    }

    /// Pure lookup of the path registered for `name`; no I/O.
    pub fn resolve(&self, name: &str) -> (r: Option<String>)
        ensures
            match r {
                Some(p) => table::lookup(self@, name@) == Some(p@),
                None => table::lookup(self@, name@) is None,
            },
    {
        match table::find(&self.entries, name) {
            Some(i) => Some(self.entries[i].1.clone()),
            None => None,
        }
    }

    /// The escape policy for `name`: inferred from the extension of the
    /// resolved path; unresolved names get no escaping.
    pub fn auto_escape_policy(&self, name: &str) -> (r: EscapePolicy)
        ensures
            match table::lookup(self@, name@) {
                Some(p) => r == escape_policy_of(p),
                None => r == EscapePolicy::NoEscape,
            },
    {
        match self.resolve(name) {
            Some(path) => policy_for_path(path.as_str()),
            None => EscapePolicy::NoEscape,
        }
    }
}

/// The file extension of the templates the engine owns; the directory scan
/// that feeds the registry selects files by it.
pub fn engine_extension() -> (r: &'static str)
    ensures
        r@ == "j2"@,
{
    "j2"
}

/// Drops a final engine extension from a path.
fn strip_engine_extension(path: &str) -> (r: &str)
    ensures
        r@ == strip_engine_ext(path@),
{
    let n = path.unicode_len();
    proof {
        reveal_strlit(".j2");
        reveal_strlit(".jinja2");
        reveal_strlit(".jinja");
    }
    if text::ends_with(path, ".j2") {
        let base = path.substring_char(0, n - 3);
        proof {
            assert(base@ =~= strip_engine_ext(path@));
        }
        base
    } else if text::ends_with(path, ".jinja2") {
        let base = path.substring_char(0, n - 7);
        proof {
            assert(base@ =~= strip_engine_ext(path@));
        }
        base
    } else if text::ends_with(path, ".jinja") {
        let base = path.substring_char(0, n - 6);
        proof {
            assert(base@ =~= strip_engine_ext(path@));
        }
        base
    } else {
        path
    }
}

/// The escape policy a path's extension calls for, a final engine extension
/// ignored.
pub fn policy_for_path(path: &str) -> (r: EscapePolicy)
    ensures
        r == escape_policy_of(path@),
{
    let base = strip_engine_extension(path);
    if text::ends_with(base, ".html") || text::ends_with(base, ".htm") || text::ends_with(
        base,
        ".xml",
    ) {
        EscapePolicy::Html
    } else {
        EscapePolicy::NoEscape
    }
}

/// Turns the outcome of reading a registered template file into the loader's
/// answer: content when the file was read, absence (not an error) when the
/// file was gone at read time, and a hard error for any other failure.
pub fn classify_read(outcome: ReadOutcome) -> (r: Result<Option<String>, TemplateReadError>)
    ensures
        match outcome {
            ReadOutcome::Content(s) => r matches Ok(o) && o matches Some(t) && t@ == s@,
            ReadOutcome::FileAbsent => r matches Ok(o) && o is None,
            ReadOutcome::Failure(m) => r matches Err(e) && e.message@ == m@,
        },
{
    match outcome {
        ReadOutcome::Content(s) => Ok(Some(s)),
        ReadOutcome::FileAbsent => Ok(None),
        ReadOutcome::Failure(m) => Err(TemplateReadError { message: m }),
    }
}

/// Law: among the pairs a scan supplies, the last occurrence of a name
/// decides its path — a later pair for the same name overrides the earlier
/// one, and every other name is untouched. A name never maps to more than
/// one path.
pub proof fn lemma_last_occurrence_wins(
    pairs: Seq<(Seq<char>, Seq<char>)>,
    name: Seq<char>,
    path: Seq<char>,
    other: Seq<char>,
)
    ensures
        table::lookup_last(pairs.push((name, path)), name) == Some(path),
        other != name ==> table::lookup_last(pairs.push((name, path)), other)
            == table::lookup_last(pairs, other),
{
    assert(pairs.push((name, path)).drop_last() =~= pairs);
}

/// Law: resolution is a pure function of the registry contents — repeated
/// lookups of the same name in the same registry agree.
pub proof fn lemma_resolve_deterministic(
    entries: Seq<(Seq<char>, Seq<char>)>,
    name: Seq<char>,
    r1: Option<Seq<char>>,
    r2: Option<Seq<char>>,
)
    requires
        r1 == table::lookup(entries, name),
        r2 == table::lookup(entries, name),
    ensures
        r1 == r2,
{
}

} // verus!
