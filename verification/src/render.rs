//! Rendering: a key-value context bound to a template, and the render step
//! itself, performed by the minijinja engine behind a trusted wrapper. Every
//! engine failure is contained: the caller sees `None`, never a panic.

use vstd::prelude::*;

use crate::table;
use crate::templates::{EscapePolicy, TemplateReadError};

verus! {

/// A structured key-value payload bound to a template at render time.
/// Keys are unique.
pub struct Context {
    entries: Vec<(String, String)>,
}

impl View for Context {
    type V = Seq<(Seq<char>, Seq<char>)>;

    closed spec fn view(&self) -> Seq<(Seq<char>, Seq<char>)> {
        self.entries.deep_view()
    }
}

impl Context {
    /// Every key in the context is bound at most once.
    pub open spec fn wf(&self) -> bool {
        table::keys_unique(self@)
    }

    /// An empty context.
    pub fn new() -> (r: Context)
        ensures
            r@ == Seq::<(Seq<char>, Seq<char>)>::empty(),
            r.wf(),
    {
        let r = Context { entries: Vec::new() };
        proof {
            assert(r@ =~= Seq::<(Seq<char>, Seq<char>)>::empty());
        }
        r
    }

    /// Binds `key` to `value`. Returns false, and leaves the context
    /// unchanged, when `key` is already bound.
    pub fn set(&mut self, key: String, value: String) -> (r: bool)
        requires
            old(self).wf(),
        ensures
            final(self).wf(),
            r == (table::lookup(old(self)@, key@) is None),
            r ==> final(self)@ == old(self)@.push((key@, value@)),
            !r ==> final(self)@ == old(self)@,
    {
        let ghost k = key@;
        let ghost v = value@;
        match table::find(&self.entries, key.as_str()) {
            Some(_) => false,
            None => {
                proof {
                    table::lemma_lookup_none_no_key(self@, k, 0);
                }
                self.entries.push((key, value));
                proof {
                    assert(self@ =~= old(self)@.push((k, v)));
                }
                true
            },
        }
    }
}

/// What the template engine produces for a template source, an escaping
/// choice and a context: the rendered text, or nothing when compilation or
/// rendering fails. The result depends on these three arguments alone.
pub uninterp spec fn engine_output(
    source: Seq<char>,
    escape_html: bool,
    context: Seq<(Seq<char>, Seq<char>)>,
) -> Option<Seq<char>>;

/// The text carried by an optional rendered string.
pub open spec fn rendered_view(r: Option<String>) -> Option<Seq<char>> {
    match r {
        Some(s) => Some(s@),
        None => None,
    }
}

/// Relies on minijinja: `Environment::render_str` compiles `source` and
/// renders it once with the given context; with a fixed auto-escape choice
/// the outcome is a function of the source, the escaping choice and the
/// context pairs alone. A failed compile or render comes back as `None`.
#[verifier::external_body]
fn engine_render(source: &str, escape_html: bool, context: &Context) -> (r: Option<String>)
    ensures
        rendered_view(r) == engine_output(source@, escape_html, context@),
{
    let mut env = minijinja::Environment::new();
    let escape = if escape_html {
        minijinja::AutoEscape::Html
    } else {
        minijinja::AutoEscape::None
    };
    env.set_auto_escape_callback(move |_| escape);
    let mut pairs = std::collections::BTreeMap::new();
    for (key, value) in context.entries.iter() {
        pairs.insert(key.clone(), value.clone());
    }
    env.render_str(source, pairs).ok()
}

/// Renders template source text with the given escape policy and context.
/// Returns `None` when the engine fails to compile or render the source.
pub fn render_source(source: &str, policy: EscapePolicy, context: &Context) -> (r: Option<
    String,
>)
    ensures
        rendered_view(r) == engine_output(source@, policy is Html, context@),
{
    let escape_html = match policy {
        EscapePolicy::Html => true,
        EscapePolicy::NoEscape => false,
    };
    engine_render(source, escape_html, context)
}

/// Renders a loaded template. A template that was not found, was absent at
/// read time, or failed to read renders as `None`; loaded source text is
/// handed to the engine.
pub fn render_loaded(
    loaded: &Result<Option<String>, TemplateReadError>,
    policy: EscapePolicy,
    context: &Context,
) -> (r: Option<String>)
    ensures
        match loaded {
            Ok(Some(s)) => rendered_view(r) == engine_output(s@, policy is Html, context@),
            _ => r is None,
        },
{
    match loaded {
        Ok(Some(source)) => render_source(source.as_str(), policy, context),
        _ => None,
    }
}

/// Law: rendering is deterministic — the same template source, escaping
/// choice and context always produce the same output, and repeated renders
/// agree.
pub proof fn lemma_render_deterministic(
    source: Seq<char>,
    escape_html: bool,
    context: Seq<(Seq<char>, Seq<char>)>,
    r1: Option<Seq<char>>,
    r2: Option<Seq<char>>,
)
    requires
        r1 == engine_output(source, escape_html, context),
        r2 == engine_output(source, escape_html, context),
    ensures
        r1 == r2,
{
}

} // verus!
