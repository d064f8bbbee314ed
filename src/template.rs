use vstd::prelude::*;
use vstd::string::StringExecFns;

use crate::error::{Error, ErrorKind};
use crate::paths::is_equal;

verus! {

/// Template variables: names mapped to values. A later binding of a name
/// replaces an earlier one.
#[derive(Clone, Debug)]
pub struct VarMap {
    pairs: Vec<(String, String)>,
}

/// The mapping that a sequence of bindings makes, later ones winning.
pub open spec fn bound(pairs: Seq<(String, String)>) -> Map<Seq<char>, Seq<char>>
    decreases pairs.len(),
{
    if pairs.len() == 0 {
        Map::empty()
    } else {
        bound(pairs.drop_last()).insert(pairs.last().0@, pairs.last().1@)
    }
}

impl View for VarMap {
    type V = Map<Seq<char>, Seq<char>>;

    closed spec fn view(&self) -> Map<Seq<char>, Seq<char>> {
        bound(self.pairs@)
    }
}

/// The name under which the wallpaper's path is offered to templates.
pub open spec fn wallpaper_key() -> Seq<char> {
    seq!['w', 'a', 'l', 'l', 'p', 'a', 'p', 'e', 'r']
}

impl VarMap {
    /// No variables.
    pub fn new() -> (r: VarMap)
        ensures
            r@ == Map::<Seq<char>, Seq<char>>::empty(),
    {
        VarMap { pairs: Vec::new() }
    }

    /// Binds `name` to `value`, replacing any earlier value of `name`.
    pub fn insert(&mut self, name: String, value: String)
        ensures
            final(self)@ == old(self)@.insert(name@, value@),
    {
        let ghost before = self.pairs@;
        self.pairs.push((name, value));
        assert(self.pairs@.drop_last() =~= before);
    }

    /// The variables of a palette before its colors are added: the path of
    /// the wallpaper it is derived from.
    pub fn for_wallpaper(path: String) -> (r: VarMap)
        ensures
            r@ == Map::<Seq<char>, Seq<char>>::empty().insert(wallpaper_key(), path@),
    {
        let mut r = VarMap::new();
        proof {
            reveal_strlit("wallpaper");
        }
        let key = "wallpaper".to_owned();
        assert(key@ =~= wallpaper_key());
        r.insert(key, path);
        r
    }
}

/// Whether the template engine accepts `source` as a template.
pub uninterp spec fn compiles(source: Seq<char>) -> bool;

/// What the template engine renders from `source` with `vars`, or `None`
/// where rendering fails, as for a reference to an undefined variable.
pub uninterp spec fn rendered(source: Seq<char>, vars: Map<Seq<char>, Seq<char>>) -> Option<
    Seq<char>,
>;

/// Why the template engine produced no text, with its message.
enum TemplateFault {
    Syntax(String),
    Render(String),
}

/// Relies on `upon`: `Engine::new` with the `is_equal` filter added by
/// `Engine::add_function`, then `Engine::compile`, which succeeds exactly
/// when the source is a well-formed template, and `Template::render` with
/// `Renderer::to_string`, whose result depends on the source and the
/// variables alone.
#[verifier::external_body]
fn render_with_engine(source: &str, vars: &VarMap) -> (r: Result<String, TemplateFault>)
    ensures
        r matches Err(TemplateFault::Syntax(_)) <==> !compiles(source@),
        r matches Ok(s) ==> compiles(source@) && rendered(source@, vars@) == Some(s@),
        r matches Err(TemplateFault::Render(_)) ==> compiles(source@) && rendered(
            source@,
            vars@,
        ) is None,
{
    let mut engine = upon::Engine::new();
    engine.add_function("is_equal", |s: &str, other: &str| is_equal(s, other));
    let mut ctx = std::collections::BTreeMap::new();
    for (name, value) in &vars.pairs {
        ctx.insert(name.as_str(), value.as_str());
    }
    let template = engine.compile(source).map_err(|e| TemplateFault::Syntax(format!("{e}")))?;
    template.render(&engine, &ctx).to_string().map_err(|e| TemplateFault::Render(format!("{e}")))
}

fn context(what: &str, path: &str, reason: &str) -> (r: String)
    ensures
        r@ == what@ + path@ + ": "@ + reason@,
{
    let mut r = what.to_owned();
    r.append(path);
    r.append(": ");
    r.append(reason);
    r
}

/// Renders the template text `source`, read from `template_path`, with
/// `vars`. Fails with a syntax error where the text is not a template, and
/// with a render error where rendering fails, as on a reference to a
/// variable that `vars` lacks. The message names `template_path` and then
/// gives the engine's reason.
pub fn generate_template(template_path: &str, source: &str, vars: &VarMap) -> (r: Result<
    String,
    Error,
>)
    ensures
        r is Ok <==> compiles(source@) && rendered(source@, vars@) is Some,
        r matches Ok(s) ==> rendered(source@, vars@) == Some(s@),
        r matches Err(e) ==> (e.kind == ErrorKind::TemplateSyntax <==> !compiles(source@)),
        r matches Err(e) ==> e.kind == ErrorKind::TemplateSyntax || e.kind
            == ErrorKind::TemplateRender,
        r matches Err(e) ==> e.kind == ErrorKind::TemplateSyntax ==> exists|m: Seq<char>|
            e.ctx@ == "could not compile template "@ + template_path@ + ": "@ + m,
        r matches Err(e) ==> e.kind == ErrorKind::TemplateRender ==> exists|m: Seq<char>|
            e.ctx@ == "could not render template "@ + template_path@ + ": "@ + m,
{
    match render_with_engine(source, vars) {
        Ok(s) => Ok(s),
        Err(TemplateFault::Syntax(m)) => Err(
            Error::new(
                ErrorKind::TemplateSyntax,
                context("could not compile template ", template_path, m.as_str()),
            ),
        ),
        Err(TemplateFault::Render(m)) => Err(
            Error::new(
                ErrorKind::TemplateRender,
                context("could not render template ", template_path, m.as_str()),
            ),
        ),
    }
}

} // verus!
