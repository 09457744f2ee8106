//! The template renderer: binds loaded data into named templates through
//! `tera` and hands back the rendered HTML text. The template set is
//! compiled by the caller before any data is read; rendering here only
//! computes on it. What a render returns depends on the compiled template
//! set, which this crate holds only as an opaque value, so nothing more
//! than the outcome's shape is promised of it.

use vstd::prelude::*;
use crate::entity::{Character, CharacterLink};
use crate::error::BuildError;
use crate::json::{array_value, link_value, string_value};

verus! {

/// `tera::Tera`: the compiled template set, built by the caller (template
/// compilation reads the template directory) and opaque to this crate.
#[verifier::external_type_specification]
#[verifier::external_body]
pub struct ExTera(tera::Tera);

/// `tera::Context`: the bindings one render call reads; opaque here.
#[verifier::external_type_specification]
#[verifier::external_body]
pub struct ExTeraContext(tera::Context);

/// `tera::Error`: the engine's own error type for a missing template, a
/// missing binding or a syntax fault; mapped to
/// [`BuildError::TemplateError`] by verified code.
#[verifier::external_type_specification]
#[verifier::external_body]
pub struct ExTeraError(tera::Error);

/// The set of binding keys a context holds: what a render against it
/// lets the template see.
pub uninterp spec fn context_keys(c: tera::Context) -> Set<Seq<char>>;

/// Relies on `tera::Context::new`: an empty set of bindings.
#[verifier::external_body]
fn context_new() -> (r: tera::Context)
    ensures
        context_keys(r) == Set::<Seq<char>>::empty(),
{
    tera::Context::new()
}

/// Relies on `tera::Context::insert`: binds the given key to the given
/// JSON value (serialized into the engine's own value type; every
/// `serde_json::Value` serializes, so the insert's documented panic on a
/// non-serializable value cannot fire), growing the bindings' key set by
/// exactly that key.
#[verifier::external_body]
fn context_insert(ctx: &mut tera::Context, key: &str, v: &serde_json::Value)
    ensures
        context_keys(*final(ctx)) == context_keys(*old(ctx)).insert(key@),
{
    ctx.insert(key.to_string(), v);
}

/// Relies on `tera::Tera::render`: renders the named template against the
/// bindings, returning the text on success and the engine's error when
/// the template is missing, a binding is missing, or rendering fails.
#[verifier::external_body]
fn tera_render(t: &tera::Tera, name: &str, ctx: &tera::Context) -> (r: Result<
    String,
    tera::Error,
>)
{
    t.render(name, ctx)
}

/// Renders one character's page: the template sees the raw frame-data
/// payload under `data` and the display name under `name`. The engine
/// decides success; a failure is reported as `TemplateError`.
pub fn render_character_page(t: &tera::Tera, character: &Character) -> (r: Result<
    String,
    BuildError,
>)
    ensures
        r matches Err(e) ==> e == BuildError::TemplateError,
{
    let mut ctx = context_new();
    context_insert(&mut ctx, "data", &character.moves);
    let name_value = string_value(character.name.as_str());
    context_insert(&mut ctx, "name", &name_value);
    proof {
        assert(context_keys(ctx) =~= set!["data"@, "name"@]);
    }
    match tera_render(t, "[character].html", &ctx) {
        Ok(html) => Ok(html),
        Err(_) => Err(BuildError::TemplateError),
    }
}

/// Renders the index page: the template sees, under `data`, one
/// `{url, name}` object per link, in the given order. The engine decides
/// success; a failure is reported as `TemplateError`.
pub fn render_index_page(t: &tera::Tera, links: &Vec<CharacterLink>) -> (r: Result<
    String,
    BuildError,
>)
    ensures
        r matches Err(e) ==> e == BuildError::TemplateError,
{
    let mut items: Vec<serde_json::Value> = Vec::new();
    let n = links.len();
    let mut i: usize = 0;
    while i < n
        invariant
            n == links@.len(),
            i <= n,
            items@.len() == i,
        decreases n - i,
    {
        let link = &links[i];
        items.push(link_value(link.url.as_str(), link.name.as_str()));
        i = i + 1;
    }
    proof {
        assert(items@.len() == links@.len());
    }
    let mut ctx = context_new();
    let data = array_value(items);
    context_insert(&mut ctx, "data", &data);
    proof {
        assert(context_keys(ctx) =~= set!["data"@]);
    }
    match tera_render(t, "index.html", &ctx) {
        Ok(html) => Ok(html),
        Err(_) => Err(BuildError::TemplateError),
    }
}

} // verus!
