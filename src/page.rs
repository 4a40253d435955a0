use vstd::prelude::*;
use crate::stats::{after_update, update_status, StatsState, TemplateContext, STATUS_NO_CONTENT};

verus! {

#[verifier::external_type_specification]
#[verifier::external_body]
pub struct ExTera(tera::Tera);

#[verifier::external_type_specification]
#[verifier::external_body]
pub struct ExContext(tera::Context);

/// The numeric entries of a template context, by key.
pub uninterp spec fn context_numbers(c: tera::Context) -> Map<Seq<char>, int>;

/// Relies on `tera::Context::new`: a context with no entries.
#[verifier::external_body]
fn new_context() -> (r: tera::Context)
    ensures
        context_numbers(r).dom().is_empty(),
{
    tera::Context::new()
}

/// Relies on `tera::Context::insert`: the key is bound to the number,
/// replacing what it was bound to before, and no other entry changes.
#[verifier::external_body]
fn insert_number(ctx: &mut tera::Context, key: &str, value: u64)
    ensures
        context_numbers(*final(ctx)) == context_numbers(*old(ctx)).insert(key@, value as int),
{
    ctx.insert(key, &value)
}

/// The names of the templates that a registry holds.
pub uninterp spec fn template_names(t: tera::Tera) -> Set<Seq<char>>;

/// Relies on `tera::Tera::get_template`: a lookup of the name among the
/// registry's templates, which fails exactly when none has that name.
#[verifier::external_body]
fn has_template(tera: &tera::Tera, template_name: &str) -> (r: bool)
    ensures
        r == template_names(*tera).contains(template_name@),
{
    tera.get_template(template_name).is_ok()
}

/// What the template context holds for a given set of counters: each counter
/// under its own field name.
pub open spec fn page_values(stats: TemplateContext) -> Map<Seq<char>, int> {
    map![
        "message_count"@ => stats.message_count as int,
        "guild_count"@ => stats.guild_count as int,
        "user_count"@ => stats.user_count as int,
    ]
}

/// Builds the template context of a page from the counters.
pub fn page_context(stats: TemplateContext) -> (r: tera::Context)
    ensures
        context_numbers(r) == page_values(stats),
{
    let mut ctx = new_context();
    insert_number(&mut ctx, "message_count", stats.message_count);
    insert_number(&mut ctx, "guild_count", stats.guild_count as u64);
    insert_number(&mut ctx, "user_count", stats.user_count);
    proof {
        assert(context_numbers(ctx) =~= page_values(stats));
    }
    ctx
}

/// Why a page cannot be rendered.
#[derive(Clone, Copy, Debug, PartialEq, Eq, Structural)]
pub enum PageError {
    /// The registry holds no template of that name.
    Template,
}

/// Prepares the render of a page: when the registry holds the named
/// template, returns the context to render it with, built from the counters
/// that `state` holds now; otherwise `PageError::Template`. Handing the
/// context and the name to the engine's `render` gives the page.
pub fn render_page(tera: &tera::Tera, state: &StatsState, template_name: &str) -> (r: Result<
    tera::Context,
    PageError,
>)
    ensures
        r is Ok <==> template_names(*tera).contains(template_name@),
        r is Ok ==> context_numbers(r->Ok_0) == page_values(state@),
        r is Err ==> r->Err_0 == PageError::Template,
{
    if !has_template(tera, template_name) {
        return Err(PageError::Template);
    }
    Ok(page_context(state.read()))
}

/// Round trip through the shared record: after an update whose credential
/// equals the key, the counters that a page's context is built from are
/// exactly the pushed ones, and the update is answered with 204.
pub proof fn lemma_accepted_update_is_rendered(
    current: TemplateContext,
    key: Seq<char>,
    stats: TemplateContext,
)
    ensures
        page_values(after_update(current, Some(key), key, stats)) == page_values(stats),
        update_status(Some(key), key) == STATUS_NO_CONTENT,
{
}

} // verus!
