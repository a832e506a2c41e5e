use vstd::prelude::*;
use crate::error::Error;
use crate::model::{EditionType, PandocInputs, Replacements, pairs_view, replacement_fields};
use crate::template::{is_renderable, may_recurse, may_recurse_through_partials, renderable_template};
use crate::text::{escape_underscores, escaped};
use std::collections::BTreeMap;

verus! {

/// The text that handlebars renders from `template` when each field name of `fields`
/// stands for its value and nothing is escaped, or `None` where it reports an error.
pub uninterp spec fn handlebars_render(template: Seq<char>, fields: Seq<(Seq<char>, Seq<char>)>) -> Option<Seq<char>>;

/// Renders `template` with handlebars (`Registry::new`, with `no_escape` as its escape
/// function, then `Registry::render_template`) on the data that maps each field name to its
/// value. The contract claims only that the outcome is the one named by `handlebars_render`
/// for these two arguments: handlebars' template language is not restated here.
/// The template must not define an inline partial that may call a partial: handlebars expands
/// one that calls itself, or two that call each other, without end. Its nesting is bounded too,
/// since handlebars renders nested blocks and subexpressions by recursion on the stack.
#[verifier::external_body]
fn render_unescaped(template: &str, fields: &Vec<(String, String)>) -> (rendered: Result<String, handlebars::RenderError>)
    requires
        renderable_template(template@),
    ensures
        match rendered {
            Ok(text) => handlebars_render(template@, pairs_view(fields@)) == Some(text@),
            Err(_) => handlebars_render(template@, pairs_view(fields@)) is None,
        },
{
    let data: BTreeMap<&str, &str> = fields.iter().map(|p| (p.0.as_str(), p.1.as_str())).collect();
    let mut registry = handlebars::Handlebars::new();
    registry.register_escape_fn(handlebars::no_escape);
    registry.render_template(template, &data)
}

/// What a rendered page becomes in an edition: underscores are escaped for the PDF typesetter,
/// an EPUB page keeps its text.
pub open spec fn finished_page(text: Seq<char>, edition: EditionType) -> Seq<char> {
    match edition {
        EditionType::Pdf => escaped(text),
        EditionType::Epub => text,
    }
}

/// The content of a page from the template engine's outcome: a render error stops the
/// build, rendered text is finished for the edition.
pub fn finish_page(rendered: Result<String, handlebars::RenderError>, edition: EditionType) -> (page: Result<String, Error>)
    ensures
        match rendered {
            Ok(text) => page matches Ok(p) && p@ == finished_page(text@, edition),
            Err(e) => page == Err::<String, Error>(Error::Handlebars(e)),
        },
{
    match rendered {
        Ok(text) => {
            if edition == EditionType::Pdf {
                Ok(escape_underscores(text.as_str()))
            } else {
                Ok(text)
            }
        },
        Err(e) => Err(Error::Handlebars(e)),
    }
}

/// Why the build refuses a template before rendering it, if it does: an inline partial that
/// may call a partial, or nesting beyond the bound.
pub open spec fn template_refusal(template: Seq<char>) -> Option<Error> {
    if may_recurse_through_partials(template) {
        Some(Error::RecursivePartials)
    } else if !renderable_template(template) {
        Some(Error::TemplateTooNested)
    } else {
        None
    }
}

/// The page that `template` gives for an edition's build, or `None` where the build fails on
/// it.
pub open spec fn replaced_page(template: Seq<char>, inputs: PandocInputs, replacements: Replacements) -> Option<Seq<char>> {
    if template_refusal(template) is Some {
        None
    } else {
        match handlebars_render(template, replacement_fields(replacements)) {
            Some(text) => Some(finished_page(text, inputs.edition.edition_type)),
            None => None,
        }
    }
}

/// Whether `e` is the error that the build stops with on `template`: its refusal, or else a
/// render error from handlebars.
pub open spec fn rendering_failure(template: Seq<char>, replacements: Replacements, e: Error) -> bool {
    match template_refusal(template) {
        Some(refused) => e == refused,
        None => handlebars_render(template, replacement_fields(replacements)) is None && e is Handlebars,
    }
}

/// The template is refused with its error, or `Ok(())` where the build renders it.
pub fn check_template(template: &str) -> (checked: Result<(), Error>)
    ensures
        match template_refusal(template@) {
            Some(e) => checked == Err::<(), Error>(e),
            None => checked is Ok,
        },
{
    if may_recurse(template) {
        Err(Error::RecursivePartials)
    } else if !is_renderable(template) {
        Err(Error::TemplateTooNested)
    } else {
        Ok(())
    }
}

/// Fills the fields of `replacements` into `content`, then escapes underscores
/// when the edition is a PDF. A template whose inline partials may call partials, or that nests
/// too deep, is refused.
pub fn apply_replacements(content: &str, inputs: &PandocInputs, replacements: Replacements) -> (page: Result<String, Error>)
    ensures
        match replaced_page(content@, *inputs, replacements) {
            Some(text) => page matches Ok(p) && p@ == text,
            None => page matches Err(e) && rendering_failure(content@, replacements, e),
        },
{
    check_template(content)?;
    let fields = replacements.fields();
    let rendered = render_unescaped(content, &fields);
    finish_page(rendered, inputs.edition.edition_type)
}

} // verus!
