use vstd::prelude::*;

verus! {

/// The error that the template engine reports when a template cannot be rendered.
#[verifier::external_type_specification]
#[verifier::external_body]
pub struct ExRenderError(handlebars::RenderError);

/// What can stop the build of a book.
#[derive(Debug)]
pub enum Error {
    /// The cover image named in the book's metadata is not there (its path).
    MissingCover(String),
    /// A PDF edition takes no style sheet.
    NoCssForPdf,
    /// A page template could not be rendered.
    Handlebars(handlebars::RenderError),
    /// A page template defines an inline partial that may call a partial.
    RecursivePartials,
    /// A page template nests deeper than the build renders.
    TemplateTooNested,
}

} // verus!
