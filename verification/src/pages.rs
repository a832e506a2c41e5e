use vstd::prelude::*;
use crate::error::Error;
use crate::model::{EditionType, PageType, PandocInputs, Replacements, replacements_of};
use crate::paths::{join_path, joined};
use crate::render::{apply_replacements, replaced_page, rendering_failure};

verus! {

/// The template of each special page, for one kind of edition.
#[derive(Debug)]
pub struct PageSet {
    pub copyright: String,
    pub cover: String,
    pub dedication: String,
    pub empty: String,
    pub epigraph: String,
    pub foreword: String,
    pub half_title: String,
    pub preface: String,
    pub title: String,
}

/// The templates of the special pages of both kinds of edition.
#[derive(Debug)]
pub struct PageTemplates {
    pub epub: PageSet,
    pub pdf: PageSet,
}

/// A file that the build writes: where, and what it holds.
#[derive(Debug)]
pub struct GeneratedFile {
    pub path: String,
    pub content: String,
}

/// The name of the file that a special page is written to.
pub open spec fn page_file_name(page: PageType) -> Seq<char> {
    match page {
        PageType::Foreword => "foreword.md"@,
        PageType::Empty => "empty.md"@,
        PageType::Cover => "cover.md"@,
        PageType::Dedication => "dedication.md"@,
        PageType::Epigraph => "epigraph.md"@,
        PageType::HalfTitle => "half_title.md"@,
        PageType::Copyright => "copyright.md"@,
        PageType::Preface => "preface.md"@,
        PageType::Title => "title.md"@,
    }
}

/// The templates of one kind of edition.
pub open spec fn edition_pages(templates: PageTemplates, edition: EditionType) -> PageSet {
    match edition {
        EditionType::Epub => templates.epub,
        EditionType::Pdf => templates.pdf,
    }
}

/// The template of one special page in a set.
pub open spec fn page_template(set: PageSet, page: PageType) -> Seq<char> {
    match page {
        PageType::Copyright => set.copyright@,
        PageType::Cover => set.cover@,
        PageType::Dedication => set.dedication@,
        PageType::Empty => set.empty@,
        PageType::Epigraph => set.epigraph@,
        PageType::Foreword => set.foreword@,
        PageType::HalfTitle => set.half_title@,
        PageType::Preface => set.preface@,
        PageType::Title => set.title@,
    }
}

/// The name of the file that `page` is written to.
pub fn page_file(page: &PageType) -> (name: &'static str)
    ensures
        name@ == page_file_name(*page),
{
    proof {
        reveal_strlit("foreword.md");
        reveal_strlit("empty.md");
        reveal_strlit("cover.md");
        reveal_strlit("dedication.md");
        reveal_strlit("epigraph.md");
        reveal_strlit("half_title.md");
        reveal_strlit("copyright.md");
        reveal_strlit("preface.md");
        reveal_strlit("title.md");
    }
    match page {
        PageType::Foreword => "foreword.md",
        PageType::Empty => "empty.md",
        PageType::Cover => "cover.md",
        PageType::Dedication => "dedication.md",
        PageType::Epigraph => "epigraph.md",
        PageType::HalfTitle => "half_title.md",
        PageType::Copyright => "copyright.md",
        PageType::Preface => "preface.md",
        PageType::Title => "title.md",
    }
}

impl PageSet {
    /// The template of `page` in this set.
    pub fn template(&self, page: &PageType) -> (t: &str)
        ensures
            t@ == page_template(*self, *page),
    {
        match page {
            PageType::Copyright => self.copyright.as_str(),
            PageType::Cover => self.cover.as_str(),
            PageType::Dedication => self.dedication.as_str(),
            PageType::Empty => self.empty.as_str(),
            PageType::Epigraph => self.epigraph.as_str(),
            PageType::Foreword => self.foreword.as_str(),
            PageType::HalfTitle => self.half_title.as_str(),
            PageType::Preface => self.preface.as_str(),
            PageType::Title => self.title.as_str(),
        }
    }
}

impl PageTemplates {
    /// The template of `page` for the kind of edition `edition`.
    pub fn template_for(&self, page: &PageType, edition: EditionType) -> (t: &str)
        ensures
            t@ == page_template(edition_pages(*self, edition), *page),
    {
        match edition {
            EditionType::Epub => self.epub.template(page),
            EditionType::Pdf => self.pdf.template(page),
        }
    }
}

/// The special page `page` of the edition of `inputs`: written as its file name in
/// `output_path`, holding its edition's template with the edition's fields filled in.
pub fn make_page(page: &PageType, inputs: &PandocInputs, output_path: &str, templates: &PageTemplates) -> (file: Result<GeneratedFile, Error>)
    ensures
        match replaced_page(
            page_template(edition_pages(*templates, inputs.edition.edition_type), *page),
            *inputs,
            replacements_of(*inputs),
        ) {
            Some(text) => file matches Ok(f)
                && f.path@ == joined(output_path@, page_file_name(*page))
                && f.content@ == text,
            None => file matches Err(e) && rendering_failure(
                page_template(edition_pages(*templates, inputs.edition.edition_type), *page),
                replacements_of(*inputs),
                e,
            ),
        },
{
    let template = templates.template_for(page, inputs.edition.edition_type);
    let filename = page_file(page);
    let path = join_path(output_path, filename);
    let content = apply_replacements(template, inputs, Replacements::from_inputs(inputs))?;
    Ok(GeneratedFile { path, content })
}

} // verus!
