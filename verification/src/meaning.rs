use vstd::prelude::*;
use crate::edition::{
    Assets, MetadataDocument, filter_content, filter_file_name, is_metadata_document,
    metadata_file_name,
};
use crate::laws::replacement_names_are_distinct;
use crate::model::{
    EditionType, FilterType, MetadataType, PageType, PandocInputs, Replacements,
    replacement_fields, replacements_of,
};
use crate::pages::{PageSet, PageTemplates, edition_pages, page_file_name, page_template};
use crate::paths::joined;
use crate::plan::{
    EpubBuild, PdfBuild, editions_pattern_of, is_epub_build, is_pdf_build, pdf_engine,
    pdf_template,
};
use crate::edition::epub_css_path;
use crate::error::Error;
use crate::render::{finished_page, handlebars_render, replaced_page, template_refusal};
use crate::template::{MAX_NESTING_DEPTH, may_recurse_through_partials, nesting_depth};
use crate::text::{escaped, framed_yaml, set_marker};

verus! {

/// Each special page is rendered from the template of its own name in the set.
pub proof fn each_page_has_its_own_template(set: PageSet)
    ensures
        page_template(set, PageType::Copyright) == set.copyright@,
        page_template(set, PageType::Cover) == set.cover@,
        page_template(set, PageType::Dedication) == set.dedication@,
        page_template(set, PageType::Empty) == set.empty@,
        page_template(set, PageType::Epigraph) == set.epigraph@,
        page_template(set, PageType::Foreword) == set.foreword@,
        page_template(set, PageType::HalfTitle) == set.half_title@,
        page_template(set, PageType::Preface) == set.preface@,
        page_template(set, PageType::Title) == set.title@,
{
}

/// An EPUB edition takes its pages from the EPUB templates, a PDF edition from the PDF ones.
pub proof fn each_edition_has_its_own_templates(templates: PageTemplates)
    ensures
        edition_pages(templates, EditionType::Epub) == templates.epub,
        edition_pages(templates, EditionType::Pdf) == templates.pdf,
{
}

/// Each special page is written to the Markdown file of its own name.
pub proof fn each_page_has_its_own_file()
    ensures
        page_file_name(PageType::Copyright) == "copyright.md"@,
        page_file_name(PageType::Cover) == "cover.md"@,
        page_file_name(PageType::Dedication) == "dedication.md"@,
        page_file_name(PageType::Empty) == "empty.md"@,
        page_file_name(PageType::Epigraph) == "epigraph.md"@,
        page_file_name(PageType::Foreword) == "foreword.md"@,
        page_file_name(PageType::HalfTitle) == "half_title.md"@,
        page_file_name(PageType::Preface) == "preface.md"@,
        page_file_name(PageType::Title) == "title.md"@,
{
}

/// Each metadata document and the filter are written to the file of their own name.
pub proof fn each_support_file_has_its_own_name()
    ensures
        metadata_file_name(MetadataType::Date) == "date.yml"@,
        metadata_file_name(MetadataType::Epub) == "epub.yml"@,
        metadata_file_name(MetadataType::Pdf) == "pdf.yml"@,
        filter_file_name(FilterType::SpecialPages) == "special_pages.lua"@,
{
}

/// Each replacement is copied from the input field it is named after, whatever it holds.
pub proof fn each_replacement_comes_from_its_own_input(inputs: PandocInputs)
    ensures
        replacements_of(inputs).title == inputs.metadata.title,
        replacements_of(inputs).author == inputs.metadata.author,
        replacements_of(inputs).series == inputs.metadata.series,
        replacements_of(inputs).copyright_year == inputs.edition.copyright_year,
        replacements_of(inputs).legal_deposit == inputs.edition.legal_deposit,
        replacements_of(inputs).isbn_number == inputs.edition.isbn,
        replacements_of(inputs).cover_path == inputs.cover_path,
        replacements_of(inputs).foreword == inputs.edition.foreword,
        replacements_of(inputs).dedication == inputs.edition.dedication,
        replacements_of(inputs).publisher == inputs.edition.publisher,
        replacements_of(inputs).epigraph == inputs.edition.epigraph,
        replacements_of(inputs).preface == inputs.edition.preface,
{
}

/// The value that a template finds under a field's name is the value of that very field.
pub proof fn templates_see_each_field_under_its_name(r: Replacements)
    ensures
        replacement_fields(r).len() == 12,
        forall|i: int| 0 <= i < 12 ==> {
            let (name, value) = #[trigger] replacement_fields(r)[i];
            &&& name == "title"@ ==> value == r.title@
            &&& name == "author"@ ==> value == r.author@
            &&& name == "series"@ ==> value == r.series@
            &&& name == "copyright_year"@ ==> value == r.copyright_year@
            &&& name == "legal_deposit"@ ==> value == r.legal_deposit@
            &&& name == "isbn_number"@ ==> value == r.isbn_number@
            &&& name == "cover_path"@ ==> value == r.cover_path@
            &&& name == "foreword"@ ==> value == r.foreword@
            &&& name == "dedication"@ ==> value == r.dedication@
            &&& name == "publisher"@ ==> value == r.publisher@
            &&& name == "epigraph"@ ==> value == r.epigraph@
            &&& name == "preface"@ ==> value == r.preface@
        },
        exists|i: int| 0 <= i < 12 && #[trigger] replacement_fields(r)[i].0 == "foreword"@,
{
    let f = replacement_fields(r);
    assert forall|i: int| 0 <= i < 12 implies {
        let (name, value) = #[trigger] f[i];
        &&& name == "title"@ ==> value == r.title@
        &&& name == "author"@ ==> value == r.author@
        &&& name == "series"@ ==> value == r.series@
        &&& name == "copyright_year"@ ==> value == r.copyright_year@
        &&& name == "legal_deposit"@ ==> value == r.legal_deposit@
        &&& name == "isbn_number"@ ==> value == r.isbn_number@
        &&& name == "cover_path"@ ==> value == r.cover_path@
        &&& name == "foreword"@ ==> value == r.foreword@
        &&& name == "dedication"@ ==> value == r.dedication@
        &&& name == "publisher"@ ==> value == r.publisher@
        &&& name == "epigraph"@ ==> value == r.epigraph@
        &&& name == "preface"@ ==> value == r.preface@
    } by {
        if i != 0 {
            replacement_names_are_distinct(r, i, 0);
        }
        if i != 1 {
            replacement_names_are_distinct(r, i, 1);
        }
        if i != 2 {
            replacement_names_are_distinct(r, i, 2);
        }
        if i != 3 {
            replacement_names_are_distinct(r, i, 3);
        }
        if i != 4 {
            replacement_names_are_distinct(r, i, 4);
        }
        if i != 5 {
            replacement_names_are_distinct(r, i, 5);
        }
        if i != 6 {
            replacement_names_are_distinct(r, i, 6);
        }
        if i != 7 {
            replacement_names_are_distinct(r, i, 7);
        }
        if i != 8 {
            replacement_names_are_distinct(r, i, 8);
        }
        if i != 9 {
            replacement_names_are_distinct(r, i, 9);
        }
        if i != 10 {
            replacement_names_are_distinct(r, i, 10);
        }
        if i != 11 {
            replacement_names_are_distinct(r, i, 11);
        }
        assert(f[0].0 == "title"@);
        assert(f[1].0 == "author"@);
        assert(f[2].0 == "series"@);
        assert(f[3].0 == "copyright_year"@);
        assert(f[4].0 == "legal_deposit"@);
        assert(f[5].0 == "isbn_number"@);
        assert(f[6].0 == "cover_path"@);
        assert(f[7].0 == "foreword"@);
        assert(f[8].0 == "dedication"@);
        assert(f[9].0 == "publisher"@);
        assert(f[10].0 == "epigraph"@);
        assert(f[11].0 == "preface"@);
    }
    assert(f[7].0 == "foreword"@);
}

/// A metadata document holds what the book and edition say: the EPUB one has the book's whole
/// title as its one main title and the book's author as its one author, in French; the date one
/// has the edition's date; the PDF one has the page geometry.
pub proof fn metadata_documents_carry_the_book(doc: MetadataDocument, kind: MetadataType, inputs: PandocInputs)
    requires
        is_metadata_document(doc, kind, inputs),
    ensures
        kind == MetadataType::Date ==> (doc matches MetadataDocument::Date(d) && d.date@ == inputs.edition.date@),
        kind == MetadataType::Epub ==> (doc matches MetadataDocument::Epub(e) && {
            &&& e.title@.len() == 1
            &&& e.title@[0].text@ == inputs.metadata.title@
            &&& e.title@[0].title_type@ == "main"@
            &&& e.creator@.len() == 1
            &&& e.creator@[0].text@ == inputs.metadata.author@
            &&& e.creator@[0].role@ == "author"@
            &&& e.language@ == "fr-FR"@
        }),
        kind == MetadataType::Pdf ==> (doc matches MetadataDocument::Pdf(p)
            && p.geometry@ == "left=2.5cm,right=2.5cm,top=2cm,bottom=2cm"@),
{
}

/// A name joined onto a directory always ends the result.
pub proof fn joined_ends_with_name(dir: Seq<char>, name: Seq<char>)
    ensures
        name.is_suffix_of(joined(dir, name)),
{
    let j = joined(dir, name);
    if name.len() > 0 && name[0] == '/' {
        assert(j.subrange(0, j.len() as int) =~= j);
    } else if dir.len() == 0 || dir.last() == '/' {
        assert(j =~= dir + name);
        assert(j.subrange(j.len() - name.len(), j.len() as int) =~= name);
    } else {
        assert(j =~= dir + seq!['/'] + name);
        assert(j.subrange(j.len() - name.len(), j.len() as int) =~= name);
    }
}

/// The EPUB file of an edition is the book's whole file name with `.epub`, in the `output`
/// directory of the edition; its metadata files are `epub.yml` then `date.yml` there, and its
/// chapters are the Markdown files under the book's `chapters` directory.
pub proof fn epub_build_writes_where_the_book_says(b: EpubBuild, inputs: PandocInputs, templates: PageTemplates, assets: Assets)
    requires
        is_epub_build(b, inputs, templates, assets),
    ensures
        b.output_dir@ == joined(inputs.edition_path@, "output"@),
        b.epub_path@ == joined(joined(inputs.edition_path@, "output"@), inputs.metadata.filename@ + ".epub"@),
        (inputs.metadata.filename@ + ".epub"@).is_suffix_of(b.epub_path@),
        b.metadata@.len() == 2,
        b.metadata@[0].path@ == joined(joined(inputs.edition_path@, "output"@), "epub.yml"@),
        b.metadata@[1].path@ == joined(joined(inputs.edition_path@, "output"@), "date.yml"@),
        b.chapters_pattern@ == joined(inputs.book_path@, "chapters"@) + "/**/*.md"@,
        b.css_file.content@ == assets.epub_blitz_css@ + assets.epub_style_css@,
        b.css_file.path@ == "/tmp/koob_epub_style.css"@,
        b.metadata@[0].document matches MetadataDocument::Epub(e) && e.title@[0].text@ == inputs.metadata.title@,
        b.metadata@[1].document matches MetadataDocument::Date(d) && d.date@ == inputs.edition.date@,
{
    joined_ends_with_name(joined(inputs.edition_path@, "output"@), inputs.metadata.filename@ + ".epub"@);
    assert(b.metadata@[0] == b.metadata@[0]);
    assert(b.metadata@[1] == b.metadata@[1]);
    metadata_documents_carry_the_book(b.metadata@[0].document, MetadataType::Epub, inputs);
    metadata_documents_carry_the_book(b.metadata@[1].document, MetadataType::Date, inputs);
}

/// The PDF file of an edition is the book's whole file name with `.pdf`, in the `output`
/// directory of the edition; its metadata files are `pdf.yml` then `date.yml` there, its filter
/// is `special_pages.lua` there and holds the PDF filter, and its chapters are the Markdown
/// files under the book's `chapters` directory.
pub proof fn pdf_build_writes_where_the_book_says(b: PdfBuild, inputs: PandocInputs, templates: PageTemplates, assets: Assets)
    requires
        is_pdf_build(b, inputs, templates, assets),
        inputs.edition.edition_type == EditionType::Pdf,
    ensures
        b.output_dir@ == joined(inputs.edition_path@, "output"@),
        b.pdf_path@ == joined(joined(inputs.edition_path@, "output"@), inputs.metadata.filename@ + ".pdf"@),
        (inputs.metadata.filename@ + ".pdf"@).is_suffix_of(b.pdf_path@),
        b.metadata@.len() == 2,
        b.metadata@[0].path@ == joined(joined(inputs.edition_path@, "output"@), "pdf.yml"@),
        b.metadata@[1].path@ == joined(joined(inputs.edition_path@, "output"@), "date.yml"@),
        b.filter.path@ == joined(joined(inputs.edition_path@, "output"@), "special_pages.lua"@),
        b.filter.content@ == assets.pdf_special_pages_lua@,
        b.chapters_pattern@ == joined(inputs.book_path@, "chapters"@) + "/**/*.md"@,
        b.metadata@[0].document matches MetadataDocument::Pdf(p)
            && p.geometry@ == "left=2.5cm,right=2.5cm,top=2cm,bottom=2cm"@,
        b.metadata@[1].document matches MetadataDocument::Date(d) && d.date@ == inputs.edition.date@,
{
    joined_ends_with_name(joined(inputs.edition_path@, "output"@), inputs.metadata.filename@ + ".pdf"@);
    assert(b.metadata@[0] == b.metadata@[0]);
    assert(b.metadata@[1] == b.metadata@[1]);
    metadata_documents_carry_the_book(b.metadata@[0].document, MetadataType::Pdf, inputs);
    metadata_documents_carry_the_book(b.metadata@[1].document, MetadataType::Date, inputs);
}

/// The special-pages filter is empty for an EPUB edition and the PDF filter for a PDF one.
pub proof fn filter_follows_the_edition(assets: Assets)
    ensures
        filter_content(FilterType::SpecialPages, EditionType::Epub, assets) == Seq::<char>::empty(),
        filter_content(FilterType::SpecialPages, EditionType::Pdf, assets) == assets.pdf_special_pages_lua@,
{
}

/// Joining a relative name onto a directory puts exactly one `/` between them: none is added
/// when the directory already ends in one, and an empty directory adds nothing. An absolute
/// name stands alone.
pub proof fn joining_puts_one_separator(dir: Seq<char>, name: Seq<char>)
    ensures
        name.len() > 0 && name[0] == '/' ==> joined(dir, name) == name,
        !(name.len() > 0 && name[0] == '/') && dir.len() == 0 ==> joined(dir, name) == name,
        !(name.len() > 0 && name[0] == '/') && dir.len() > 0 && dir.last() == '/'
            ==> joined(dir, name) == dir + name,
        !(name.len() > 0 && name[0] == '/') && dir.len() > 0 && dir.last() != '/'
            ==> joined(dir, name) == dir.push('/') + name,
{
    assert(dir + Seq::<char>::empty().push('/') =~= dir.push('/'));
    if !(name.len() > 0 && name[0] == '/') && dir.len() == 0 {
        assert(dir + name =~= name);
    }
}

/// An empty field is shown as nothing, a filled one as a mark.
pub proof fn marker_shows_whether_filled(value: Seq<char>)
    ensures
        set_marker(value).len() == 0 <==> value.len() == 0,
        value.len() > 0 ==> set_marker(value) == seq!['✅'],
{
}

/// A framed YAML document is `---` and a new line, the body, then `...`.
pub proof fn framing_wraps_the_body(body: Seq<char>)
    ensures
        framed_yaml(body).len() == body.len() + 7,
        framed_yaml(body).subrange(0, 4) == seq!['-', '-', '-', '\n'],
        framed_yaml(body).subrange(4, body.len() + 4 as int) == body,
        framed_yaml(body).subrange(body.len() + 4 as int, body.len() + 7 as int) == seq!['.', '.', '.'],
{
    let f = framed_yaml(body);
    assert(f.subrange(0, 4) =~= seq!['-', '-', '-', '\n']);
    assert(f.subrange(4, body.len() + 4 as int) =~= body);
    assert(f.subrange(body.len() + 4 as int, body.len() + 7 as int) =~= seq!['.', '.', '.']);
}

/// The editions of a book are the `edition.yml` files anywhere under its directory; the EPUB
/// style sheet goes to one fixed file; PDFs are made by typst with the book template.
pub proof fn fixed_places_and_tools(book_path: Seq<char>)
    ensures
        editions_pattern_of(book_path) == book_path + "/**/edition.yml"@,
        epub_css_path() == "/tmp/koob_epub_style.css"@,
        pdf_engine() == "typst"@,
        pdf_template() == "templates/template.typ"@,
{
}

/// An EPUB page is the rendered text as it is; a PDF page is it with each underscore escaped.
pub proof fn pages_follow_their_edition(text: Seq<char>)
    ensures
        finished_page(text, EditionType::Epub) == text,
        finished_page(text, EditionType::Pdf) == escaped(text),
{
}

/// A template is refused exactly when its inline partials may call a partial (which is then the
/// error) or when it nests deeper than the bound; every other template gives what handlebars
/// renders, finished for the edition, or nothing where handlebars fails.
pub proof fn refusals_are_exactly_the_unsafe_templates(t: Seq<char>, inputs: PandocInputs, r: Replacements)
    ensures
        may_recurse_through_partials(t) ==> template_refusal(t) == Some(Error::RecursivePartials),
        !may_recurse_through_partials(t) && nesting_depth(t) > MAX_NESTING_DEPTH
            ==> template_refusal(t) == Some(Error::TemplateTooNested),
        !may_recurse_through_partials(t) && nesting_depth(t) <= MAX_NESTING_DEPTH ==> {
            &&& template_refusal(t) is None
            &&& replaced_page(t, inputs, r) == match handlebars_render(t, replacement_fields(r)) {
                Some(text) => Some(finished_page(text, inputs.edition.edition_type)),
                None => None::<Seq<char>>,
            }
        },
{
}

} // verus!
