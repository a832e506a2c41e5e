use vstd::prelude::*;
use crate::edition::{
    Assets, MetadataFile, PandocOpt, epub_css_path, is_metadata_document, make_css_options,
    make_filter, make_metadata, metadata_file_name, filter_content, filter_file_name,
};
use crate::error::Error;
use crate::model::{EditionType, FilterType, Metadata, MetadataType, PandocInputs, replacements_of};
use crate::pages::{GeneratedFile, PageTemplates, edition_pages, make_page, page_file_name, page_template};
use crate::paths::{join_path, joined};
use crate::render::{replaced_page, rendering_failure};

verus! {

/// The outcome of rendering special page `page` for the edition of `inputs`.
pub open spec fn page_outcome(inputs: PandocInputs, templates: PageTemplates, page: crate::model::PageType) -> Option<Seq<char>> {
    replaced_page(
        page_template(edition_pages(templates, inputs.edition.edition_type), page),
        inputs,
        replacements_of(inputs),
    )
}

/// Whether every special page of the edition renders.
pub open spec fn pages_render(inputs: PandocInputs, templates: PageTemplates) -> bool {
    forall|i: int| 0 <= i < inputs.edition.pages@.len()
        ==> (#[trigger] page_outcome(inputs, templates, inputs.edition.pages@[i])) is Some
}

/// Whether `files` are the special pages of the edition, in the edition's order, in `output`.
pub open spec fn pages_made(files: Seq<GeneratedFile>, inputs: PandocInputs, output: Seq<char>, templates: PageTemplates) -> bool {
    &&& files.len() == inputs.edition.pages@.len()
    &&& forall|i: int| 0 <= i < files.len() ==> {
        &&& (#[trigger] files[i]).path@ == joined(output, page_file_name(inputs.edition.pages@[i]))
        &&& page_outcome(inputs, templates, inputs.edition.pages@[i]) == Some(files[i].content@)
    }
}

/// Whether `e` is what stops the special pages of the edition: the error of the first page,
/// in the edition's order, that does not render.
pub open spec fn pages_failure(inputs: PandocInputs, templates: PageTemplates, e: Error) -> bool {
    exists|i: int| #![trigger inputs.edition.pages@[i]]
        0 <= i < inputs.edition.pages@.len()
        && (forall|j: int| 0 <= j < i ==> (#[trigger] page_outcome(inputs, templates, inputs.edition.pages@[j])) is Some)
        && page_outcome(inputs, templates, inputs.edition.pages@[i]) is None
        && rendering_failure(
            page_template(edition_pages(templates, inputs.edition.edition_type), inputs.edition.pages@[i]),
            replacements_of(inputs),
            e,
        )
}

/// The special pages of the edition, in the order the edition lists them.
pub fn make_pages(inputs: &PandocInputs, output_path: &str, templates: &PageTemplates) -> (made: Result<Vec<GeneratedFile>, Error>)
    ensures
        made is Ok <==> pages_render(*inputs, *templates),
        made matches Ok(files) ==> pages_made(files@, *inputs, output_path@, *templates),
        made matches Err(e) ==> pages_failure(*inputs, *templates, e),
{
    let mut files: Vec<GeneratedFile> = Vec::new();
    let n = inputs.edition.pages.len();
    for i in 0..n
        invariant
            n == inputs.edition.pages@.len(),
            files@.len() == i,
            forall|j: int| 0 <= j < i ==> (#[trigger] page_outcome(*inputs, *templates, inputs.edition.pages@[j])) is Some,
            forall|j: int| 0 <= j < i ==> {
                &&& (#[trigger] files@[j]).path@ == joined(output_path@, page_file_name(inputs.edition.pages@[j]))
                &&& page_outcome(*inputs, *templates, inputs.edition.pages@[j]) == Some(files@[j].content@)
            },
    {
        match make_page(&inputs.edition.pages[i], inputs, output_path, templates) {
            Ok(file) => {
                files.push(file);
            },
            Err(e) => {
                assert(page_outcome(*inputs, *templates, inputs.edition.pages@[i as int]) is None);
                assert(pages_failure(*inputs, *templates, e));
                return Err(e);
            },
        }
    }
    Ok(files)
}

/// The directory that an edition's build writes into.
pub open spec fn output_dir_of(edition_path: Seq<char>) -> Seq<char> {
    joined(edition_path, "output"@)
}

/// The glob pattern of the chapters of a book.
pub open spec fn chapters_pattern_of(book_path: Seq<char>) -> Seq<char> {
    joined(book_path, "chapters"@) + "/**/*.md"@
}

/// The glob pattern of the editions of a book.
pub open spec fn editions_pattern_of(book_path: Seq<char>) -> Seq<char> {
    book_path + "/**/edition.yml"@
}

/// The paths of some files.
pub open spec fn paths_of(files: Seq<GeneratedFile>) -> Seq<Seq<char>> {
    files.map_values(|f: GeneratedFile| f.path@)
}

/// The paths of some metadata files.
pub open spec fn metadata_paths_of(files: Seq<MetadataFile>) -> Seq<Seq<char>> {
    files.map_values(|f: MetadataFile| f.path@)
}

/// Some strings by their views.
pub open spec fn strings_view(v: Seq<String>) -> Seq<Seq<char>> {
    v.map_values(|s: String| s@)
}

/// The directory that the build of an edition writes into: `output` in the edition's directory.
pub fn output_dir(edition_path: &str) -> (dir: String)
    ensures
        dir@ == output_dir_of(edition_path@),
{
    join_path(edition_path, "output")
}

/// The glob pattern that finds the chapters of a book: every Markdown file under its
/// `chapters` directory.
pub fn chapters_pattern(book_path: &str) -> (pattern: String)
    ensures
        pattern@ == chapters_pattern_of(book_path@),
{
    let mut pattern = join_path(book_path, "chapters");
    pattern.append("/**/*.md");
    pattern
}

/// The glob pattern that finds the editions of a book: every `edition.yml` under its directory.
pub fn editions_pattern(book_path: &str) -> (pattern: String)
    ensures
        pattern@ == editions_pattern_of(book_path@),
{
    String::from_str(book_path).concat("/**/edition.yml")
}

/// The path of the cover image that the book's metadata names, from the book's directory.
pub fn cover_location(book_path: &str, metadata: &Metadata) -> (path: String)
    ensures
        path@ == joined(book_path@, metadata.cover@),
{
    join_path(book_path, metadata.cover.as_str())
}

/// The cover image is required: a book whose cover is not there is refused, with its path.
pub fn check_cover(cover_path: String, exists: bool) -> (checked: Result<String, Error>)
    ensures
        exists ==> checked == Ok::<String, Error>(cover_path),
        !exists ==> checked == Err::<String, Error>(Error::MissingCover(cover_path)),
{
    if exists {
        Ok(cover_path)
    } else {
        Err(Error::MissingCover(cover_path))
    }
}

} // verus!

verus! {

/// How the converter is to be run: its Markdown input files in order, the file it writes,
/// the kind of document it makes, and its further options and named arguments.
#[derive(Debug)]
pub struct PandocJob {
    pub inputs: Vec<String>,
    pub output: String,
    pub format: EditionType,
    pub options: Vec<PandocOpt>,
    pub args: Vec<(String, String)>,
}

/// Everything that the build of an EPUB edition writes before it runs the converter.
#[derive(Debug)]
pub struct EpubBuild {
    pub output_dir: String,
    pub epub_path: String,
    pub css_file: GeneratedFile,
    pub css_options: Vec<PandocOpt>,
    pub metadata: Vec<MetadataFile>,
    pub pages: Vec<GeneratedFile>,
    pub chapters_pattern: String,
}

/// Everything that the build of a PDF edition writes before it runs the converter.
#[derive(Debug)]
pub struct PdfBuild {
    pub output_dir: String,
    pub pdf_path: String,
    pub filter: GeneratedFile,
    pub metadata: Vec<MetadataFile>,
    pub pages: Vec<GeneratedFile>,
    pub chapters_pattern: String,
}

/// The output file of an edition: the book's file name with `extension`, in `output`.
pub open spec fn target_of(output: Seq<char>, metadata: Metadata, extension: Seq<char>) -> Seq<char> {
    joined(output, metadata.filename@ + extension)
}

/// Whether `metas` are the metadata files of the kinds `kinds`, in that order, in `output`.
pub open spec fn metadata_made(metas: Seq<MetadataFile>, kinds: Seq<MetadataType>, inputs: PandocInputs, output: Seq<char>) -> bool {
    &&& metas.len() == kinds.len()
    &&& forall|i: int| 0 <= i < metas.len() ==> {
        &&& (#[trigger] metas[i]).path@ == joined(output, metadata_file_name(kinds[i]))
        &&& is_metadata_document(metas[i].document, kinds[i], inputs)
    }
}

/// Whether `b` is the build of the EPUB edition of `inputs`: its output directory and file,
/// its style sheet, its EPUB and date metadata, its special pages and where its chapters are.
pub open spec fn is_epub_build(b: EpubBuild, inputs: PandocInputs, templates: PageTemplates, assets: Assets) -> bool {
    let out = output_dir_of(inputs.edition_path@);
    &&& b.output_dir@ == out
    &&& b.epub_path@ == target_of(out, inputs.metadata, ".epub"@)
    &&& b.css_file.path@ == epub_css_path()
    &&& b.css_file.content@ == assets.epub_blitz_css@ + assets.epub_style_css@
    &&& b.css_options@.len() == 1
    &&& (b.css_options@[0] matches PandocOpt::Css(p) && p@ == epub_css_path())
    &&& metadata_made(b.metadata@, seq![MetadataType::Epub, MetadataType::Date], inputs, out)
    &&& pages_made(b.pages@, inputs, out, templates)
    &&& b.chapters_pattern@ == chapters_pattern_of(inputs.book_path@)
}

/// Whether `b` is the build of the PDF edition of `inputs`: its output directory and file,
/// its special-pages filter, its PDF and date metadata, its special pages and where its
/// chapters are.
pub open spec fn is_pdf_build(b: PdfBuild, inputs: PandocInputs, templates: PageTemplates, assets: Assets) -> bool {
    let out = output_dir_of(inputs.edition_path@);
    &&& b.output_dir@ == out
    &&& b.pdf_path@ == target_of(out, inputs.metadata, ".pdf"@)
    &&& b.filter.path@ == joined(out, filter_file_name(FilterType::SpecialPages))
    &&& b.filter.content@ == filter_content(FilterType::SpecialPages, inputs.edition.edition_type, assets)
    &&& metadata_made(b.metadata@, seq![MetadataType::Pdf, MetadataType::Date], inputs, out)
    &&& pages_made(b.pages@, inputs, out, templates)
    &&& b.chapters_pattern@ == chapters_pattern_of(inputs.book_path@)
}

/// The build of an EPUB edition: its output directory and file, its style sheet, its EPUB and
/// date metadata, its special pages and where its chapters are. A PDF edition is refused for
/// want of a style sheet; a page that does not render stops the build.
pub fn make_epub(inputs: &PandocInputs, templates: &PageTemplates, assets: &Assets) -> (built: Result<EpubBuild, Error>)
    ensures
        inputs.edition.edition_type == EditionType::Pdf ==> built matches Err(Error::NoCssForPdf),
        inputs.edition.edition_type == EditionType::Epub ==> (built is Ok <==> pages_render(*inputs, *templates)),
        built matches Ok(b) ==> is_epub_build(b, *inputs, *templates, *assets),
        inputs.edition.edition_type == EditionType::Epub ==> (built matches Err(e) ==> pages_failure(*inputs, *templates, e)),
{
    let out = output_dir(inputs.edition_path.as_str());
    let mut epub_name = inputs.metadata.filename.clone();
    epub_name.append(".epub");
    proof {
        reveal_strlit(".epub");
    }
    let epub_path = join_path(out.as_str(), epub_name.as_str());
    let css = make_css_options(inputs, assets)?;
    let mut metadata: Vec<MetadataFile> = Vec::new();
    metadata.push(make_metadata(MetadataType::Epub, inputs, out.as_str()));
    metadata.push(make_metadata(MetadataType::Date, inputs, out.as_str()));
    let pages = make_pages(inputs, out.as_str(), templates)?;
    let chapters = chapters_pattern(inputs.book_path.as_str());
    Ok(EpubBuild {
        output_dir: out,
        epub_path,
        css_file: css.file,
        css_options: css.options,
        metadata,
        pages,
        chapters_pattern: chapters,
    })
}

} // verus!

verus! {

/// The build of a PDF edition: its output directory and file, its special-pages filter, its
/// PDF and date metadata, its special pages and where its chapters are. A page that does not
/// render stops the build.
pub fn make_pdf(inputs: &PandocInputs, templates: &PageTemplates, assets: &Assets) -> (built: Result<PdfBuild, Error>)
    ensures
        built is Ok <==> pages_render(*inputs, *templates),
        built matches Ok(b) ==> is_pdf_build(b, *inputs, *templates, *assets),
        built matches Err(e) ==> pages_failure(*inputs, *templates, e),
{
    let out = output_dir(inputs.edition_path.as_str());
    let mut pdf_name = inputs.metadata.filename.clone();
    pdf_name.append(".pdf");
    proof {
        reveal_strlit(".pdf");
    }
    let pdf_path = join_path(out.as_str(), pdf_name.as_str());
    let filter = make_filter(FilterType::SpecialPages, inputs, out.as_str(), assets);
    let mut metadata: Vec<MetadataFile> = Vec::new();
    metadata.push(make_metadata(MetadataType::Pdf, inputs, out.as_str()));
    metadata.push(make_metadata(MetadataType::Date, inputs, out.as_str()));
    let pages = make_pages(inputs, out.as_str(), templates)?;
    let chapters = chapters_pattern(inputs.book_path.as_str());
    Ok(PdfBuild { output_dir: out, pdf_path, filter, metadata, pages, chapters_pattern: chapters })
}

/// Appends the paths of `files` to `paths`.
fn push_paths(paths: &mut Vec<String>, files: &Vec<GeneratedFile>)
    ensures
        strings_view(final(paths)@) == strings_view(old(paths)@) + paths_of(files@),
{
    let ghost start = strings_view(paths@);
    for i in 0..files.len()
        invariant
            strings_view(paths@) == start + paths_of(files@.take(i as int)),
    {
        let ghost prev = paths@;
        paths.push(files[i].path.clone());
        proof {
            assert(strings_view(paths@) =~= strings_view(prev).push(files@[i as int].path@));
            assert(paths_of(files@.take(i + 1)) =~= paths_of(files@.take(i as int)).push(files@[i as int].path@));
            assert(strings_view(paths@) =~= start + paths_of(files@.take(i + 1)));
        }
    }
    assert(files@.take(files@.len() as int) =~= files@);
}

/// Appends the paths of metadata files to `paths`.
fn push_metadata_paths(paths: &mut Vec<String>, files: &Vec<MetadataFile>)
    ensures
        strings_view(final(paths)@) == strings_view(old(paths)@) + metadata_paths_of(files@),
{
    let ghost start = strings_view(paths@);
    for i in 0..files.len()
        invariant
            strings_view(paths@) == start + metadata_paths_of(files@.take(i as int)),
    {
        let ghost prev = paths@;
        paths.push(files[i].path.clone());
        proof {
            assert(strings_view(paths@) =~= strings_view(prev).push(files@[i as int].path@));
            assert(metadata_paths_of(files@.take(i + 1)) =~= metadata_paths_of(files@.take(i as int)).push(files@[i as int].path@));
            assert(strings_view(paths@) =~= start + metadata_paths_of(files@.take(i + 1)));
        }
    }
    assert(files@.take(files@.len() as int) =~= files@);
}

impl EpubBuild {
    /// The converter run of the EPUB edition, with the chapters found: the special pages
    /// then the chapters, into the EPUB file, with the style sheet, one section per file.
    pub fn job(self, chapters: Vec<String>) -> (job: PandocJob)
        ensures
            strings_view(job.inputs@) == paths_of(self.pages@) + strings_view(chapters@),
            job.output == self.epub_path,
            job.format == EditionType::Epub,
            job.options == self.css_options,
            job.args@.len() == 1,
            job.args@[0].0@ == "split-level"@,
            job.args@[0].1@ == "1"@,
    {
        proof {
            reveal_strlit("split-level");
            reveal_strlit("1");
        }
        let mut inputs: Vec<String> = Vec::new();
        push_paths(&mut inputs, &self.pages);
        let mut chapters = chapters;
        let ghost before = inputs@;
        let ghost found = chapters@;
        inputs.append(&mut chapters);
        assert(strings_view(inputs@) =~= strings_view(before) + strings_view(found));
        let mut args: Vec<(String, String)> = Vec::new();
        args.push((String::from_str("split-level"), String::from_str("1")));
        PandocJob { inputs, output: self.epub_path, format: EditionType::Epub, options: self.css_options, args }
    }
}

/// The PDF engine of every PDF edition.
pub open spec fn pdf_engine() -> Seq<char> {
    "typst"@
}

/// The document template of every PDF edition.
pub open spec fn pdf_template() -> Seq<char> {
    "templates/template.typ"@
}

impl PdfBuild {
    /// The converter run of the PDF edition, with the chapters found: the PDF and date
    /// metadata, the special pages, then the chapters, into the PDF file, typeset by typst
    /// with the book template, in EB Garamond, through the special-pages filter.
    pub fn job(self, chapters: Vec<String>) -> (job: PandocJob)
        ensures
            strings_view(job.inputs@)
                == metadata_paths_of(self.metadata@) + paths_of(self.pages@) + strings_view(chapters@),
            job.output == self.pdf_path,
            job.format == EditionType::Pdf,
            job.options@.len() == 2,
            job.options@[0] matches PandocOpt::PdfEngine(p) && p@ == pdf_engine(),
            job.options@[1] matches PandocOpt::Template(t) && t@ == pdf_template(),
            job.args@.len() == 2,
            job.args@[0].0@ == "variable"@,
            job.args@[0].1@ == "mainfont=EB Garamond"@,
            job.args@[1].0@ == "lua-filter"@,
            job.args@[1].1@ == self.filter.path@,
    {
        proof {
            reveal_strlit("typst");
            reveal_strlit("templates/template.typ");
            reveal_strlit("variable");
            reveal_strlit("mainfont=EB Garamond");
            reveal_strlit("lua-filter");
        }
        let mut inputs: Vec<String> = Vec::new();
        push_metadata_paths(&mut inputs, &self.metadata);
        push_paths(&mut inputs, &self.pages);
        let mut chapters = chapters;
        let ghost before = inputs@;
        let ghost found = chapters@;
        inputs.append(&mut chapters);
        assert(strings_view(inputs@) =~= strings_view(before) + strings_view(found));
        let mut options: Vec<PandocOpt> = Vec::new();
        options.push(PandocOpt::PdfEngine(String::from_str("typst")));
        options.push(PandocOpt::Template(String::from_str("templates/template.typ")));
        let mut args: Vec<(String, String)> = Vec::new();
        args.push((String::from_str("variable"), String::from_str("mainfont=EB Garamond")));
        args.push((String::from_str("lua-filter"), self.filter.path));
        PandocJob { inputs, output: self.pdf_path, format: EditionType::Pdf, options, args }
    }
}

} // verus!

verus! {

/// The build of an edition, of whichever kind it is.
#[derive(Debug)]
pub enum EditionBuild {
    Epub(EpubBuild),
    Pdf(PdfBuild),
}

/// The build of the edition of `inputs`, as its kind asks: an EPUB or a PDF.
/// A page that does not render stops it.
pub fn make_edition(inputs: &PandocInputs, templates: &PageTemplates, assets: &Assets) -> (built: Result<EditionBuild, Error>)
    ensures
        built is Ok <==> pages_render(*inputs, *templates),
        built matches Err(e) ==> pages_failure(*inputs, *templates, e),
        built matches Ok(b) ==> match inputs.edition.edition_type {
            EditionType::Epub => b matches EditionBuild::Epub(e) && is_epub_build(e, *inputs, *templates, *assets),
            EditionType::Pdf => b matches EditionBuild::Pdf(p) && is_pdf_build(p, *inputs, *templates, *assets),
        },
{
    match inputs.edition.edition_type {
        EditionType::Epub => Ok(EditionBuild::Epub(make_epub(inputs, templates, assets)?)),
        EditionType::Pdf => Ok(EditionBuild::Pdf(make_pdf(inputs, templates, assets)?)),
    }
}

} // verus!
