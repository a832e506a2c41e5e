use vstd::prelude::*;
use crate::error::Error;
use crate::model::{EditionType, FilterType, MetadataType, PandocInputs};
use crate::pages::GeneratedFile;
use crate::paths::{join_path, joined};

verus! {

/// The style sheets and filters that the build writes out for the converter.
#[derive(Debug)]
pub struct Assets {
    pub epub_blitz_css: String,
    pub epub_style_css: String,
    pub pdf_special_pages_lua: String,
}

/// An option handed to the converter.
#[derive(Debug)]
pub enum PandocOpt {
    /// A style sheet (its path).
    Css(String),
    /// The program that makes the PDF.
    PdfEngine(String),
    /// The template of the output document (its path).
    Template(String),
}

/// Where the EPUB style sheet is written.
pub open spec fn epub_css_path() -> Seq<char> {
    "/tmp/koob_epub_style.css"@
}

/// The style sheet of an EPUB edition and the converter options that name it.
#[derive(Debug)]
pub struct CssSetup {
    pub file: GeneratedFile,
    pub options: Vec<PandocOpt>,
}

/// The style sheet of the edition: an EPUB edition writes both EPUB style sheets, one after
/// the other, to a single file and hands it to the converter; a PDF edition has none.
pub fn make_css_options(inputs: &PandocInputs, assets: &Assets) -> (css: Result<CssSetup, Error>)
    ensures
        inputs.edition.edition_type == EditionType::Pdf ==> css matches Err(Error::NoCssForPdf),
        inputs.edition.edition_type == EditionType::Epub ==> (css matches Ok(s) && {
            &&& s.file.path@ == epub_css_path()
            &&& s.file.content@ == assets.epub_blitz_css@ + assets.epub_style_css@
            &&& s.options@.len() == 1
            &&& (s.options@[0] matches PandocOpt::Css(p) && p@ == epub_css_path())
        }),
{
    match inputs.edition.edition_type {
        EditionType::Epub => {
            proof {
                reveal_strlit("/tmp/koob_epub_style.css");
            }
            let mut content = assets.epub_blitz_css.clone();
            content.append(assets.epub_style_css.as_str());
            let file = GeneratedFile { path: String::from_str("/tmp/koob_epub_style.css"), content };
            let mut options: Vec<PandocOpt> = Vec::new();
            options.push(PandocOpt::Css(String::from_str("/tmp/koob_epub_style.css")));
            Ok(CssSetup { file, options })
        },
        EditionType::Pdf => Err(Error::NoCssForPdf),
    }
}

/// The name of the file a filter is written to.
pub open spec fn filter_file_name(filter: FilterType) -> Seq<char> {
    match filter {
        FilterType::SpecialPages => "special_pages.lua"@,
    }
}

/// What a filter holds for an edition: the special-pages filter is the PDF filter for a PDF
/// edition and empty for an EPUB edition.
pub open spec fn filter_content(filter: FilterType, edition: EditionType, assets: Assets) -> Seq<char> {
    match filter {
        FilterType::SpecialPages => match edition {
            EditionType::Epub => seq![],
            EditionType::Pdf => assets.pdf_special_pages_lua@,
        },
    }
}

/// The filter file `filter` of the edition, in `output_path`.
pub fn make_filter(filter: FilterType, inputs: &PandocInputs, output_path: &str, assets: &Assets) -> (file: GeneratedFile)
    ensures
        file.path@ == joined(output_path@, filter_file_name(filter)),
        file.content@ == filter_content(filter, inputs.edition.edition_type, *assets),
{
    proof {
        reveal_strlit("special_pages.lua");
    }
    match filter {
        FilterType::SpecialPages => {
            let content = match inputs.edition.edition_type {
                EditionType::Epub => String::new(),
                EditionType::Pdf => assets.pdf_special_pages_lua.clone(),
            };
            GeneratedFile { path: join_path(output_path, "special_pages.lua"), content }
        },
    }
}

/// The date of the edition.
#[derive(Debug)]
pub struct DateMetadata {
    pub date: String,
}

/// A title of an EPUB document, with its kind.
#[derive(Debug)]
pub struct EpubTitleMetadata {
    pub title_type: String,
    pub text: String,
}

/// A creator of an EPUB document, with its role.
#[derive(Debug)]
pub struct EpubCreatorMetadata {
    pub role: String,
    pub text: String,
}

/// The metadata of an EPUB document.
#[derive(Debug)]
pub struct EpubMetadata {
    pub title: Vec<EpubTitleMetadata>,
    pub creator: Vec<EpubCreatorMetadata>,
    pub language: String,
}

/// The page geometry of a PDF document.
#[derive(Debug)]
pub struct PdfMetadata {
    pub geometry: String,
}

/// One metadata document, of any kind.
#[derive(Debug)]
pub enum MetadataDocument {
    Date(DateMetadata),
    Epub(EpubMetadata),
    Pdf(PdfMetadata),
}

/// A metadata document and the file it is written to, as YAML between `---` and `...`.
#[derive(Debug)]
pub struct MetadataFile {
    pub path: String,
    pub document: MetadataDocument,
}

/// The name of the file a metadata document is written to.
pub open spec fn metadata_file_name(kind: MetadataType) -> Seq<char> {
    match kind {
        MetadataType::Date => "date.yml"@,
        MetadataType::Epub => "epub.yml"@,
        MetadataType::Pdf => "pdf.yml"@,
    }
}

/// The page geometry of every PDF edition.
pub open spec fn pdf_geometry() -> Seq<char> {
    "left=2.5cm,right=2.5cm,top=2cm,bottom=2cm"@
}

/// Whether `doc` is the metadata document of kind `kind` for the edition of `inputs`:
/// the edition's date; the book's title as main title and its author as author, in French;
/// or the page geometry.
pub open spec fn is_metadata_document(doc: MetadataDocument, kind: MetadataType, inputs: PandocInputs) -> bool {
    match kind {
        MetadataType::Date => (doc matches MetadataDocument::Date(d) && d.date@ == inputs.edition.date@),
        MetadataType::Epub => (doc matches MetadataDocument::Epub(e) && {
            &&& e.title@.len() == 1
            &&& e.title@[0].title_type@ == "main"@
            &&& e.title@[0].text@ == inputs.metadata.title@
            &&& e.creator@.len() == 1
            &&& e.creator@[0].role@ == "author"@
            &&& e.creator@[0].text@ == inputs.metadata.author@
            &&& e.language@ == "fr-FR"@
        }),
        MetadataType::Pdf => (doc matches MetadataDocument::Pdf(p) && p.geometry@ == pdf_geometry()),
    }
}

/// The metadata document of kind `kind` for the edition, and its file in `output_path`.
pub fn make_metadata(kind: MetadataType, inputs: &PandocInputs, output_path: &str) -> (meta: MetadataFile)
    ensures
        meta.path@ == joined(output_path@, metadata_file_name(kind)),
        is_metadata_document(meta.document, kind, *inputs),
{
    proof {
        reveal_strlit("date.yml");
        reveal_strlit("epub.yml");
        reveal_strlit("pdf.yml");
        reveal_strlit("main");
        reveal_strlit("author");
        reveal_strlit("fr-FR");
        reveal_strlit("left=2.5cm,right=2.5cm,top=2cm,bottom=2cm");
    }
    match kind {
        MetadataType::Date => MetadataFile {
            path: join_path(output_path, "date.yml"),
            document: MetadataDocument::Date(DateMetadata { date: inputs.edition.date.clone() }),
        },
        MetadataType::Epub => {
            let mut title: Vec<EpubTitleMetadata> = Vec::new();
            title.push(EpubTitleMetadata {
                title_type: String::from_str("main"),
                text: inputs.metadata.title.clone(),
            });
            let mut creator: Vec<EpubCreatorMetadata> = Vec::new();
            creator.push(EpubCreatorMetadata {
                role: String::from_str("author"),
                text: inputs.metadata.author.clone(),
            });
            MetadataFile {
                path: join_path(output_path, "epub.yml"),
                document: MetadataDocument::Epub(EpubMetadata {
                    title,
                    creator,
                    language: String::from_str("fr-FR"),
                }),
            }
        },
        MetadataType::Pdf => MetadataFile {
            path: join_path(output_path, "pdf.yml"),
            document: MetadataDocument::Pdf(PdfMetadata {
                geometry: String::from_str("left=2.5cm,right=2.5cm,top=2cm,bottom=2cm"),
            }),
        },
    }
}

} // verus!
