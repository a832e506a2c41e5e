//! Building blocks of a book publisher: which files an edition of a book needs,
//! what they hold, and how the document converter is to be invoked on them.
//!
//! - `model`: what a book and its editions are made of, and the replacements that page
//!   templates see;
//! - `text`, `paths`: escaping, YAML framing and path joining;
//! - `render`: filling a page template in (through handlebars);
//! - `pages`: the special pages of an edition;
//! - `edition`: style sheets, filters and metadata documents;
//! - `plan`: the build of a whole edition and the converter run that ends it;
//! - `laws`: properties that hold across these functions.
pub mod edition;
pub mod error;
pub mod laws;
pub mod meaning;
pub mod model;
pub mod pages;
pub mod paths;
pub mod plan;
pub mod render;
pub mod template;
pub mod text;

pub use edition::{
    Assets, CssSetup, DateMetadata, EpubCreatorMetadata, EpubMetadata, EpubTitleMetadata,
    MetadataDocument, MetadataFile, PandocOpt, PdfMetadata, make_css_options, make_filter,
    make_metadata,
};
pub use error::Error;
pub use model::{
    EditionType, Edition, FilterType, Metadata, MetadataType, PageType, PandocInputs,
    Replacements,
};
pub use pages::{GeneratedFile, PageSet, PageTemplates, make_page, page_file};
pub use paths::join_path;
pub use plan::{
    EditionBuild, EpubBuild, PandocJob, PdfBuild, chapters_pattern, check_cover,
    cover_location, editions_pattern, make_edition, make_epub, make_pages, make_pdf, output_dir,
};
pub use render::{apply_replacements, check_template, finish_page};
pub use template::{MAX_NESTING_DEPTH, is_renderable, may_recurse};
pub use text::{escape_underscores, frame_yaml, is_set};
