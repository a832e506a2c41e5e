use vstd::prelude::*;

verus! {

/// The two kinds of edition a book can be published in.
#[derive(Clone, Copy, Debug, PartialEq, Eq, Structural)]
pub enum EditionType {
    Epub,
    Pdf,
}

/// The special pages that an edition may place before its chapters.
#[derive(Clone, Copy, Debug, PartialEq, Eq, Structural)]
pub enum PageType {
    Copyright,
    Cover,
    Dedication,
    Empty,
    Epigraph,
    Foreword,
    HalfTitle,
    Preface,
    Title,
}

/// The metadata documents handed to the converter.
#[derive(Clone, Copy, Debug, PartialEq, Eq, Structural)]
pub enum MetadataType {
    Date,
    Epub,
    Pdf,
}

/// The filters handed to the converter.
#[derive(Clone, Copy, Debug, PartialEq, Eq, Structural)]
pub enum FilterType {
    SpecialPages,
}

/// What `book.yml` says of a book.
#[derive(Clone, Debug)]
pub struct Metadata {
    pub filename: String,
    pub cover: String,
    pub title: String,
    pub author: String,
    pub series: String,
}

/// What an `edition.yml` says of one edition of a book.
#[derive(Clone, Debug)]
pub struct Edition {
    pub edition_type: EditionType,
    pub isbn: String,
    pub date: String,
    pub copyright_year: String,
    pub legal_deposit: String,
    pub publisher: String,
    pub summary: String,
    pub preface: String,
    pub foreword: String,
    pub dedication: String,
    pub epigraph: String,
    pub pages: Vec<PageType>,
}

/// Everything that the build of one edition starts from.
#[derive(Clone, Debug)]
pub struct PandocInputs {
    /// The directory of the book.
    pub book_path: String,
    /// The directory of the edition.
    pub edition_path: String,
    /// The cover image of the book.
    pub cover_path: String,
    pub metadata: Metadata,
    pub edition: Edition,
}

/// The values that the page templates may refer to, by field name.
#[derive(Debug)]
pub struct Replacements {
    pub title: String,
    pub author: String,
    pub series: String,
    pub copyright_year: String,
    pub legal_deposit: String,
    pub isbn_number: String,
    pub cover_path: String,
    pub foreword: String,
    pub dedication: String,
    pub publisher: String,
    pub epigraph: String,
    pub preface: String,
}

/// The replacements that an edition's build offers its templates.
pub open spec fn replacements_of(inputs: PandocInputs) -> Replacements {
    Replacements {
        title: inputs.metadata.title,
        author: inputs.metadata.author,
        series: inputs.metadata.series,
        copyright_year: inputs.edition.copyright_year,
        legal_deposit: inputs.edition.legal_deposit,
        isbn_number: inputs.edition.isbn,
        cover_path: inputs.cover_path,
        foreword: inputs.edition.foreword,
        dedication: inputs.edition.dedication,
        publisher: inputs.edition.publisher,
        epigraph: inputs.edition.epigraph,
        preface: inputs.edition.preface,
    }
}

impl From<PandocInputs> for Replacements {
    fn from(inputs: PandocInputs) -> (r: Replacements) {
        Replacements {
            title: inputs.metadata.title,
            author: inputs.metadata.author,
            series: inputs.metadata.series,
            copyright_year: inputs.edition.copyright_year,
            legal_deposit: inputs.edition.legal_deposit,
            isbn_number: inputs.edition.isbn,
            cover_path: inputs.cover_path,
            foreword: inputs.edition.foreword,
            dedication: inputs.edition.dedication,
            publisher: inputs.edition.publisher,
            epigraph: inputs.edition.epigraph,
            preface: inputs.edition.preface,
        }
    }
}

impl vstd::std_specs::convert::FromSpecImpl<PandocInputs> for Replacements {
    open spec fn obeys_from_spec() -> bool {
        true
    }

    open spec fn from_spec(inputs: PandocInputs) -> Replacements {
        replacements_of(inputs)
    }
}

} // verus!

verus! {

/// The replacements as the (name, value) pairs that a template looks fields up in,
/// in the order of the fields.
pub open spec fn replacement_fields(r: Replacements) -> Seq<(Seq<char>, Seq<char>)> {
    seq![
        ("title"@, r.title@),
        ("author"@, r.author@),
        ("series"@, r.series@),
        ("copyright_year"@, r.copyright_year@),
        ("legal_deposit"@, r.legal_deposit@),
        ("isbn_number"@, r.isbn_number@),
        ("cover_path"@, r.cover_path@),
        ("foreword"@, r.foreword@),
        ("dedication"@, r.dedication@),
        ("publisher"@, r.publisher@),
        ("epigraph"@, r.epigraph@),
        ("preface"@, r.preface@),
    ]
}

/// The (name, value) pairs of a vector of string pairs, by their views.
pub open spec fn pairs_view(pairs: Seq<(String, String)>) -> Seq<(Seq<char>, Seq<char>)> {
    pairs.map_values(|p: (String, String)| (p.0@, p.1@))
}

impl Replacements {
    /// The replacements of an edition's build, copied out of its inputs.
    pub fn from_inputs(inputs: &PandocInputs) -> (r: Replacements)
        ensures
            r == replacements_of(*inputs),
    {
        Replacements {
            title: inputs.metadata.title.clone(),
            author: inputs.metadata.author.clone(),
            series: inputs.metadata.series.clone(),
            copyright_year: inputs.edition.copyright_year.clone(),
            legal_deposit: inputs.edition.legal_deposit.clone(),
            isbn_number: inputs.edition.isbn.clone(),
            cover_path: inputs.cover_path.clone(),
            foreword: inputs.edition.foreword.clone(),
            dedication: inputs.edition.dedication.clone(),
            publisher: inputs.edition.publisher.clone(),
            epigraph: inputs.edition.epigraph.clone(),
            preface: inputs.edition.preface.clone(),
        }
    }

    /// The fields as (name, value) pairs, named as the templates name them.
    pub fn fields(&self) -> (pairs: Vec<(String, String)>)
        ensures
            pairs_view(pairs@) == replacement_fields(*self),
    {
        let mut pairs: Vec<(String, String)> = Vec::new();
        pairs.push((String::from_str("title"), self.title.clone()));
        pairs.push((String::from_str("author"), self.author.clone()));
        pairs.push((String::from_str("series"), self.series.clone()));
        pairs.push((String::from_str("copyright_year"), self.copyright_year.clone()));
        pairs.push((String::from_str("legal_deposit"), self.legal_deposit.clone()));
        pairs.push((String::from_str("isbn_number"), self.isbn_number.clone()));
        pairs.push((String::from_str("cover_path"), self.cover_path.clone()));
        pairs.push((String::from_str("foreword"), self.foreword.clone()));
        pairs.push((String::from_str("dedication"), self.dedication.clone()));
        pairs.push((String::from_str("publisher"), self.publisher.clone()));
        pairs.push((String::from_str("epigraph"), self.epigraph.clone()));
        pairs.push((String::from_str("preface"), self.preface.clone()));
        assert(pairs_view(pairs@) =~= replacement_fields(*self));
        pairs
    }
}

} // verus!
