use koob::{
    apply_replacements, chapters_pattern, check_cover, cover_location, editions_pattern,
    escape_underscores, finish_page, frame_yaml, is_set, join_path, make_css_options,
    make_edition, make_epub, make_filter, make_metadata, make_page, make_pages, make_pdf,
    output_dir, page_file, Assets, Edition, EditionBuild, EditionType, Error, FilterType,
    Metadata, MetadataDocument, MetadataType, PageSet, PageTemplates, PageType, PandocInputs,
    PandocOpt, Replacements,
};
use std::path::Path;

fn page_set(prefix: &str) -> PageSet {
    PageSet {
        copyright: format!("{prefix} copyright {{{{copyright_year}}}} {{{{publisher}}}}"),
        cover: format!("{prefix} cover {{{{cover_path}}}}"),
        dedication: format!("{prefix} dedication {{{{dedication}}}}"),
        empty: format!("{prefix} empty"),
        epigraph: format!("{prefix} epigraph {{{{epigraph}}}}"),
        foreword: format!("{prefix} foreword {{{{foreword}}}}"),
        half_title: format!("{prefix} half {{{{title}}}}"),
        preface: format!("{prefix} preface {{{{preface}}}}"),
        title: format!("{prefix} {{{{title}}}} by {{{{author}}}} ({{{{series}}}}) {{{{isbn_number}}}} {{{{legal_deposit}}}}"),
    }
}

fn templates() -> PageTemplates {
    PageTemplates { epub: page_set("E"), pdf: page_set("P") }
}

fn assets() -> Assets {
    Assets {
        epub_blitz_css: "body{}".to_string(),
        epub_style_css: "p{}".to_string(),
        pdf_special_pages_lua: "return {}".to_string(),
    }
}

fn inputs(kind: EditionType, pages: Vec<PageType>) -> PandocInputs {
    PandocInputs {
        book_path: "books/moon".to_string(),
        edition_path: "books/moon/editions/one".to_string(),
        cover_path: "books/moon/cover_art.png".to_string(),
        metadata: Metadata {
            filename: "the_moon".to_string(),
            cover: "cover_art.png".to_string(),
            title: "The_Moon".to_string(),
            author: "Ann <Lee>".to_string(),
            series: "Skies".to_string(),
        },
        edition: Edition {
            edition_type: kind,
            isbn: "978-2".to_string(),
            date: "2024-05-01".to_string(),
            copyright_year: "2024".to_string(),
            legal_deposit: "mai 2024".to_string(),
            publisher: "Lune & Co".to_string(),
            summary: "".to_string(),
            preface: "pre".to_string(),
            foreword: "fore".to_string(),
            dedication: "to_you".to_string(),
            epigraph: "epi".to_string(),
            pages,
        },
    }
}

#[test]
fn is_set_marks_filled_fields() {
    assert_eq!(is_set(""), "");
    assert_eq!(is_set("x"), "✅");
}

#[test]
fn escape_puts_backslash_before_underscores() {
    assert_eq!(escape_underscores("a_b"), "a\\_b");
    assert_eq!(escape_underscores("__"), "\\_\\_");
    assert_eq!(escape_underscores("plain text"), "plain text");
    assert_eq!(escape_underscores(""), "");
    assert_eq!(escape_underscores("é_ü"), "é\\_ü");
}

#[test]
fn frame_yaml_wraps_body() {
    assert_eq!(frame_yaml("date: x\n"), "---\ndate: x\n...");
    assert_eq!(frame_yaml(""), "---\n...");
}

#[test]
fn join_path_matches_std() {
    let cases = [
        ("book", "cover.png"),
        ("book/", "cover.png"),
        ("", "cover.png"),
        ("book", "/abs/cover.png"),
        ("./a/b", "output"),
        ("a", ""),
    ];
    for (base, name) in cases {
        let expected = Path::new(base).join(name);
        assert_eq!(join_path(base, name), expected.to_str().unwrap(), "{base} + {name}");
    }
    assert_eq!(join_path("book", "cover.png"), "book/cover.png");
}

#[test]
fn replacements_copy_fields() {
    let i = inputs(EditionType::Epub, vec![]);
    let r: Replacements = i.clone().into();
    assert_eq!(r.title, "The_Moon");
    assert_eq!(r.author, "Ann <Lee>");
    assert_eq!(r.series, "Skies");
    assert_eq!(r.copyright_year, "2024");
    assert_eq!(r.legal_deposit, "mai 2024");
    assert_eq!(r.isbn_number, "978-2");
    assert_eq!(r.cover_path, "books/moon/cover_art.png");
    assert_eq!(r.foreword, "fore");
    assert_eq!(r.dedication, "to_you");
    assert_eq!(r.publisher, "Lune & Co");
    assert_eq!(r.epigraph, "epi");
    assert_eq!(r.preface, "pre");
    let c = Replacements::from_inputs(&i);
    assert_eq!(c.fields(), r.fields());
    let names: Vec<String> = r.fields().into_iter().map(|p| p.0).collect();
    assert_eq!(
        names,
        vec![
            "title", "author", "series", "copyright_year", "legal_deposit", "isbn_number",
            "cover_path", "foreword", "dedication", "publisher", "epigraph", "preface"
        ]
    );
}

#[test]
fn replacements_render_without_escaping_in_epub() {
    let i = inputs(EditionType::Epub, vec![]);
    let out = apply_replacements("{{title}} by {{author}}, {{publisher}}", &i, Replacements::from_inputs(&i)).unwrap();
    assert_eq!(out, "The_Moon by Ann <Lee>, Lune & Co");
}

#[test]
fn replacements_escape_underscores_in_pdf() {
    let i = inputs(EditionType::Pdf, vec![]);
    let out = apply_replacements("{{title}}_x {{dedication}}", &i, Replacements::from_inputs(&i)).unwrap();
    assert_eq!(out, "The\\_Moon\\_x to\\_you");
}

#[test]
fn replacements_report_render_errors() {
    let i = inputs(EditionType::Epub, vec![]);
    let out = apply_replacements("{{#if title}}unclosed", &i, Replacements::from_inputs(&i));
    assert!(matches!(out, Err(Error::Handlebars(_))));
}

#[test]
fn finish_page_per_edition() {
    assert_eq!(finish_page(Ok("a_b".to_string()), EditionType::Pdf).unwrap(), "a\\_b");
    assert_eq!(finish_page(Ok("a_b".to_string()), EditionType::Epub).unwrap(), "a_b");
    let err = handlebars::Handlebars::new().render_template("{{#if x}}", &()).unwrap_err();
    assert!(matches!(finish_page(Err(err), EditionType::Epub), Err(Error::Handlebars(_))));
}

#[test]
fn page_files_have_their_names() {
    assert_eq!(page_file(&PageType::Foreword), "foreword.md");
    assert_eq!(page_file(&PageType::Empty), "empty.md");
    assert_eq!(page_file(&PageType::Cover), "cover.md");
    assert_eq!(page_file(&PageType::Dedication), "dedication.md");
    assert_eq!(page_file(&PageType::Epigraph), "epigraph.md");
    assert_eq!(page_file(&PageType::HalfTitle), "half_title.md");
    assert_eq!(page_file(&PageType::Copyright), "copyright.md");
    assert_eq!(page_file(&PageType::Preface), "preface.md");
    assert_eq!(page_file(&PageType::Title), "title.md");
}

#[test]
fn page_files_are_distinct() {
    let all = [
        PageType::Copyright, PageType::Cover, PageType::Dedication, PageType::Empty,
        PageType::Epigraph, PageType::Foreword, PageType::HalfTitle, PageType::Preface,
        PageType::Title,
    ];
    let names: std::collections::BTreeSet<&str> = all.iter().map(page_file).collect();
    assert_eq!(names.len(), all.len());
    for n in ["date.yml", "epub.yml", "pdf.yml", "special_pages.lua"] {
        assert!(!names.contains(n));
    }
}

#[test]
fn make_page_uses_the_edition_template() {
    let e = inputs(EditionType::Epub, vec![]);
    let f = make_page(&PageType::Title, &e, "out", &templates()).unwrap();
    assert_eq!(f.path, "out/title.md");
    assert_eq!(f.content, "E The_Moon by Ann <Lee> (Skies) 978-2 mai 2024");
    let p = inputs(EditionType::Pdf, vec![]);
    let f = make_page(&PageType::Dedication, &p, "out/", &templates()).unwrap();
    assert_eq!(f.path, "out/dedication.md");
    assert_eq!(f.content, "P dedication to\\_you");
    let f = make_page(&PageType::Cover, &p, "out", &templates()).unwrap();
    assert_eq!(f.content, "P cover books/moon/cover\\_art.png");
}

#[test]
fn css_only_for_epub() {
    let css = make_css_options(&inputs(EditionType::Epub, vec![]), &assets()).unwrap();
    assert_eq!(css.file.path, "/tmp/koob_epub_style.css");
    assert_eq!(css.file.content, "body{}p{}");
    assert_eq!(css.options.len(), 1);
    assert!(matches!(&css.options[0], PandocOpt::Css(p) if p == "/tmp/koob_epub_style.css"));
    assert!(matches!(
        make_css_options(&inputs(EditionType::Pdf, vec![]), &assets()),
        Err(Error::NoCssForPdf)
    ));
}

#[test]
fn filter_is_empty_for_epub() {
    let f = make_filter(FilterType::SpecialPages, &inputs(EditionType::Epub, vec![]), "out", &assets());
    assert_eq!(f.path, "out/special_pages.lua");
    assert_eq!(f.content, "");
    let f = make_filter(FilterType::SpecialPages, &inputs(EditionType::Pdf, vec![]), "out", &assets());
    assert_eq!(f.path, "out/special_pages.lua");
    assert_eq!(f.content, "return {}");
}

#[test]
fn metadata_documents() {
    let i = inputs(EditionType::Epub, vec![]);
    let m = make_metadata(MetadataType::Date, &i, "out");
    assert_eq!(m.path, "out/date.yml");
    assert!(matches!(&m.document, MetadataDocument::Date(d) if d.date == "2024-05-01"));
    let m = make_metadata(MetadataType::Epub, &i, "out");
    assert_eq!(m.path, "out/epub.yml");
    match &m.document {
        MetadataDocument::Epub(e) => {
            assert_eq!(e.title.len(), 1);
            assert_eq!(e.title[0].title_type, "main");
            assert_eq!(e.title[0].text, "The_Moon");
            assert_eq!(e.creator.len(), 1);
            assert_eq!(e.creator[0].role, "author");
            assert_eq!(e.creator[0].text, "Ann <Lee>");
            assert_eq!(e.language, "fr-FR");
        }
        other => panic!("unexpected {other:?}"),
    }
    let m = make_metadata(MetadataType::Pdf, &i, "out");
    assert_eq!(m.path, "out/pdf.yml");
    assert!(matches!(&m.document, MetadataDocument::Pdf(p) if p.geometry == "left=2.5cm,right=2.5cm,top=2cm,bottom=2cm"));
}

#[test]
fn pages_in_edition_order() {
    let i = inputs(EditionType::Epub, vec![PageType::Title, PageType::Empty, PageType::Title]);
    let pages = make_pages(&i, "o", &templates()).unwrap();
    let paths: Vec<&str> = pages.iter().map(|f| f.path.as_str()).collect();
    assert_eq!(paths, vec!["o/title.md", "o/empty.md", "o/title.md"]);
    assert_eq!(pages[1].content, "E empty");
    let mut bad = templates();
    bad.epub.empty = "{{#each}}".to_string();
    assert!(matches!(make_pages(&i, "o", &bad), Err(Error::Handlebars(_))));
}

#[test]
fn patterns_and_cover() {
    assert_eq!(output_dir("ed"), "ed/output");
    assert_eq!(chapters_pattern("./book"), "./book/chapters/**/*.md");
    assert_eq!(editions_pattern("./book"), "./book/**/edition.yml");
    let i = inputs(EditionType::Epub, vec![]);
    assert_eq!(cover_location("books/moon", &i.metadata), "books/moon/cover_art.png");
    assert_eq!(check_cover("c.png".to_string(), true).unwrap(), "c.png");
    assert!(matches!(check_cover("c.png".to_string(), false), Err(Error::MissingCover(p)) if p == "c.png"));
}

#[test]
fn epub_build_and_job() {
    let i = inputs(EditionType::Epub, vec![PageType::HalfTitle, PageType::Title]);
    let b = make_epub(&i, &templates(), &assets()).unwrap();
    assert_eq!(b.output_dir, "books/moon/editions/one/output");
    assert_eq!(b.epub_path, "books/moon/editions/one/output/the_moon.epub");
    assert_eq!(b.css_file.content, "body{}p{}");
    let metas: Vec<&str> = b.metadata.iter().map(|m| m.path.as_str()).collect();
    assert_eq!(metas, vec!["books/moon/editions/one/output/epub.yml", "books/moon/editions/one/output/date.yml"]);
    assert_eq!(b.pages.len(), 2);
    assert_eq!(b.pages[0].content, "E half The_Moon");
    assert_eq!(b.chapters_pattern, "books/moon/chapters/**/*.md");
    let job = b.job(vec!["c1.md".to_string(), "c2.md".to_string()]);
    assert_eq!(
        job.inputs,
        vec![
            "books/moon/editions/one/output/half_title.md",
            "books/moon/editions/one/output/title.md",
            "c1.md",
            "c2.md"
        ]
    );
    assert_eq!(job.output, "books/moon/editions/one/output/the_moon.epub");
    assert_eq!(job.format, EditionType::Epub);
    assert!(matches!(&job.options[..], [PandocOpt::Css(p)] if p == "/tmp/koob_epub_style.css"));
    assert_eq!(job.args, vec![("split-level".to_string(), "1".to_string())]);
}

#[test]
fn epub_build_refuses_pdf_edition() {
    let i = inputs(EditionType::Pdf, vec![PageType::Title]);
    assert!(matches!(make_epub(&i, &templates(), &assets()), Err(Error::NoCssForPdf)));
}

#[test]
fn pdf_build_and_job() {
    let i = inputs(EditionType::Pdf, vec![PageType::Copyright]);
    let b = make_pdf(&i, &templates(), &assets()).unwrap();
    assert_eq!(b.pdf_path, "books/moon/editions/one/output/the_moon.pdf");
    assert_eq!(b.filter.path, "books/moon/editions/one/output/special_pages.lua");
    assert_eq!(b.filter.content, "return {}");
    assert_eq!(b.pages[0].content, "P copyright 2024 Lune & Co");
    let job = b.job(vec!["ch.md".to_string()]);
    assert_eq!(
        job.inputs,
        vec![
            "books/moon/editions/one/output/pdf.yml",
            "books/moon/editions/one/output/date.yml",
            "books/moon/editions/one/output/copyright.md",
            "ch.md"
        ]
    );
    assert_eq!(job.output, "books/moon/editions/one/output/the_moon.pdf");
    assert_eq!(job.format, EditionType::Pdf);
    assert!(matches!(&job.options[..], [PandocOpt::PdfEngine(e), PandocOpt::Template(t)] if e == "typst" && t == "templates/template.typ"));
    assert_eq!(
        job.args,
        vec![
            ("variable".to_string(), "mainfont=EB Garamond".to_string()),
            ("lua-filter".to_string(), "books/moon/editions/one/output/special_pages.lua".to_string())
        ]
    );
}

#[test]
fn edition_build_follows_edition_type() {
    let e = make_edition(&inputs(EditionType::Epub, vec![]), &templates(), &assets()).unwrap();
    assert!(matches!(e, EditionBuild::Epub(_)));
    let p = make_edition(&inputs(EditionType::Pdf, vec![]), &templates(), &assets()).unwrap();
    assert!(matches!(p, EditionBuild::Pdf(_)));
}

#[test]
fn recursive_inline_partials_are_refused() {
    let i = inputs(EditionType::Epub, vec![]);
    let render = |t: &str| apply_replacements(t, &i, Replacements::from_inputs(&i));
    let selfish = "{{#*inline \"a\"}}{{> a}}{{/inline}}{{> a}}";
    assert!(koob::may_recurse(selfish));
    assert!(matches!(render(selfish), Err(Error::RecursivePartials)));
    let mutual = "{{#*inline \"a\"}}{{> b}}{{/inline}}{{#*inline \"b\"}}{{~ > a}}{{/inline}}{{> a}}";
    assert!(matches!(render(mutual), Err(Error::RecursivePartials)));
}

#[test]
fn other_partials_reach_handlebars() {
    let i = inputs(EditionType::Epub, vec![]);
    let render = |t: &str| apply_replacements(t, &i, Replacements::from_inputs(&i));
    assert_eq!(render("{{#*inline \"p\"}}[{{title}}]{{/inline}}{{>p}}").unwrap(), "[The_Moon]");
    assert!(!koob::may_recurse("{{#*inline \"p\"}}x{{/inline}}{{>p}}"));
    assert!(matches!(render("{{>x}}"), Err(Error::Handlebars(_))));
    assert_eq!(render("{{#> missing}}fallback{{/missing}}").unwrap(), "fallback");
    assert!(koob::check_template("{{title}} > {{author}}").is_ok());
}

#[test]
fn deep_nesting_is_refused() {
    let i = inputs(EditionType::Epub, vec![]);
    let render = |t: &str| apply_replacements(t, &i, Replacements::from_inputs(&i));
    let nest = |n: usize| format!("{}x{}", "{{#if title}}".repeat(n), "{{/if}}".repeat(n));
    assert!(matches!(render(&nest(1024)), Err(Error::TemplateTooNested)));
    assert!(matches!(render(&nest(koob::MAX_NESTING_DEPTH + 1)), Err(Error::TemplateTooNested)));
    assert_eq!(render(&nest(koob::MAX_NESTING_DEPTH)).unwrap(), "x");
    let chain = format!("{{{{#if dedication}}}}a{}{{{{/if}}}}", "{{else if series}}b".repeat(100));
    assert!(matches!(render(&chain), Err(Error::TemplateTooNested)));
    let subs = format!("{{{{#if {}title{}}}}}y{{{{/if}}}}", "(not ".repeat(80), ")".repeat(80));
    assert!(matches!(render(&subs), Err(Error::TemplateTooNested)));
}

#[test]
fn long_flat_templates_render() {
    let i = inputs(EditionType::Epub, vec![]);
    let t = "{{title}} ({{series}}) [{x}] ".repeat(400);
    assert!(koob::is_renderable(&t));
    let out = apply_replacements(&t, &i, Replacements::from_inputs(&i)).unwrap();
    assert_eq!(out, "The_Moon (Skies) [{x}] ".repeat(400));
    let blocks = "{{#if title}}{{title}}{{else}}-{{/if}} {{#if (not series)}}s{{/if}}\n".repeat(300);
    assert!(koob::is_renderable(&blocks));
}

#[test]
fn refused_template_stops_pages() {
    let i = inputs(EditionType::Pdf, vec![PageType::Title, PageType::Empty]);
    let mut t = templates();
    t.pdf.empty = "{{#*inline \"q\"}}{{> q}}{{/inline}}{{> q}}".to_string();
    assert!(matches!(make_pages(&i, "o", &t), Err(Error::RecursivePartials)));
    assert!(matches!(make_pdf(&i, &t, &assets()), Err(Error::RecursivePartials)));
    assert!(matches!(make_page(&PageType::Empty, &i, "o", &t), Err(Error::RecursivePartials)));
    t.pdf.empty = "{{> nowhere}}".to_string();
    assert!(matches!(make_pages(&i, "o", &t), Err(Error::Handlebars(_))));
    assert!(matches!(make_pdf(&i, &t, &assets()), Err(Error::Handlebars(_))));
}

#[test]
fn unescaping_a_pdf_page_gives_the_epub_page() {
    let e = inputs(EditionType::Epub, vec![]);
    let p = inputs(EditionType::Pdf, vec![]);
    let t = "{{title}}_{{dedication}} \\ _";
    let epub = apply_replacements(t, &e, Replacements::from_inputs(&e)).unwrap();
    let pdf = apply_replacements(t, &p, Replacements::from_inputs(&p)).unwrap();
    assert_eq!(pdf.replace("\\_", "_"), epub);
}
