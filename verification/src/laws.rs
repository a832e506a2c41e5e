use vstd::prelude::*;
use crate::edition::{filter_file_name, metadata_file_name};
use crate::model::{EditionType, FilterType, MetadataType, PageType, Replacements, replacement_fields};
use crate::render::finished_page;
use crate::pages::page_file_name;
use crate::paths::joined;
use crate::text::{escaped, escaped_char};

verus! {

/// Two different special pages are written to two different files.
pub proof fn page_files_are_distinct(p: PageType, q: PageType)
    requires
        p != q,
    ensures
        page_file_name(p) != page_file_name(q),
{
    reveal_strlit("foreword.md");
    reveal_strlit("empty.md");
    reveal_strlit("cover.md");
    reveal_strlit("dedication.md");
    reveal_strlit("epigraph.md");
    reveal_strlit("half_title.md");
    reveal_strlit("copyright.md");
    reveal_strlit("preface.md");
    reveal_strlit("title.md");
    let a = page_file_name(p);
    let b = page_file_name(q);
    if a == b {
        assert(a.len() == b.len());
        assert(a[0] == b[0]);
        assert(a[1] == b[1]);
    }
}

/// The special pages, the metadata documents and the filter that an edition writes into its
/// output directory never take each other's file: two metadata documents of different kinds
/// differ, and no page shares a file with a metadata document or a filter.
pub proof fn output_files_are_distinct(page: PageType, kind: MetadataType, other: MetadataType, filter: FilterType)
    ensures
        kind != other ==> metadata_file_name(kind) != metadata_file_name(other),
        page_file_name(page) != metadata_file_name(kind),
        page_file_name(page) != filter_file_name(filter),
        metadata_file_name(kind) != filter_file_name(filter),
{
    reveal_strlit("foreword.md");
    reveal_strlit("empty.md");
    reveal_strlit("cover.md");
    reveal_strlit("dedication.md");
    reveal_strlit("epigraph.md");
    reveal_strlit("half_title.md");
    reveal_strlit("copyright.md");
    reveal_strlit("preface.md");
    reveal_strlit("title.md");
    reveal_strlit("date.yml");
    reveal_strlit("epub.yml");
    reveal_strlit("pdf.yml");
    reveal_strlit("special_pages.lua");
    let k = metadata_file_name(kind);
    let o = metadata_file_name(other);
    let p = page_file_name(page);
    let f = filter_file_name(filter);
    // The page files end in ".md", the metadata files in ".yml", the filter in ".lua".
    assert(p[p.len() - 1] == 'd');
    assert(k[k.len() - 1] == 'l');
    assert(f[f.len() - 1] == 'a');
    if kind != other && k == o {
        assert(k[0] == o[0]);
    }
}

/// A relative name joined onto a directory lands inside it: the directory is a prefix of the
/// result, and the name is its end.
pub proof fn joined_lands_inside(dir: Seq<char>, name: Seq<char>)
    requires
        name.len() > 0,
        name[0] != '/',
    ensures
        dir.is_prefix_of(joined(dir, name)),
        name.is_suffix_of(joined(dir, name)),
{
    let j = joined(dir, name);
    if dir.len() == 0 || dir.last() == '/' {
        assert(j =~= dir + name);
        assert(j.subrange(0, dir.len() as int) =~= dir);
        assert(j.subrange(j.len() - name.len(), j.len() as int) =~= name);
    } else {
        assert(j =~= dir + seq!['/'] + name);
        assert(j.subrange(0, dir.len() as int) =~= dir);
        assert(j.subrange(j.len() - name.len(), j.len() as int) =~= name);
    }
}

/// Escaping works character by character: escaping two texts one after the other is
/// escaping them joined.
pub proof fn escaping_distributes(a: Seq<char>, b: Seq<char>)
    ensures
        escaped(a + b) == escaped(a) + escaped(b),
    decreases b.len(),
{
    if b.len() == 0 {
        assert(a + b =~= a);
        assert(escaped(b) =~= seq![]);
        assert(escaped(a) + escaped(b) =~= escaped(a));
    } else {
        escaping_distributes(a, b.drop_last());
        assert((a + b).drop_last() =~= a + b.drop_last());
        assert((a + b).last() == b.last());
        assert(escaped(a) + escaped(b) =~= (escaped(a) + escaped(b.drop_last())) + escaped_char(b.last()));
    }
}

/// A text without underscores is left as it is by escaping.
pub proof fn escaping_keeps_text_without_underscores(s: Seq<char>)
    requires
        !s.contains('_'),
    ensures
        escaped(s) == s,
    decreases s.len(),
{
    if s.len() > 0 {
        assert(!s.drop_last().contains('_')) by {
            if s.drop_last().contains('_') {
                let i = choose|i: int| 0 <= i < s.drop_last().len() && s.drop_last()[i] == '_';
                assert(s[i] == '_');
            }
        }
        escaping_keeps_text_without_underscores(s.drop_last());
        assert(s.last() != '_') by {
            assert(s[s.len() - 1] == s.last());
        }
        assert(s.drop_last().push(s.last()) =~= s);
    }
}

/// In escaped text every underscore has a backslash right before it.
pub proof fn escaping_marks_every_underscore(s: Seq<char>)
    ensures
        forall|i: int| 0 <= i < escaped(s).len() && #[trigger] escaped(s)[i] == '_'
            ==> i > 0 && escaped(s)[i - 1] == '\\',
    decreases s.len(),
{
    if s.len() > 0 {
        escaping_marks_every_underscore(s.drop_last());
        let front = escaped(s.drop_last());
        let piece = escaped_char(s.last());
        assert(escaped(s) == front + piece);
        assert forall|i: int| 0 <= i < escaped(s).len() && #[trigger] escaped(s)[i] == '_'
            implies i > 0 && escaped(s)[i - 1] == '\\' by {
            if i < front.len() {
                assert(escaped(s)[i] == front[i]);
                assert(escaped(s)[i - 1] == front[i - 1]);
            } else {
                assert(escaped(s)[i] == piece[i - front.len()]);
                if s.last() == '_' {
                    assert(i == front.len() + 1);
                    assert(escaped(s)[i - 1] == piece[0]);
                } else {
                    assert(piece[0] == s.last());
                }
            }
        }
    }
}

/// The number of underscores in a text.
pub open spec fn underscores(s: Seq<char>) -> nat
    decreases s.len(),
{
    if s.len() == 0 {
        0
    } else {
        underscores(s.drop_last()) + if s.last() == '_' { 1nat } else { 0nat }
    }
}

/// Escaping adds one character, a backslash, for each underscore.
pub proof fn escaping_grows_by_underscores(s: Seq<char>)
    ensures
        escaped(s).len() == s.len() + underscores(s),
    decreases s.len(),
{
    if s.len() > 0 {
        escaping_grows_by_underscores(s.drop_last());
    }
}

/// The templates see each replacement under a name of its own.
pub proof fn replacement_names_are_distinct(r: Replacements, i: int, j: int)
    requires
        0 <= i < 12,
        0 <= j < 12,
        i != j,
    ensures
        replacement_fields(r)[i].0 != replacement_fields(r)[j].0,
{
    reveal_strlit("title");
    reveal_strlit("author");
    reveal_strlit("series");
    reveal_strlit("copyright_year");
    reveal_strlit("legal_deposit");
    reveal_strlit("isbn_number");
    reveal_strlit("cover_path");
    reveal_strlit("foreword");
    reveal_strlit("dedication");
    reveal_strlit("publisher");
    reveal_strlit("epigraph");
    reveal_strlit("preface");
    let a = replacement_fields(r)[i].0;
    let b = replacement_fields(r)[j].0;
    if a == b {
        assert(a.len() == b.len());
        assert(a[0] == b[0]);
        assert(a[1] == b[1]);
    }
}

} // verus!

verus! {

/// The text with the backslash taken out of each `\_`, as `replace("\\_", "_")` does.
pub open spec fn unescaped(s: Seq<char>) -> Seq<char>
    decreases s.len(),
{
    if s.len() >= 2 && s.last() == '_' && s[s.len() - 2] == '\\' {
        unescaped(s.drop_last().drop_last()).push('_')
    } else if s.len() > 0 {
        unescaped(s.drop_last()).push(s.last())
    } else {
        seq![]
    }
}

/// Taking the backslashes out of escaped text gives the text back.
pub proof fn unescaping_undoes_escaping(s: Seq<char>)
    ensures
        unescaped(escaped(s)) == s,
    decreases s.len(),
{
    if s.len() > 0 {
        unescaping_undoes_escaping(s.drop_last());
        let front = escaped(s.drop_last());
        let e = escaped(s);
        assert(e == front + escaped_char(s.last()));
        if s.last() == '_' {
            assert(e.drop_last().drop_last() =~= front);
            assert(e.last() == '_');
            assert(e[e.len() - 2] == '\\');
        } else {
            assert(e.drop_last() =~= front);
            assert(e.last() == s.last());
        }
        assert(s.drop_last().push(s.last()) =~= s);
    }
}

/// A PDF page with the backslash taken out of each `\_` is the EPUB page of the same rendering.
pub proof fn pdf_page_unescapes_to_epub_page(text: Seq<char>)
    ensures
        unescaped(finished_page(text, EditionType::Pdf)) == finished_page(text, EditionType::Epub),
{
    unescaping_undoes_escaping(text);
}

} // verus!
