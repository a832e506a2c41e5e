use vstd::prelude::*;

verus! {

/// The text shown for a field of an edition: empty when the field is empty, a check mark otherwise.
pub open spec fn set_marker(value: Seq<char>) -> Seq<char> {
    if value.len() == 0 { seq![] } else { seq!['✅'] }
}

/// Tells whether a field of an edition has been filled in, as a mark to print.
pub fn is_set(value: &str) -> (mark: &'static str)
    ensures
        mark@ == set_marker(value@),
{
    proof {
        reveal_strlit("");
        reveal_strlit("✅");
    }
    if value.is_empty() {
        ""
    } else {
        "✅"
    }
}

} // verus!

verus! {

/// What one character of rendered text becomes in a PDF edition:
/// an underscore gets a backslash before it, any other character stays.
pub open spec fn escaped_char(c: char) -> Seq<char> {
    if c == '_' { seq!['\\', '_'] } else { seq![c] }
}

/// The text with a backslash put before each underscore.
pub open spec fn escaped(s: Seq<char>) -> Seq<char>
    decreases s.len(),
{
    if s.len() == 0 {
        seq![]
    } else {
        escaped(s.drop_last()) + escaped_char(s.last())
    }
}

/// Appends one character to a string (`String::push`).
#[verifier::external_body]
fn push_char(s: &mut String, c: char)
    ensures
        final(s)@ == old(s)@.push(c),
{
    s.push(c)
}

/// Puts a backslash before every underscore of `content`, so that the typesetter
/// of the PDF edition reads them as underscores and not as emphasis.
pub fn escape_underscores(content: &str) -> (out: String)
    ensures
        out@ == escaped(content@),
{
    let mut out = String::new();
    let ghost text = content@;
    for c in it: content.chars()
        invariant
            it.seq() == text,
            out@ == escaped(text.take(it.index() as int)),
    {
        let ghost done = text.take(it.index() as int);
        proof {
            assert(text.take(it.index() + 1).drop_last() =~= done);
        }
        if c == '_' {
            push_char(&mut out, '\\');
        }
        push_char(&mut out, c);
        proof {
            assert(out@ =~= escaped(text.take(it.index() + 1)));
        }
    }
    proof {
        assert(text.take(text.len() as int) =~= text);
    }
    out
}

/// The front-matter document that wraps a serialized YAML body.
pub open spec fn framed_yaml(body: Seq<char>) -> Seq<char> {
    seq!['-', '-', '-', '\n'] + body + seq!['.', '.', '.']
}

/// Wraps a YAML body between the `---` line and the `...` end marker.
pub fn frame_yaml(body: &str) -> (doc: String)
    ensures
        doc@ == framed_yaml(body@),
{
    proof {
        reveal_strlit("---\n");
        reveal_strlit("...");
    }
    let mut doc = String::from_str("---\n");
    doc.append(body);
    doc.append("...");
    doc
}

} // verus!
