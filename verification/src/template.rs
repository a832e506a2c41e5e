use vstd::prelude::*;

verus! {

/// The characters that may stand between the `{{` of a tag and the character that tells its
/// kind: whitespace, the `~` that trims it, and the `#` of a block.
pub open spec fn gap_char(c: char) -> bool {
    c == ' ' || c == '\t' || c == '\n' || c == '\r' || c == '~' || c == '#'
}

/// From position `k` on, `t` holds gap characters and then `mark`.
pub open spec fn mark_from(t: Seq<char>, k: int, mark: char) -> bool
    decreases t.len() - k,
{
    if k < 0 || k >= t.len() {
        false
    } else if t[k] == mark {
        true
    } else if gap_char(t[k]) {
        mark_from(t, k + 1, mark)
    } else {
        false
    }
}

/// A tag whose kind is `mark` opens at position `i`: `{{`, gap characters, then `mark`.
pub open spec fn tag_at(t: Seq<char>, i: int, mark: char) -> bool {
    0 <= i && i + 1 < t.len() && t[i] == '{' && t[i + 1] == '{' && mark_from(t, i + 2, mark)
}

/// A partial call (`{{> name}}`, `{{#> name}}`) opens at position `i`.
pub open spec fn partial_call_at(t: Seq<char>, i: int) -> bool {
    tag_at(t, i, '>')
}

/// A decorator (`{{#*inline "name"}}`, the only way a template defines a partial) opens at `i`.
pub open spec fn decorator_at(t: Seq<char>, i: int) -> bool {
    tag_at(t, i, '*')
}

/// A closing tag (`{{/name}}`) opens at `i`.
pub open spec fn close_at(t: Seq<char>, i: int) -> bool {
    tag_at(t, i, '/')
}

/// The template may define a partial that calls a partial: a partial call stands after a
/// decorator and before a closing tag, so it may lie in the body of an inline partial. The body
/// of a decorator block starts after its tag and ends at a closing tag, so a call inside one
/// always lies so; a call before every decorator or after every closing tag lies in none.
pub open spec fn may_recurse_through_partials(t: Seq<char>) -> bool {
    exists|i: int, j: int, k: int|
        #![trigger decorator_at(t, i), partial_call_at(t, j), close_at(t, k)]
        decorator_at(t, i) && partial_call_at(t, j) && close_at(t, k) && i < j && j < k
}

/// The characters of a string, one by one.
pub fn chars_of(s: &str) -> (cs: Vec<char>)
    ensures
        cs@ == s@,
{
    let mut cs: Vec<char> = Vec::new();
    let ghost text = s@;
    for c in it: s.chars()
        invariant
            it.seq() == text,
            cs@ == text.take(it.index() as int),
    {
        cs.push(c);
        proof {
            assert(cs@ =~= text.take(it.index() + 1));
        }
    }
    proof {
        assert(text.take(text.len() as int) =~= text);
    }
    cs
}

/// Whether gap characters and then `mark` follow position `k`.
fn mark_at(t: &Vec<char>, k: usize, mark: char) -> (found: bool)
    ensures
        found == mark_from(t@, k as int, mark),
{
    let mut j = k;
    if j > t.len() {
        return false;
    }
    while j < t.len()
        invariant
            k <= j <= t.len(),
            mark_from(t@, k as int, mark) == mark_from(t@, j as int, mark),
        decreases t.len() - j,
    {
        if t[j] == mark {
            return true;
        }
        if !(t[j] == ' ' || t[j] == '\t' || t[j] == '\n' || t[j] == '\r' || t[j] == '~' || t[j] == '#') {
            return false;
        }
        j = j + 1;
    }
    false
}

/// Whether a tag of kind `mark` opens at `i`.
fn has_tag_at(t: &Vec<char>, i: usize, mark: char) -> (found: bool)
    ensures
        found == tag_at(t@, i as int, mark),
{
    i < t.len() && i + 1 < t.len() && t[i] == '{' && t[i + 1] == '{' && mark_at(t, i + 2, mark)
}

/// Whether the template may define a partial that calls a partial.
pub fn may_recurse(template: &str) -> (found: bool)
    ensures
        found == may_recurse_through_partials(template@),
{
    let t = chars_of(template);
    let n = t.len();
    // The first decorator.
    let mut first: usize = 0;
    while first < n && !has_tag_at(&t, first, '*')
        invariant
            first <= n,
            n == t@.len(),
            forall|p: int| 0 <= p < first ==> !decorator_at(t@, p),
        decreases n - first,
    {
        first = first + 1;
    }
    if first == n {
        assert forall|i: int, j: int, k: int|
            decorator_at(t@, i) && partial_call_at(t@, j) && close_at(t@, k) implies !(i < j && j < k) by {
            assert(i < n);
        }
        return false;
    }
    // The last closing tag.
    let mut last: usize = n;
    while last > 0 && !has_tag_at(&t, last - 1, '/')
        invariant
            last <= n,
            n == t@.len(),
            forall|p: int| last <= p < n ==> !close_at(t@, p),
        decreases last,
    {
        last = last - 1;
    }
    // A partial call strictly between them.
    let mut j: usize = first + 1;
    while last > 0 && j < last - 1
        invariant
            first < j,
            j <= n,
            t@ == template@,
            last <= n,
            n == t@.len(),
            decorator_at(t@, first as int),
            last > 0 ==> close_at(t@, last - 1),
            forall|p: int| 0 <= p < first ==> !decorator_at(t@, p),
            forall|p: int| last <= p < n ==> !close_at(t@, p),
            forall|p: int| first < p < j ==> !partial_call_at(t@, p),
        decreases last - j,
    {
        if has_tag_at(&t, j, '>') {
            assert(decorator_at(t@, first as int) && partial_call_at(t@, j as int) && close_at(t@, last - 1));
            assert(may_recurse_through_partials(t@));
            return true;
        }
        j = j + 1;
    }
    assert forall|i: int, jj: int, k: int|
        decorator_at(t@, i) && partial_call_at(t@, jj) && close_at(t@, k) implies !(i < jj && jj < k) by {
        if i < jj && jj < k {
            assert(i >= first);
            assert(k < last);
            assert(k <= last - 1);
        }
    }
    false
}

} // verus!

verus! {

/// The deepest nesting that the build lets handlebars render: each level is a block (or a link
/// of an `else` chain) or a subexpression, which handlebars renders by recursion on the stack.
/// With the expansion of an inline partial (whose body calls no partial) on top, a rendering
/// goes at most twice as deep, which stays well within a thread's stack.
pub const MAX_NESTING_DEPTH: usize = 64;

/// Where a scan of a template stands: in text, inside a tag, or inside a quoted string of a tag.
#[derive(Clone, Copy, Debug, PartialEq, Eq, Structural)]
pub enum ScanMode {
    Top,
    Tag,
    Quoted(char),
}

/// What a scan of a template knows at a point: where it stands; whether it has met something
/// it does not follow (escapes, comments, raw blocks, brackets, braces), after which it stops
/// counting closings; the blocks open, each with its `else` links; the subexpressions open;
/// and the deepest nesting met so far.
#[verifier::ext_equal]
pub struct Scan {
    pub mode: ScanMode,
    pub lost: bool,
    pub frames: Seq<nat>,
    pub parens: nat,
    pub peak: nat,
}

/// The sum of some counts.
pub open spec fn total(frames: Seq<nat>) -> nat
    decreases frames.len(),
{
    if frames.len() == 0 { 0 } else { total(frames.drop_last()) + frames.last() }
}

/// How deep the scan is nested at its point.
pub open spec fn depth_of(s: Scan) -> nat {
    total(s.frames) + s.parens
}

/// From position `k` on, `t` holds gap characters and then `else`.
pub open spec fn else_from(t: Seq<char>, k: int) -> bool
    decreases t.len() - k,
{
    if k < 0 || k + 3 >= t.len() {
        false
    } else if t[k] == 'e' && t[k + 1] == 'l' && t[k + 2] == 's' && t[k + 3] == 'e' {
        true
    } else if gap_char(t[k]) {
        else_from(t, k + 1)
    } else {
        false
    }
}

/// The tag at `i` starts where the scan cannot follow handlebars: an escaped `{{`, a comment,
/// a raw block or a triple-brace expression.
pub open spec fn untracked_tag_at(t: Seq<char>, i: int) -> bool {
    (i > 0 && t[i - 1] == '\\') || mark_from(t, i + 2, '{') || mark_from(t, i + 2, '!')
}

/// The scan with its peak brought up to its depth.
pub open spec fn with_peak(s: Scan) -> Scan {
    Scan { peak: if depth_of(s) > s.peak { depth_of(s) } else { s.peak }, ..s }
}

/// One step of the scan at position `i`: the next position and the scan after it.
pub open spec fn scan_step(t: Seq<char>, i: int, s: Scan) -> (int, Scan) {
    match s.mode {
        ScanMode::Top => {
            if i + 1 < t.len() && t[i] == '{' && t[i + 1] == '{' {
                let lost = s.lost || untracked_tag_at(t, i);
                let n = s.frames.len();
                let frames = if mark_from(t, i + 2, '#') {
                    s.frames.push(1)
                } else if mark_from(t, i + 2, '/') {
                    if !lost && n > 0 { s.frames.drop_last() } else { s.frames }
                } else if mark_from(t, i + 2, '^') || else_from(t, i + 2) {
                    if n > 0 { s.frames.update(n - 1, s.frames[n - 1] + 1) } else { s.frames }
                } else {
                    s.frames
                };
                (i + 2, with_peak(Scan { mode: ScanMode::Tag, lost, frames, ..s }))
            } else {
                (i + 1, s)
            }
        },
        ScanMode::Tag => {
            let c = t[i];
            if c == '"' || c == '\'' {
                (i + 1, Scan { mode: ScanMode::Quoted(c), ..s })
            } else if c == '[' || c == '{' {
                (i + 1, Scan { lost: true, ..s })
            } else if c == '(' {
                (i + 1, with_peak(Scan { parens: s.parens + 1, ..s }))
            } else if c == ')' {
                (i + 1, if !s.lost && s.parens > 0 { Scan { parens: (s.parens - 1) as nat, ..s } } else { s })
            } else if c == '}' && i + 1 < t.len() && t[i + 1] == '}' {
                (i + 2, Scan { mode: ScanMode::Top, ..s })
            } else {
                (i + 1, s)
            }
        },
        ScanMode::Quoted(q) => {
            if t[i] == '\\' {
                (if i + 1 < t.len() { i + 2 } else { i + 1 }, s)
            } else if t[i] == q {
                (i + 1, Scan { mode: ScanMode::Tag, ..s })
            } else {
                (i + 1, s)
            }
        },
    }
}

/// The scan of `t` from position `i` on, starting from `s`.
pub open spec fn scan_from(t: Seq<char>, i: int, s: Scan) -> Scan
    decreases t.len() - i,
{
    if i < 0 || i >= t.len() {
        s
    } else {
        let (next, after) = scan_step(t, i, s);
        if next <= i || next > t.len() { s } else { scan_from(t, next, after) }
    }
}

/// The scan at the start of a template.
pub open spec fn scan_start() -> Scan {
    Scan { mode: ScanMode::Top, lost: false, frames: seq![], parens: 0, peak: 0 }
}

/// How deep the template nests, as far as a scan of its text can tell: every block, `else`
/// link and subexpression that handlebars would have open at once at some point is counted, and
/// where the scan cannot follow the template it stops counting closings, so it never counts
/// less than handlebars nests.
pub open spec fn nesting_depth(t: Seq<char>) -> nat {
    scan_from(t, 0, scan_start()).peak
}

/// A template that the build hands to handlebars: none of its inline partials may call a
/// partial (handlebars expands a partial that calls itself without end) and its nesting stays
/// within the bound (handlebars renders nested levels by recursion on the stack).
pub open spec fn renderable_template(t: Seq<char>) -> bool {
    !may_recurse_through_partials(t) && nesting_depth(t) <= MAX_NESTING_DEPTH
}

/// A scan never lowers its peak.
proof fn lemma_peak_grows(t: Seq<char>, i: int, s: Scan)
    ensures
        scan_from(t, i, s).peak >= s.peak,
    decreases t.len() - i,
{
    if 0 <= i < t.len() {
        let (next, after) = scan_step(t, i, s);
        if next > i && next <= t.len() {
            assert(after.peak >= s.peak);
            lemma_peak_grows(t, next, after);
        }
    }
}

} // verus!

verus! {

/// Whether gap characters and then `else` follow position `k`.
fn else_at(t: &Vec<char>, k: usize) -> (found: bool)
    ensures
        found == else_from(t@, k as int),
{
    let mut j = k;
    while j < t.len()
        invariant
            k <= j,
            else_from(t@, k as int) == else_from(t@, j as int),
        decreases t.len() - j,
    {
        if t.len() < 4 || j > t.len() - 4 {
            return false;
        }
        if t[j] == 'e' && t[j + 1] == 'l' && t[j + 2] == 's' && t[j + 3] == 'e' {
            return true;
        }
        if !(t[j] == ' ' || t[j] == '\t' || t[j] == '\n' || t[j] == '\r' || t[j] == '~' || t[j] == '#') {
            return false;
        }
        j = j + 1;
    }
    false
}

/// The counts of a vector of counts.
pub open spec fn counts(v: Seq<usize>) -> Seq<nat> {
    v.map_values(|x: usize| x as nat)
}

/// The last of some counts is part of their total.
proof fn lemma_last_in_total(f: Seq<nat>)
    requires
        f.len() > 0,
    ensures
        f.last() <= total(f),
{
}

/// Raising the last count raises the total by as much.
proof fn lemma_total_update_last(f: Seq<nat>, v: nat)
    requires
        f.len() > 0,
    ensures
        total(f.update(f.len() - 1, v)) == total(f) - f.last() + v,
{
    assert(f.update(f.len() - 1, v).drop_last() =~= f.drop_last());
}

/// Whether the template nests no deeper than the bound.
fn nesting_within_bound(t: &Vec<char>) -> (ok: bool)
    ensures
        ok == (nesting_depth(t@) <= MAX_NESTING_DEPTH),
{
    let n = t.len();
    let mut i: usize = 0;
    let mut mode = ScanMode::Top;
    let mut lost = false;
    let mut frames: Vec<usize> = Vec::new();
    let mut blocks: usize = 0;
    let mut parens: usize = 0;
    let mut peak: usize = 0;
    assert(counts(frames@) =~= seq![]);
    while i < n
        invariant
            n == t@.len(),
            i <= n,
            scan_from(t@, i as int, Scan { mode, lost, frames: counts(frames@), parens: parens as nat, peak: peak as nat })
                == scan_from(t@, 0, scan_start()),
            blocks as nat == total(counts(frames@)),
            blocks + parens <= peak,
            peak <= MAX_NESTING_DEPTH,
        decreases n + 1 - i,
    {
        let ghost before = Scan { mode, lost, frames: counts(frames@), parens: parens as nat, peak: peak as nat };
        let ghost step = scan_step(t@, i as int, before);
        match mode {
            ScanMode::Top => {
                if i + 1 < n && t[i] == '{' && t[i + 1] == '{' {
                    let untracked = (i > 0 && t[i - 1] == '\\') || mark_at(t, i + 2, '{') || mark_at(t, i + 2, '!');
                    let now_lost = lost || untracked;
                    let len = frames.len();
                    if mark_at(t, i + 2, '#') {
                        frames.push(1);
                        blocks = blocks + 1;
                        assert(counts(frames@) =~= before.frames.push(1));
                        assert(before.frames.push(1).drop_last() =~= before.frames);
                    } else if mark_at(t, i + 2, '/') {
                        if !now_lost && len > 0 {
                            let top = frames[len - 1];
                            proof {
                                lemma_last_in_total(before.frames);
                            }
                            frames.pop();
                            blocks = blocks - top;
                            assert(counts(frames@) =~= before.frames.drop_last());
                        }
                    } else if mark_at(t, i + 2, '^') || else_at(t, i + 2) {
                        if len > 0 {
                            let top = frames[len - 1];
                            proof {
                                lemma_last_in_total(before.frames);
                                lemma_total_update_last(before.frames, (top + 1) as nat);
                            }
                            frames.set(len - 1, top + 1);
                            blocks = blocks + 1;
                            assert(counts(frames@) =~= before.frames.update(len - 1, before.frames[len - 1] + 1));
                        }
                    }
                    lost = now_lost;
                    mode = ScanMode::Tag;
                    if blocks + parens > peak {
                        peak = blocks + parens;
                    }
                    i = i + 2;
                } else {
                    i = i + 1;
                }
            },
            ScanMode::Tag => {
                let c = t[i];
                if c == '"' || c == '\'' {
                    mode = ScanMode::Quoted(c);
                } else if c == '[' || c == '{' {
                    lost = true;
                } else if c == '(' {
                    parens = parens + 1;
                    if blocks + parens > peak {
                        peak = blocks + parens;
                    }
                } else if c == ')' {
                    if !lost && parens > 0 {
                        parens = parens - 1;
                    }
                } else if c == '}' && i + 1 < n && t[i + 1] == '}' {
                    mode = ScanMode::Top;
                    i = i + 1;
                }
                i = i + 1;
            },
            ScanMode::Quoted(q) => {
                if t[i] == '\\' {
                    if i + 1 < n {
                        i = i + 1;
                    }
                } else if t[i] == q {
                    mode = ScanMode::Tag;
                }
                i = i + 1;
            },
        }
        let ghost after = Scan { mode, lost, frames: counts(frames@), parens: parens as nat, peak: peak as nat };
        assert(after =~= step.1);
        assert(i as int == step.0);
        if peak > MAX_NESTING_DEPTH {
            proof {
                lemma_peak_grows(t@, i as int, after);
            }
            return false;
        }
    }
    true
}

/// Whether the build hands the template to handlebars.
pub fn is_renderable(template: &str) -> (ok: bool)
    ensures
        ok == renderable_template(template@),
{
    if may_recurse(template) {
        return false;
    }
    let t = chars_of(template);
    nesting_within_bound(&t)
}

} // verus!
