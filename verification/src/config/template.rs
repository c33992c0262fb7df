//! The boundary with `tinytemplate`, which renders the overlay's message
//! templates.
use std::collections::HashMap;
use tinytemplate::error::Error;
use tinytemplate::TinyTemplate;
use vstd::prelude::*;

verus! {

#[verifier::external_type_specification]
#[verifier::external_body]
pub struct ExTinyTemplate<'template>(TinyTemplate<'template>);

#[verifier::external_type_specification]
#[verifier::external_body]
pub struct ExTemplateError(Error);

/// The templates a registry holds: each registered name with the text
/// it was compiled from.
pub uninterp spec fn registered_templates(registry: TinyTemplate<'_>) -> Map<Seq<char>, Seq<char>>;

/// Whether `tinytemplate` accepts `text` as a template (its
/// `Template::compile` succeeds, which depends on the text alone).
pub uninterp spec fn template_compiles(text: Seq<char>) -> bool;

/// The output of rendering the template registered under `name`, among
/// registered `templates`, with `context` as the name/value pairs of the
/// rendering context (a later pair with the same name replacing an earlier
/// one); nothing when rendering fails. This is `tinytemplate`'s rendering
/// with its default formatters. The registries the name is applied to are
/// all made by `new_registry`, which installs those defaults, and nothing in
/// this crate calls `set_default_formatter` or `add_formatter`, so the
/// formatters are the same for every registry and need no argument here.
pub uninterp spec fn rendered_template(
    templates: Map<Seq<char>, Seq<char>>,
    name: Seq<char>,
    context: Seq<(Seq<char>, Seq<char>)>,
) -> Option<Seq<char>>;

/// `char::is_whitespace`: the characters with the Unicode `White_Space`
/// property, which `str::trim` and `str::split_whitespace` go by.
pub open spec fn unicode_whitespace(c: char) -> bool {
    let u = c as u32;
    ||| 0x09 <= u <= 0x0D
    ||| u == 0x20
    ||| u == 0x85
    ||| u == 0xA0
    ||| u == 0x1680
    ||| 0x2000 <= u <= 0x200A
    ||| u == 0x2028
    ||| u == 0x2029
    ||| u == 0x202F
    ||| u == 0x205F
    ||| u == 0x3000
}

/// Where the first `a` directly followed by `b` starts, searching from `i`
/// to the end of the line (the next `'\n'`); -1 when there is none.
pub open spec fn line_find_pair(t: Seq<char>, i: int, a: char, b: char) -> int
    decreases t.len() - i,
{
    if i < 0 || i + 1 >= t.len() {
        -1
    } else if t[i] == '\n' {
        -1
    } else if t[i] == a && t[i + 1] == b {
        i
    } else {
        line_find_pair(t, i + 1, a, b)
    }
}

/// Where the first `c` lies, searching from `i` to the end of the line;
/// -1 when there is none.
pub open spec fn line_find(t: Seq<char>, i: int, c: char) -> int
    decreases t.len() - i,
{
    if i < 0 || i >= t.len() {
        -1
    } else if t[i] == '\n' {
        -1
    } else if t[i] == c {
        i
    } else {
        line_find(t, i + 1, c)
    }
}

/// Where a run of literal text that continues at `i` ends: at the first
/// `{` from `i` on that no backslash escapes, or at the end of the text.
pub open spec fn text_run_end(t: Seq<char>, i: int) -> int
    decreases t.len() - i,
{
    if i >= t.len() {
        t.len() as int
    } else if i >= 1 && t[i] == '{' && t[i - 1] != '\\' {
        i
    } else {
        text_run_end(t, i + 1)
    }
}

/// The first position in `lo..hi` that is not whitespace, or `hi`.
pub open spec fn skip_ws_fwd(t: Seq<char>, lo: int, hi: int) -> int
    decreases hi - lo,
{
    if lo < hi && unicode_whitespace(t[lo]) {
        skip_ws_fwd(t, lo + 1, hi)
    } else {
        lo
    }
}

/// The end of `lo..hi` once trailing whitespace is dropped.
pub open spec fn skip_ws_back(t: Seq<char>, lo: int, hi: int) -> int
    decreases hi - lo,
{
    if lo < hi && unicode_whitespace(t[hi - 1]) {
        skip_ws_back(t, lo, hi - 1)
    } else {
        hi
    }
}

/// The bounds of `t[lo..hi].trim()`.
pub open spec fn trimmed(t: Seq<char>, lo: int, hi: int) -> (int, int) {
    let l = skip_ws_fwd(t, lo, hi);
    (l, skip_ws_back(t, l, hi))
}

/// The bounds of a block tag's contents `t[lo..hi]` once the compiler has
/// trimmed them and dropped the `-` marks of whitespace control: trimmed,
/// then a leading `-` removed and trimmed again, then a trailing `-`
/// removed and trimmed again.
pub open spec fn block_contents(t: Seq<char>, lo: int, hi: int) -> (int, int) {
    let (l0, h0) = trimmed(t, lo, hi);
    let (l1, h1) = if l0 < h0 && t[l0] == '-' { trimmed(t, l0 + 1, h0) } else { (l0, h0) };
    if l1 < h1 && t[h1 - 1] == '-' { trimmed(t, l1, h1 - 1) } else { (l1, h1) }
}

/// The block tag whose contents are `t[lo..hi]` is an `if` whose condition
/// is `not` alone or `not` directly followed by a character of more than
/// one byte: the compiler then slices the condition at its fifth byte,
/// which is past its end or inside that character.
pub open spec fn negation_panics(t: Seq<char>, lo: int, hi: int) -> bool {
    let (l, h) = block_contents(t, lo, hi);
    let (r, e) = trimmed(t, l + 2, h);
    &&& h - l >= 2
    &&& t[l] == 'i'
    &&& t[l + 1] == 'f'
    &&& h - l == 2 || unicode_whitespace(t[l + 2])
    &&& e - r >= 3
    &&& t[r] == 'n'
    &&& t[r + 1] == 'o'
    &&& t[r + 2] == 't'
    &&& e - r == 3 || (t[r + 3] as u32) >= 0x80
}

/// `t` holds `a` at `i` and `b` right after it.
pub open spec fn pair_at(t: Seq<char>, i: int, a: char, b: char) -> bool {
    0 <= i && i + 1 < t.len() && t[i] == a && t[i + 1] == b
}

/// Whether `tinytemplate`'s template compiler, scanning `t` from `pos` on,
/// reaches a slice that panics. It scans as `TemplateCompiler::compile`
/// does: a comment `{# .. #}` ends at the first `#}` of its line, and
/// slicing its contents panics when that `#}` is the one right after `{`
/// (the text `{#}`); a block `{{ .. }}` ends at the first `}}` of its line
/// and panics as `negation_panics` says; a value `{ .. }` ends at the first
/// `}` of its line; literal text runs to the first unescaped `{`, and a
/// backslash that ends the whole text makes the compiler slice past the
/// end. A tag whose line holds no closing stops the compiler with an error,
/// before anything can panic.
pub open spec fn scan_panics(t: Seq<char>, pos: int) -> bool
    decreases t.len() - pos,
{
    if pos < 0 || pos >= t.len() {
        false
    } else if pair_at(t, pos, '{', '#') {
        let q = line_find_pair(t, pos, '#', '}');
        if !(pos <= q && q + 2 <= t.len()) {
            false
        } else if q == pos + 1 {
            true
        } else {
            scan_panics(t, q + 2)
        }
    } else if pair_at(t, pos, '{', '{') {
        let q = line_find_pair(t, pos, '}', '}');
        if !(pos <= q && q + 2 <= t.len()) {
            false
        } else if negation_panics(t, pos + 2, q) {
            true
        } else {
            scan_panics(t, q + 2)
        }
    } else if t[pos] == '{' {
        let q = line_find(t, pos, '}');
        if !(pos <= q && q + 1 <= t.len()) {
            false
        } else {
            scan_panics(t, q + 1)
        }
    } else {
        let e = text_run_end(t, pos + 1);
        if e >= t.len() {
            t[t.len() - 1] == '\\'
        } else if e <= pos {
            false
        } else {
            scan_panics(t, e)
        }
    }
}

/// Texts whose compilation by `tinytemplate` cannot panic. The scan that
/// decides it follows the compiler's, but does not stop at the errors the
/// compiler raises inside a well-closed tag (an unknown block kind, a bad
/// path), so every text it refuses is one that panics or fails to compile.
pub open spec fn template_safe(text: Seq<char>) -> bool {
    !scan_panics(text, 0)
}

/// A literal run that meets no `{` from `i` on reaches the end of the text.
proof fn lemma_run_reaches_end(t: Seq<char>, i: int)
    requires
        forall|j: int| 0 <= j < t.len() ==> t[j] != '{',
    ensures
        text_run_end(t, i) == t.len(),
    decreases t.len() - i,
{
    if i < t.len() {
        lemma_run_reaches_end(t, i + 1);
    }
}

/// A text without `{` and without a backslash is plain text to the
/// template compiler: compiling it cannot panic.
pub proof fn lemma_plain_text_is_safe(text: Seq<char>)
    requires
        forall|j: int| 0 <= j < text.len() ==> text[j] != '{' && text[j] != '\\',
    ensures
        template_safe(text),
{
    if text.len() > 0 {
        lemma_run_reaches_end(text, 1);
        assert(text[text.len() - 1] != '\\');
    }
}

/// `char::is_whitespace`.
fn is_unicode_whitespace(c: char) -> (res: bool)
    ensures
        res == unicode_whitespace(c),
{
    let u = c as u32;
    (0x09 <= u && u <= 0x0D) || u == 0x20 || u == 0x85 || u == 0xA0 || u == 0x1680 || (0x2000 <= u
        && u <= 0x200A) || u == 0x2028 || u == 0x2029 || u == 0x202F || u == 0x205F || u == 0x3000
}

/// `line_find_pair` from `start`: the position, or nothing when there is
/// none.
fn find_pair_in_line(text: &str, n: usize, start: usize, a: char, b: char) -> (res: Option<usize>)
    requires
        n == text@.len(),
        start <= n,
    ensures
        match res {
            Some(q) => q == line_find_pair(text@, start as int, a, b) && start <= q && q + 1 < n
                && text@[q as int] == a && text@[q + 1] == b,
            None => line_find_pair(text@, start as int, a, b) == -1,
        },
{
    let mut i: usize = start;
    while i < n
        invariant
            n == text@.len(),
            start <= i <= n,
            line_find_pair(text@, start as int, a, b) == line_find_pair(text@, i as int, a, b),
        decreases n - i,
    {
        if i + 1 >= n {
            return None;
        }
        let c = text.get_char(i);
        if c == '\n' {
            return None;
        }
        if c == a && text.get_char(i + 1) == b {
            return Some(i);
        }
        i = i + 1;
    }
    None
}

/// `line_find` from `start`: the position, or nothing when there is none.
fn find_in_line(text: &str, n: usize, start: usize, c: char) -> (res: Option<usize>)
    requires
        n == text@.len(),
        start <= n,
    ensures
        match res {
            Some(q) => q == line_find(text@, start as int, c) && start <= q < n && text@[q as int] == c,
            None => line_find(text@, start as int, c) == -1,
        },
{
    let mut i: usize = start;
    while i < n
        invariant
            n == text@.len(),
            start <= i <= n,
            line_find(text@, start as int, c) == line_find(text@, i as int, c),
        decreases n - i,
    {
        let d = text.get_char(i);
        if d == '\n' {
            return None;
        }
        if d == c {
            return Some(i);
        }
        i = i + 1;
    }
    None
}

/// `text_run_end` from `start`.
fn run_end(text: &str, n: usize, start: usize) -> (res: usize)
    requires
        n == text@.len(),
        1 <= start <= n,
    ensures
        res == text_run_end(text@, start as int),
        start <= res <= n,
{
    let mut i: usize = start;
    while i < n
        invariant
            n == text@.len(),
            1 <= start <= i <= n,
            text_run_end(text@, start as int) == text_run_end(text@, i as int),
        decreases n - i,
    {
        if text.get_char(i) == '{' && text.get_char(i - 1) != '\\' {
            return i;
        }
        i = i + 1;
    }
    n
}

/// The bounds of `text[lo..hi].trim()`.
fn trim_range(text: &str, n: usize, lo: usize, hi: usize) -> (res: (usize, usize))
    requires
        n == text@.len(),
        lo <= hi <= n,
    ensures
        res.0 == trimmed(text@, lo as int, hi as int).0,
        res.1 == trimmed(text@, lo as int, hi as int).1,
        lo <= res.0 <= res.1 <= hi,
{
    let mut l: usize = lo;
    while l < hi && is_unicode_whitespace(text.get_char(l))
        invariant
            n == text@.len(),
            lo <= l <= hi <= n,
            skip_ws_fwd(text@, lo as int, hi as int) == skip_ws_fwd(text@, l as int, hi as int),
        decreases hi - l,
    {
        l = l + 1;
    }
    let mut h: usize = hi;
    while l < h && is_unicode_whitespace(text.get_char(h - 1))
        invariant
            n == text@.len(),
            lo <= l <= h <= hi <= n,
            l == skip_ws_fwd(text@, lo as int, hi as int),
            skip_ws_back(text@, l as int, hi as int) == skip_ws_back(text@, l as int, h as int),
        decreases h - l,
    {
        h = h - 1;
    }
    (l, h)
}

/// `negation_panics` for the block tag whose contents are `text[lo..hi]`.
fn negation_would_panic(text: &str, n: usize, lo: usize, hi: usize) -> (res: bool)
    requires
        n == text@.len(),
        lo <= hi <= n,
    ensures
        res == negation_panics(text@, lo as int, hi as int),
{
    let (l0, h0) = trim_range(text, n, lo, hi);
    let (l1, h1) = if l0 < h0 && text.get_char(l0) == '-' {
        trim_range(text, n, l0 + 1, h0)
    } else {
        (l0, h0)
    };
    let (l, h) = if l1 < h1 && text.get_char(h1 - 1) == '-' {
        trim_range(text, n, l1, h1 - 1)
    } else {
        (l1, h1)
    };
    assert((l as int, h as int) == block_contents(text@, lo as int, hi as int));
    if h - l < 2 || text.get_char(l) != 'i' || text.get_char(l + 1) != 'f' {
        return false;
    }
    if h - l > 2 && !is_unicode_whitespace(text.get_char(l + 2)) {
        return false;
    }
    let (r, e) = trim_range(text, n, l + 2, h);
    if e - r < 3 || text.get_char(r) != 'n' || text.get_char(r + 1) != 'o' || text.get_char(r + 2) != 't' {
        return false;
    }
    e - r == 3 || (text.get_char(r + 3) as u32) >= 0x80
}

/// Whether compiling `text` as a template cannot panic.
pub fn template_is_safe(text: &str) -> (res: bool)
    ensures
        res == template_safe(text@),
{
    let n = text.unicode_len();
    let mut pos: usize = 0;
    while pos < n
        invariant
            n == text@.len(),
            pos <= n,
            scan_panics(text@, 0) == scan_panics(text@, pos as int),
        decreases n - pos,
    {
        let c = text.get_char(pos);
        let next = if pos + 1 < n { text.get_char(pos + 1) } else { ' ' };
        if c == '{' && pos + 1 < n && next == '#' {
            match find_pair_in_line(text, n, pos, '#', '}') {
                None => {
                    return true;
                },
                Some(q) => {
                    if q == pos + 1 {
                        return false;
                    }
                    pos = q + 2;
                },
            }
        } else if c == '{' && pos + 1 < n && next == '{' {
            match find_pair_in_line(text, n, pos, '}', '}') {
                None => {
                    return true;
                },
                Some(q) => {
                    if negation_would_panic(text, n, pos + 2, q) {
                        return false;
                    }
                    pos = q + 2;
                },
            }
        } else if c == '{' {
            match find_in_line(text, n, pos, '}') {
                None => {
                    return true;
                },
                Some(q) => {
                    pos = q + 1;
                },
            }
        } else {
            let e = run_end(text, n, pos + 1);
            if e >= n {
                return text.get_char(n - 1) != '\\';
            }
            pos = e;
        }
    }
    true
}

/// Calls `TinyTemplate::new`, which makes a registry without templates and
/// with the default formatters. It is the only way this crate makes a
/// registry, and the crate never changes a registry's formatters.
#[verifier::external_body]
pub(crate) fn new_registry() -> (res: TinyTemplate<'static>)
    ensures
        registered_templates(res).dom().is_empty(),
{
    TinyTemplate::new()
}

/// Calls `TinyTemplate::add_template`: it compiles `text`; on success it
/// registers the template under `name` (replacing any template of that
/// name), on failure it leaves the registry as it was. The compiler panics
/// on some texts; `template_safe` leaves them out.
#[verifier::external_body]
pub(crate) fn add_template<'template>(
    registry: &mut TinyTemplate<'template>,
    name: &'template str,
    text: &'template str,
) -> (res: Result<(), Error>)
    requires
        template_safe(text@),
    ensures
        res is Ok <==> template_compiles(text@),
        res is Ok ==> registered_templates(*final(registry)) == registered_templates(*old(registry)).insert(name@, text@),
        res is Err ==> registered_templates(*final(registry)) == registered_templates(*old(registry)),
{
    registry.add_template(name, text)
}

/// Calls `TinyTemplate::render` with the pairs of `context`, collected into
/// a map, as the rendering context. The answer is the named rendering
/// result: the output on success, an error when rendering fails.
#[verifier::external_body]
pub(crate) fn render_template(
    registry: &TinyTemplate<'_>,
    name: &str,
    context: &Vec<(String, String)>,
) -> (res: Result<String, Error>)
    ensures
        match rendered_template(registered_templates(*registry), name@, context.deep_view()) {
            Some(out) => res matches Ok(s) && s@ == out,
            None => res is Err,
        },
{
    let values: HashMap<&str, &str> = context.iter().map(|(k, v)| (k.as_str(), v.as_str())).collect();
    registry.render(name, &values)
}

} // verus!
