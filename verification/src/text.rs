//! Text dropped on the widget: trimming, removal of the `file://` scheme and
//! joining of several paths into one line of input.

use vstd::prelude::*;
use vstd::string::*;

verus! {

/// Whether `c` has the Unicode property White_Space.
pub open spec fn is_space(c: char) -> bool {
    let v = c as u32;
    ||| 0x09 <= v <= 0x0D
    ||| v == 0x20
    ||| v == 0x85
    ||| v == 0xA0
    ||| v == 0x1680
    ||| 0x2000 <= v <= 0x200A
    ||| v == 0x2028
    ||| v == 0x2029
    ||| v == 0x202F
    ||| v == 0x205F
    ||| v == 0x3000
}

/// `s` without its leading white space.
pub open spec fn trim_start(s: Seq<char>) -> Seq<char>
    decreases s.len(),
{
    if s.len() > 0 && is_space(s[0]) {
        trim_start(s.drop_first())
    } else {
        s
    }
}

/// `s` without its trailing white space.
pub open spec fn trim_end(s: Seq<char>) -> Seq<char>
    decreases s.len(),
{
    if s.len() > 0 && is_space(s.last()) {
        trim_end(s.drop_last())
    } else {
        s
    }
}

/// `s` without the white space that surrounds it.
pub open spec fn trimmed(s: Seq<char>) -> Seq<char> {
    trim_end(trim_start(s))
}

/// The characters of `file://`.
pub open spec fn scheme() -> Seq<char> {
    seq!['f', 'i', 'l', 'e', ':', '/', '/']
}

/// Whether `s` begins with `p`.
pub open spec fn has_prefix(s: Seq<char>, p: Seq<char>) -> bool {
    p.len() <= s.len() && s.subrange(0, p.len() as int) == p
}

/// `s` without one leading `p`, or `s` itself where it does not begin with `p`.
pub open spec fn without_prefix(s: Seq<char>, p: Seq<char>) -> Seq<char> {
    if has_prefix(s, p) {
        s.skip(p.len() as int)
    } else {
        s
    }
}

/// `s` without any occurrence of `p`, occurrences taken from left to right
/// and never overlapping.
pub open spec fn without_all(s: Seq<char>, p: Seq<char>) -> Seq<char>
    decreases s.len(),
{
    if s.len() == 0 {
        s
    } else if p.len() > 0 && has_prefix(s, p) {
        without_all(s.skip(p.len() as int), p)
    } else {
        seq![s[0]] + without_all(s.drop_first(), p)
    }
}

/// The parts in order, with one space between each two neighbours.
pub open spec fn joined(parts: Seq<Seq<char>>) -> Seq<char>
    decreases parts.len(),
{
    if parts.len() == 0 {
        Seq::empty()
    } else if parts.len() == 1 {
        parts[0]
    } else {
        joined(parts.drop_last()) + seq![' '] + parts.last()
    }
}

/// The path a dropped URI stands for: the URI without surrounding white
/// space and without its `file://` prefix.
pub open spec fn uri_path(uri: Seq<char>) -> Seq<char> {
    without_prefix(trimmed(uri), scheme())
}

/// The paths of several URIs, in order.
pub open spec fn uri_paths(uris: Seq<Seq<char>>) -> Seq<Seq<char>> {
    Seq::new(uris.len(), |i: int| uri_path(uris[i]))
}

/// What dropped plain text contributes: the text without any `file://` and
/// then without surrounding white space.
pub open spec fn plain_text(text: Seq<char>) -> Seq<char> {
    trimmed(without_all(text, scheme()))
}

/// The line of input that a drop stands for, if any. URIs win over text;
/// text counts only where it is not empty.
pub open spec fn dropped(uris: Seq<Seq<char>>, text: Option<Seq<char>>) -> Option<Seq<char>> {
    if uris.len() > 0 {
        Some(joined(uri_paths(uris)))
    } else if text is Some && text->0.len() > 0 {
        Some(plain_text(text->0))
    } else {
        None
    }
}

/// The characters of a text that may be missing.
pub open spec fn text_view(text: Option<&str>) -> Option<Seq<char>> {
    match text {
        Some(t) => Some(t@),
        None => None,
    }
}

/// The characters of a line that may be missing.
pub open spec fn line_view(line: Option<String>) -> Option<Seq<char>> {
    match line {
        Some(l) => Some(l@),
        None => None,
    }
}

/// The character sequences of a list of strings.
pub open spec fn strings_view(strings: Seq<String>) -> Seq<Seq<char>> {
    Seq::new(strings.len(), |i: int| strings[i]@)
}

/// Decides whether `c` is white space.
pub fn is_whitespace(c: char) -> (b: bool)
    ensures
        b == is_space(c),
{
    let v: u32 = c as u32;
    (0x09 <= v && v <= 0x0D) || v == 0x20 || v == 0x85 || v == 0xA0 || v == 0x1680 || (0x2000 <= v
        && v <= 0x200A) || v == 0x2028 || v == 0x2029 || v == 0x202F || v == 0x205F || v == 0x3000
}

/// Collects the characters of `s`, in order.
pub fn chars_of(s: &str) -> (chars: Vec<char>)
    ensures
        chars@ == s@,
{
    let mut chars: Vec<char> = Vec::new();
    for c in it: s.chars()
        invariant
            it.seq() == s@,
            chars@ == s@.take(it.index() as int),
    {
        chars.push(c);
        proof {
            assert(s@.take(it.index() as int + 1) =~= s@.take(it.index() as int).push(c));
        }
    }
    assert(s@.take(s@.len() as int) =~= s@);
    chars
}

/// Finds where the text between leading and trailing white space begins
/// and ends.
pub fn trim_bounds(chars: &Vec<char>) -> (bounds: (usize, usize))
    ensures
        bounds.0 <= bounds.1 <= chars@.len(),
        chars@.subrange(bounds.0 as int, bounds.1 as int) == trimmed(chars@),
{
    let n: usize = chars.len();
    let mut a: usize = 0;
    assert(chars@.skip(0) =~= chars@);
    while a < n && is_whitespace(chars[a])
        invariant
            a <= n,
            n == chars@.len(),
            trim_start(chars@) == trim_start(chars@.skip(a as int)),
        decreases n - a,
    {
        proof {
            assert(chars@.skip(a as int).drop_first() =~= chars@.skip(a as int + 1));
        }
        a += 1;
    }
    assert(chars@.skip(a as int) =~= chars@.subrange(a as int, n as int));
    let mut b: usize = n;
    while b > a && is_whitespace(chars[b - 1])
        invariant
            a <= b <= n,
            n == chars@.len(),
            trimmed(chars@) == trim_end(chars@.subrange(a as int, b as int)),
        decreases b,
    {
        proof {
            assert(chars@.subrange(a as int, b as int).drop_last() =~= chars@.subrange(
                a as int,
                b as int - 1,
            ));
        }
        b -= 1;
    }
    (a, b)
}

/// Returns the part of `s` between its leading and trailing white space.
pub fn trim(s: &str) -> (out: &str)
    ensures
        out@ == trimmed(s@),
{
    let chars = chars_of(s);
    let (a, b) = trim_bounds(&chars);
    s.substring_char(a, b)
}

/// Tells whether `file://` stands in `chars` at position `i`.
fn scheme_at(chars: &Vec<char>, i: usize) -> (found: bool)
    requires
        i <= chars@.len(),
    ensures
        found == has_prefix(chars@.skip(i as int), scheme()),
{
    if chars.len() - i < 7 {
        return false;
    }
    let found = chars[i] == 'f' && chars[i + 1] == 'i' && chars[i + 2] == 'l' && chars[i + 3]
        == 'e' && chars[i + 4] == ':' && chars[i + 5] == '/' && chars[i + 6] == '/';
    proof {
        let head = chars@.skip(i as int).subrange(0, 7);
        if found {
            assert(head =~= scheme());
        } else {
            assert(head[0] == chars@[i as int]);
            assert(head[1] == chars@[i + 1]);
            assert(head[2] == chars@[i + 2]);
            assert(head[3] == chars@[i + 3]);
            assert(head[4] == chars@[i + 4]);
            assert(head[5] == chars@[i + 5]);
            assert(head[6] == chars@[i + 6]);
        }
    }
    found
}

/// Removes one leading `file://` from `s`, if there is one.
pub fn strip_scheme(s: &str) -> (out: &str)
    ensures
        out@ == without_prefix(s@, scheme()),
{
    let chars = chars_of(s);
    assert(s@.skip(0) =~= s@);
    if scheme_at(&chars, 0) {
        assert(s@.skip(7) =~= s@.subrange(7, s@.len() as int));
        s.substring_char(7, chars.len())
    } else {
        s
    }
}

/// Removes every `file://` from `s`.
pub fn remove_scheme(s: &str) -> (out: String)
    ensures
        out@ == without_all(s@, scheme()),
{
    let chars = chars_of(s);
    let n: usize = chars.len();
    let mut out = String::new();
    let mut from: usize = 0;
    let mut i: usize = 0;
    assert(s@.skip(0) =~= s@);
    assert(out@ + s@.subrange(0, 0) =~= Seq::<char>::empty());
    assert(Seq::<char>::empty() + without_all(s@, scheme()) =~= without_all(s@, scheme()));
    while i < n
        invariant
            from <= i <= n,
            n == s@.len(),
            chars@ == s@,
            without_all(s@, scheme()) == out@ + s@.subrange(from as int, i as int) + without_all(
                s@.skip(i as int),
                scheme(),
            ),
        decreases n - i,
    {
        let ghost rest = s@.skip(i as int);
        let ghost kept = out@ + s@.subrange(from as int, i as int);
        if scheme_at(&chars, i) {
            out.append(s.substring_char(from, i));
            proof {
                assert(rest.skip(7) =~= s@.skip(i as int + 7));
                assert(out@ + s@.subrange(i as int + 7, i as int + 7) =~= kept);
            }
            i += 7;
            from = i;
        } else {
            proof {
                assert(rest.drop_first() =~= s@.skip(i as int + 1));
                assert(kept + (seq![rest[0]] + without_all(rest.drop_first(), scheme())) =~= (out@
                    + s@.subrange(from as int, i as int + 1)) + without_all(
                    rest.drop_first(),
                    scheme(),
                ));
            }
            i += 1;
        }
    }
    proof {
        assert(out@ + s@.subrange(from as int, n as int) + without_all(
            s@.skip(n as int),
            scheme(),
        ) =~= out@ + s@.subrange(from as int, n as int));
    }
    out.append(s.substring_char(from, n));
    out
}

/// Joins the paths of the dropped URIs with single spaces.
pub fn join_uris(uris: &Vec<String>) -> (out: String)
    ensures
        out@ == joined(uri_paths(strings_view(uris@))),
{
    let ghost paths = uri_paths(strings_view(uris@));
    let mut out = String::new();
    let mut i: usize = 0;
    assert(paths.take(0) =~= Seq::empty());
    while i < uris.len()
        invariant
            i <= uris.len(),
            paths == uri_paths(strings_view(uris@)),
            out@ == joined(paths.take(i as int)),
        decreases uris.len() - i,
    {
        if i > 0 {
            proof {
                reveal_strlit(" ");
                assert(" "@ =~= seq![' ']);
            }
            out.append(" ");
        }
        let path = strip_scheme(trim(uris[i].as_str()));
        proof {
            assert(path@ == paths[i as int]);
            assert(paths.take(i as int + 1).drop_last() =~= paths.take(i as int));
            assert(paths.take(i as int + 1).last() == paths[i as int]);
        }
        out.append(path);
        i += 1;
    }
    assert(paths.take(i as int) =~= paths);
    out
}

/// Turns what a drop delivered into the line of input it stands for. With
/// URIs, their paths joined by spaces; without, the text if it is not empty;
/// otherwise nothing.
pub fn drop_text(uris: &Vec<String>, text: Option<&str>) -> (out: Option<String>)
    ensures
        line_view(out) == dropped(strings_view(uris@), text_view(text)),
{
    if uris.len() > 0 {
        Some(join_uris(uris))
    } else {
        match text {
            Some(t) => {
                if t.unicode_len() > 0 {
                    let bare = remove_scheme(t);
                    Some(trim(bare.as_str()).to_owned())
                } else {
                    None
                }
            },
            None => None,
        }
    }
}

} // verus!
