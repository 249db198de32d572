//! What a path says about a document: whether it is markdown, and the title
//! it gives when the document has no heading.
use vstd::prelude::*;

use crate::error::{ErrorView, MarkdownViewerError};

use crate::paths::{
    ascii_lower_code, chars_of, eq_ignore_ascii_case, extension_of_name, file_name_of,
    has_markdown_extension, is_ascii_upper, last_dot_index, markdown_extensions, name_bounds,
    slice_chars, stem_of_name, trim_tail, PathPlatform,
};

verus! {

/// A file stem made readable: `_` and `-` become spaces.
pub open spec fn spaced(s: Seq<char>) -> Seq<char> {
    s.map_values(|c: char| if c == '_' || c == '-' { ' ' } else { c })
}

/// The title of a document at `path`: its readable file stem, or `Markdown`
/// when the path names no file.
pub open spec fn title_of_path(platform: PathPlatform, path: Seq<char>) -> Seq<char> {
    match file_name_of(platform, path) {
        Some(name) => spaced(stem_of_name(name)),
        None => "Markdown"@,
    }
}

proof fn lemma_last_dot_index_range(s: Seq<char>)
    ensures
        -1 <= last_dot_index(s) < s.len(),
        last_dot_index(s) >= 0 ==> s[last_dot_index(s)] == '.',
    decreases s.len(),
{
    if s.len() > 0 && s.last() != '.' {
        lemma_last_dot_index_range(s.drop_last());
    }
}

/// The index of the last `.` among the first `n` characters.
fn last_dot_before(v: &Vec<char>, n: usize) -> (r: Option<usize>)
    requires
        n <= v@.len(),
    ensures
        match r {
            Some(k) => k as int == last_dot_index(v@.subrange(0, n as int)),
            None => last_dot_index(v@.subrange(0, n as int)) == -1,
        },
{
    let mut k = n;
    while k > 0 && v[k - 1] != '.'
        invariant
            k <= n <= v@.len(),
            last_dot_index(v@.subrange(0, n as int)) == last_dot_index(v@.subrange(0, k as int)),
        decreases k,
    {
        assert(v@.subrange(0, k as int).drop_last() =~= v@.subrange(0, k - 1));
        k = k - 1;
    }
    if k == 0 {
        None
    } else {
        Some(k - 1)
    }
}

fn ascii_lower_eq(a: char, b: char) -> (r: bool)
    ensures
        r == (ascii_lower_code(a) == ascii_lower_code(b)),
{
    let au = 'A' <= a && a <= 'Z';
    let bu = 'A' <= b && b <= 'Z';
    let ac = a as u32;
    let bc = b as u32;
    if au && bu {
        ac == bc
    } else if au {
        ac + 32 == bc
    } else if bu {
        bc + 32 == ac
    } else {
        ac == bc
    }
}

/// Whether two character sequences are equal up to ASCII case.
fn eq_ignore_ascii_case_chars(a: &Vec<char>, b: &str) -> (r: bool)
    ensures
        r == eq_ignore_ascii_case(a@, b@),
{
    let bv = chars_of(b);
    if a.len() != bv.len() {
        return false;
    }
    let mut i: usize = 0;
    while i < a.len()
        invariant
            a@.len() == bv@.len(),
            bv@ == b@,
            i <= a@.len(),
            forall|j: int| 0 <= j < i ==> ascii_lower_code(a@[j]) == ascii_lower_code(bv@[j]),
        decreases a@.len() - i,
    {
        if !ascii_lower_eq(a[i], bv[i]) {
            return false;
        }
        i = i + 1;
    }
    true
}

/// Whether the path's extension is one of `md`, `markdown`, `mdown`, `mkd`
/// and `mkdn`, in any ASCII case.
pub fn is_markdown_file(path: &str, platform: PathPlatform) -> (r: bool)
    ensures
        r == has_markdown_extension(platform, path@),
{
    let v = chars_of(path);
    let (start, end) = name_bounds(platform, &v);
    let name = slice_chars(&v, start, end);
    if name.len() == 0 || (name.len() == 1 && name[0] == '.') || (name.len() == 2 && name[0]
        == '.' && name[1] == '.') {
        assert(file_name_of(platform, path@) is None) by {
            if name@.len() == 1 {
                assert(name@ =~= seq!['.']);
            }
            if name@.len() == 2 {
                assert(name@ =~= seq!['.', '.']);
            }
        }
        return false;
    }
    assert(file_name_of(platform, path@) == Some(name@)) by {
        if name@ == seq!['.'] {
            assert(name@[0] == '.');
        }
        if name@ == seq!['.', '.'] {
            assert(name@[0] == '.' && name@[1] == '.');
        }
    }
    let dot = last_dot_before(&name, name.len());
    assert(name@.subrange(0, name@.len() as int) =~= name@);
    proof {
        lemma_last_dot_index_range(name@);
    }
    match dot {
        None => false,
        Some(0) => false,
        Some(i) => {
            let ext = slice_chars(&name, i + 1, name.len());
            let ghost exts = markdown_extensions();
            let r = eq_ignore_ascii_case_chars(&ext, "md") || eq_ignore_ascii_case_chars(
                &ext,
                "markdown",
            ) || eq_ignore_ascii_case_chars(&ext, "mdown") || eq_ignore_ascii_case_chars(
                &ext,
                "mkd",
            ) || eq_ignore_ascii_case_chars(&ext, "mkdn");
            assert(extension_of_name(name@) == Some(ext@));
            assert(r == exists|k: int|
                0 <= k < exts.len() && eq_ignore_ascii_case(ext@, #[trigger] exts[k])) by {
                if r {
                    if eq_ignore_ascii_case(ext@, "md"@) {
                        assert(exts[0] == "md"@);
                    } else if eq_ignore_ascii_case(ext@, "markdown"@) {
                        assert(exts[1] == "markdown"@);
                    } else if eq_ignore_ascii_case(ext@, "mdown"@) {
                        assert(exts[2] == "mdown"@);
                    } else if eq_ignore_ascii_case(ext@, "mkd"@) {
                        assert(exts[3] == "mkd"@);
                    } else {
                        assert(exts[4] == "mkdn"@);
                    }
                }
            }
            r
        },
    }
}

/// The title of the document at `path` when it has no heading: the file stem
/// with `_` and `-` turned into spaces, or `Markdown` when there is no file name.
pub fn title_from_path(path: &str, platform: PathPlatform) -> (r: String)
    ensures
        r@ == title_of_path(platform, path@),
{
    let v = chars_of(path);
    let (start, end) = name_bounds(platform, &v);
    let name = slice_chars(&v, start, end);
    if name.len() == 0 || (name.len() == 1 && name[0] == '.') || (name.len() == 2 && name[0]
        == '.' && name[1] == '.') {
        assert(file_name_of(platform, path@) is None) by {
            if name@.len() == 1 {
                assert(name@ =~= seq!['.']);
            }
            if name@.len() == 2 {
                assert(name@ =~= seq!['.', '.']);
            }
        }
        return String::from_str("Markdown");
    }
    assert(file_name_of(platform, path@) == Some(name@)) by {
        if name@ == seq!['.'] {
            assert(name@[0] == '.');
        }
        if name@ == seq!['.', '.'] {
            assert(name@[0] == '.' && name@[1] == '.');
        }
    }
    assert(name@.subrange(0, name@.len() as int) =~= name@);
    proof {
        lemma_last_dot_index_range(name@);
    }
    let stem_len = match last_dot_before(&name, name.len()) {
        None => name.len(),
        Some(0) => name.len(),
        Some(i) => i,
    };
    let ghost stem = stem_of_name(name@);
    assert(stem =~= name@.subrange(0, stem_len as int));
    let stem_end = start + stem_len;
    let mut r = String::new();
    let mut k = start;
    while k < stem_end
        invariant
            start <= k <= stem_end <= end <= v@.len(),
            v@ == path@,
            stem_end == start + stem_len,
            name@ == v@.subrange(start as int, end as int),
            stem == name@.subrange(0, stem_len as int),
            r@ == spaced(stem.subrange(0, k - start)),
        decreases stem_end - k,
    {
        let c = v[k];
        let ghost prev = stem.subrange(0, k - start);
        assert(stem[k - start] == c);
        assert(stem.subrange(0, k + 1 - start) =~= prev.push(c));
        let ghost mapped = if c == '_' || c == '-' { ' ' } else { c };
        assert(spaced(prev.push(c)) =~= spaced(prev).push(mapped));
        if c == '_' || c == '-' {
            proof {
                reveal_strlit(" ");
            }
            r.append(" ");
        } else {
            let one = path.substring_char(k, k + 1);
            assert(one@ =~= seq![c]);
            r.append(one);
        }
        assert(r@ =~= spaced(stem.subrange(0, k + 1 - start)));
        k = k + 1;
    }
    assert(stem.subrange(0, stem_len as int) =~= stem);
    r
}

/// A resolved document may be read only when its path has a markdown
/// extension; any other file is refused as not markdown.
pub fn check_markdown_path(canonical_path: String, platform: PathPlatform) -> (r: Result<
    String,
    MarkdownViewerError,
>)
    ensures
        has_markdown_extension(platform, canonical_path@) ==> (r matches Ok(p) && p@ == canonical_path@),
        !has_markdown_extension(platform, canonical_path@) ==> (r matches Err(e) && e@
            == ErrorView::NotMarkdown(canonical_path@)),
{
    if is_markdown_file(canonical_path.as_str(), platform) {
        Ok(canonical_path)
    } else {
        Err(MarkdownViewerError::NotMarkdown(canonical_path))
    }
}

} // verus!
