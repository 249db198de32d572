//! Finding the markdown document to open from launch arguments and opened URLs.
use vstd::prelude::*;

use crate::markdown_file::is_markdown_file;
use crate::paths::{has_markdown_extension, is_absolute, is_sep, is_separator, PathPlatform};
use crate::resolve::{
    is_ascii_letter, is_file_url, is_file_url_text, path_of_input, resolve_outcome, resolve_path_input,
    path_from_input, result_view, CanonicalProbe,
};
use crate::text::{trim_text, trimmed};

verus! {

/// Under Windows rules, a path that starts with a drive (`C:`).
pub open spec fn starts_with_drive(platform: PathPlatform, s: Seq<char>) -> bool {
    platform == PathPlatform::Windows && s.len() >= 2 && is_ascii_letter(s[0]) && s[1] == ':'
}

/// The separator put between joined paths: `\` under Windows rules, else `/`.
pub open spec fn join_separator(platform: PathPlatform) -> Seq<char> {
    if platform == PathPlatform::Windows {
        "\\"@
    } else {
        "/"@
    }
}

/// `relative` read from the directory `base` (`Path::join`): a path that
/// starts with a separator or a drive stands for itself, and a separator is
/// put between the two when `base` does not end with one.
pub open spec fn join_path(platform: PathPlatform, base: Seq<char>, relative: Seq<char>) -> Seq<
    char,
> {
    if is_absolute(platform, relative) || starts_with_drive(platform, relative) || base.len() == 0 {
        relative
    } else if is_sep(platform, base.last()) {
        base + relative
    } else {
        base + join_separator(platform) + relative
    }
}

/// `answer` is what the filesystem may answer when `input` is resolved
/// through `probe`; an input that stands for no path asks nothing.
pub open spec fn answers<F: Fn(&str) -> CanonicalProbe>(
    probe: &F,
    input: Seq<char>,
    answer: CanonicalProbe,
) -> bool {
    match path_of_input(input) {
        Some(q) => exists|qs: &str| qs@ == q && #[trigger] probe.ensures((qs,), answer),
        None => answer == CanonicalProbe::NotFound,
    }
}

/// The markdown document resolving `input` finds when the filesystem gives `answer`.
pub open spec fn markdown_found(
    platform: PathPlatform,
    input: Seq<char>,
    answer: CanonicalProbe,
) -> Option<Seq<char>> {
    match resolve_outcome(input, answer) {
        Ok(p) => if has_markdown_extension(platform, p) {
            Some(p)
        } else {
            None
        },
        Err(_) => None,
    }
}

/// Trying `input` through `probe` may find `found`.
pub open spec fn may_find<F: Fn(&str) -> CanonicalProbe>(
    probe: &F,
    platform: PathPlatform,
    input: Seq<char>,
    found: Option<Seq<char>>,
) -> bool {
    exists|answer: CanonicalProbe|
        #[trigger] answers(probe, input, answer) && markdown_found(platform, input, answer) == found
}

pub open spec fn text_view(r: Option<String>) -> Option<Seq<char>> {
    match r {
        Some(s) => Some(s@),
        None => None,
    }
}

pub open spec fn str_view(r: Option<&str>) -> Option<Seq<char>> {
    match r {
        Some(s) => Some(s@),
        None => None,
    }
}

/// An argument that is empty once trimmed, or starts with `-`, names no document.
pub open spec fn is_option_or_blank(arg: Seq<char>) -> bool {
    trimmed(arg).len() == 0 || trimmed(arg)[0] == '-'
}

/// `found` may be what the launch argument `arg` names from the working
/// directory `cwd`: nothing for a blank argument or an option; else the
/// markdown document the trimmed argument resolves to, or, when it resolves
/// to none, the one it resolves to read from `cwd`.
pub open spec fn arg_may_name<F: Fn(&str) -> CanonicalProbe>(
    probe: &F,
    platform: PathPlatform,
    arg: Seq<char>,
    cwd: Option<Seq<char>>,
    found: Option<Seq<char>>,
) -> bool {
    if is_option_or_blank(arg) {
        found is None
    } else {
        let t = trimmed(arg);
        ||| (found is Some && may_find(probe, platform, t, found))
        ||| (may_find(probe, platform, t, None) && match cwd {
            None => found is None,
            Some(dir) => may_find(probe, platform, join_path(platform, dir, t), found),
        })
    }
}

/// `found` may be what an opened URL names: only a `file:` URL with a local
/// path names anything, as that path does as a launch argument.
pub open spec fn url_may_name<F: Fn(&str) -> CanonicalProbe>(
    probe: &F,
    platform: PathPlatform,
    url: Seq<char>,
    found: Option<Seq<char>>,
) -> bool {
    if is_file_url(url) && path_of_input(url) is Some {
        arg_may_name(probe, platform, path_of_input(url)->Some_0, None, found)
    } else {
        found is None
    }
}

pub fn join_path_text(base: &str, relative: &str, platform: PathPlatform) -> (r: String)
    ensures
        r@ == join_path(platform, base@, relative@),
{
    let n = relative.unicode_len();
    let absolute = n > 0 && is_separator(platform, relative.get_char(0));
    let drive = match platform {
        PathPlatform::Windows => n >= 2 && {
            let c = relative.get_char(0);
            ('a' <= c && c <= 'z') || ('A' <= c && c <= 'Z')
        } && relative.get_char(1) == ':',
        PathPlatform::Unix => false,
    };
    let base_len = base.unicode_len();
    if absolute || drive || base_len == 0 {
        return String::from_str(relative);
    }
    let mut r = String::from_str(base);
    if !is_separator(platform, base.get_char(base_len - 1)) {
        match platform {
            PathPlatform::Windows => r.append("\\"),
            PathPlatform::Unix => r.append("/"),
        }
    }
    r.append(relative);
    r
}

/// Resolves `candidate` and keeps it when it is a markdown document.
fn resolved_markdown<F: Fn(&str) -> CanonicalProbe>(
    candidate: &str,
    platform: PathPlatform,
    probe: &F,
) -> (r: Option<String>)
    requires
        forall|p: &str| #[trigger] probe.requires((p,)),
    ensures
        may_find(probe, platform, candidate@, text_view(r)),
{
    let resolved = resolve_path_input(candidate, probe);
    let ghost outcome = result_view(resolved);
    proof {
        let answer = if path_of_input(candidate@) is Some {
            let (q, a) = choose|q: &str, a: CanonicalProbe|
                q@ == path_of_input(candidate@)->Some_0 && #[trigger] probe.ensures((q,), a)
                    && outcome == resolve_outcome(candidate@, a);
            assert(answers(probe, candidate@, a));
            a
        } else {
            CanonicalProbe::NotFound
        };
        assert(answers(probe, candidate@, answer) && outcome == resolve_outcome(candidate@, answer));
        let found = match outcome {
            Ok(p) => if has_markdown_extension(platform, p) { Some(p) } else { None },
            Err(_) => None,
        };
        assert(markdown_found(platform, candidate@, answer) == found);
    }
    match resolved {
        Ok(path) => {
            if is_markdown_file(path.as_str(), platform) {
                Some(path)
            } else {
                None
            }
        },
        Err(_) => None,
    }
}

/// The markdown document a launch argument names: the argument trimmed, as
/// given, or else read from the working directory `cwd`. Blank arguments
/// and options (`-x`) name none.
pub fn markdown_path_from_arg<F: Fn(&str) -> CanonicalProbe>(
    arg: &str,
    cwd: Option<&str>,
    platform: PathPlatform,
    probe: &F,
) -> (r: Option<String>)
    requires
        forall|p: &str| #[trigger] probe.requires((p,)),
    ensures
        arg_may_name(probe, platform, arg@, str_view(cwd), text_view(r)),
{
    let trimmed_arg = trim_text(arg);
    if trimmed_arg.unicode_len() == 0 || trimmed_arg.get_char(0) == '-' {
        return None;
    }
    if let Some(path) = resolved_markdown(trimmed_arg, platform, probe) {
        return Some(path);
    }
    match cwd {
        None => None,
        Some(dir) => {
            let joined = join_path_text(dir, trimmed_arg, platform);
            resolved_markdown(joined.as_str(), platform, probe)
        },
    }
}

/// The first markdown document among the launch arguments after the
/// program's own name.
pub fn first_markdown_path_from_args<F: Fn(&str) -> CanonicalProbe>(
    args: &Vec<String>,
    cwd: Option<&str>,
    platform: PathPlatform,
    probe: &F,
) -> (r: Option<String>)
    requires
        forall|p: &str| #[trigger] probe.requires((p,)),
    ensures
        r matches Some(p) ==> exists|i: int|
            1 <= i < args@.len() && arg_may_name(probe, platform, #[trigger] args@[i]@, str_view(cwd), Some(p@))
                && forall|j: int|
                1 <= j < i ==> arg_may_name(probe, platform, #[trigger] args@[j]@, str_view(cwd), None),
        r is None ==> forall|j: int|
            1 <= j < args@.len() ==> arg_may_name(probe, platform, #[trigger] args@[j]@, str_view(cwd), None),
{
    let mut i: usize = 1;
    while i < args.len()
        invariant
            1 <= i,
            forall|p: &str| #[trigger] probe.requires((p,)),
            forall|j: int|
                1 <= j < i && j < args@.len() ==> arg_may_name(probe, platform, #[trigger] args@[j]@, str_view(cwd), None),
        decreases args@.len() - i,
    {
        let found = markdown_path_from_arg(args[i].as_str(), cwd, platform, probe);
        if let Some(path) = found {
            assert(arg_may_name(probe, platform, args@[i as int]@, str_view(cwd), Some(path@)));
            return Some(path);
        }
        i = i + 1;
    }
    None
}

/// The first markdown document among URLs the system asked to open; only
/// `file:` URLs with a local path count.
pub fn first_markdown_path_from_urls<F: Fn(&str) -> CanonicalProbe>(
    urls: &Vec<String>,
    platform: PathPlatform,
    probe: &F,
) -> (r: Option<String>)
    requires
        forall|p: &str| #[trigger] probe.requires((p,)),
    ensures
        r matches Some(p) ==> exists|i: int|
            0 <= i < urls@.len() && url_may_name(probe, platform, #[trigger] urls@[i]@, Some(p@)) && forall|
                j: int,
            | 0 <= j < i ==> url_may_name(probe, platform, #[trigger] urls@[j]@, None),
        r is None ==> forall|j: int|
            0 <= j < urls@.len() ==> url_may_name(probe, platform, #[trigger] urls@[j]@, None),
{
    let mut i: usize = 0;
    while i < urls.len()
        invariant
            i <= urls@.len(),
            forall|p: &str| #[trigger] probe.requires((p,)),
            forall|j: int| 0 <= j < i ==> url_may_name(probe, platform, #[trigger] urls@[j]@, None),
        decreases urls@.len() - i,
    {
        let url = urls[i].as_str();
        if is_file_url_text(url) {
            if let Ok(local) = path_from_input(url) {
                let found = markdown_path_from_arg(local.as_str(), None, platform, probe);
                if let Some(path) = found {
                    assert(url_may_name(probe, platform, urls@[i as int]@, Some(path@)));
                    return Some(path);
                }
                assert(url_may_name(probe, platform, urls@[i as int]@, None));
            }
        }
        i = i + 1;
    }
    None
}

} // verus!
