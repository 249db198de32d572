//! A textual model of filesystem paths: separators, components, parent,
//! file name, extension and containment.
use vstd::prelude::*;

verus! {

/// The separator conventions a path is read under.
#[derive(Clone, Copy, Debug, PartialEq, Eq)]
pub enum PathPlatform {
    /// Only `/` separates components; names compare exactly.
    Unix,
    /// Both `/` and `\` separate components; names compare without case.
    Windows,
}

pub open spec fn is_sep(platform: PathPlatform, c: char) -> bool {
    c == '/' || (platform == PathPlatform::Windows && c == '\\')
}

/// A path ends in a `.` component that is not its first: a separator
/// followed by `.`. Such a component names nothing (`a/.` is `a`).
pub open spec fn ends_in_dot_component(platform: PathPlatform, s: Seq<char>) -> bool {
    s.len() >= 2 && s.last() == '.' && is_sep(platform, s[s.len() - 2])
}

/// The path without what names nothing at its end: trailing separators and
/// trailing `.` components. A leading `.` stays (`.` is the current directory).
pub open spec fn trim_tail(platform: PathPlatform, s: Seq<char>) -> Seq<char>
    decreases s.len(),
{
    if s.len() > 0 && (is_sep(platform, s.last()) || ends_in_dot_component(platform, s)) {
        trim_tail(platform, s.drop_last())
    } else {
        s
    }
}

/// The index of the last separator, or -1 when there is none.
pub open spec fn last_sep_index(platform: PathPlatform, s: Seq<char>) -> int
    decreases s.len(),
{
    if s.len() == 0 {
        -1
    } else if is_sep(platform, s.last()) {
        s.len() - 1
    } else {
        last_sep_index(platform, s.drop_last())
    }
}

/// The directory that contains the last component; `None` for an empty path
/// or a bare root. A single relative component has the empty path as parent.
pub open spec fn parent_of(platform: PathPlatform, s: Seq<char>) -> Option<Seq<char>> {
    let t = trim_tail(platform, s);
    if t.len() == 0 {
        None
    } else {
        let i = last_sep_index(platform, t);
        if i < 0 {
            Some(Seq::<char>::empty())
        } else {
            let p = trim_tail(platform, t.subrange(0, i));
            if p.len() == 0 {
                Some(t.subrange(0, 1))
            } else {
                Some(p)
            }
        }
    }
}

/// The last component, unless the path is empty, a bare root, `.`, or ends in `..`.
pub open spec fn file_name_of(platform: PathPlatform, s: Seq<char>) -> Option<Seq<char>> {
    let t = trim_tail(platform, s);
    let name = t.subrange(last_sep_index(platform, t) + 1, t.len() as int);
    if name.len() == 0 || name == seq!['.'] || name == seq!['.', '.'] {
        None
    } else {
        Some(name)
    }
}

/// The pieces between separators, empty pieces included (`split`).
pub open spec fn split_pieces(platform: PathPlatform, s: Seq<char>) -> Seq<Seq<char>>
    decreases s.len(),
{
    if s.len() == 0 {
        seq![Seq::<char>::empty()]
    } else {
        let init = split_pieces(platform, s.drop_last());
        if is_sep(platform, s.last()) {
            init.push(Seq::<char>::empty())
        } else {
            init.update(init.len() - 1, init.last().push(s.last()))
        }
    }
}

/// A piece that is a component: not empty, and not `.` unless it is the
/// first piece (a leading `.` is the current directory).
pub open spec fn is_name_piece(p: Seq<char>, first: bool) -> bool {
    p.len() > 0 && (first || p != seq!['.'])
}

/// The pieces that are components, in order.
pub open spec fn name_pieces(ps: Seq<Seq<char>>) -> Seq<Seq<char>>
    decreases ps.len(),
{
    if ps.len() == 0 {
        Seq::empty()
    } else if is_name_piece(ps.last(), ps.len() == 1) {
        name_pieces(ps.drop_last()).push(ps.last())
    } else {
        name_pieces(ps.drop_last())
    }
}

/// The components of a path (`Path::components`, without the root): repeated
/// separators add none, and `.` adds one only at the start.
pub open spec fn components(platform: PathPlatform, s: Seq<char>) -> Seq<Seq<char>> {
    name_pieces(split_pieces(platform, s))
}

pub open spec fn is_absolute(platform: PathPlatform, s: Seq<char>) -> bool {
    s.len() > 0 && is_sep(platform, s[0])
}

/// Two paths name the same components from the same kind of start.
pub open spec fn same_path(platform: PathPlatform, a: Seq<char>, b: Seq<char>) -> bool {
    is_absolute(platform, a) == is_absolute(platform, b) && components(platform, a)
        == components(platform, b)
}

/// `target` lies in the tree rooted at `dir`: whole components of `dir` begin
/// `target`, never a part of one (`/ws/docs2` is not within `/ws/docs`).
pub open spec fn path_within(platform: PathPlatform, target: Seq<char>, dir: Seq<char>) -> bool {
    let tc = components(platform, target);
    let dc = components(platform, dir);
    &&& is_absolute(platform, target) == is_absolute(platform, dir)
    &&& dc.len() <= tc.len()
    &&& tc.subrange(0, dc.len() as int) == dc
}

/// The index of the last `.`, or -1 when there is none.
pub open spec fn last_dot_index(s: Seq<char>) -> int
    decreases s.len(),
{
    if s.len() == 0 {
        -1
    } else if s.last() == '.' {
        s.len() - 1
    } else {
        last_dot_index(s.drop_last())
    }
}

/// What follows the last `.` of a file name; a name whose only `.` leads it has none.
pub open spec fn extension_of_name(name: Seq<char>) -> Option<Seq<char>> {
    let i = last_dot_index(name);
    if i <= 0 {
        None
    } else {
        Some(name.subrange(i + 1, name.len() as int))
    }
}

/// A file name without its extension.
pub open spec fn stem_of_name(name: Seq<char>) -> Seq<char> {
    let i = last_dot_index(name);
    if i <= 0 {
        name
    } else {
        name.subrange(0, i)
    }
}

pub open spec fn is_ascii_upper(c: char) -> bool {
    'A' <= c && c <= 'Z'
}

/// The code of a character with an ASCII capital folded to lower case.
pub open spec fn ascii_lower_code(c: char) -> u32 {
    if is_ascii_upper(c) {
        (c as u32 + 32) as u32
    } else {
        c as u32
    }
}

/// Equal once ASCII letters are folded to lower case (`eq_ignore_ascii_case`).
pub open spec fn eq_ignore_ascii_case(a: Seq<char>, b: Seq<char>) -> bool {
    a.len() == b.len() && forall|i: int| 0 <= i < a.len() ==> ascii_lower_code(a[i]) == ascii_lower_code(b[i])
}

/// The extensions that mark a markdown document.
pub open spec fn markdown_extensions() -> Seq<Seq<char>> {
    seq!["md"@, "markdown"@, "mdown"@, "mkd"@, "mkdn"@]
}

/// The path's file name, read under the platform's rules, has one of the
/// markdown extensions, in any ASCII case.
pub open spec fn has_markdown_extension(platform: PathPlatform, path: Seq<char>) -> bool {
    match file_name_of(platform, path) {
        Some(name) => match extension_of_name(name) {
            Some(ext) => exists|k: int|
                0 <= k < markdown_extensions().len() && eq_ignore_ascii_case(
                    ext,
                    #[trigger] markdown_extensions()[k],
                ),
            None => false,
        },
        None => false,
    }
}

// ---------------------------------------------------------------------------
// Lemmas
// ---------------------------------------------------------------------------

proof fn lemma_split_pieces_nonempty(platform: PathPlatform, s: Seq<char>)
    ensures
        split_pieces(platform, s).len() >= 1,
    decreases s.len(),
{
    if s.len() > 0 {
        lemma_split_pieces_nonempty(platform, s.drop_last());
    }
}

proof fn lemma_last_sep_index_range(platform: PathPlatform, s: Seq<char>)
    ensures
        -1 <= last_sep_index(platform, s) < s.len(),
        last_sep_index(platform, s) >= 0 ==> is_sep(platform, s[last_sep_index(platform, s)]),
    decreases s.len(),
{
    if s.len() > 0 && !is_sep(platform, s.last()) {
        lemma_last_sep_index_range(platform, s.drop_last());
    }
}

proof fn lemma_trim_is_prefix(platform: PathPlatform, s: Seq<char>)
    ensures
        trim_tail(platform, s).len() <= s.len(),
        trim_tail(platform, s) == s.subrange(
            0,
            trim_tail(platform, s).len() as int,
        ),
    decreases s.len(),
{
    if s.len() > 0 && (is_sep(platform, s.last()) || ends_in_dot_component(platform, s)) {
        lemma_trim_is_prefix(platform, s.drop_last());
        assert(s.drop_last().subrange(0, trim_tail(platform, s).len() as int) =~= s.subrange(
            0,
            trim_tail(platform, s).len() as int,
        ));
    } else {
        assert(s.subrange(0, s.len() as int) =~= s);
    }
}

// ---------------------------------------------------------------------------
// Executable counterparts
// ---------------------------------------------------------------------------

pub fn is_separator(platform: PathPlatform, c: char) -> (r: bool)
    ensures
        r == is_sep(platform, c),
{
    match platform {
        PathPlatform::Unix => c == '/',
        PathPlatform::Windows => c == '/' || c == '\\',
    }
}

/// The characters of a string, one per element.
pub fn chars_of(s: &str) -> (r: Vec<char>)
    ensures
        r@ == s@,
{
    let n = s.unicode_len();
    let mut r: Vec<char> = Vec::new();
    let mut i: usize = 0;
    while i < n
        invariant
            n == s@.len(),
            i <= n,
            r@ == s@.subrange(0, i as int),
        decreases n - i,
    {
        r.push(s.get_char(i));
        i = i + 1;
        assert(r@ =~= s@.subrange(0, i as int));
    }
    assert(r@ =~= s@);
    r
}

/// The length of the path once what names nothing at its end is removed.
fn trimmed_len(platform: PathPlatform, v: &Vec<char>) -> (n: usize)
    ensures
        n <= v@.len(),
        trim_tail(platform, v@) == v@.subrange(0, n as int),
{
    let mut n = v.len();
    assert(v@.subrange(0, n as int) =~= v@);
    while n > 0 && (is_separator(platform, v[n - 1]) || (n >= 2 && v[n - 1] == '.'
        && is_separator(platform, v[n - 2])))
        invariant
            n <= v@.len(),
            trim_tail(platform, v@) == trim_tail(
                platform,
                v@.subrange(0, n as int),
            ),
        decreases n,
    {
        assert(v@.subrange(0, n as int).drop_last() =~= v@.subrange(0, n - 1));
        n = n - 1;
    }
    n
}

/// The index of the last separator among the first `n` characters.
fn last_sep_before(platform: PathPlatform, v: &Vec<char>, n: usize) -> (r: Option<usize>)
    requires
        n <= v@.len(),
    ensures
        match r {
            Some(k) => k as int == last_sep_index(platform, v@.subrange(0, n as int)),
            None => last_sep_index(platform, v@.subrange(0, n as int)) == -1,
        },
{
    let mut k = n;
    while k > 0 && !is_separator(platform, v[k - 1])
        invariant
            k <= n <= v@.len(),
            last_sep_index(platform, v@.subrange(0, n as int)) == last_sep_index(
                platform,
                v@.subrange(0, k as int),
            ),
        decreases k,
    {
        assert(v@.subrange(0, k as int).drop_last() =~= v@.subrange(0, k - 1));
        k = k - 1;
    }
    if k == 0 {
        None
    } else {
        Some(k - 1)
    }
}

/// The bounds of the last component's text, before `file_name_of` rules out
/// an empty, `.` or `..` name.
pub(crate) fn name_bounds(platform: PathPlatform, v: &Vec<char>) -> (r: (usize, usize))
    ensures
        r.0 <= r.1 <= v@.len(),
        v@.subrange(r.0 as int, r.1 as int) == ({
            let t = trim_tail(platform, v@);
            t.subrange(last_sep_index(platform, t) + 1, t.len() as int)
        }),
{
    let n = trimmed_len(platform, v);
    proof {
        lemma_trim_is_prefix(platform, v@);
    }
    let ghost t = v@.subrange(0, n as int);
    proof {
        lemma_last_sep_index_range(platform, t);
    }
    let start = match last_sep_before(platform, v, n) {
        Some(k) => k + 1,
        None => 0,
    };
    assert(v@.subrange(start as int, n as int) =~= t.subrange(start as int, t.len() as int));
    (start, n)
}

/// The characters of `v` from `from` up to `to`.
pub(crate) fn slice_chars(v: &Vec<char>, from: usize, to: usize) -> (r: Vec<char>)
    requires
        from <= to <= v@.len(),
    ensures
        r@ == v@.subrange(from as int, to as int),
{
    let mut r: Vec<char> = Vec::new();
    let mut i = from;
    while i < to
        invariant
            from <= i <= to <= v@.len(),
            r@ == v@.subrange(from as int, i as int),
        decreases to - i,
    {
        r.push(v[i]);
        i = i + 1;
        assert(r@ =~= v@.subrange(from as int, i as int));
    }
    r
}

/// Whether two character sequences are equal.
pub fn chars_equal(a: &Vec<char>, b: &Vec<char>) -> (r: bool)
    ensures
        r == (a@ == b@),
{
    if a.len() != b.len() {
        return false;
    }
    let mut i: usize = 0;
    while i < a.len()
        invariant
            a@.len() == b@.len(),
            i <= a@.len(),
            forall|j: int| 0 <= j < i ==> a@[j] == b@[j],
        decreases a@.len() - i,
    {
        if a[i] != b[i] {
            return false;
        }
        i = i + 1;
    }
    assert(a@ =~= b@);
    true
}

/// The length of the parent directory, which is always a prefix of the path,
/// as `parent_of` describes it.
pub fn parent_len(platform: PathPlatform, v: &Vec<char>) -> (r: Option<usize>)
    ensures
        match r {
            Some(m) => m <= v@.len() && parent_of(platform, v@) == Some(v@.subrange(0, m as int)),
            None => parent_of(platform, v@) is None,
        },
{
    let n = trimmed_len(platform, v);
    proof {
        lemma_trim_is_prefix(platform, v@);
    }
    if n == 0 {
        return None;
    }
    let ghost t = v@.subrange(0, n as int);
    proof {
        lemma_last_sep_index_range(platform, t);
    }
    match last_sep_before(platform, v, n) {
        None => {
            assert(v@.subrange(0, 0) =~= Seq::<char>::empty());
            Some(0)
        },
        Some(i) => {
            let head = slice_chars(v, 0, i);
            assert(head@ =~= t.subrange(0, i as int));
            let m = trimmed_len(platform, &head);
            proof {
                lemma_trim_is_prefix(platform, head@);
            }
            if m == 0 {
                assert(v@.subrange(0, 1) =~= t.subrange(0, 1));
                Some(1)
            } else {
                assert(head@.subrange(0, m as int) =~= v@.subrange(0, m as int));
                Some(m)
            }
        },
    }
}

/// Whether a component text is `.` or `..`, or empty.
pub(crate) fn is_dot_or_empty(name: &Vec<char>) -> (r: bool)
    ensures
        r == (name@.len() == 0 || name@ == seq!['.'] || name@ == seq!['.', '.']),
{
    let is_dot = name.len() == 1 && name[0] == '.';
    let is_dot_dot = name.len() == 2 && name[0] == '.' && name[1] == '.';
    assert(is_dot <==> name@ == seq!['.']) by {
        if name@ == seq!['.'] {
            assert(name@[0] == '.');
        }
        if is_dot {
            assert(name@ =~= seq!['.']);
        }
    }
    assert(is_dot_dot <==> name@ == seq!['.', '.']) by {
        if name@ == seq!['.', '.'] {
            assert(name@[0] == '.' && name@[1] == '.');
        }
        if is_dot_dot {
            assert(name@ =~= seq!['.', '.']);
        }
    }
    name.len() == 0 || is_dot || is_dot_dot
}

/// The last component of a path, as `file_name_of` describes it.
pub fn file_name_chars(platform: PathPlatform, v: &Vec<char>) -> (r: Option<Vec<char>>)
    ensures
        match r {
            Some(p) => file_name_of(platform, v@) == Some(p@),
            None => file_name_of(platform, v@) is None,
        },
{
    let (start, end) = name_bounds(platform, v);
    let name = slice_chars(v, start, end);
    if is_dot_or_empty(&name) {
        None
    } else {
        Some(name)
    }
}

/// The named components of a path, as `components` describes them.
pub fn components_chars(platform: PathPlatform, v: &Vec<char>) -> (r: Vec<Vec<char>>)
    ensures
        r@.len() == components(platform, v@).len(),
        forall|k: int| 0 <= k < r@.len() ==> (#[trigger] r@[k])@ == components(platform, v@)[k],
{
    let mut acc: Vec<Vec<char>> = Vec::new();
    let mut cur: Vec<char> = Vec::new();
    let mut first = true;
    let mut i: usize = 0;
    assert(v@.subrange(0, 0) =~= Seq::<char>::empty());
    while i < v.len()
        invariant
            i <= v@.len(),
            split_pieces(platform, v@.subrange(0, i as int)).len() >= 1,
            cur@ == split_pieces(platform, v@.subrange(0, i as int)).last(),
            first == (split_pieces(platform, v@.subrange(0, i as int)).len() == 1),
            acc@.len() == name_pieces(split_pieces(platform, v@.subrange(0, i as int)).drop_last()).len(),
            forall|k: int|
                0 <= k < acc@.len() ==> (#[trigger] acc@[k])@ == name_pieces(
                    split_pieces(platform, v@.subrange(0, i as int)).drop_last(),
                )[k],
        decreases v@.len() - i,
    {
        let ghost before = v@.subrange(0, i as int);
        let ghost ps = split_pieces(platform, before);
        let c = v[i];
        let ghost after = v@.subrange(0, i + 1);
        assert(after.drop_last() =~= before);
        assert(after.last() == c);
        if is_separator(platform, c) {
            let ghost ps2 = split_pieces(platform, after);
            assert(ps2 == ps.push(Seq::<char>::empty()));
            assert(ps2.drop_last() =~= ps);
            assert(ps.drop_last() =~= ps.subrange(0, ps.len() - 1));
            let keep = cur.len() > 0 && (first || !(cur.len() == 1 && cur[0] == '.'));
            assert(keep <==> is_name_piece(cur@, ps.len() == 1)) by {
                if cur@ == seq!['.'] {
                    assert(cur@[0] == '.');
                }
                if cur@.len() == 1 && cur@[0] == '.' {
                    assert(cur@ =~= seq!['.']);
                }
            }
            if keep {
                acc.push(cur);
            }
            cur = Vec::new();
            first = false;
            proof {
                lemma_split_pieces_nonempty(platform, after);
            }
        } else {
            cur.push(c);
            let ghost ps2 = split_pieces(platform, after);
            assert(ps2 == ps.update(ps.len() - 1, ps.last().push(c)));
            assert(ps2.drop_last() =~= ps.drop_last());
            proof {
                lemma_split_pieces_nonempty(platform, after);
            }
        }
        i = i + 1;
    }
    assert(v@.subrange(0, i as int) =~= v@);
    let ghost ps = split_pieces(platform, v@);
    let keep = cur.len() > 0 && (first || !(cur.len() == 1 && cur[0] == '.'));
    assert(keep <==> is_name_piece(cur@, ps.len() == 1)) by {
        if cur@ == seq!['.'] {
            assert(cur@[0] == '.');
        }
        if cur@.len() == 1 && cur@[0] == '.' {
            assert(cur@ =~= seq!['.']);
        }
    }
    assert(ps.drop_last() =~= ps.subrange(0, ps.len() - 1));
    if keep {
        acc.push(cur);
    }
    acc
}

fn is_absolute_chars(platform: PathPlatform, v: &Vec<char>) -> (r: bool)
    ensures
        r == is_absolute(platform, v@),
{
    v.len() > 0 && is_separator(platform, v[0])
}

/// Whether `target` lies in the tree rooted at `dir`, whole components only.
pub fn is_within(platform: PathPlatform, target: &str, dir: &str) -> (r: bool)
    ensures
        r == path_within(platform, target@, dir@),
{
    let t = chars_of(target);
    let d = chars_of(dir);
    if is_absolute_chars(platform, &t) != is_absolute_chars(platform, &d) {
        return false;
    }
    let tc = components_chars(platform, &t);
    let dc = components_chars(platform, &d);
    let ghost tcs = components(platform, t@);
    let ghost dcs = components(platform, d@);
    if dc.len() > tc.len() {
        return false;
    }
    let mut i: usize = 0;
    while i < dc.len()
        invariant
            dc@.len() <= tc@.len(),
            i <= dc@.len(),
            tcs == components(platform, target@),
            dcs == components(platform, dir@),
            tc@.len() == tcs.len(),
            dc@.len() == dcs.len(),
            forall|k: int| 0 <= k < tc@.len() ==> (#[trigger] tc@[k])@ == tcs[k],
            forall|k: int| 0 <= k < dc@.len() ==> (#[trigger] dc@[k])@ == dcs[k],
            forall|j: int| 0 <= j < i ==> tcs[j] == dcs[j],
        decreases dc@.len() - i,
    {
        assert(tc@[i as int]@ == tcs[i as int]);
        assert(dc@[i as int]@ == dcs[i as int]);
        if !chars_equal(&tc[i], &dc[i]) {
            assert(tcs.subrange(0, dcs.len() as int)[i as int] != dcs[i as int]);
            return false;
        }
        i = i + 1;
    }
    assert(tcs.subrange(0, dcs.len() as int) =~= dcs);
    true
}

/// Whether two paths name the same components from the same kind of start.
pub fn is_same_path(platform: PathPlatform, a: &str, b: &str) -> (r: bool)
    ensures
        r == same_path(platform, a@, b@),
{
    let av = chars_of(a);
    let bv = chars_of(b);
    if is_absolute_chars(platform, &av) != is_absolute_chars(platform, &bv) {
        return false;
    }
    let ac = components_chars(platform, &av);
    let bc = components_chars(platform, &bv);
    let ghost acs = components(platform, av@);
    let ghost bcs = components(platform, bv@);
    if ac.len() != bc.len() {
        return false;
    }
    let mut i: usize = 0;
    while i < ac.len()
        invariant
            ac@.len() == bc@.len(),
            i <= ac@.len(),
            acs == components(platform, a@),
            bcs == components(platform, b@),
            ac@.len() == acs.len(),
            bc@.len() == bcs.len(),
            forall|k: int| 0 <= k < ac@.len() ==> (#[trigger] ac@[k])@ == acs[k],
            forall|k: int| 0 <= k < bc@.len() ==> (#[trigger] bc@[k])@ == bcs[k],
            forall|j: int| 0 <= j < i ==> acs[j] == bcs[j],
        decreases ac@.len() - i,
    {
        assert(ac@[i as int]@ == acs[i as int]);
        assert(bc@[i as int]@ == bcs[i as int]);
        if !chars_equal(&ac[i], &bc[i]) {
            assert(acs[i as int] != bcs[i as int]);
            return false;
        }
        i = i + 1;
    }
    assert(acs =~= bcs);
    true
}

} // verus!
