//! Paths as text. A path is read lexically, segment by segment between `/`
//! characters: nothing is looked up on disk and no `..` is resolved. At the
//! end of a path, `/` characters and `.` segments name nothing and are set
//! aside.

use vstd::prelude::*;
use crate::text::{
    append_chars,
    chars_of,
    last_index,
    last_index_of,
    last_index_of_is_last,
    slice_chars,
    string_of,
};

verus! {

/// Whether `p` ends in something that names nothing: a `/`, or a `.` segment
/// behind a `/`.
pub open spec fn ends_idle(p: Seq<char>) -> bool {
    p.len() > 0 && (p.last() == '/' || (p.len() >= 2 && p.last() == '.' && p[p.len() - 2] == '/'))
}

/// `p` without the `/` characters and `.` segments at its end.
pub open spec fn without_idle_end(p: Seq<char>) -> Seq<char>
    decreases p.len(),
{
    if ends_idle(p) {
        without_idle_end(p.drop_last())
    } else {
        p
    }
}

/// `p` with each run of `/` characters written as one and each `.` segment
/// between two `/` left out. Read from the left, a character is dropped where
/// it would double a `/` or close a `.` segment, which then goes with it.
pub open spec fn squeezed(p: Seq<char>) -> Seq<char>
    decreases p.len(),
{
    if p.len() == 0 {
        p
    } else {
        let out = squeezed(p.drop_last());
        if p.last() == '/' && out.len() > 0 && out.last() == '/' {
            out
        } else if p.last() == '/' && ends_idle(out) {
            out.drop_last()
        } else {
            out.push(p.last())
        }
    }
}

/// Whether `q` holds no doubled `/` and no `.` segment between two `/`.
pub open spec fn is_squeezed(q: Seq<char>) -> bool {
    &&& forall|i: int| 0 <= i < q.len() - 1 && #[trigger] q[i] == '/' ==> q[i + 1] != '/'
    &&& forall|i: int|
        0 <= i < q.len() - 2 && #[trigger] q[i] == '/' && q[i + 1] == '.' ==> q[i + 2] != '/'
}

/// The path as a directory is written: runs of `/` as one, no `.` segment
/// behind a `/`, nothing idle at its end, the root staying `/`. Two paths that
/// differ in such things only are written alike.
pub open spec fn tidy_path(p: Seq<char>) -> Seq<char> {
    let q = without_idle_end(squeezed(p));
    if q.len() == 0 && is_absolute_path(p) {
        seq!['/']
    } else {
        q
    }
}

/// What is left of a path without its idle end is the start of the path, and
/// has no idle end itself.
pub proof fn without_idle_end_is_start(p: Seq<char>)
    ensures
        without_idle_end(p).len() <= p.len(),
        without_idle_end(p) == p.take(without_idle_end(p).len() as int),
        !ends_idle(without_idle_end(p)),
    decreases p.len(),
{
    if ends_idle(p) {
        without_idle_end_is_start(p.drop_last());
        let n = without_idle_end(p).len() as int;
        assert(p.drop_last().take(n) == p.take(n));
    } else {
        assert(p.take(p.len() as int) == p);
    }
}

/// What `squeezed` gives is squeezed, and starts as the path starts.
pub proof fn squeezed_is_squeezed(p: Seq<char>)
    ensures
        is_squeezed(squeezed(p)),
        p.len() > 0 ==> squeezed(p).len() > 0 && squeezed(p)[0] == p[0],
    decreases p.len(),
{
    if p.len() > 0 {
        let front = p.drop_last();
        let out = squeezed(front);
        squeezed_is_squeezed(front);
        let now = squeezed(p);
        if front.len() > 0 {
            assert(front[0] == p[0]);
        }
        if p.last() == '/' && out.len() > 0 && out.last() == '/' {
        } else if p.last() == '/' && ends_idle(out) {
            assert forall|i: int| 0 <= i < now.len() implies now[i] == out[i] by {}
        } else {
            assert forall|i: int| 0 <= i < out.len() implies now[i] == out[i] by {}
            assert(now[out.len() as int] == p.last());
        }
    }
}

/// A path that is squeezed stays as it is when squeezed.
pub proof fn squeezed_keeps_squeezed(q: Seq<char>)
    requires
        is_squeezed(q),
    ensures
        squeezed(q) == q,
    decreases q.len(),
{
    if q.len() > 0 {
        let front = q.drop_last();
        assert forall|i: int| 0 <= i < front.len() implies front[i] == q[i] by {}
        assert(is_squeezed(front));
        squeezed_keeps_squeezed(front);
        if front.len() > 0 {
            assert(front.last() == q[q.len() - 2]);
        }
        if front.len() >= 2 {
            assert(front[front.len() - 2] == q[q.len() - 3]);
        }
        assert(front.push(q.last()) == q);
    }
}

/// A tidy path stays as it is when tidied again, and the tidy form of an
/// absolute path is absolute.
pub proof fn tidy_path_is_settled(p: Seq<char>)
    ensures
        tidy_path(tidy_path(p)) == tidy_path(p),
        is_absolute_path(p) ==> is_absolute_path(tidy_path(p)),
{
    let s = squeezed(p);
    squeezed_is_squeezed(p);
    without_idle_end_is_start(s);
    let q = without_idle_end(s);
    if q.len() == 0 && is_absolute_path(p) {
        let root = seq!['/'];
        assert(is_squeezed(root));
        squeezed_keeps_squeezed(root);
        assert(ends_idle(root));
        assert(root.drop_last().len() == 0);
        assert(without_idle_end(root.drop_last()) == root.drop_last());
        assert(without_idle_end(root).len() == 0);
    } else {
        assert forall|i: int| 0 <= i < q.len() implies q[i] == s[i] by {}
        assert(is_squeezed(q));
        squeezed_keeps_squeezed(q);
        assert(without_idle_end(q) == q);
        if q.len() > 0 {
            assert(q[0] == p[0]);
        }
    }
}

/// `p` without the `/` characters at its start.
pub open spec fn without_leading_slashes(p: Seq<char>) -> Seq<char>
    decreases p.len(),
{
    if p.len() > 0 && p[0] == '/' {
        without_leading_slashes(p.skip(1))
    } else {
        p
    }
}

/// Whether the path starts with the segment `~`, which stands for the home
/// directory.
pub open spec fn is_home_relative(p: Seq<char>) -> bool {
    p.len() >= 2 && p[0] == '~' && p[1] == '/'
}

/// What a home-relative path names under the home directory: the path
/// without its `~` segment.
pub open spec fn under_home(p: Seq<char>) -> Seq<char> {
    without_leading_slashes(p.skip(1))
}

/// Whether `path` can be what `raw` resolves to: an absolute path resolves
/// to itself, a home-relative path to what it names under some home
/// directory, `~` alone to any directory, and any other path to itself under
/// some working directory.
pub open spec fn resolves_to(raw: Seq<char>, path: Seq<char>) -> bool {
    if is_absolute_path(raw) {
        path == raw
    } else if is_home_relative(raw) {
        exists|home: Seq<char>| path == #[trigger] joined(home, under_home(raw))
    } else if raw == seq!['~'] {
        true
    } else {
        exists|base: Seq<char>| path == #[trigger] joined(base, raw)
    }
}

/// A path written as `~/` and a relative rest is home-relative, and names
/// that rest under the home directory.
pub proof fn home_relative_rest(p: Seq<char>, rest: Seq<char>)
    requires
        p == seq!['~', '/'] + rest,
        rest.len() == 0 || rest[0] != '/',
    ensures
        is_home_relative(p),
        under_home(p) == rest,
{
    let tail = p.skip(1);
    assert(tail.skip(1) == rest);
    assert(tail.len() > 0 && tail[0] == '/');
    assert(without_leading_slashes(rest) == rest);
    assert(without_leading_slashes(tail) == without_leading_slashes(tail.skip(1)));
}

/// Whether the path starts at the root.
pub open spec fn is_absolute_path(p: Seq<char>) -> bool {
    p.len() > 0 && p[0] == '/'
}

/// `rel` appended to `base`. An absolute `rel` replaces `base`; otherwise one
/// `/` is put between the two unless `base` is empty or ends in one already.
pub open spec fn joined(base: Seq<char>, rel: Seq<char>) -> Seq<char> {
    if is_absolute_path(rel) {
        rel
    } else if base.len() == 0 || base.last() == '/' {
        base + rel
    } else {
        base + seq!['/'] + rel
    }
}

/// The last segment of the path, its idle end set aside. A path that is the
/// root, is `.` or ends in `..` has none.
pub open spec fn file_name_of(p: Seq<char>) -> Option<Seq<char>> {
    let q = without_idle_end(p);
    let name = q.skip(last_index_of(q, '/') + 1);
    if name.len() == 0 || name == seq!['.'] || name == seq!['.', '.'] {
        None
    } else {
        Some(name)
    }
}

/// The file name up to its last `.`; the whole name where it holds no `.` or
/// only starts with one.
pub open spec fn file_stem_of(p: Seq<char>) -> Option<Seq<char>> {
    match file_name_of(p) {
        None => None,
        Some(name) => {
            let dot = last_index_of(name, '.');
            if dot <= 0 {
                Some(name)
            } else {
                Some(name.take(dot))
            }
        },
    }
}

/// The path without its last segment, the idle ends of both set aside: `/`
/// for a segment directly under the root, the empty path for a lone relative
/// segment, nothing for the root and for the empty path.
pub open spec fn parent_of(p: Seq<char>) -> Option<Seq<char>> {
    let q = without_idle_end(p);
    if q.len() == 0 {
        None
    } else {
        let cut = last_index_of(q, '/');
        if cut < 0 {
            Some(Seq::empty())
        } else {
            let dir = without_idle_end(q.take(cut));
            if dir.len() == 0 {
                Some(seq!['/'])
            } else {
                Some(dir)
            }
        }
    }
}

/// The parent of an absolute path is absolute.
pub proof fn parent_of_stays_absolute(p: Seq<char>)
    requires
        is_absolute_path(p),
    ensures
        parent_of(p) matches Some(dir) ==> is_absolute_path(dir),
{
    let q = without_idle_end(p);
    without_idle_end_is_start(p);
    if q.len() > 0 {
        let cut = last_index_of(q, '/');
        last_index_of_is_last(q, '/');
        assert(q[0] == p[0]);
        if cut >= 0 {
            let front = q.take(cut);
            let dir = without_idle_end(front);
            without_idle_end_is_start(front);
            if dir.len() > 0 {
                assert(dir[0] == front[0] && front[0] == q[0]);
            }
        }
    }
}

/// The length of `chars[..end]` once its idle end is dropped.
fn trimmed_len(chars: &Vec<char>, end: usize) -> (n: usize)
    requires
        end <= chars.len(),
    ensures
        n <= end,
        chars@.take(n as int) == without_idle_end(chars@.take(end as int)),
{
    let mut n: usize = end;
    while n > 0 && (chars[n - 1] == '/' || (n >= 2 && chars[n - 1] == '.' && chars[n - 2] == '/'))
        invariant
            n <= end <= chars.len(),
            without_idle_end(chars@.take(end as int)) == without_idle_end(chars@.take(n as int)),
        decreases n,
    {
        assert(ends_idle(chars@.take(n as int)));
        assert(chars@.take(n as int).drop_last() == chars@.take(n - 1));
        n -= 1;
    }
    assert(!ends_idle(chars@.take(n as int)));
    n
}

/// The path as a directory is written.
pub fn tidy(path: &str) -> (out: String)
    ensures
        out@ == tidy_path(path@),
{
    let chars = chars_of(path);
    let mut kept: Vec<char> = Vec::new();
    let mut i: usize = 0;
    assert(chars@.take(0).len() == 0);
    while i < chars.len()
        invariant
            i <= chars.len(),
            kept@ == squeezed(chars@.take(i as int)),
        decreases chars.len() - i,
    {
        let c = chars[i];
        let n = kept.len();
        proof {
            assert(chars@.take(i + 1).drop_last() == chars@.take(i as int));
            assert(chars@.take(i + 1).last() == c);
        }
        if c == '/' && n > 0 && kept[n - 1] == '/' {
        } else if c == '/' && n >= 2 && kept[n - 1] == '.' && kept[n - 2] == '/' {
            kept.pop();
            assert(kept@ == squeezed(chars@.take(i as int)).drop_last());
        } else {
            kept.push(c);
        }
        i += 1;
    }
    assert(chars@.take(chars.len() as int) == chars@);
    assert(kept@.take(kept.len() as int) == kept@);
    let keep = trimmed_len(&kept, kept.len());
    if keep == 0 && chars.len() > 0 && chars[0] == '/' {
        let mut root: Vec<char> = Vec::new();
        root.push('/');
        assert(root@ =~= seq!['/']);
        string_of(&root)
    } else {
        let tidy = slice_chars(&kept, 0, keep);
        assert(tidy@ == kept@.take(keep as int));
        string_of(&tidy)
    }
}

/// Whether the path starts at the root.
pub fn is_absolute(path: &str) -> (absolute: bool)
    ensures
        absolute == is_absolute_path(path@),
{
    let chars = chars_of(path);
    chars.len() > 0 && chars[0] == '/'
}

/// Appends `rel` to `base`.
pub fn join(base: &str, rel: &str) -> (path: String)
    ensures
        path@ == joined(base@, rel@),
{
    let mut out = chars_of(base);
    let tail = chars_of(rel);
    if tail.len() > 0 && tail[0] == '/' {
        return string_of(&tail);
    }
    if out.len() > 0 && out[out.len() - 1] != '/' {
        out.push('/');
    }
    append_chars(&mut out, &tail);
    string_of(&out)
}

fn file_name_chars(chars: &Vec<char>) -> (name: Option<Vec<char>>)
    ensures
        match name {
            Some(n) => file_name_of(chars@) == Some(n@),
            None => file_name_of(chars@) is None,
        },
{
    let end = trimmed_len(chars, chars.len());
    assert(chars@.take(chars.len() as int) == chars@);
    let ghost q = chars@.take(end as int);
    proof {
        last_index_of_is_last(q, '/');
    }
    let start = match last_index(chars, end, '/') {
        Some(i) => i + 1,
        None => 0,
    };
    let name = slice_chars(chars, start, end);
    assert(name@ == q.skip(start as int));
    let dots = name.len() <= 2 && (name.len() == 0 || name[0] == '.') && (name.len() <= 1
        || name[1] == '.');
    proof {
        if dots {
            if name.len() == 1 {
                assert(name@ =~= seq!['.']);
            } else if name.len() == 2 {
                assert(name@ =~= seq!['.', '.']);
            }
        } else {
            if name@ == seq!['.'] {
                assert(name@[0] == '.');
            }
            if name@ == seq!['.', '.'] {
                assert(name@[0] == '.' && name@[1] == '.');
            }
        }
    }
    if dots {
        None
    } else {
        Some(name)
    }
}

/// The last segment of the path.
pub fn file_name(path: &str) -> (name: Option<String>)
    ensures
        match name {
            Some(n) => file_name_of(path@) == Some(n@),
            None => file_name_of(path@) is None,
        },
{
    let chars = chars_of(path);
    match file_name_chars(&chars) {
        Some(n) => Some(string_of(&n)),
        None => None,
    }
}

/// The file name without its extension.
pub fn file_stem(path: &str) -> (stem: Option<String>)
    ensures
        match stem {
            Some(s) => file_stem_of(path@) == Some(s@),
            None => file_stem_of(path@) is None,
        },
{
    let chars = chars_of(path);
    match file_name_chars(&chars) {
        None => None,
        Some(name) => {
            assert(name@.take(name.len() as int) == name@);
            proof {
                last_index_of_is_last(name@, '.');
            }
            match last_index(&name, name.len(), '.') {
                Some(dot) => {
                    if dot == 0 {
                        Some(string_of(&name))
                    } else {
                        let stem = slice_chars(&name, 0, dot);
                        Some(string_of(&stem))
                    }
                },
                None => Some(string_of(&name)),
            }
        },
    }
}

/// The path without its last segment.
pub fn parent(path: &str) -> (dir: Option<String>)
    ensures
        match dir {
            Some(d) => parent_of(path@) == Some(d@),
            None => parent_of(path@) is None,
        },
{
    let chars = chars_of(path);
    let end = trimmed_len(&chars, chars.len());
    assert(chars@.take(chars.len() as int) == chars@);
    let ghost q = chars@.take(end as int);
    if end == 0 {
        return None;
    }
    match last_index(&chars, end, '/') {
        None => Some(String::new()),
        Some(cut) => {
            proof {
                last_index_of_is_last(q, '/');
                assert(q.take(cut as int) == chars@.take(cut as int));
            }
            let keep = trimmed_len(&chars, cut);
            if keep == 0 {
                let mut root: Vec<char> = Vec::new();
                root.push('/');
                assert(root@ =~= seq!['/']);
                Some(string_of(&root))
            } else {
                let dir = slice_chars(&chars, 0, keep);
                assert(dir@ == chars@.take(keep as int));
                Some(string_of(&dir))
            }
        },
    }
}

} // verus!
