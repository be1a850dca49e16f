//! Stateless path helpers: retina-icon detection, relative-path
//! normalization for resource destinations, and the per-entry decision
//! of the symlink-preserving directory copy.

use vstd::prelude::*;
use vstd::string::StrSliceExecFns;
use vstd::string::StringExecFns;
use crate::strutil::{chars_of, starts_with_str, string_from_chars};

verus! {

/// The longest suffix of `s` that contains no `/` separator: the file
/// name of a path written with `/` separators.
pub open spec fn spec_file_name(s: Seq<char>) -> Seq<char>
    decreases s.len(),
{
    if s.len() == 0 {
        Seq::empty()
    } else if s.last() == '/' {
        Seq::empty()
    } else {
        spec_file_name(s.drop_last()).push(s.last())
    }
}

/// The index of the last `.` in `name`, or `-1` when there is none.
pub open spec fn spec_last_dot(name: Seq<char>) -> int
    decreases name.len(),
{
    if name.len() == 0 {
        -1
    } else if name.last() == '.' {
        name.len() - 1
    } else {
        spec_last_dot(name.drop_last())
    }
}

/// The file stem: the portion of the file name before its final `.`;
/// the whole name when there is no `.`, or when the only `.` leads the
/// name (a hidden file).
pub open spec fn spec_stem(name: Seq<char>) -> Seq<char> {
    let d = spec_last_dot(name);
    if d <= 0 {
        name
    } else {
        name.subrange(0, d)
    }
}

/// The path with every trailing `/` separator removed: the platform's
/// file-name queries ignore trailing separators.
pub open spec fn spec_trim_trailing_seps(s: Seq<char>) -> Seq<char>
    decreases s.len(),
{
    if s.len() > 0 && s.last() == '/' {
        spec_trim_trailing_seps(s.drop_last())
    } else {
        s
    }
}

/// Whether a path names a high-density "retina" icon: its file stem
/// (trailing separators ignored) ends with the literal suffix `@2x`.
pub open spec fn spec_is_retina(s: Seq<char>) -> bool {
    let st = spec_stem(spec_file_name(spec_trim_trailing_seps(s)));
    st.len() >= 3 && st[st.len() - 3] == '@' && st[st.len() - 2] == '2' && st[st.len() - 1]
        == 'x'
}

/// A scan that found the last non-separator of `s` at `m - 1` (or an
/// all-separator `s`, when `m == 0`) has found the trimmed path.
proof fn lemma_trim_from_scan(s: Seq<char>, m: int)
    requires
        0 <= m <= s.len(),
        forall|j: int| m <= j < s.len() ==> s[j] == '/',
        m > 0 ==> s[m - 1] != '/',
    ensures
        spec_trim_trailing_seps(s) == s.subrange(0, m),
    decreases s.len(),
{
    if s.len() == 0 {
        assert(spec_trim_trailing_seps(s) =~= s.subrange(0, m));
    } else if m == s.len() {
        assert(spec_trim_trailing_seps(s) =~= s.subrange(0, m));
    } else {
        lemma_trim_from_scan(s.drop_last(), m);
        assert(s.drop_last().subrange(0, m) =~= s.subrange(0, m));
    }
}

/// A scan that found the last separator of `s` at `k` (or none, when
/// `k == -1`) has found the file name.
proof fn lemma_file_name_from_scan(s: Seq<char>, k: int)
    requires
        -1 <= k < s.len(),
        forall|j: int| k < j < s.len() ==> s[j] != '/',
        k >= 0 ==> s[k] == '/',
    ensures
        spec_file_name(s) == s.subrange(k + 1, s.len() as int),
    decreases s.len(),
{
    if s.len() == 0 {
        assert(spec_file_name(s) =~= s.subrange(k + 1, s.len() as int));
    } else if k == s.len() - 1 {
        assert(spec_file_name(s) =~= s.subrange(k + 1, s.len() as int));
    } else {
        lemma_file_name_from_scan(s.drop_last(), k);
        assert(s.drop_last().subrange(k + 1, s.drop_last().len() as int) =~= s.subrange(
            k + 1,
            s.len() - 1,
        ));
        assert(spec_file_name(s) =~= s.subrange(k + 1, s.len() as int));
    }
}

/// A scan that found the last `.` of `name` at `k` (or none, when
/// `k == -1`) has found `spec_last_dot`.
proof fn lemma_last_dot_from_scan(name: Seq<char>, k: int)
    requires
        -1 <= k < name.len(),
        forall|j: int| k < j < name.len() ==> name[j] != '.',
        k >= 0 ==> name[k] == '.',
    ensures
        spec_last_dot(name) == k,
    decreases name.len(),
{
    if name.len() == 0 {
    } else if k == name.len() - 1 {
    } else {
        lemma_last_dot_from_scan(name.drop_last(), k);
    }
}

/// True when the file stem of `path` (the file name without its final
/// extension) ends with the literal suffix `@2x`, the conventional
/// marker of a high-density icon.  Separators are written `/`, and
/// trailing separators are ignored, as the platform's file-name query
/// ignores them.
pub fn is_retina(path: &str) -> (r: bool)
    ensures
        r == spec_is_retina(path@),
{
    let cs = chars_of(path);
    let total = cs.len();
    let mut n: usize = total;
    while n > 0 && cs[n - 1] == '/'
        invariant
            n <= total,
            total == cs@.len(),
            forall|j: int| n <= j < total ==> cs@[j] == '/',
        decreases n,
    {
        n = n - 1;
    }
    proof {
        lemma_trim_from_scan(cs@, n as int);
    }
    let ghost trimmed = cs@.subrange(0, n as int);
    let mut start: usize = 0;
    let mut i: usize = 0;
    while i < n
        invariant
            i <= n,
            n <= cs@.len(),
            start <= i,
            start >= 1 ==> cs@[start - 1] == '/',
            forall|j: int| start <= j < i ==> cs@[j] != '/',
        decreases n - i,
    {
        if cs[i] == '/' {
            start = i + 1;
        }
        i = i + 1;
    }
    proof {
        lemma_file_name_from_scan(trimmed, start - 1);
    }
    let ghost name = trimmed.subrange(start as int, n as int);
    proof {
        assert(name =~= cs@.subrange(start as int, n as int));
    }
    let mut dot: usize = 0;
    let mut has_dot = false;
    let mut j: usize = start;
    while j < n
        invariant
            start <= j <= n,
            n <= cs@.len(),
            has_dot ==> start <= dot < j && cs@[dot as int] == '.',
            forall|m: int| (if has_dot { dot + 1 } else { start as int }) <= m < j ==> cs@[m]
                != '.',
        decreases n - j,
    {
        if cs[j] == '.' {
            dot = j;
            has_dot = true;
        }
        j = j + 1;
    }
    proof {
        if has_dot {
            lemma_last_dot_from_scan(name, dot - start);
        } else {
            lemma_last_dot_from_scan(name, -1);
        }
    }
    let stem_end: usize = if has_dot && dot > start {
        dot
    } else {
        n
    };
    proof {
        assert(spec_stem(name) =~= cs@.subrange(start as int, stem_end as int));
    }
    if stem_end - start >= 3 {
        let r = cs[stem_end - 3] == '@' && cs[stem_end - 2] == '2' && cs[stem_end - 1] == 'x';
        proof {
            let st = spec_stem(spec_file_name(trimmed));
            assert(st[st.len() - 3] == cs@[stem_end - 3]);
            assert(st[st.len() - 2] == cs@[stem_end - 2]);
            assert(st[st.len() - 1] == cs@[stem_end - 1]);
        }
        r
    } else {
        false
    }
}

/// One component of a resource path, as the platform's path parser
/// reports it: a drive or volume prefix, the root marker, the current
/// directory, the parent directory, or an ordinary named segment.
#[derive(Clone, Debug, PartialEq, Eq)]
pub enum PathPart {
    Prefix(String),
    Root,
    Cur,
    Parent,
    Normal(String),
}

/// A component as a path parser produces it: an ordinary named segment
/// is never the parent-directory marker, since the parser reports that
/// marker as its own component.
pub open spec fn wf_part(p: PathPart) -> bool {
    match p {
        PathPart::Normal(s) => s@ != ".."@,
        _ => true,
    }
}

/// The normalized destination segments of a resource path: prefixes and
/// current-directory markers are dropped, the root marker becomes the
/// literal segment `_root_`, a parent-directory marker becomes the
/// literal segment `_up_`, and ordinary segments pass through.
pub open spec fn spec_resource_relpath(parts: Seq<PathPart>) -> Seq<Seq<char>>
    decreases parts.len(),
{
    if parts.len() == 0 {
        Seq::empty()
    } else {
        spec_resource_relpath(parts.drop_last()) + (match parts.last() {
            PathPart::Prefix(_) => Seq::<Seq<char>>::empty(),
            PathPart::Root => seq!["_root_"@],
            PathPart::Cur => Seq::<Seq<char>>::empty(),
            PathPart::Parent => seq!["_up_"@],
            PathPart::Normal(s) => seq![s@],
        })
    }
}

/// Given the components of a resource path (absolute or relative),
/// returns the segments of the relative path under which the resource
/// is stored in the bundle's resource directory.
pub fn resource_relpath(parts: &Vec<PathPart>) -> (r: Vec<String>)
    ensures
        r.deep_view() == spec_resource_relpath(parts@),
{
    let mut out: Vec<String> = Vec::new();
    let mut i: usize = 0;
    while i < parts.len()
        invariant
            i <= parts@.len(),
            out.deep_view() == spec_resource_relpath(parts@.subrange(0, i as int)),
        decreases parts@.len() - i,
    {
        match &parts[i] {
            PathPart::Prefix(_) => {},
            PathPart::Root => out.push("_root_".to_owned()),
            PathPart::Cur => {},
            PathPart::Parent => out.push("_up_".to_owned()),
            PathPart::Normal(s) => out.push(s.clone()),
        }
        i = i + 1;
        proof {
            let t = parts@.subrange(0, i as int);
            assert(t.drop_last() =~= parts@.subrange(0, i - 1));
            assert(t.last() == parts@[i - 1]);
            assert(out.deep_view() =~= spec_resource_relpath(t));
        }
    }
    proof {
        assert(parts@.subrange(0, parts@.len() as int) =~= parts@);
    }
    out
}

/// For any component sequence whose ordinary segments are well formed,
/// the normalized destination path contains no `..` segment: a declared
/// resource can never escape the bundle's resource directory.
pub proof fn lemma_relpath_no_parent(parts: Seq<PathPart>)
    requires
        forall|i: int| 0 <= i < parts.len() ==> wf_part(#[trigger] parts[i]),
    ensures
        forall|i: int| 0 <= i < spec_resource_relpath(parts).len() ==> #[trigger] spec_resource_relpath(
            parts,
        )[i] != ".."@,
    decreases parts.len(),
{
    reveal_strlit("..");
    reveal_strlit("_root_");
    reveal_strlit("_up_");
    if parts.len() > 0 {
        let pre = parts.drop_last();
        assert(forall|i: int| 0 <= i < pre.len() ==> wf_part(#[trigger] pre[i]));
        lemma_relpath_no_parent(pre);
        assert(parts.last() == parts[parts.len() - 1]);
        assert(wf_part(parts.last()));
        let whole = spec_resource_relpath(parts);
        let head = spec_resource_relpath(pre);
        assert forall|i: int| 0 <= i < whole.len() implies #[trigger] whole[i] != ".."@ by {
            if i < head.len() {
                assert(whole[i] == head[i]);
            } else {
                match parts.last() {
                    PathPart::Prefix(_) => {},
                    PathPart::Root => {
                        assert(whole[i] == "_root_"@);
                        assert("_root_"@.len() != ".."@.len());
                    },
                    PathPart::Cur => {},
                    PathPart::Parent => {
                        assert(whole[i] == "_up_"@);
                        assert("_up_"@.len() != ".."@.len());
                    },
                    PathPart::Normal(s) => {
                        assert(whole[i] == s@);
                    },
                }
            }
        }
    }
}

/// A path with its leading `/` separators removed.
pub open spec fn spec_drop_leading_seps(s: Seq<char>) -> Seq<char>
    decreases s.len(),
{
    if s.len() > 0 && s[0] == '/' {
        spec_drop_leading_seps(s.drop_first())
    } else {
        s
    }
}

/// Where one entry of a directory walk lands under the copy's
/// destination: the walk root is stripped from the entry's path and the
/// remainder, without its leading separators, joined under the
/// destination; the root entry itself lands on the destination, and an
/// entry that does not lie under the root has no destination.
pub open spec fn spec_copy_destination(
    root: Seq<char>,
    entry: Seq<char>,
    dest: Seq<char>,
) -> Option<Seq<char>> {
    if entry.len() >= root.len() && entry.subrange(0, root.len() as int) == root {
        let rel = spec_drop_leading_seps(
            entry.subrange(root.len() as int, entry.len() as int),
        );
        if rel.len() == 0 {
            Some(dest)
        } else {
            Some(dest + "/"@ + rel)
        }
    } else {
        None
    }
}

/// A scan that passed the leading separators of `s`, stopping at `k`,
/// has found the remainder.
proof fn lemma_drop_leading_from_scan(s: Seq<char>, k: int)
    requires
        0 <= k <= s.len(),
        forall|j: int| 0 <= j < k ==> s[j] == '/',
        k < s.len() ==> s[k] != '/',
    ensures
        spec_drop_leading_seps(s) == s.subrange(k, s.len() as int),
    decreases k,
{
    if k == 0 {
        assert(spec_drop_leading_seps(s) =~= s.subrange(0, s.len() as int));
    } else {
        lemma_drop_leading_from_scan(s.drop_first(), k - 1);
        assert(s.drop_first().subrange(k - 1, s.drop_first().len() as int) =~= s.subrange(
            k,
            s.len() as int,
        ));
    }
}

/// Where one entry of a directory walk is copied to: the walk root is
/// stripped from the entry's path and the remainder joined under the
/// destination.  Returns `None` when the entry's path does not begin
/// with the root, which a directory walk rooted there never produces.
pub fn copy_destination(root: &str, entry: &str, dest: &str) -> (r: Option<String>)
    ensures
        r is Some <==> spec_copy_destination(root@, entry@, dest@) is Some,
        r matches Some(s) ==> spec_copy_destination(root@, entry@, dest@) matches Some(t)
            && s@ == t,
{
    let ec = chars_of(entry);
    if !starts_with_str(&ec, root) {
        return None;
    }
    let rl = root.unicode_len();
    let n: usize = ec.len();
    let mut k: usize = rl;
    while k < n && ec[k] == '/'
        invariant
            rl <= k <= n,
            n == ec@.len(),
            rl == root@.len(),
            forall|j: int| rl <= j < k ==> ec@[j] == '/',
        decreases n - k,
    {
        k = k + 1;
    }
    proof {
        let tail = ec@.subrange(rl as int, n as int);
        lemma_drop_leading_from_scan(tail, k - rl);
        assert(tail.subrange(k - rl, tail.len() as int) =~= ec@.subrange(k as int, n as int));
    }
    if k == n {
        return Some(dest.to_owned());
    }
    let mut out = String::from_str(dest);
    out.append("/");
    let mut relv: Vec<char> = Vec::new();
    let mut i: usize = k;
    while i < n
        invariant
            k <= i <= n,
            n == ec@.len(),
            relv@ == ec@.subrange(k as int, i as int),
        decreases n - i,
    {
        relv.push(ec[i]);
        i = i + 1;
        proof {
            assert(relv@ =~= ec@.subrange(k as int, i as int));
        }
    }
    let rel = string_from_chars(&relv);
    out.append(rel.as_str());
    Some(out)
}

/// The action a symlink-preserving directory copy takes for one
/// directory entry: symlinks are recreated as symlinks (to a directory
/// or to a file), directories are created at the destination, and every
/// other entry is copied as a plain file.
#[derive(Clone, Copy, Debug, PartialEq, Eq, Structural)]
pub enum CopyAction {
    LinkDir,
    LinkFile,
    MakeDir,
    CopyFile,
}

/// Decides how one entry of a directory walk is copied.
pub fn copy_entry_action(is_symlink: bool, is_dir: bool) -> (r: CopyAction)
    ensures
        is_symlink && is_dir ==> r == CopyAction::LinkDir,
        is_symlink && !is_dir ==> r == CopyAction::LinkFile,
        !is_symlink && is_dir ==> r == CopyAction::MakeDir,
        !is_symlink && !is_dir ==> r == CopyAction::CopyFile,
{
    if is_symlink {
        if is_dir {
            CopyAction::LinkDir
        } else {
            CopyAction::LinkFile
        }
    } else if is_dir {
        CopyAction::MakeDir
    } else {
        CopyAction::CopyFile
    }
}

} // verus!
