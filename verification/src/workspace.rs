//! Workspaces: directories that exist once on disk and are named twice, by
//! the path that this process sees and by the path that the sandbox sees.

use crate::error::{AceError, AceErrorView};
use crate::options::{Options, OptionsView};
use crate::text::{chars_of, option_view, push_range, starts_with};
use vstd::prelude::*;
use vstd::string::StringExecFns;

verus! {

/// A path followed by a name below it: the two are kept apart by one slash,
/// which is left out where the path is empty or ends in one.
pub open spec fn join_spec(base: Seq<char>, name: Seq<char>) -> Seq<char> {
    if base.len() == 0 || base.last() == '/' {
        base + name
    } else {
        base + seq!['/'] + name
    }
}

/// The number of characters that `join_spec` puts between a path and a name.
pub open spec fn separator_len(base: Seq<char>) -> int {
    if base.len() == 0 || base.last() == '/' {
        0
    } else {
        1
    }
}

/// Whether the component `..` begins at index `i` of a path.
pub open spec fn parent_at(rel: Seq<char>, i: int) -> bool {
    &&& 0 <= i
    &&& i + 2 <= rel.len()
    &&& rel[i] == '.'
    &&& rel[i + 1] == '.'
    &&& (i == 0 || rel[i - 1] == '/')
    &&& (i + 2 == rel.len() || rel[i + 2] == '/')
}

/// Whether a path holds the component `..` and so may lead out of where it
/// starts.
pub open spec fn has_parent(rel: Seq<char>) -> bool {
    exists|i: int| parent_at(rel, i)
}

/// Whether `rel` names something strictly below the directory that it is
/// joined to: it is not empty, does not start at the root, and never steps
/// up.
pub open spec fn is_descending(rel: Seq<char>) -> bool {
    rel.len() > 0 && rel[0] != '/' && !has_parent(rel)
}

/// The part of `path` below `root`, where `path` lies strictly below `root`.
pub open spec fn relative_spec(path: Seq<char>, root: Seq<char>) -> Option<Seq<char>> {
    let start = root.len() + separator_len(root);
    if root.is_prefix_of(path) && path.len() > start && (separator_len(root) == 1 ==> path[root.len() as int]
        == '/') && is_descending(path.skip(start)) {
        Some(path.skip(start))
    } else {
        None
    }
}

/// A directory below the unprivileged user's home, by both of its names.
#[derive(Debug)]
pub struct Workspace {
    /// The path that this process sees.
    pub host: String,
    /// The path that the sandbox sees.
    pub guest: String,
}

/// What a `Workspace` holds, as mathematical values.
pub struct WorkspaceView {
    pub host: Seq<char>,
    pub guest: Seq<char>,
}

impl View for Workspace {
    type V = WorkspaceView;

    open spec fn view(&self) -> WorkspaceView {
        WorkspaceView { host: self.host@, guest: self.guest@ }
    }
}

impl WorkspaceView {
    /// The place of a name below this directory, by both of its names.
    pub open spec fn child(self, name: Seq<char>) -> WorkspaceView {
        WorkspaceView { host: join_spec(self.host, name), guest: join_spec(self.guest, name) }
    }
}

/// The name of the directory below the home directory that holds all
/// staging directories.
pub open spec fn staging_root_name() -> Seq<char> {
    ".ace-bot"@
}

/// The directory that holds all staging directories, by both of its names.
pub open spec fn staging_root_spec(o: OptionsView) -> WorkspaceView {
    WorkspaceView { host: o.user_host_home, guest: o.user_guest_home }.child(staging_root_name())
}

/// The staging directory of one kind of task, by both of its names.
pub open spec fn staging_dir_spec(o: OptionsView, kind: Seq<char>) -> WorkspaceView {
    staging_root_spec(o).child(kind)
}

/// Where a workspace is inside the sandbox, given where it is outside: the
/// part below the host's staging directory is put below the guest's. For a
/// path that does not lie below the host's staging directory there is no
/// such place.
pub open spec fn translate_spec(staging: WorkspaceView, host: Seq<char>) -> Result<
    WorkspaceView,
    AceErrorView,
> {
    match relative_spec(host, staging.host) {
        Some(rel) => Ok(WorkspaceView { host, guest: join_spec(staging.guest, rel) }),
        None => Err(AceErrorView::PathTranslation { path: host, root: staging.host }),
    }
}

/// The view of the answer to a translation.
pub open spec fn workspace_result_view(r: Result<Workspace, AceError>) -> Result<
    WorkspaceView,
    AceErrorView,
> {
    match r {
        Ok(w) => Ok(w@),
        Err(e) => Err(e@),
    }
}

/// A path followed by a name below it.
pub fn join(base: &str, name: &str) -> (r: String)
    ensures
        r@ == join_spec(base@, name@),
{
    let b = chars_of(base);
    let mut out = String::from_str(base);
    if b.len() > 0 && b[b.len() - 1] != '/' {
        out.append("/");
        proof {
            reveal_strlit("/");
            assert("/"@ =~= seq!['/']);
        }
    }
    out.append(name);
    out
}

/// Whether a path holds the component `..`.
pub fn holds_parent(rel: &Vec<char>, from: usize) -> (r: bool)
    requires
        from <= rel.len(),
    ensures
        r == has_parent(rel@.skip(from as int)),
{
    let ghost s = rel@.skip(from as int);
    let n: usize = rel.len();
    let mut i: usize = from;
    while i < n
        invariant
            from <= i <= n,
            n == rel.len(),
            s == rel@.skip(from as int),
            forall|k: int| 0 <= k < i - from ==> !parent_at(s, k),
        decreases n - i,
    {
        if n - i >= 2 && rel[i] == '.' && rel[i + 1] == '.' && (i == from || rel[i - 1] == '/') && (
        i + 2 == n || rel[i + 2] == '/') {
            assert(parent_at(s, i - from));
            return true;
        }
        assert(!parent_at(s, i - from));
        i += 1;
    }
    assert forall|k: int| !parent_at(s, k) by {
        if 0 <= k < s.len() {
        }
    }
    false
}

/// The part of `path` below `root`, where `path` lies strictly below `root`.
pub fn relative(path: &str, root: &str) -> (r: Option<String>)
    ensures
        option_view(r) == relative_spec(path@, root@),
{
    let p = chars_of(path);
    let r = chars_of(root);
    if !starts_with(&p, &r) {
        return None;
    }
    let sep: usize = if r.len() == 0 || r[r.len() - 1] == '/' {
        0
    } else {
        1
    };
    if p.len() - r.len() <= sep {
        return None;
    }
    if sep == 1 && p[r.len()] != '/' {
        return None;
    }
    let start: usize = r.len() + sep;
    if p[start] == '/' {
        return None;
    }
    if holds_parent(&p, start) {
        return None;
    }
    let mut out = String::new();
    push_range(&mut out, &p, start, p.len());
    assert(out@ =~= path@.skip(start as int));
    Some(out)
}

/// Where a workspace is inside the sandbox, given where it is outside, or
/// `PathTranslation` where it does not lie below the staging directory.
pub fn translate(staging: &Workspace, host: &str) -> (r: Result<Workspace, AceError>)
    ensures
        workspace_result_view(r) == translate_spec(staging@, host@),
{
    match relative(host, staging.host.as_str()) {
        Some(rel) => Ok(
            Workspace {
                host: String::from_str(host),
                guest: join(staging.guest.as_str(), rel.as_str()),
            },
        ),
        None => Err(
            AceError::PathTranslation {
                path: String::from_str(host),
                root: staging.host.clone(),
            },
        ),
    }
}

impl Workspace {
    /// The place of a name below this directory, by both of its names.
    pub fn child(&self, name: &str) -> (r: Workspace)
        ensures
            r@ == self@.child(name@),
    {
        Workspace {
            host: join(self.host.as_str(), name),
            guest: join(self.guest.as_str(), name),
        }
    }
}

/// The directory that holds all staging directories.
pub fn staging_root(options: &Options) -> (r: Workspace)
    ensures
        r@ == staging_root_spec(options@),
{
    Workspace {
        host: join(options.user_host_home.as_str(), ".ace-bot"),
        guest: join(options.user_guest_home.as_str(), ".ace-bot"),
    }
}

/// The staging directory of one kind of task.
pub fn staging_dir(options: &Options, kind: &str) -> (r: Workspace)
    ensures
        r@ == staging_dir_spec(options@, kind@),
{
    staging_root(options).child(kind)
}

/// What lies below a directory by a descending name is found there again:
/// taking the part below the directory gives the name back.
pub proof fn lemma_relative_of_join(root: Seq<char>, rel: Seq<char>)
    requires
        is_descending(rel),
    ensures
        relative_spec(join_spec(root, rel), root) == Some(rel),
{
    let path = join_spec(root, rel);
    let start = root.len() + separator_len(root);
    assert(root =~= path.subrange(0, root.len() as int));
    assert(path.skip(start) =~= rel);
}

/// A path has a part below a directory only where it is that directory
/// joined with the part, and the part is descending.
pub proof fn lemma_join_of_relative(path: Seq<char>, root: Seq<char>)
    requires
        relative_spec(path, root) is Some,
    ensures
        join_spec(root, relative_spec(path, root)->0) == path,
        is_descending(relative_spec(path, root)->0),
{
    let start = root.len() + separator_len(root);
    let rel = path.skip(start);
    assert(root =~= path.subrange(0, root.len() as int));
    assert(join_spec(root, rel) =~= path);
}

/// A workspace that was made below the host's staging directory is
/// translated to the same name below the guest's, and only such a workspace
/// is translated at all.
pub proof fn lemma_translate(staging: WorkspaceView, host: Seq<char>, name: Seq<char>)
    ensures
        is_descending(name) ==> translate_spec(staging, join_spec(staging.host, name)) == Ok::<
            WorkspaceView,
            AceErrorView,
        >(staging.child(name)),
        translate_spec(staging, host) matches Ok(w) ==> exists|rel: Seq<char>|
            #![trigger staging.child(rel)]
            is_descending(rel) && w == staging.child(rel) && w.host == host,
{
    if is_descending(name) {
        lemma_relative_of_join(staging.host, name);
    }
    if translate_spec(staging, host) is Ok {
        lemma_join_of_relative(host, staging.host);
        let rel = relative_spec(host, staging.host)->0;
        assert(translate_spec(staging, host)->Ok_0 == staging.child(rel));
    }
}

} // verus!
