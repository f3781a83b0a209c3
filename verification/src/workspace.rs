//! The workspace a tool runs in, and the paths under its cache root.

use vstd::prelude::*;
use crate::text::{chars_of, concat, concat3, slice_string};

verus! {

/// The operating system the paths and launchers belong to.
#[derive(Debug, Clone, Copy, PartialEq, Eq, Structural)]
pub enum Platform {
    Windows,
    Unix,
}

/// Where a tool runs: the working directory, the workspace root, the root
/// of Unica's caches, a fingerprint of the workspace, and the platform whose
/// path rules its paths follow.  Paths are kept as the text that
/// `Path::display` shows.
pub struct WorkspaceContext {
    pub cwd: String,
    pub workspace_root: String,
    pub cache_root: String,
    pub workspace_epoch: u64,
    pub platform: Platform,
}

/// A path separator: `/`, and on Windows `\` as well.
pub open spec fn is_sep(c: char, platform: Platform) -> bool {
    c == '/' || (platform == Platform::Windows && c == '\\')
}

/// A Windows drive prefix at the start: an ASCII letter and `:`.
pub open spec fn has_drive(s: Seq<char>) -> bool {
    s.len() >= 2 && s[1] == ':' && (('a' <= s[0] && s[0] <= 'z') || ('A' <= s[0] && s[0] <= 'Z'))
}

/// On Windows, a path that starts with a prefix: a drive, or two separators
/// (a UNC, device or verbatim path).
pub open spec fn has_prefix_win(s: Seq<char>) -> bool {
    has_drive(s) || (s.len() >= 2 && is_sep(s[0], Platform::Windows) && is_sep(
        s[1],
        Platform::Windows,
    ))
}

/// `Path::join` (`PathBuf::push`).  On Unix an absolute component replaces
/// the path; otherwise it follows a `/` unless the path is empty or already
/// ends in one.  On Windows a component with a prefix replaces the path; one
/// that starts with a separator replaces all of the path but its drive; a
/// relative one follows a `\` unless the path is empty, ends in a separator
/// or is a bare drive such as `C:`.  Two Windows cases are read more simply
/// than std reads them: on the left, only a drive counts as a prefix (a UNC,
/// device or verbatim path counts as none, and std would also normalise the
/// components of a verbatim one); on the right, every component that starts
/// with two separators counts as prefixed, where std also wants a UNC server
/// and share.
pub open spec fn path_join_spec(base: Seq<char>, rel: Seq<char>, platform: Platform) -> Seq<char> {
    if platform == Platform::Unix {
        if rel.len() > 0 && rel[0] == '/' {
            rel
        } else if base.len() == 0 || base.last() == '/' {
            base + rel
        } else {
            base + "/"@ + rel
        }
    } else if has_prefix_win(rel) {
        rel
    } else if rel.len() > 0 && is_sep(rel[0], platform) {
        if has_drive(base) {
            base.take(2) + rel
        } else {
            rel
        }
    } else if base.len() == 0 || is_sep(base.last(), platform) || (base.len() == 2 && has_drive(
        base,
    )) {
        base + rel
    } else {
        base + "\\"@ + rel
    }
}

fn char_is_sep(c: char, platform: Platform) -> (r: bool)
    ensures
        r == is_sep(c, platform),
{
    c == '/' || (platform == Platform::Windows && c == '\\')
}

fn starts_with_drive(s: &Vec<char>) -> (r: bool)
    ensures
        r == has_drive(s@),
{
    s.len() >= 2 && s[1] == ':' && (('a' <= s[0] && s[0] <= 'z') || ('A' <= s[0] && s[0] <= 'Z'))
}

pub fn path_join(base: &str, rel: &str, platform: Platform) -> (r: String)
    ensures
        r@ == path_join_spec(base@, rel@, platform),
{
    let b = chars_of(base);
    let x = chars_of(rel);
    proof {
        reveal_strlit("/");
        reveal_strlit("\\");
    }
    let rel_rooted = x.len() > 0 && char_is_sep(x[0], platform);
    if platform == Platform::Windows {
        let rel_drive = starts_with_drive(&x);
        if rel_drive || (x.len() >= 2 && char_is_sep(x[0], platform) && char_is_sep(x[1], platform)) {
            return rel.to_string();
        }
        if rel_rooted {
            if starts_with_drive(&b) {
                let drive = slice_string(b.as_slice(), 0, 2);
                return concat(drive.as_str(), rel);
            }
            return rel.to_string();
        }
    } else if rel_rooted {
        return rel.to_string();
    }
    let n = b.len();
    let bare_drive = platform == Platform::Windows && n == 2 && starts_with_drive(&b);
    if n == 0 || char_is_sep(b[n - 1], platform) || bare_drive {
        concat(base, rel)
    } else if platform == Platform::Windows {
        concat3(base, "\\", rel)
    } else {
        concat3(base, "/", rel)
    }
}

pub open spec fn status_path_spec(cache_root: Seq<char>, platform: Platform) -> Seq<char> {
    path_join_spec(path_join_spec(cache_root, "caches"@, platform), "bsl_index_status.json"@, platform)
}

pub open spec fn lock_path_spec(cache_root: Seq<char>, platform: Platform) -> Seq<char> {
    path_join_spec(path_join_spec(cache_root, "locks"@, platform), "bsl_index.lock"@, platform)
}

/// Where the state of the RLM code index is recorded.
pub fn status_path(context: &WorkspaceContext) -> (p: String)
    ensures
        p@ == status_path_spec(context.cache_root@, context.platform),
{
    let dir = path_join(context.cache_root.as_str(), "caches", context.platform);
    path_join(dir.as_str(), "bsl_index_status.json", context.platform)
}

/// The lock that marks a running index build.
pub fn lock_path(context: &WorkspaceContext) -> (p: String)
    ensures
        p@ == lock_path_spec(context.cache_root@, context.platform),
{
    let dir = path_join(context.cache_root.as_str(), "locks", context.platform);
    path_join(dir.as_str(), "bsl_index.lock", context.platform)
}

/// The file that records which caches are fresh.
pub fn state_path(context: &WorkspaceContext) -> (p: String)
    ensures
        p@ == path_join_spec(context.cache_root@, "state.json"@, context.platform),
{
    path_join(context.cache_root.as_str(), "state.json", context.platform)
}

/// The directory where the RLM index keeps its databases.
pub fn rlm_index_dir(context: &WorkspaceContext) -> (p: String)
    ensures
        p@ == path_join_spec(context.cache_root@, "rlm-tools-bsl"@, context.platform),
{
    path_join(context.cache_root.as_str(), "rlm-tools-bsl", context.platform)
}

proof fn lemma_join_last(base: Seq<char>, rel: Seq<char>, platform: Platform)
    requires
        rel.len() > 0,
    ensures
        path_join_spec(base, rel, platform).len() > 0,
        path_join_spec(base, rel, platform).last() == rel.last(),
{
    let r = path_join_spec(base, rel, platform);
    assert(r =~= rel || exists|pre: Seq<char>| r =~= pre + rel) by {
        if platform == Platform::Unix {
            if rel[0] == '/' {
            } else if base.len() == 0 || base.last() == '/' {
                assert(r =~= base + rel);
            } else {
                assert(r =~= (base + "/"@) + rel);
            }
        } else if has_prefix_win(rel) {
        } else if rel.len() > 0 && is_sep(rel[0], platform) {
            if has_drive(base) {
                assert(r =~= base.take(2) + rel);
            }
        } else if base.len() == 0 || is_sep(base.last(), platform) || (base.len() == 2 && has_drive(base)) {
            assert(r =~= base + rel);
        } else {
            assert(r =~= (base + "\\"@) + rel);
        }
    }
    if r != rel {
        let pre = choose|pre: Seq<char>| r =~= pre + rel;
        assert(r[r.len() - 1] == rel[rel.len() - 1]);
    }
}

/// The index status file and the index lock never coincide, whatever the
/// cache root and the platform: writing the status cannot clobber the lock.
pub proof fn lemma_status_and_lock_paths_differ(cache_root: Seq<char>, platform: Platform)
    ensures
        status_path_spec(cache_root, platform) != lock_path_spec(cache_root, platform),
{
    reveal_strlit("bsl_index_status.json");
    reveal_strlit("bsl_index.lock");
    lemma_join_last(path_join_spec(cache_root, "caches"@, platform), "bsl_index_status.json"@, platform);
    lemma_join_last(path_join_spec(cache_root, "locks"@, platform), "bsl_index.lock"@, platform);
}

} // verus!
