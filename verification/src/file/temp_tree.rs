//! Path arithmetic of a sync: where each remote file lands, relative to the
//! remote target, inside the temporary tree and inside the local target.

use vstd::prelude::*;

verus! {

/// Why a remote file could not be placed in the temporary tree.
#[derive(Debug, Clone, Copy, PartialEq, Eq, Structural)]
pub enum TempTreeError {
    /// The remote file's path does not lie under the remote target.
    RemotePathMalformed,
}

/// The path of `file` relative to `root`: `file` with `root` stripped from its
/// front and then one leading `/`, if there is one; `None` when `root` is not
/// a prefix of `file`.
pub open spec fn spec_relative_path(file: Seq<char>, root: Seq<char>) -> Option<Seq<char>> {
    if root.len() <= file.len() && file.take(root.len() as int) == root {
        let rest = file.skip(root.len() as int);
        Some(
            if rest.len() > 0 && rest[0] == '/' {
                rest.skip(1)
            } else {
                rest
            },
        )
    } else {
        None
    }
}

/// `base` with `rel` pushed onto it as a path: an absolute `rel` replaces
/// `base`; otherwise a `/` separates them unless `base` is empty or already
/// ends with one.
pub open spec fn spec_join_path(base: Seq<char>, rel: Seq<char>) -> Seq<char> {
    if rel.len() > 0 && rel[0] == '/' {
        rel
    } else if base.len() > 0 && base.last() != '/' {
        base + seq!['/'] + rel
    } else {
        base + rel
    }
}

/// Strips the remote target `remote_root` from the front of a remote file's
/// path, and then one leading `/`. `None` when the path does not start with
/// the remote target.
pub fn relative_target_path(file_path: &str, remote_root: &str) -> (res: Option<String>)
    ensures
        res is None <==> spec_relative_path(file_path@, remote_root@) is None,
        res matches Some(r) ==> spec_relative_path(file_path@, remote_root@) == Some(r@),
        res is Some <==> (remote_root@.len() <= file_path@.len() && file_path@.take(
            remote_root@.len() as int,
        ) == remote_root@),
{
    let flen = file_path.unicode_len();
    let rlen = remote_root.unicode_len();
    if rlen > flen {
        return None;
    }
    let mut i: usize = 0;
    while i < rlen
        invariant
            i <= rlen <= flen,
            flen == file_path@.len(),
            rlen == remote_root@.len(),
            forall|j: int| 0 <= j < i ==> file_path@[j] == remote_root@[j],
        decreases rlen - i,
    {
        if file_path.get_char(i) != remote_root.get_char(i) {
            assert(file_path@.take(rlen as int)[i as int] != remote_root@[i as int]);
            return None;
        }
        i = i + 1;
    }
    assert(file_path@.take(rlen as int) =~= remote_root@);
    let mut start = rlen;
    if start < flen && file_path.get_char(start) == '/' {
        start = start + 1;
    }
    let rest = file_path.substring_char(start, flen);
    proof {
        let r = file_path@.skip(rlen as int);
        if r.len() > 0 && r[0] == '/' {
            assert(rest@ =~= r.skip(1));
        } else {
            assert(rest@ =~= r);
        }
    }
    Some(String::from_str(rest))
}

/// Pushes the relative path `rel` onto `base`, the way a path buffer does on
/// Unix: an absolute `rel` replaces `base`; otherwise a `/` is put between
/// them unless `base` is empty or ends with one.
pub fn join_path(base: &str, rel: &str) -> (res: String)
    ensures
        res@ == spec_join_path(base@, rel@),
{
    let rlen = rel.unicode_len();
    let blen = base.unicode_len();
    if rlen > 0 && rel.get_char(0) == '/' {
        return String::from_str(rel);
    }
    let mut res = String::from_str(base);
    if blen > 0 && base.get_char(blen - 1) != '/' {
        proof {
            reveal_strlit("/");
        }
        res.append("/");
    }
    res.append(rel);
    res
}

/// Where a remote file is created inside the temporary tree rooted at
/// `entry_point`: its path relative to the remote target, pushed onto the
/// entry point. Fails when the file does not lie under the remote target.
pub fn temp_tree_file_path(entry_point: &str, file_path: &str, remote_root: &str) -> (res: Result<
    String,
    TempTreeError,
>)
    ensures
        spec_relative_path(file_path@, remote_root@) is None ==> res == Err::<String, TempTreeError>(
            TempTreeError::RemotePathMalformed,
        ),
        spec_relative_path(file_path@, remote_root@) matches Some(rel) ==> (res matches Ok(p)
            && p@ == spec_join_path(entry_point@, rel)),
{
    match relative_target_path(file_path, remote_root) {
        None => Err(TempTreeError::RemotePathMalformed),
        Some(rel) => Ok(join_path(entry_point, rel.as_str())),
    }
}

/// The two paths that syncing a remote file touches: the file being assembled
/// in the temporary tree and the existing local file whose blocks may be
/// reused. When the remote file is the remote target itself (its relative path
/// is empty) they are the entry point and the local target unchanged. `None`
/// when the file does not lie under the remote target.
pub fn sync_file_paths(file_path: &str, remote_root: &str, entry_point: &str, local_target: &str) -> (res:
    Option<(String, String)>)
    ensures
        spec_relative_path(file_path@, remote_root@) is None ==> res is None,
        spec_relative_path(file_path@, remote_root@) matches Some(rel) ==> (res matches Some(p) && ({
            &&& rel.len() == 0 ==> p.0@ == entry_point@ && p.1@ == local_target@
            &&& rel.len() > 0 ==> p.0@ == spec_join_path(entry_point@, rel) && p.1@
                == spec_join_path(local_target@, rel)
        })),
{
    match relative_target_path(file_path, remote_root) {
        None => None,
        Some(rel) => {
            if rel.as_str().unicode_len() > 0 {
                Some((join_path(entry_point, rel.as_str()), join_path(local_target, rel.as_str())))
            } else {
                Some((String::from_str(entry_point), String::from_str(local_target)))
            }
        },
    }
}

/// A remote file's path is the remote target followed by its relative path,
/// with or without one `/` between them.
pub proof fn lemma_relative_path_reconstructs(file: Seq<char>, root: Seq<char>)
    requires
        spec_relative_path(file, root) is Some,
    ensures
        ({
            let rel = spec_relative_path(file, root)->Some_0;
            file == root + rel || file == root + seq!['/'] + rel
        }),
{
    let rest = file.skip(root.len() as int);
    assert(file =~= file.take(root.len() as int) + rest);
    if rest.len() > 0 && rest[0] == '/' {
        assert(rest =~= seq!['/'] + rest.skip(1));
        assert(file =~= root + seq!['/'] + rest.skip(1));
    }
}

/// Pushing a relative path keeps the base as a prefix of the result.
pub proof fn lemma_join_keeps_base(base: Seq<char>, rel: Seq<char>)
    requires
        !(rel.len() > 0 && rel[0] == '/'),
    ensures
        spec_join_path(base, rel).take(base.len() as int) == base,
        spec_join_path(base, rel).len() >= base.len() + rel.len(),
{
    let j = spec_join_path(base, rel);
    assert(j.take(base.len() as int) =~= base);
}


/// A file has a path relative to the root exactly when the root is a prefix
/// of the file's path, whatever the length of what follows.
pub proof fn lemma_relative_path_exists_iff_prefix(file: Seq<char>, root: Seq<char>)
    ensures
        spec_relative_path(file, root) is Some <==> (root.len() <= file.len() && file.take(root.len() as int) == root),
{
}

/// The relative path is what follows the root, without one leading `/`: it
/// is a suffix of the file's path, at most one character shorter than what
/// follows the root.
pub proof fn lemma_relative_path_is_rest(file: Seq<char>, root: Seq<char>)
    requires
        root.len() <= file.len(),
        file.take(root.len() as int) == root,
    ensures
        ({
            let rel = spec_relative_path(file, root)->Some_0;
            let rest = file.len() - root.len();
            &&& rel == file.skip(file.len() - rel.len())
            &&& rel.len() == rest || (rel.len() + 1 == rest && file[root.len() as int] == '/')
        }),
{
    let rest = file.skip(root.len() as int);
    if rest.len() > 0 && rest[0] == '/' {
        assert(rest.skip(1) =~= file.skip(root.len() as int + 1));
    } else {
        assert(rest =~= file.skip(root.len() as int));
    }
}

/// Pushing a relative path onto a non-empty base keeps the base, puts exactly
/// one `/` between them (none is added when the base already ends with one),
/// and ends with the relative path, whether the base is absolute or not.
pub proof fn lemma_join_separates(base: Seq<char>, rel: Seq<char>)
    requires
        base.len() > 0,
        !(rel.len() > 0 && rel[0] == '/'),
    ensures
        ({
            let j = spec_join_path(base, rel);
            &&& base.last() != '/' ==> j == base + seq!['/'] + rel
            &&& base.last() == '/' ==> j == base + rel
            &&& j.take(base.len() as int) == base
            &&& j.skip(j.len() - rel.len()) == rel
            &&& j[j.len() - rel.len() - 1] == '/'
        }),
{
    let j = spec_join_path(base, rel);
    assert(j.take(base.len() as int) =~= base);
    assert(j.skip(j.len() - rel.len()) =~= rel);
}

/// An absolute path pushed onto any base replaces it.
pub proof fn lemma_join_absolute_replaces(base: Seq<char>, rel: Seq<char>)
    requires
        rel.len() > 0,
        rel[0] == '/',
    ensures
        spec_join_path(base, rel) == rel,
{
}

} // verus!
