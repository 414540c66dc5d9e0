//! The mirrored tree: from a directory to the files that configure it.
//!
//! Configuration for a directory under the reference root is kept in a
//! parallel tree under the storage root. The file of a directory is the
//! storage root, then the directory's path relative to the reference root,
//! then a dot and the extension. The files that apply to a directory are
//! those of the reference root, of each directory on the way down, and of
//! the directory itself, in that order.
//!
//! Paths are texts whose components are divided by `/`. Empty components
//! do not count, so `/a//b/` has the components `a` and `b`.

use crate::text::{same, split, split_on, string_views, views};
use vstd::prelude::*;

verus! {

/// Why a path has no place in the mirrored tree.
#[derive(Debug, Clone, Copy, PartialEq, Eq)]
pub enum PathError {
    /// The path is not the reference root nor below it.
    PathOutsideScope,
}

/// The reference root, the storage root and the extension of the files.
#[derive(Debug, Clone)]
pub struct PathMirror {
    pub reference_root: String,
    pub storage_root: String,
    pub extension: String,
}

/// What `Path::with_extension` makes of a path and an extension: the path
/// with the extension of its last component replaced, or added where it
/// has none.
pub uninterp spec fn extension_replaced(path: Seq<char>, extension: Seq<char>) -> Seq<char>;

/// Calls `Path::with_extension` on the path that the text is. The result
/// depends on the two texts alone. An extension that holds a path
/// separator is left out, because `with_extension` panics on it.
#[verifier::external_body]
pub(crate) fn replace_extension(path: &str, extension: &str) -> (r: String)
    requires
        !extension@.contains('/'),
        !extension@.contains('\\'),
    ensures
        r@ == extension_replaced(path@, extension@),
{
    std::path::Path::new(path).with_extension(extension).to_string_lossy().into_owned()
}

/// The pieces that are not empty, in order.
pub open spec fn drop_empty(parts: Seq<Seq<char>>) -> Seq<Seq<char>>
    decreases parts.len(),
{
    if parts.len() == 0 {
        Seq::empty()
    } else if parts.last().len() == 0 {
        drop_empty(parts.drop_last())
    } else {
        drop_empty(parts.drop_last()).push(parts.last())
    }
}

/// The components of a path.
pub open spec fn components(path: Seq<char>) -> Seq<Seq<char>> {
    drop_empty(split_on(path, '/'))
}

/// Whether `target` is `root` or lies below it.
pub open spec fn is_under(target: Seq<char>, root: Seq<char>) -> bool {
    components(root).is_prefix_of(components(target))
}

/// The components of `target` below `root`.
pub open spec fn relative_to(target: Seq<char>, root: Seq<char>) -> Seq<Seq<char>> {
    components(target).skip(components(root).len() as int)
}

/// Each component with a `/` in front of it, one after the other.
pub open spec fn slashed(parts: Seq<Seq<char>>) -> Seq<char>
    decreases parts.len(),
{
    if parts.len() == 0 {
        Seq::empty()
    } else {
        slashed(parts.drop_last()) + seq!['/'] + parts.last()
    }
}

/// The file of the directory `relative` below the reference root.
pub open spec fn storage_of(
    storage_root: Seq<char>,
    relative: Seq<Seq<char>>,
    extension: Seq<char>,
) -> Seq<char> {
    storage_root + slashed(relative) + seq!['.'] + extension
}

/// The files that apply to the directory `relative` below the reference
/// root, root-most first.
pub open spec fn ancestors_of(
    storage_root: Seq<char>,
    relative: Seq<Seq<char>>,
    extension: Seq<char>,
) -> Seq<Seq<char>> {
    Seq::new(
        relative.len() + 1,
        |k: int| storage_of(storage_root, relative.take(k), extension),
    )
}

/// No text stands twice.
pub open spec fn all_distinct(texts: Seq<Seq<char>>) -> bool {
    forall|i: int, j: int| 0 <= i < texts.len() && 0 <= j < texts.len() && i != j ==> texts[i] != texts[j]
}

/// One more component makes the slashed text longer by the component and
/// its `/`.
pub proof fn lemma_slashed_len(parts: Seq<Seq<char>>, k: int)
    requires
        0 <= k < parts.len(),
    ensures
        slashed(parts.take(k + 1)).len() == slashed(parts.take(k)).len() + 1 + parts[k].len(),
{
    assert(parts.take(k + 1).drop_last() =~= parts.take(k));
}

/// The slashed text grows with the number of components taken.
pub proof fn lemma_slashed_grows(parts: Seq<Seq<char>>, i: int, j: int)
    requires
        0 <= i < j <= parts.len(),
    ensures
        slashed(parts.take(i)).len() < slashed(parts.take(j)).len(),
    decreases j - i,
{
    lemma_slashed_len(parts, j - 1);
    if i < j - 1 {
        lemma_slashed_grows(parts, i, j - 1);
    }
}

/// The files that apply to one directory are pairwise distinct, and the
/// last of them is the file of the directory itself.
pub proof fn lemma_ancestors_distinct(
    storage_root: Seq<char>,
    relative: Seq<Seq<char>>,
    extension: Seq<char>,
)
    ensures
        all_distinct(ancestors_of(storage_root, relative, extension)),
        ancestors_of(storage_root, relative, extension).last() == storage_of(
            storage_root,
            relative,
            extension,
        ),
        ancestors_of(storage_root, relative, extension)[0] == storage_root + seq!['.'] + extension,
{
    let all = ancestors_of(storage_root, relative, extension);
    assert forall|i: int, j: int| 0 <= i < all.len() && 0 <= j < all.len() && i != j implies all[i]
        != all[j] by {
        if i < j {
            lemma_slashed_grows(relative, i, j);
        } else {
            lemma_slashed_grows(relative, j, i);
        }
        assert(all[i].len() != all[j].len());
    }
    assert(relative.take(relative.len() as int) =~= relative);
}

/// The components of a path, borrowed from it.
pub fn path_components<'a>(path: &'a str) -> (out: Vec<&'a str>)
    ensures
        views(out@) == components(path@),
{
    let pieces = split(path, '/');
    let ghost all = split_on(path@, '/');
    let mut out: Vec<&'a str> = Vec::new();
    let mut i: usize = 0;
    while i < pieces.len()
        invariant
            i <= pieces@.len(),
            views(pieces@) == all,
            views(out@) == drop_empty(all.take(i as int)),
        decreases pieces@.len() - i,
    {
        let piece = pieces[i];
        proof {
            assert(all.take(i + 1).drop_last() =~= all.take(i as int));
        }
        if !piece.is_empty() {
            out.push(piece);
        }
        i += 1;
    }
    proof {
        assert(all.take(i as int) =~= all);
    }
    out
}

/// Whether `prefix` is a prefix of `whole`, component by component.
fn starts_with(whole: &Vec<&str>, prefix: &Vec<&str>) -> (r: bool)
    ensures
        r == views(prefix@).is_prefix_of(views(whole@)),
{
    if prefix.len() > whole.len() {
        return false;
    }
    let mut i: usize = 0;
    while i < prefix.len()
        invariant
            i <= prefix@.len(),
            prefix@.len() <= whole@.len(),
            forall|j: int| 0 <= j < i ==> prefix@[j]@ == whole@[j]@,
        decreases prefix@.len() - i,
    {
        if !same(prefix[i], whole[i]) {
            proof {
                assert(views(prefix@)[i as int] != views(whole@)[i as int]);
            }
            return false;
        }
        i += 1;
    }
    true
}

/// `stem`, a dot and `extension`.
fn with_extension(stem: &String, extension: &str) -> (out: String)
    ensures
        out@ == stem@ + seq!['.'] + extension@,
{
    let mut out = stem.clone();
    out.push('.');
    out.append(extension);
    out
}

impl PathMirror {
    /// The mirror of `reference_root` under `storage_root`, with files that
    /// end in a dot and `extension`.
    pub fn new(reference_root: &str, storage_root: &str, extension: &str) -> (mirror: PathMirror)
        ensures
            mirror.reference_root@ == reference_root@,
            mirror.storage_root@ == storage_root@,
            mirror.extension@ == extension@,
    {
        PathMirror {
            reference_root: reference_root.to_owned(),
            storage_root: storage_root.to_owned(),
            extension: extension.to_owned(),
        }
    }

    /// Whether `target` has a place in the mirrored tree.
    pub open spec fn covers(&self, target: Seq<char>) -> bool {
        is_under(target, self.reference_root@)
    }

    /// The file of `target`.
    pub open spec fn storage_file(&self, target: Seq<char>) -> Seq<char> {
        storage_of(
            self.storage_root@,
            relative_to(target, self.reference_root@),
            self.extension@,
        )
    }

    /// The files that apply to `target`, root-most first.
    pub open spec fn storage_files(&self, target: Seq<char>) -> Seq<Seq<char>> {
        ancestors_of(
            self.storage_root@,
            relative_to(target, self.reference_root@),
            self.extension@,
        )
    }

    /// The files that apply to the directory `target`: that of the
    /// reference root first, that of `target` itself last. A path that is
    /// not under the reference root has none.
    pub fn ancestors(&self, target: &str) -> (r: Result<Vec<String>, PathError>)
        ensures
            match r {
                Ok(files) => self.covers(target@) && string_views(files@) == self.storage_files(
                    target@,
                ) && all_distinct(string_views(files@)),
                Err(e) => !self.covers(target@) && e == PathError::PathOutsideScope,
            },
    {
        let root_parts = path_components(self.reference_root.as_str());
        let target_parts = path_components(target);
        if !starts_with(&target_parts, &root_parts) {
            return Err(PathError::PathOutsideScope);
        }
        let ghost relative = relative_to(target@, self.reference_root@);
        let ghost want = ancestors_of(self.storage_root@, relative, self.extension@);
        let base = root_parts.len();
        let mut files: Vec<String> = Vec::new();
        let mut stem = self.storage_root.clone();
        files.push(with_extension(&stem, self.extension.as_str()));
        let mut k: usize = base;
        while k < target_parts.len()
            invariant
                base <= k <= target_parts@.len(),
                base == components(self.reference_root@).len(),
                views(target_parts@) == components(target@),
                relative == relative_to(target@, self.reference_root@),
                want == ancestors_of(self.storage_root@, relative, self.extension@),
                stem@ == self.storage_root@ + slashed(relative.take(k - base)),
                files@.len() == k - base + 1,
                forall|j: int| 0 <= j < files@.len() ==> (#[trigger] files@[j])@ == want[j],
            decreases target_parts@.len() - k,
        {
            let part = target_parts[k];
            proof {
                assert(relative.take(k - base + 1).drop_last() =~= relative.take(k - base));
            }
            stem.push('/');
            stem.append(part);
            files.push(with_extension(&stem, self.extension.as_str()));
            k += 1;
        }
        proof {
            lemma_ancestors_distinct(self.storage_root@, relative, self.extension@);
        }
        Ok(files)
    }

    /// The file of the directory `target`. This is also where the
    /// configuration of a directory is moved to when `target` is the
    /// destination of a move.
    pub fn storage_path(&self, target: &str) -> (r: Result<String, PathError>)
        ensures
            match r {
                Ok(file) => self.covers(target@) && file@ == self.storage_file(target@),
                Err(e) => !self.covers(target@) && e == PathError::PathOutsideScope,
            },
    {
        match self.ancestors(target) {
            Ok(mut files) => {
                proof {
                    lemma_ancestors_distinct(
                        self.storage_root@,
                        relative_to(target@, self.reference_root@),
                        self.extension@,
                    );
                }
                let last = files.pop();
                match last {
                    Some(file) => Ok(file),
                    None => Err(PathError::PathOutsideScope),
                }
            },
            Err(e) => Err(e),
        }
    }
}

} // verus!
