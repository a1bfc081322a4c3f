//! Blob storage: which backend a configuration selects, and an in-memory
//! store with the three operations the import pipeline relies on.

use vstd::prelude::*;
use crate::text::same_text;

verus! {

/// A store rooted in a directory of the local file system.
#[derive(Debug, Default, Clone, PartialEq, Eq)]
pub struct FsStorage {
    pub root: String,
}

/// The storage section of the configuration.
#[derive(Debug, Default, Clone, PartialEq, Eq)]
pub struct Storage {
    pub fs: Option<FsStorage>,
}

/// The backend that a configuration selects.
#[derive(Debug, Clone, PartialEq, Eq)]
pub enum Backend {
    /// Files below the given root directory.
    Fs(String),
    /// Nothing outlives the process.
    Memory,
}

impl Storage {
    /// A configured file-system section selects the file system with its
    /// root; without one the store lives in memory.
    pub fn backend(&self) -> (backend: Backend)
        ensures
            match self.fs {
                Some(fs) => backend == Backend::Fs(fs.root),
                None => backend == Backend::Memory,
            },
    {
        match &self.fs {
            Some(fs) => Backend::Fs(fs.root.clone()),
            None => Backend::Memory,
        }
    }
}

/// One stored object.
pub struct Blob<T> {
    pub path: String,
    pub content: T,
}

/// An in-memory object store addressed by path.
pub struct BlobStore<T> {
    blobs: Vec<Blob<T>>,
    contents: Ghost<Map<Seq<char>, T>>,
}

impl<T> BlobStore<T> {
    /// What is stored, by path.
    pub closed spec fn contents(&self) -> Map<Seq<char>, T> {
        self.contents@
    }

    /// The store's invariant: no path is held twice, and the objects held are
    /// exactly the stored contents.
    pub closed spec fn wf(&self) -> bool {
        &&& forall|i: int, j: int|
            0 <= i < j < self.blobs@.len() ==> (#[trigger] self.blobs@[i]).path@
                != (#[trigger] self.blobs@[j]).path@
        &&& forall|i: int|
            0 <= i < self.blobs@.len() ==> self.contents@.dom().contains(
                (#[trigger] self.blobs@[i]).path@,
            ) && self.contents@[self.blobs@[i].path@] == self.blobs@[i].content
        &&& forall|path: Seq<char>| #[trigger]
            self.contents@.dom().contains(path) ==> exists|i: int|
                0 <= i < self.blobs@.len() && (#[trigger] self.blobs@[i]).path@ == path
    }

    /// The empty store.
    pub fn new() -> (store: Self)
        ensures
            store.wf(),
            store.contents() == Map::<Seq<char>, T>::empty(),
    {
        BlobStore { blobs: Vec::new(), contents: Ghost(Map::empty()) }
    }

    /// The position of the object stored at `path`, if there is one.
    fn position(&self, path: &str) -> (found: Option<usize>)
        requires
            self.wf(),
        ensures
            match found {
                Some(i) => i < self.blobs@.len() && self.blobs@[i as int].path@ == path@,
                None => !self.contents().dom().contains(path@),
            },
    {
        let mut i: usize = 0;
        while i < self.blobs.len()
            invariant
                i <= self.blobs@.len(),
                forall|k: int| 0 <= k < i ==> (#[trigger] self.blobs@[k]).path@ != path@,
            decreases self.blobs@.len() - i,
        {
            if same_text(self.blobs[i].path.as_str(), path) {
                return Some(i);
            }
            i = i + 1;
        }
        None
    }

    /// Whether an object is stored at `path`.
    pub fn is_exist(&self, path: &str) -> (found: bool)
        requires
            self.wf(),
        ensures
            found == self.contents().dom().contains(path@),
    {
        self.position(path).is_some()
    }

    /// The paths at which something is stored, each of them once.
    pub fn paths(&self) -> (paths: Vec<String>)
        requires
            self.wf(),
        ensures
            forall|i: int|
                0 <= i < paths@.len() ==> self.contents().dom().contains((#[trigger] paths@[i])@),
            forall|path: Seq<char>| #[trigger]
                self.contents().dom().contains(path) ==> exists|i: int|
                    0 <= i < paths@.len() && (#[trigger] paths@[i])@ == path,
            forall|i: int, j: int|
                0 <= i < j < paths@.len() ==> (#[trigger] paths@[i])@ != (#[trigger] paths@[j])@,
    {
        let mut paths: Vec<String> = Vec::new();
        let mut i: usize = 0;
        while i < self.blobs.len()
            invariant
                i <= self.blobs@.len(),
                paths@.len() == i,
                forall|k: int| 0 <= k < i ==> (#[trigger] paths@[k])@ == self.blobs@[k].path@,
            decreases self.blobs@.len() - i,
        {
            paths.push(self.blobs[i].path.clone());
            i = i + 1;
        }
        proof {
            assert forall|path: Seq<char>| #[trigger]
                self.contents().dom().contains(path) implies exists|k: int|
                0 <= k < paths@.len() && (#[trigger] paths@[k])@ == path by {
                let k = choose|k: int|
                    0 <= k < self.blobs@.len() && (#[trigger] self.blobs@[k]).path@ == path;
                assert(paths@[k]@ == path);
            }
        }
        paths
    }

    /// Stores `content` at `path`, replacing what was there.
    pub fn write(&mut self, path: String, content: T)
        requires
            old(self).wf(),
        ensures
            final(self).wf(),
            final(self).contents() == old(self).contents().insert(path@, content),
    {
        match self.position(path.as_str()) {
            Some(i) => {
                let ghost before = self.blobs@;
                let old_blob = self.blobs.remove(i);
                self.blobs.push(Blob { path, content });
                self.contents = Ghost(self.contents@.insert(path@, content));
                proof {
                    let now = self.blobs@;
                    assert forall|a: int, b: int| 0 <= a < b < now.len() implies (#[trigger] now[a]).path@
                        != (#[trigger] now[b]).path@ by {
                        let ia = if a < i { a } else { a + 1 };
                        assert(now[a] == before[ia]);
                        if b < now.len() - 1 {
                            let ib = if b < i { b } else { b + 1 };
                            assert(now[b] == before[ib]);
                        } else {
                            assert(now[b].path@ == before[i as int].path@);
                        }
                    }
                    assert forall|k: int| 0 <= k < now.len() implies self.contents@.dom().contains(
                        (#[trigger] now[k]).path@,
                    ) && self.contents@[now[k].path@] == now[k].content by {
                        if k < now.len() - 1 {
                            let ik = if k < i { k } else { k + 1 };
                            assert(now[k] == before[ik]);
                        }
                    }
                    assert forall|p: Seq<char>| #[trigger]
                        self.contents@.dom().contains(p) implies exists|k: int|
                        0 <= k < now.len() && (#[trigger] now[k]).path@ == p by {
                        if p == path@ {
                            assert(now[now.len() - 1].path@ == p);
                        } else {
                            let k0 = choose|k: int|
                                0 <= k < before.len() && (#[trigger] before[k]).path@ == p;
                            let k1 = if k0 < i { k0 } else { k0 - 1 };
                            assert(now[k1] == before[k0]);
                        }
                    }
                }
            },
            None => {
                let ghost before = self.blobs@;
                self.blobs.push(Blob { path, content });
                self.contents = Ghost(self.contents@.insert(path@, content));
                proof {
                    let now = self.blobs@;
                    assert forall|p: Seq<char>| #[trigger]
                        self.contents@.dom().contains(p) implies exists|k: int|
                        0 <= k < now.len() && (#[trigger] now[k]).path@ == p by {
                        if p == path@ {
                            assert(now[now.len() - 1].path@ == p);
                        } else {
                            let k0 = choose|k: int|
                                0 <= k < before.len() && (#[trigger] before[k]).path@ == p;
                            assert(now[k0] == before[k0]);
                        }
                    }
                }
            },
        }
    }

    /// The object stored at `path`, if there is one.
    pub fn read(&self, path: &str) -> (found: Option<&T>)
        requires
            self.wf(),
        ensures
            match found {
                Some(content) => self.contents().dom().contains(path@) && *content
                    == self.contents()[path@],
                None => !self.contents().dom().contains(path@),
            },
    {
        match self.position(path) {
            Some(i) => Some(&self.blobs[i].content),
            None => None,
        }
    }

    /// Removes the object stored at `path` and hands it out, if there is one.
    pub fn take(&mut self, path: &str) -> (found: Option<T>)
        requires
            old(self).wf(),
        ensures
            final(self).wf(),
            final(self).contents() == old(self).contents().remove(path@),
            match found {
                Some(content) => old(self).contents().dom().contains(path@) && content
                    == old(self).contents()[path@],
                None => !old(self).contents().dom().contains(path@),
            },
    {
        match self.position(path) {
            Some(i) => {
                let ghost before = self.blobs@;
                let blob = self.blobs.remove(i);
                self.contents = Ghost(self.contents@.remove(path@));
                proof {
                    let now = self.blobs@;
                    assert forall|a: int, b: int| 0 <= a < b < now.len() implies (#[trigger] now[a]).path@
                        != (#[trigger] now[b]).path@ by {
                        let ia = if a < i { a } else { a + 1 };
                        let ib = if b < i { b } else { b + 1 };
                        assert(now[a] == before[ia]);
                        assert(now[b] == before[ib]);
                    }
                    assert forall|k: int| 0 <= k < now.len() implies self.contents@.dom().contains(
                        (#[trigger] now[k]).path@,
                    ) && self.contents@[now[k].path@] == now[k].content by {
                        let ik = if k < i { k } else { k + 1 };
                        assert(now[k] == before[ik]);
                    }
                    assert forall|p: Seq<char>| #[trigger]
                        self.contents@.dom().contains(p) implies exists|k: int|
                        0 <= k < now.len() && (#[trigger] now[k]).path@ == p by {
                        let k0 = choose|k: int|
                            0 <= k < before.len() && (#[trigger] before[k]).path@ == p;
                        let k1 = if k0 < i { k0 } else { k0 - 1 };
                        assert(now[k1] == before[k0]);
                    }
                }
                Some(blob.content)
            },
            None => {
                assert(self.contents@.remove(path@) =~= self.contents@);
                None
            },
        }
    }

    /// Removes the object stored at `path`. Removing what is not there
    /// changes nothing.
    pub fn delete(&mut self, path: &str)
        requires
            old(self).wf(),
        ensures
            final(self).wf(),
            final(self).contents() == old(self).contents().remove(path@),
    {
        let _ = self.take(path);
    }
}

/// Reading a path right after writing it gives back what was written, and
/// every other path reads as before.
pub proof fn read_after_write<T>(contents: Map<Seq<char>, T>, path: Seq<char>, content: T)
    ensures
        contents.insert(path, content).dom().contains(path),
        contents.insert(path, content)[path] == content,
        forall|other: Seq<char>|
            other != path ==> contents.insert(path, content).dom().contains(other)
                == contents.dom().contains(other),
{
}

/// A deleted path is gone, and deleting it again changes nothing more.
pub proof fn deleted_is_gone<T>(contents: Map<Seq<char>, T>, path: Seq<char>)
    ensures
        !contents.remove(path).dom().contains(path),
        contents.remove(path).remove(path) == contents.remove(path),
{
    assert(contents.remove(path).remove(path) =~= contents.remove(path));
}

} // verus!
