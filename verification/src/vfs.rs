//! The in-memory virtual filesystem of one simulated world.
//!
//! Each worker owns one filesystem, reset at the start of every run, so that
//! what a host reads back after a restart is exactly what the run itself has
//! written — and nothing survives from earlier runs.

use vstd::prelude::*;

verus! {

/// One file: its name and its contents.
pub struct VirtualFile {
    pub name: Vec<u8>,
    pub contents: Vec<u8>,
}

/// The filesystem: a flat set of named files, names unique.
pub struct VirtualFs {
    files: Vec<VirtualFile>,
}

/// The position of the named file, if present.
pub open spec fn file_index(files: Seq<VirtualFile>, name: Seq<u8>) -> Option<int>
    decreases files.len(),
{
    if files.len() == 0 {
        None
    } else if files[0].name@ == name {
        Some(0int)
    } else {
        match file_index(files.skip(1), name) {
            Some(i) => Some(i + 1),
            None => None,
        }
    }
}

impl VirtualFs {
    pub closed spec fn files(&self) -> Seq<VirtualFile> {
        self.files@
    }

    /// Names are unique.
    pub closed spec fn wf(&self) -> bool {
        forall|i: int, j: int|
            0 <= i < j < self.files@.len() ==> self.files@[i].name@ != self.files@[j].name@
    }

    /// What the named file holds; nothing when it does not exist.
    pub open spec fn read_spec(&self, name: Seq<u8>) -> Option<Seq<u8>> {
        match file_index(self.files(), name) {
            Some(i) => Some(self.files()[i].contents@),
            None => None,
        }
    }

    /// An empty filesystem, as every run starts with.
    pub fn new() -> (r: Self)
        ensures
            r.wf(),
            r.files().len() == 0,
    {
        VirtualFs { files: Vec::new() }
    }

    /// Drop every file: the per-run reset.
    pub fn reset_fs(&mut self)
        ensures
            final(self).wf(),
            final(self).files().len() == 0,
    {
        self.files = Vec::new();
    }

    fn position_of(&self, name: &Vec<u8>) -> (r: Option<usize>)
        ensures
            (r is Some) == (file_index(self.files(), name@) is Some),
            r matches Some(i) ==> file_index(self.files(), name@) == Some(i as int) && i
                < self.files().len(),
    {
        let mut i: usize = 0;
        proof {
            assert(self.files@.skip(0) =~= self.files@);
            if file_index(self.files@, name@) is Some {
                lemma_file_index_in_range(self.files@, name@);
            }
        }
        while i < self.files.len()
            invariant
                0 <= i <= self.files@.len(),
                match file_index(self.files@, name@) {
                    Some(p) => p >= i && file_index(self.files@.skip(i as int), name@) == Some(
                        p - i,
                    ),
                    None => file_index(self.files@.skip(i as int), name@) is None,
                },
            decreases self.files@.len() - i,
        {
            proof {
                assert(self.files@.skip(i as int)[0] == self.files@[i as int]);
                assert(self.files@.skip(i as int).skip(1) =~= self.files@.skip(i + 1));
            }
            if crate::text::bytes_eq(&self.files[i].name, name) {
                return Some(i);
            }
            proof {
                let tail = self.files@.skip(i as int);
                assert(file_index(tail, name@) == (match file_index(self.files@.skip(i + 1), name@) {
                    Some(j) => Some(j + 1),
                    None => None::<int>,
                }));
                if file_index(self.files@.skip(i + 1), name@) is Some {
                    lemma_file_index_in_range(self.files@.skip(i + 1), name@);
                }
            }
            i = i + 1;
        }
        proof {
            assert(self.files@.skip(i as int).len() == 0);
        }
        None
    }

    /// What the named file holds; nothing when it does not exist.
    pub fn read(&self, name: &Vec<u8>) -> (r: Option<Vec<u8>>)
        ensures
            match self.read_spec(name@) {
                Some(contents) => r is Some && r->0@ == contents,
                None => r is None,
            },
    {
        match self.position_of(name) {
            Some(i) => {
                proof {
                    assert(self.read_spec(name@) == Some(self.files@[i as int].contents@));
                }
                let contents = &self.files[i].contents;
                let copy = crate::text::sub_bytes(contents, 0, contents.len());
                proof {
                    assert(copy@ =~= self.files@[i as int].contents@);
                }
                Some(copy)
            },
            None => None,
        }
    }

    /// Replace the named file's contents, creating it if needed.
    pub fn write(&mut self, name: &Vec<u8>, contents: Vec<u8>)
        requires
            old(self).wf(),
        ensures
            final(self).wf(),
            final(self).read_spec(name@) == Some(contents@),
            forall|other: Seq<u8>|
                other != name@ ==> #[trigger] final(self).read_spec(other) == old(self).read_spec(
                    other,
                ),
    {
        let ghost pre = self.files@;
        match self.position_of(name) {
            Some(i) => {
                proof {
                    lemma_file_index_in_range(pre, name@);
                }
                let slot = &mut self.files[i];
                slot.contents = contents;
                proof {
                    lemma_file_index_update(pre, self.files@, name@, i as int);
                    assert(self.read_spec(name@) == Some(self.files@[i as int].contents@));
                    assert forall|other: Seq<u8>| other != name@ implies #[trigger] self.read_spec(
                        other,
                    ) == (match file_index(pre, other) {
                        Some(j) => Some(pre[j].contents@),
                        None => None::<Seq<u8>>,
                    }) by {
                        if file_index(pre, other) is Some {
                            lemma_file_index_in_range(pre, other);
                        }
                    }
                }
            },
            None => {
                proof {
                    lemma_file_index_none(pre, name@);
                }
                self.files.push(VirtualFile { name: name.clone(), contents });
                proof {
                    lemma_file_index_push(pre, self.files@, name@);
                    assert(self.read_spec(name@) == Some(
                        self.files@[pre.len() as int].contents@,
                    ));
                    assert forall|other: Seq<u8>| other != name@ implies #[trigger] self.read_spec(
                        other,
                    ) == (match file_index(pre, other) {
                        Some(j) => Some(pre[j].contents@),
                        None => None::<Seq<u8>>,
                    }) by {
                        if file_index(pre, other) is Some {
                            lemma_file_index_in_range(pre, other);
                        }
                    }
                }
            },
        }
    }

    /// Extend the named file, creating it if needed: what a host appends is
    /// what a later restart reads back after everything already there.
    pub fn append(&mut self, name: &Vec<u8>, suffix: &Vec<u8>)
        requires
            old(self).wf(),
        ensures
            final(self).wf(),
            final(self).read_spec(name@) == Some(
                (match old(self).read_spec(name@) {
                    Some(contents) => contents,
                    None => Seq::<u8>::empty(),
                }) + suffix@,
            ),
            forall|other: Seq<u8>|
                other != name@ ==> #[trigger] final(self).read_spec(other) == old(self).read_spec(
                    other,
                ),
    {
        let current = match self.read(name) {
            Some(contents) => contents,
            None => Vec::new(),
        };
        let combined = crate::text::concat_bytes(&current, suffix);
        self.write(name, combined);
    }
}

/// A found index lies in range and names the file searched for.
proof fn lemma_file_index_in_range(files: Seq<VirtualFile>, name: Seq<u8>)
    requires
        file_index(files, name) is Some,
    ensures
        0 <= file_index(files, name)->0 < files.len(),
        files[file_index(files, name)->0].name@ == name,
    decreases files.len(),
{
    if files.len() > 0 && files[0].name@ != name {
        lemma_file_index_in_range(files.skip(1), name);
        assert(files.skip(1)[file_index(files.skip(1), name)->0] == files[file_index(
            files.skip(1),
            name,
        )->0 + 1]);
    }
}

/// A missing file means no entry carries the name.
proof fn lemma_file_index_none(files: Seq<VirtualFile>, name: Seq<u8>)
    requires
        file_index(files, name) is None,
    ensures
        forall|k: int| 0 <= k < files.len() ==> files[k].name@ != name,
    decreases files.len(),
{
    if files.len() > 0 {
        if files[0].name@ == name {
            assert(file_index(files, name) == Some(0int));
        }
        lemma_file_index_none(files.skip(1), name);
        assert forall|k: int| 0 <= k < files.len() implies files[k].name@ != name by {
            if k >= 1 {
                assert(files.skip(1)[k - 1] == files[k]);
            }
        }
    }
}

/// Replacing one file's contents moves no name: lookups elsewhere read as
/// before, and the lookup of the updated name lands on the updated entry.
proof fn lemma_file_index_update(
    pre: Seq<VirtualFile>,
    post: Seq<VirtualFile>,
    name: Seq<u8>,
    at: int,
)
    requires
        0 <= at < pre.len(),
        post.len() == pre.len(),
        forall|k: int| 0 <= k < pre.len() && k != at ==> post[k] == pre[k],
        post[at].name@ == pre[at].name@,
        forall|i: int, j: int| 0 <= i < j < pre.len() ==> pre[i].name@ != pre[j].name@,
    ensures
        forall|n: Seq<u8>| file_index(post, n) == file_index(pre, n),
        forall|i: int, j: int| 0 <= i < j < post.len() ==> post[i].name@ != post[j].name@,
    decreases pre.len(),
{
    assert forall|n: Seq<u8>| file_index(post, n) == file_index(pre, n) by {
        lemma_file_index_same_names(pre, post, n);
    }
}

/// Lookups see names alone.
proof fn lemma_file_index_same_names(pre: Seq<VirtualFile>, post: Seq<VirtualFile>, name: Seq<u8>)
    requires
        post.len() == pre.len(),
        forall|k: int| 0 <= k < pre.len() ==> post[k].name@ == #[trigger] pre[k].name@,
    ensures
        file_index(post, name) == file_index(pre, name),
    decreases pre.len(),
{
    if pre.len() > 0 {
        assert(forall|k: int|
            0 <= k < pre.len() - 1 ==> pre.skip(1)[k] == #[trigger] pre[k + 1]);
        assert(forall|k: int|
            0 <= k < post.len() - 1 ==> post.skip(1)[k] == #[trigger] post[k + 1]);
        lemma_file_index_same_names(pre.skip(1), post.skip(1), name);
    }
}

/// A fresh file lands at the end, and every other lookup reads as before.
proof fn lemma_file_index_push(pre: Seq<VirtualFile>, post: Seq<VirtualFile>, name: Seq<u8>)
    requires
        file_index(pre, name) is None,
        post == pre.push(post.last()),
        post.last().name@ == name,
        forall|i: int, j: int| 0 <= i < j < pre.len() ==> pre[i].name@ != pre[j].name@,
    ensures
        file_index(post, name) == Some(pre.len() as int),
        forall|n: Seq<u8>| n != name ==> #[trigger] file_index(post, n) == file_index(pre, n),
        forall|i: int, j: int| 0 <= i < j < post.len() ==> post[i].name@ != post[j].name@,
    decreases pre.len(),
{
    lemma_file_index_none(pre, name);
    lemma_file_index_push_found(pre, post, name);
    assert forall|n: Seq<u8>| n != name implies #[trigger] file_index(post, n) == file_index(
        pre,
        n,
    ) by {
        lemma_file_index_push_other(pre, post, n);
    }
}

proof fn lemma_file_index_push_found(pre: Seq<VirtualFile>, post: Seq<VirtualFile>, name: Seq<u8>)
    requires
        file_index(pre, name) is None,
        post == pre.push(post.last()),
        post.last().name@ == name,
    ensures
        file_index(post, name) == Some(pre.len() as int),
    decreases pre.len(),
{
    if pre.len() == 0 {
        assert(post[0].name@ == name);
    } else {
        assert(post[0] == pre[0]);
        assert(pre[0].name@ != name);
        assert(post.skip(1) =~= pre.skip(1).push(post.last()));
        assert(post.skip(1).last() == post.last());
        lemma_file_index_push_found(pre.skip(1), post.skip(1), name);
    }
}

proof fn lemma_file_index_push_other(pre: Seq<VirtualFile>, post: Seq<VirtualFile>, other: Seq<u8>)
    requires
        post == pre.push(post.last()),
        post.last().name@ != other,
    ensures
        file_index(post, other) == file_index(pre, other),
    decreases pre.len(),
{
    if pre.len() == 0 {
        assert(post[0].name@ != other);
        assert(post.skip(1).len() == 0);
        assert(file_index(post.skip(1), other) is None);
        assert(file_index(post, other) is None);
    } else {
        assert(post[0] == pre[0]);
        if pre[0].name@ != other {
            assert(post.skip(1) =~= pre.skip(1).push(post.last()));
            assert(post.skip(1).last() == post.last());
            lemma_file_index_push_other(pre.skip(1), post.skip(1), other);
            assert(file_index(post, other) == (match file_index(post.skip(1), other) {
                Some(j) => Some(j + 1),
                None => None::<int>,
            }));
            assert(file_index(pre, other) == (match file_index(pre.skip(1), other) {
                Some(j) => Some(j + 1),
                None => None::<int>,
            }));
        }
    }
}

} // verus!
