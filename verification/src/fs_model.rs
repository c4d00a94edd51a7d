//! An in-memory filesystem that gives the three open modes their meaning:
//! a truncating open empties the file and creates it when absent, an
//! appending open creates it when absent and otherwise leaves it alone,
//! and a reading open touches nothing and fails on an absent file.  The
//! library's laws about file contents are stated over the spec-level map
//! and proved here.

use crate::open_mode::OpenMode;
use crate::policy::ErrorClass;
use crate::request::OpenRequest;
use vstd::prelude::*;

verus! {

/// A path's contents, or nothing when the path is absent.
pub open spec fn spec_contents_or_empty(fs: Map<Seq<char>, Seq<u8>>, path: Seq<char>) -> Seq<u8> {
    if fs.dom().contains(path) {
        fs[path]
    } else {
        Seq::empty()
    }
}

/// Whether an open in the given mode succeeds: creating modes always do,
/// a reading open only when the file is present.
pub open spec fn spec_open_ok(fs: Map<Seq<char>, Seq<u8>>, path: Seq<char>, mode: OpenMode) -> bool {
    mode.spec_creates() || fs.dom().contains(path)
}

/// The filesystem after an open: truncating empties the file, appending
/// creates it empty when absent, reading changes nothing.  A failed open
/// (reading an absent file) also changes nothing.
pub open spec fn spec_after_open(
    fs: Map<Seq<char>, Seq<u8>>,
    path: Seq<char>,
    mode: OpenMode,
) -> Map<Seq<char>, Seq<u8>> {
    if mode == OpenMode::Truncatable {
        fs.insert(path, Seq::empty())
    } else if mode == OpenMode::Appendable && !fs.dom().contains(path) {
        fs.insert(path, Seq::empty())
    } else {
        fs
    }
}

/// The filesystem after writing through an open handle: the bytes land at
/// end-of-file.
pub open spec fn spec_after_write(
    fs: Map<Seq<char>, Seq<u8>>,
    path: Seq<char>,
    data: Seq<u8>,
) -> Map<Seq<char>, Seq<u8>> {
    fs.insert(path, spec_contents_or_empty(fs, path) + data)
}

/// A handle handed out by a successful open: the path it names and the
/// mode it was opened in.
#[derive(Debug)]
pub struct FsHandle {
    pub path: String,
    pub mode: OpenMode,
}

#[derive(Debug)]
struct FsEntry {
    path: String,
    data: Vec<u8>,
}

/// The in-memory filesystem: a table of files, at most one per path.
#[derive(Debug)]
pub struct FsModel {
    entries: Vec<FsEntry>,
}

spec fn wf_seq(s: Seq<FsEntry>) -> bool {
    forall|i: int, j: int|
        0 <= i < j < s.len() ==> (#[trigger] s[i].path@) != (#[trigger] s[j].path@)
}

spec fn as_map(s: Seq<FsEntry>) -> Map<Seq<char>, Seq<u8>>
    decreases s.len(),
{
    if s.len() == 0 {
        Map::empty()
    } else {
        as_map(s.drop_last()).insert(s.last().path@, s.last().data@)
    }
}

impl View for FsModel {
    type V = Map<Seq<char>, Seq<u8>>;

    closed spec fn view(&self) -> Map<Seq<char>, Seq<u8>> {
        as_map(self.entries@)
    }
}

proof fn lemma_wf_drop_last(s: Seq<FsEntry>)
    requires
        wf_seq(s),
        s.len() > 0,
    ensures
        wf_seq(s.drop_last()),
{
    assert forall|i: int, j: int| 0 <= i < j < s.drop_last().len() implies (#[trigger] s.drop_last()[i].path@)
        != (#[trigger] s.drop_last()[j].path@) by {
        assert(s.drop_last()[i] == s[i]);
        assert(s.drop_last()[j] == s[j]);
    }
}

proof fn lemma_as_map_present(s: Seq<FsEntry>, i: int)
    requires
        wf_seq(s),
        0 <= i < s.len(),
    ensures
        as_map(s).dom().contains(s[i].path@),
        as_map(s)[s[i].path@] == s[i].data@,
    decreases s.len(),
{
    assert(s.last() == s[s.len() - 1]);
    if i < s.len() - 1 {
        lemma_wf_drop_last(s);
        lemma_as_map_present(s.drop_last(), i);
        assert(s.drop_last()[i] == s[i]);
        assert(s[i].path@ != s[s.len() - 1].path@);
    }
}

proof fn lemma_as_map_absent(s: Seq<FsEntry>, p: Seq<char>)
    requires
        forall|j: int| 0 <= j < s.len() ==> (#[trigger] s[j].path@) != p,
    ensures
        !as_map(s).dom().contains(p),
    decreases s.len(),
{
    if s.len() > 0 {
        assert forall|j: int| 0 <= j < s.drop_last().len() implies (#[trigger] s.drop_last()[j].path@)
            != p by {
            assert(s.drop_last()[j] == s[j]);
        }
        lemma_as_map_absent(s.drop_last(), p);
        assert(s.last() == s[s.len() - 1]);
    }
}

proof fn lemma_as_map_update(s: Seq<FsEntry>, i: int, e: FsEntry)
    requires
        wf_seq(s),
        0 <= i < s.len(),
        e.path@ == s[i].path@,
    ensures
        as_map(s.update(i, e)) == as_map(s).insert(e.path@, e.data@),
    decreases s.len(),
{
    let t = s.update(i, e);
    assert(s.last() == s[s.len() - 1]);
    assert(t.len() == s.len());
    if i == s.len() - 1 {
        assert(t.drop_last() =~= s.drop_last());
        assert(t.last() == e);
        assert(as_map(s).insert(e.path@, e.data@) =~= as_map(s.drop_last()).insert(
            e.path@,
            e.data@,
        ));
    } else {
        lemma_wf_drop_last(s);
        assert(s.drop_last()[i] == s[i]);
        assert(t.drop_last() =~= s.drop_last().update(i, e));
        assert(t.last() == s.last());
        lemma_as_map_update(s.drop_last(), i, e);
        assert(e.path@ != s[s.len() - 1].path@);
        assert(as_map(s.drop_last()).insert(e.path@, e.data@).insert(
            s.last().path@,
            s.last().data@,
        ) =~= as_map(s.drop_last()).insert(s.last().path@, s.last().data@).insert(
            e.path@,
            e.data@,
        ));
    }
}

proof fn lemma_as_map_push(s: Seq<FsEntry>, e: FsEntry)
    ensures
        as_map(s.push(e)) == as_map(s).insert(e.path@, e.data@),
{
    assert(s.push(e).drop_last() =~= s);
    assert(s.push(e).last() == e);
}

proof fn lemma_wf_update(s: Seq<FsEntry>, i: int, e: FsEntry)
    requires
        wf_seq(s),
        0 <= i < s.len(),
        e.path@ == s[i].path@,
    ensures
        wf_seq(s.update(i, e)),
{
    let t = s.update(i, e);
    assert forall|a: int, b: int| 0 <= a < b < t.len() implies (#[trigger] t[a].path@)
        != (#[trigger] t[b].path@) by {
        assert(s[a].path@ != s[b].path@);
        assert(t[a] == (if a == i { e } else { s[a] }));
        assert(t[b] == (if b == i { e } else { s[b] }));
    }
}

proof fn lemma_wf_push(s: Seq<FsEntry>, e: FsEntry)
    requires
        wf_seq(s),
        forall|j: int| 0 <= j < s.len() ==> (#[trigger] s[j].path@) != e.path@,
    ensures
        wf_seq(s.push(e)),
{
    let t = s.push(e);
    assert forall|a: int, b: int| 0 <= a < b < t.len() implies (#[trigger] t[a].path@)
        != (#[trigger] t[b].path@) by {
        assert(t[a] == s[a]);
        if b == s.len() {
            assert(t[b] == e);
        } else {
            assert(t[b] == s[b]);
        }
    }
}

/// A truncating open never fails: whatever the filesystem held at the
/// path, the open succeeds and leaves an empty file there, creating it
/// when it was absent.
pub proof fn lemma_truncatable_succeeds(fs: Map<Seq<char>, Seq<u8>>, path: Seq<char>)
    ensures
        spec_open_ok(fs, path, OpenMode::Truncatable),
        spec_after_open(fs, path, OpenMode::Truncatable).dom().contains(path),
        spec_after_open(fs, path, OpenMode::Truncatable)[path] == Seq::<u8>::empty(),
{
}

/// A reading open of an absent file fails and creates nothing: the
/// filesystem is exactly what it was.
pub proof fn lemma_readable_absent_fails(fs: Map<Seq<char>, Seq<u8>>, path: Seq<char>)
    requires
        !fs.dom().contains(path),
    ensures
        !spec_open_ok(fs, path, OpenMode::Readable),
        spec_after_open(fs, path, OpenMode::Readable) == fs,
{
}

/// Appending twice concatenates in call order: after an appending open
/// and a write of `first`, then another appending open and a write of
/// `second`, the file holds its prior contents followed by `first`, then
/// `second`.
pub proof fn lemma_append_append(
    fs: Map<Seq<char>, Seq<u8>>,
    path: Seq<char>,
    first: Seq<u8>,
    second: Seq<u8>,
)
    ensures
        ({
            let once = spec_after_write(
                spec_after_open(fs, path, OpenMode::Appendable),
                path,
                first,
            );
            let twice = spec_after_write(
                spec_after_open(once, path, OpenMode::Appendable),
                path,
                second,
            );
            twice[path] == spec_contents_or_empty(fs, path) + first + second
        }),
{
}

/// The round trip: a truncating open, a write of `first`, an appending
/// open, a write of `second`, then a reading open.  The read succeeds,
/// changes nothing, and finds exactly `first + second`, whatever the
/// filesystem held before.
pub proof fn lemma_truncate_write_append_write_read(
    fs: Map<Seq<char>, Seq<u8>>,
    path: Seq<char>,
    first: Seq<u8>,
    second: Seq<u8>,
)
    ensures
        ({
            let once = spec_after_write(
                spec_after_open(fs, path, OpenMode::Truncatable),
                path,
                first,
            );
            let twice = spec_after_write(
                spec_after_open(once, path, OpenMode::Appendable),
                path,
                second,
            );
            &&& spec_open_ok(twice, path, OpenMode::Readable)
            &&& spec_after_open(twice, path, OpenMode::Readable) == twice
            &&& twice[path] == first + second
        }),
{
    assert(Seq::<u8>::empty() + first =~= first);
}

impl FsModel {
    #[verifier::type_invariant]
    spec fn wf(self) -> bool {
        wf_seq(self.entries@)
    }

    /// An empty filesystem.
    pub fn new() -> (m: FsModel)
        ensures
            m@ == Map::<Seq<char>, Seq<u8>>::empty(),
    {
        let m = FsModel { entries: Vec::new() };
        proof {
            assert(m@ =~= Map::<Seq<char>, Seq<u8>>::empty());
        }
        m
    }

    fn find(&self, path: &String) -> (r: Option<usize>)
        ensures
            match r {
                Some(i) => i < self.entries@.len() && self.entries@[i as int].path@ == path@,
                None => forall|j: int|
                    0 <= j < self.entries@.len() ==> (#[trigger] self.entries@[j].path@) != path@,
            },
    {
        let mut i: usize = 0;
        while i < self.entries.len()
            invariant
                i <= self.entries@.len(),
                forall|j: int| 0 <= j < i ==> (#[trigger] self.entries@[j].path@) != path@,
            decreases self.entries@.len() - i,
        {
            if self.entries[i].path == *path {
                return Some(i);
            }
            i = i + 1;
        }
        None
    }

    fn set_contents(&mut self, path: &String, data: Vec<u8>)
        ensures
            final(self)@ == old(self)@.insert(path@, data@),
    {
        proof {
            use_type_invariant(&*self);
        }
        let found = self.find(path);
        let p = path.clone();
        let e = FsEntry { path: p, data };
        let mut entries: Vec<FsEntry> = Vec::new();
        core::mem::swap(&mut entries, &mut self.entries);
        match found {
            Some(i) => {
                proof {
                    lemma_as_map_present(entries@, i as int);
                    lemma_wf_update(entries@, i as int, e);
                    lemma_as_map_update(entries@, i as int, e);
                }
                entries[i] = e;
            }
            None => {
                proof {
                    lemma_as_map_absent(entries@, path@);
                    lemma_wf_push(entries@, e);
                    lemma_as_map_push(entries@, e);
                }
                entries.push(e);
            }
        }
        self.entries = entries;
    }

    /// Whether a file is present at the given path.
    pub fn contains(&self, path: &String) -> (b: bool)
        ensures
            b == self@.dom().contains(path@),
    {
        proof {
            use_type_invariant(&*self);
        }
        let found = self.find(path);
        match found {
            Some(i) => {
                proof {
                    lemma_as_map_present(self.entries@, i as int);
                }
                true
            }
            None => {
                proof {
                    lemma_as_map_absent(self.entries@, path@);
                }
                false
            }
        }
    }

    /// Execute one open request against this filesystem.  Success and the
    /// new state follow `spec_open_ok` and `spec_after_open`; the only
    /// failure is a reading open of an absent file, reported as
    /// `ErrorClass::NotFound` with nothing created.  The request's policy
    /// plays no part here: what a fail-fast operation does with such a
    /// failure is decided by `crate::policy::failure_action`, and ending
    /// the process is the unverified shell's business.
    pub fn try_open(&mut self, req: &OpenRequest) -> (r: Result<FsHandle, ErrorClass>)
        ensures
            final(self)@ == spec_after_open(old(self)@, req.path@, req.mode),
            r is Ok <==> spec_open_ok(old(self)@, req.path@, req.mode),
            r matches Ok(h) ==> h.path@ == req.path@ && h.mode == req.mode && final(self)@.dom().contains(
                req.path@,
            ),
            r matches Err(e) ==> e == ErrorClass::NotFound && req.mode == OpenMode::Readable
                && !old(self)@.dom().contains(req.path@) && final(self)@ == old(self)@,
    {
        proof {
            use_type_invariant(&*self);
        }
        match req.mode {
            OpenMode::Truncatable => {
                self.set_contents(&req.path, Vec::new());
                Ok(FsHandle { path: req.path.clone(), mode: req.mode })
            },
            OpenMode::Appendable => {
                let found = self.find(&req.path);
                match found {
                    Some(i) => {
                        proof {
                            lemma_as_map_present(self.entries@, i as int);
                        }
                    },
                    None => {
                        proof {
                            lemma_as_map_absent(self.entries@, req.path@);
                        }
                        self.set_contents(&req.path, Vec::new());
                    },
                }
                Ok(FsHandle { path: req.path.clone(), mode: req.mode })
            },
            OpenMode::Readable => {
                let found = self.find(&req.path);
                match found {
                    Some(i) => {
                        proof {
                            lemma_as_map_present(self.entries@, i as int);
                        }
                        Ok(FsHandle { path: req.path.clone(), mode: req.mode })
                    },
                    None => {
                        proof {
                            lemma_as_map_absent(self.entries@, req.path@);
                        }
                        Err(ErrorClass::NotFound)
                    },
                }
            },
        }
    }

    /// Write through a handle opened in a writing mode: the bytes land at
    /// end-of-file.
    pub fn write(&mut self, handle: &FsHandle, data: &Vec<u8>)
        requires
            handle.mode.spec_writable(),
            old(self)@.dom().contains(handle.path@),
        ensures
            final(self)@ == spec_after_write(old(self)@, handle.path@, data@),
    {
        proof {
            use_type_invariant(&*self);
        }
        let found = self.find(&handle.path);
        match found {
            Some(i) => {
                proof {
                    lemma_as_map_present(self.entries@, i as int);
                }
                let mut d: Vec<u8> = Vec::new();
                let n = self.entries[i].data.len();
                let mut k: usize = 0;
                while k < n
                    invariant
                        k <= n,
                        i < self.entries@.len(),
                        n == self.entries@[i as int].data@.len(),
                        d@ == self.entries@[i as int].data@.subrange(0, k as int),
                    decreases n - k,
                {
                    d.push(self.entries[i].data[k]);
                    k = k + 1;
                    proof {
                        assert(d@ =~= self.entries@[i as int].data@.subrange(0, k as int));
                    }
                }
                proof {
                    assert(self.entries@[i as int].data@.subrange(0, n as int) =~= self.entries@[i
                        as int].data@);
                }
                let m = data.len();
                let mut k2: usize = 0;
                while k2 < m
                    invariant
                        k2 <= m,
                        i < self.entries@.len(),
                        m == data@.len(),
                        d@ == self.entries@[i as int].data@ + data@.subrange(0, k2 as int),
                    decreases m - k2,
                {
                    d.push(data[k2]);
                    k2 = k2 + 1;
                    proof {
                        assert(d@ =~= self.entries@[i as int].data@ + data@.subrange(
                            0,
                            k2 as int,
                        ));
                    }
                }
                proof {
                    assert(data@.subrange(0, m as int) =~= data@);
                }
                self.set_contents(&handle.path, d);
            },
            None => {
                proof {
                    lemma_as_map_absent(self.entries@, handle.path@);
                }
                vstd::pervasive::unreached()
            },
        }
    }

    /// Read the whole file behind a handle opened for reading.
    pub fn read(&self, handle: &FsHandle) -> (d: Vec<u8>)
        requires
            handle.mode == OpenMode::Readable,
            self@.dom().contains(handle.path@),
        ensures
            d@ == self@[handle.path@],
    {
        proof {
            use_type_invariant(&*self);
        }
        let found = self.find(&handle.path);
        match found {
            Some(i) => {
                proof {
                    lemma_as_map_present(self.entries@, i as int);
                }
                let mut d: Vec<u8> = Vec::new();
                let n = self.entries[i].data.len();
                let mut k: usize = 0;
                while k < n
                    invariant
                        k <= n,
                        i < self.entries@.len(),
                        n == self.entries@[i as int].data@.len(),
                        d@ == self.entries@[i as int].data@.subrange(0, k as int),
                    decreases n - k,
                {
                    d.push(self.entries[i].data[k]);
                    k = k + 1;
                    proof {
                        assert(d@ =~= self.entries@[i as int].data@.subrange(0, k as int));
                    }
                }
                proof {
                    assert(self.entries@[i as int].data@.subrange(0, n as int) =~= self.entries@[i
                        as int].data@);
                }
                d
            },
            None => {
                proof {
                    lemma_as_map_absent(self.entries@, handle.path@);
                }
                vstd::pervasive::unreached()
            },
        }
    }
}

} // verus!
