//! Model of the remote store that file transfer writes to and reads from.
//!
//! Upload and download are whole-file, in-memory copies: the shell moves the
//! bytes, and this model states what the two operations mean for the mapping
//! from remote paths to contents.  It also serves as an in-memory stand-in
//! for the remote side when a run is exercised without a cluster.

use vstd::prelude::*;

verus! {

/// A remote file system, as the run sees it: remote paths and the bytes
/// stored under them.
pub struct RemoteStore {
    entries: Vec<(Vec<u8>, Vec<u8>)>,
}

/// The mapping a list of writes builds up: later writes shadow earlier ones.
pub open spec fn store_map(entries: Seq<(Vec<u8>, Vec<u8>)>) -> Map<Seq<u8>, Seq<u8>>
    decreases entries.len(),
{
    if entries.len() == 0 {
        Map::empty()
    } else {
        store_map(entries.drop_last()).insert(entries.last().0@, entries.last().1@)
    }
}

impl View for RemoteStore {
    type V = Map<Seq<u8>, Seq<u8>>;

    closed spec fn view(&self) -> Map<Seq<u8>, Seq<u8>> {
        store_map(self.entries@)
    }
}

/// Writes after position `i` aside, the mapping looks up `k` the same way.
proof fn lemma_lookup_ignores_other_keys(entries: Seq<(Vec<u8>, Vec<u8>)>, i: int, k: Seq<u8>)
    requires
        0 <= i <= entries.len(),
        forall|j: int| i <= j < entries.len() ==> entries[j].0@ != k,
    ensures
        store_map(entries).contains_key(k) == store_map(entries.subrange(0, i)).contains_key(k),
        store_map(entries).contains_key(k) ==> store_map(entries)[k] == store_map(
            entries.subrange(0, i),
        )[k],
    decreases entries.len() - i,
{
    if i == entries.len() {
        assert(entries.subrange(0, i) =~= entries);
    } else {
        lemma_lookup_ignores_other_keys(entries, i + 1, k);
        let shorter = entries.subrange(0, i);
        let longer = entries.subrange(0, i + 1);
        assert(longer.drop_last() =~= shorter);
        assert(longer.last() == entries[i]);
    }
}

impl RemoteStore {
    /// An empty remote store.
    pub fn new() -> (s: RemoteStore)
        ensures
            s@ == Map::<Seq<u8>, Seq<u8>>::empty(),
    {
        RemoteStore { entries: Vec::new() }
    }

    /// Stores `data` under `path`, replacing whatever was there.
    pub fn upload(&mut self, path: Vec<u8>, data: Vec<u8>)
        ensures
            final(self)@ == old(self)@.insert(path@, data@),
    {
        let ghost before = self.entries@;
        self.entries.push((path, data));
        proof {
            assert(self.entries@.drop_last() =~= before);
        }
    }

    /// Reads back the bytes stored under `path`, or nothing when no upload
    /// ever wrote that path.
    pub fn download(&self, path: &Vec<u8>) -> (r: Option<Vec<u8>>)
        ensures
            match r {
                Some(data) => self@.contains_key(path@) && data@ == self@[path@],
                None => !self@.contains_key(path@),
            },
    {
        let mut i: usize = self.entries.len();
        while i > 0
            invariant
                i <= self.entries@.len(),
                forall|j: int| i <= j < self.entries@.len() ==> self.entries@[j].0@ != path@,
            decreases i,
        {
            i = i - 1;
            let entry = &self.entries[i];
            if crate::text::bytes_equal(entry.0.as_slice(), path.as_slice()) {
                proof {
                    lemma_lookup_ignores_other_keys(self.entries@, i + 1, path@);
                    let longer = self.entries@.subrange(0, i + 1);
                    assert(longer.drop_last() =~= self.entries@.subrange(0, i as int));
                    assert(longer.last() == self.entries@[i as int]);
                }
                return Some(crate::text::copy_bytes(&entry.1));
            }
        }
        proof {
            lemma_lookup_ignores_other_keys(self.entries@, 0, path@);
            assert(self.entries@.subrange(0, 0) =~= Seq::<(Vec<u8>, Vec<u8>)>::empty());
        }
        None
    }
}

/// Uploading a file and then downloading the same remote path yields exactly
/// the uploaded bytes, whatever the store held before.
pub proof fn lemma_upload_download_round_trip(
    store: Map<Seq<u8>, Seq<u8>>,
    path: Seq<u8>,
    data: Seq<u8>,
)
    ensures
        store.insert(path, data).contains_key(path),
        store.insert(path, data)[path] == data,
{
}

} // verus!
