//! The two stores of a campaign: the corpus of inputs worth mutating further,
//! and the archive of inputs that crashed the target.

use crate::fault::Fault;
use vstd::prelude::*;

verus! {

/// The digest of the empty input.
pub const DIGEST_BASIS: u64 = 0xcbf29ce484222325;

/// The multiplier of the digest.
pub const DIGEST_PRIME: u64 = 0x100000001b3;

/// The content digest of an input: each byte in turn is folded into the
/// digest by exclusive or, and the digest is then multiplied by
/// [`DIGEST_PRIME`], modulo two to the sixty-fourth.
pub open spec fn content_hash(input: Seq<u8>) -> u64
    decreases input.len(),
{
    if input.len() == 0 {
        DIGEST_BASIS
    } else {
        (content_hash(input.drop_last()) ^ (input.last() as u64)).wrapping_mul(DIGEST_PRIME)
    }
}

/// Computes the content digest of an input.
pub fn digest(input: &Vec<u8>) -> (h: u64)
    ensures
        h == content_hash(input@),
{
    let mut h: u64 = DIGEST_BASIS;
    let mut i: usize = 0;
    while i < input.len()
        invariant
            i <= input.len(),
            h == content_hash(input@.take(i as int)),
        decreases input.len() - i,
    {
        proof {
            let upto = input@.take(i + 1);
            assert(upto.drop_last() =~= input@.take(i as int));
            assert(upto.last() == input@[i as int]);
        }
        h = (h ^ (input[i] as u64)).wrapping_mul(DIGEST_PRIME);
        i += 1;
    }
    assert(input@.take(input.len() as int) =~= input@);
    h
}

/// An input that crashed the target, with the fault that was seen. It is
/// made once and never changed.
#[derive(Debug)]
pub struct CrashRecord {
    id: u64,
    input: Vec<u8>,
    fault: Fault,
    digest: u64,
}

/// A [`CrashRecord`], with its input as a sequence of bytes.
pub struct Crash {
    pub id: u64,
    pub input: Seq<u8>,
    pub fault: Fault,
    pub digest: u64,
}

impl DeepView for CrashRecord {
    type V = Crash;

    closed spec fn deep_view(&self) -> Crash {
        Crash { id: self.id, input: self.input@, fault: self.fault, digest: self.digest }
    }
}

impl CrashRecord {
    /// The place of the record in the order of discovery, counted from zero.
    pub fn id(&self) -> (id: u64)
        ensures
            id == self.deep_view().id,
    {
        self.id
    }

    /// The input that crashed the target.
    pub fn input(&self) -> (input: &Vec<u8>)
        ensures
            input@ == self.deep_view().input,
    {
        &self.input
    }

    /// The fault that was seen.
    pub fn fault(&self) -> (fault: Fault)
        ensures
            fault == self.deep_view().fault,
    {
        self.fault
    }

    /// The content digest of the input.
    pub fn digest(&self) -> (digest: u64)
        ensures
            digest == self.deep_view().digest,
    {
        self.digest
    }
}

/// Whether some record of the archive has the digest `digest`.
pub open spec fn holds_digest(archive: Seq<Crash>, digest: u64) -> bool {
    exists|i: int| 0 <= i < archive.len() && #[trigger] archive[i].digest == digest
}

/// The archive after a crashing input was handed in: unchanged if a record
/// with the same content digest is there, else longer by one record, which
/// gets the next discovery number.
pub open spec fn archived(archive: Seq<Crash>, input: Seq<u8>, fault: Fault) -> Seq<Crash> {
    if holds_digest(archive, content_hash(input)) {
        archive
    } else {
        archive.push(
            Crash { id: archive.len() as u64, input, fault, digest: content_hash(input) },
        )
    }
}

/// Whether an archive is one that handing in inputs can have built: the
/// records are numbered in the order of discovery, each carries the digest of
/// its input, and no two share a digest.
pub open spec fn is_archive(archive: Seq<Crash>) -> bool {
    &&& archive.len() <= u64::MAX
    &&& forall|i: int| 0 <= i < archive.len() ==> (#[trigger] archive[i]).id == i
    &&& forall|i: int|
        0 <= i < archive.len() ==> (#[trigger] archive[i]).digest == content_hash(
            archive[i].input,
        )
    &&& forall|i: int, j: int|
        0 <= i < j < archive.len() ==> (#[trigger] archive[i]).digest != (
        #[trigger] archive[j]).digest
}

/// Whether record `i` is the only one of the archive with the digest `digest`.
pub open spec fn is_only_record_of(archive: Seq<Crash>, digest: u64, i: int) -> bool {
    &&& 0 <= i < archive.len()
    &&& archive[i].digest == digest
    &&& forall|j: int| 0 <= j < archive.len() && j != i ==> (#[trigger] archive[j]).digest != digest
}

/// Handing an input in keeps an archive an archive.
pub proof fn lemma_archived_is_archive(archive: Seq<Crash>, input: Seq<u8>, fault: Fault)
    requires
        is_archive(archive),
        archive.len() < u64::MAX,
    ensures
        is_archive(archived(archive, input, fault)),
{
    let after = archived(archive, input, fault);
    if !holds_digest(archive, content_hash(input)) {
        assert forall|i: int, j: int| 0 <= i < j < after.len() implies (#[trigger] after[i]).digest
            != (#[trigger] after[j]).digest by {
            if j < archive.len() {
                assert(archive[i].digest != archive[j].digest);
            } else {
                assert(archive[i].digest != content_hash(input));
            }
        }
    }
}

/// Two inputs of the same bytes, handed in one after the other, leave one
/// record: the second changes nothing, whatever fault came with it, and the
/// archive holds exactly one record with the digest of those bytes. Handed in
/// to an empty archive, they leave that one record and no other.
pub proof fn lemma_same_input_is_kept_once(
    archive: Seq<Crash>,
    input: Seq<u8>,
    first: Fault,
    second: Fault,
)
    requires
        is_archive(archive),
    ensures
        archived(archived(archive, input, first), input, second) == archived(
            archive,
            input,
            first,
        ),
        exists|i: int| #[trigger]
            is_only_record_of(archived(archive, input, first), content_hash(input), i),
        archive.len() == 0 ==> archived(archive, input, first) == seq![
            Crash { id: 0, input, fault: first, digest: content_hash(input) },
        ],
{
    let digest = content_hash(input);
    let once = archived(archive, input, first);
    if holds_digest(archive, digest) {
        let i = choose|i: int| 0 <= i < archive.len() && #[trigger] archive[i].digest == digest;
        assert forall|j: int| 0 <= j < archive.len() && j != i implies (#[trigger] archive[j]).digest
            != digest by {
            if j < i {
                assert(archive[j].digest != archive[i].digest);
            } else {
                assert(archive[i].digest != archive[j].digest);
            }
        }
        assert(is_only_record_of(once, digest, i));
    } else {
        let last = archive.len() as int;
        assert(once[last].digest == digest);
        assert(holds_digest(once, digest));
        assert forall|j: int| 0 <= j < once.len() && j != last implies (#[trigger] once[j]).digest
            != digest by {
            assert(once[j] == archive[j]);
            assert(archive[j].digest != digest);
        }
        assert(is_only_record_of(once, digest, last));
    }
    if archive.len() == 0 {
        assert(once =~= seq![Crash { id: 0, input, fault: first, digest }]);
    }
}

/// The archive of crashing inputs. Inputs with the same content digest are
/// kept once.
#[derive(Debug)]
pub struct SolutionStore {
    records: Vec<CrashRecord>,
}

impl View for SolutionStore {
    type V = Seq<Crash>;

    closed spec fn view(&self) -> Seq<Crash> {
        self.records.deep_view()
    }
}

impl SolutionStore {
    #[verifier::type_invariant]
    spec fn well_formed(self) -> bool {
        is_archive(self.records.deep_view())
    }

    /// An archive without records.
    pub fn new() -> (store: SolutionStore)
        ensures
            store@ == Seq::<Crash>::empty(),
    {
        let store = SolutionStore { records: Vec::new() };
        assert(store.records.deep_view() =~= Seq::<Crash>::empty());
        store
    }

    /// The number of records.
    pub fn len(&self) -> (n: usize)
        ensures
            n == self@.len(),
    {
        self.records.len()
    }

    /// The record at position `i` of the order of discovery.
    pub fn get(&self, i: usize) -> (record: Option<&CrashRecord>)
        ensures
            match record {
                Some(found) => i < self@.len() && found.deep_view() == self@[i as int],
                None => i >= self@.len(),
            },
    {
        if i < self.records.len() {
            Some(&self.records[i])
        } else {
            None
        }
    }

    /// Whether a record with this content digest is kept.
    pub fn contains_digest(&self, digest: u64) -> (b: bool)
        ensures
            b == holds_digest(self@, digest),
    {
        let mut i: usize = 0;
        while i < self.records.len()
            invariant
                i <= self.records.len(),
                forall|j: int| 0 <= j < i ==> (#[trigger] self.records.deep_view()[j]).digest
                    != digest,
            decreases self.records.len() - i,
        {
            if self.records[i].digest == digest {
                assert(self.records.deep_view()[i as int].digest == digest);
                return true;
            }
            i += 1;
        }
        false
    }

    /// Hands a crashing input in. It is kept, under the next discovery
    /// number, unless an input with the same content digest is kept already.
    /// Says whether it was kept.
    pub fn record(&mut self, input: Vec<u8>, fault: Fault) -> (added: bool)
        ensures
            final(self)@ == archived(old(self)@, input@, fault),
            added == !holds_digest(old(self)@, content_hash(input@)),
            is_archive(old(self)@),
            is_archive(final(self)@),
    {
        proof {
            use_type_invariant(&*self);
        }
        let digest = digest(&input);
        if self.contains_digest(digest) {
            return false;
        }
        let ghost before = self.records.deep_view();
        let id = self.records.len() as u64;
        let ghost crash = Crash { id, input: input@, fault, digest };
        let mut records: Vec<CrashRecord> = Vec::new();
        assert(records.deep_view() =~= Seq::<Crash>::empty());
        core::mem::swap(&mut records, &mut self.records);
        records.push(CrashRecord { id, input, fault, digest });
        proof {
            assert(records.deep_view() =~= before.push(crash));
            assert(is_archive(records.deep_view())) by {
                let after = records.deep_view();
                assert(after.len() == records.len() <= usize::MAX <= u64::MAX);
                assert forall|i: int| 0 <= i < after.len() implies (#[trigger] after[i]).id
                    == i && after[i].digest == content_hash(after[i].input) by {
                    if i < before.len() {
                        assert(after[i] == before[i]);
                    }
                }
                assert forall|i: int, j: int| 0 <= i < j < after.len() implies (
                #[trigger] after[i]).digest != (#[trigger] after[j]).digest by {
                    if j < before.len() {
                        assert(before[i].digest != before[j].digest);
                    } else {
                        assert(before[i].digest != digest);
                    }
                }
            }
        }
        core::mem::swap(&mut records, &mut self.records);
        true
    }
}

/// An input worth mutating further, with what the mutation engine recorded of
/// its run.
#[derive(Debug)]
pub struct CorpusEntry {
    pub input: Vec<u8>,
    /// The coverage signature of the run, as the engine computed it.
    pub coverage: u64,
}

/// A [`CorpusEntry`], with its input as a sequence of bytes.
pub struct CorpusItem {
    pub input: Seq<u8>,
    pub coverage: u64,
}

impl DeepView for CorpusEntry {
    type V = CorpusItem;

    open spec fn deep_view(&self) -> CorpusItem {
        CorpusItem { input: self.input@, coverage: self.coverage }
    }
}

/// The corpus. Entries are only ever added at the end.
#[derive(Debug)]
pub struct CorpusStore {
    entries: Vec<CorpusEntry>,
}

impl View for CorpusStore {
    type V = Seq<CorpusItem>;

    closed spec fn view(&self) -> Seq<CorpusItem> {
        self.entries.deep_view()
    }
}

impl CorpusStore {
    /// A corpus without entries.
    pub fn new() -> (store: CorpusStore)
        ensures
            store@ == Seq::<CorpusItem>::empty(),
    {
        let store = CorpusStore { entries: Vec::new() };
        assert(store.entries.deep_view() =~= Seq::<CorpusItem>::empty());
        store
    }

    /// The number of entries.
    pub fn len(&self) -> (n: usize)
        ensures
            n == self@.len(),
    {
        self.entries.len()
    }

    /// The entry at position `i`.
    pub fn get(&self, i: usize) -> (entry: Option<&CorpusEntry>)
        ensures
            match entry {
                Some(found) => i < self@.len() && found.deep_view() == self@[i as int],
                None => i >= self@.len(),
            },
    {
        if i < self.entries.len() {
            Some(&self.entries[i])
        } else {
            None
        }
    }

    /// Adds an entry at the end.
    pub fn append(&mut self, entry: CorpusEntry)
        ensures
            final(self)@ == old(self)@.push(entry.deep_view()),
    {
        let ghost before = self.entries.deep_view();
        let ghost item = entry.deep_view();
        self.entries.push(entry);
        assert(self.entries.deep_view() =~= before.push(item));
    }
}

} // verus!
