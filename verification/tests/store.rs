use confuse::fault::{Fault, X86_64Fault};
use confuse::store::{digest, CorpusEntry, CorpusStore, SolutionStore};

const PAGE: Fault = Fault::X86_64(X86_64Fault::Page);
const TRIPLE: Fault = Fault::X86_64(X86_64Fault::Triple);

#[test]
fn digest_of_known_inputs() {
    assert_eq!(digest(&Vec::new()), 0xcbf29ce484222325);
    assert_eq!(digest(&b"a".to_vec()), 0xaf63dc4c8601ec8c);
    assert_eq!(digest(&b"foobar".to_vec()), 0x85944171f73967e8);
}

#[test]
fn digest_tells_inputs_apart() {
    assert_ne!(digest(&b"racecar".to_vec()), digest(&b"racecaR".to_vec()));
    assert_ne!(digest(&vec![0]), digest(&vec![0, 0]));
    assert_eq!(digest(&b"racecar".to_vec()), digest(&b"racecar".to_vec()));
}

#[test]
fn same_bytes_are_kept_once() {
    let mut store = SolutionStore::new();
    assert_eq!(store.len(), 0);
    assert!(store.record(b"racecar".to_vec(), PAGE));
    assert!(!store.record(b"racecar".to_vec(), PAGE));
    assert!(!store.record(b"racecar".to_vec(), TRIPLE));
    assert_eq!(store.len(), 1);
    let record = store.get(0).unwrap();
    assert_eq!(record.id(), 0);
    assert_eq!(record.input(), &b"racecar".to_vec());
    assert_eq!(record.fault(), PAGE);
    assert_eq!(record.digest(), digest(&b"racecar".to_vec()));
    assert!(store.get(1).is_none());
}

#[test]
fn records_are_numbered_in_the_order_of_discovery() {
    let mut store = SolutionStore::new();
    let inputs: [&[u8]; 4] = [b"one", b"two", b"", b"three"];
    for (i, input) in inputs.iter().enumerate() {
        assert!(store.record(input.to_vec(), if i % 2 == 0 { PAGE } else { TRIPLE }));
        assert!(!store.record(inputs[0].to_vec(), TRIPLE));
    }
    assert_eq!(store.len(), 4);
    for (i, input) in inputs.iter().enumerate() {
        let record = store.get(i).unwrap();
        assert_eq!(record.id(), i as u64);
        assert_eq!(record.input().as_slice(), *input);
        assert_eq!(record.fault(), if i % 2 == 0 { PAGE } else { TRIPLE });
        assert!(store.contains_digest(digest(&input.to_vec())));
    }
    assert!(!store.contains_digest(digest(&b"four".to_vec())));
}

#[test]
fn corpus_takes_every_entry() {
    let mut corpus = CorpusStore::new();
    assert_eq!(corpus.len(), 0);
    assert!(corpus.get(0).is_none());
    corpus.append(CorpusEntry { input: b"racecar".to_vec(), coverage: 7 });
    corpus.append(CorpusEntry { input: b"racecar".to_vec(), coverage: 7 });
    corpus.append(CorpusEntry { input: Vec::new(), coverage: 0 });
    assert_eq!(corpus.len(), 3);
    assert_eq!(corpus.get(1).unwrap().input, b"racecar".to_vec());
    assert_eq!(corpus.get(1).unwrap().coverage, 7);
    assert!(corpus.get(2).unwrap().input.is_empty());
    assert!(corpus.get(3).is_none());
}
