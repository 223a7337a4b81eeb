use my_rust_agent::shape::PatternShape;
use my_rust_agent::store::{MemoryStore, SetSummary};
use my_rust_agent::validate::{check_upload, RetrieveError, MAX_DIM, MAX_PATTERNS};

fn shape(num_patterns: usize, dimension: usize) -> PatternShape {
    PatternShape { num_patterns, dimension }
}

fn is_uuid_v4_text(s: &str) -> bool {
    let chars: Vec<char> = s.chars().collect();
    if chars.len() != 36 {
        return false;
    }
    for (i, c) in chars.iter().enumerate() {
        let ok = if i == 8 || i == 13 || i == 18 || i == 23 {
            *c == '-'
        } else {
            c.is_ascii_digit() || ('a'..='f').contains(c)
        };
        if !ok {
            return false;
        }
    }
    chars[14] == '4' && matches!(chars[19], '8' | '9' | 'a' | 'b')
}

#[test]
fn new_store_is_empty() {
    let store: MemoryStore<u32> = MemoryStore::new();
    assert!(store.get(&"abc".to_string()).is_none());
    assert!(store.summaries().is_empty());
}

#[test]
fn lookup_gives_back_what_was_inserted() {
    let mut store = MemoryStore::new();
    store.insert("a".to_string(), shape(2, 3), 10u32);
    store.insert("b".to_string(), shape(1, 3), 20u32);
    assert_eq!(store.get(&"a".to_string()), Some((shape(2, 3), &10)));
    assert_eq!(store.get(&"b".to_string()), Some((shape(1, 3), &20)));
    assert_eq!(store.get(&"c".to_string()), None);
}

#[test]
fn insert_under_existing_id_replaces() {
    let mut store = MemoryStore::new();
    store.insert("a".to_string(), shape(2, 3), 10u32);
    store.insert("a".to_string(), shape(4, 3), 11u32);
    assert_eq!(store.get(&"a".to_string()), Some((shape(4, 3), &11)));
    assert_eq!(store.summaries().len(), 1);
}

#[test]
fn register_draws_a_random_uuid() {
    let mut store = MemoryStore::new();
    let id = store.register(shape(1, 2), vec![1.0f64, 2.0]).expect("random source available");
    assert!(is_uuid_v4_text(&id), "{}", id);
    let other = store.register(shape(1, 2), vec![3.0f64, 4.0]).expect("random source available");
    assert!(is_uuid_v4_text(&other));
    assert_ne!(id, other);
    assert_eq!(store.get(&id), Some((shape(1, 2), &vec![1.0, 2.0])));
    assert_eq!(store.get(&other), Some((shape(1, 2), &vec![3.0, 4.0])));
}

#[test]
fn summaries_list_every_set_once() {
    let mut store = MemoryStore::new();
    store.insert("x".to_string(), shape(3, 8), ());
    store.insert("y".to_string(), shape(5, 8), ());
    store.insert("x".to_string(), shape(6, 8), ());
    let mut listed = store.summaries();
    listed.sort_by(|a, b| a.id.cmp(&b.id));
    assert_eq!(
        listed,
        vec![
            SetSummary { id: "x".to_string(), shape: shape(6, 8) },
            SetSummary { id: "y".to_string(), shape: shape(5, 8) },
        ]
    );
}

#[test]
fn retrieval_after_upload_succeeds() {
    let mut store = MemoryStore::new();
    let id = store.register(shape(2, 4), "payload").unwrap();
    assert_eq!(store.prepare_retrieval(&id, 4, true, false), Ok(&"payload"));
}

#[test]
fn retrieval_of_unknown_set_is_not_found() {
    let mut store = MemoryStore::new();
    store.register(shape(2, 4), 1u8).unwrap();
    assert_eq!(
        store.prepare_retrieval(&"no-such-set".to_string(), 4, true, false),
        Err(RetrieveError::SetNotFound)
    );
}

#[test]
fn retrieval_with_wrong_dimension_is_refused() {
    let mut store = MemoryStore::new();
    let id = store.register(shape(2, 4), 1u8).unwrap();
    assert_eq!(
        store.prepare_retrieval(&id, 3, true, false),
        Err(RetrieveError::DimensionMismatch { query_dim: 3, pattern_dim: 4 })
    );
}

#[test]
fn retrieval_checks_query_then_temperature_then_set() {
    let store: MemoryStore<u8> = MemoryStore::new();
    let missing = "missing".to_string();
    assert_eq!(store.prepare_retrieval(&missing, 4, false, true), Err(RetrieveError::NonFiniteQuery));
    assert_eq!(
        store.prepare_retrieval(&missing, 4, true, true),
        Err(RetrieveError::NegativeTemperature)
    );
    assert_eq!(store.prepare_retrieval(&missing, 4, true, false), Err(RetrieveError::SetNotFound));
}

#[test]
fn stored_uploads_stay_within_limits() {
    let mut store = MemoryStore::new();
    for lens in [vec![8usize; 3], vec![8usize; MAX_PATTERNS], vec![8usize; MAX_PATTERNS + 1], vec![8, 7]] {
        if let Ok(accepted) = check_upload(&lens, 8, true) {
            store.register(accepted, ()).unwrap();
        }
    }
    let listed = store.summaries();
    assert_eq!(listed.len(), 2);
    for s in listed {
        assert!(1 <= s.shape.num_patterns && s.shape.num_patterns <= MAX_PATTERNS);
        assert!(s.shape.dimension == 8 && 8 <= MAX_DIM);
    }
}
