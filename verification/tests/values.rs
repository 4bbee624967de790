use project_validate::identity::same_bytes;
use project_validate::{AgentKey, DhtHash, Header, HeaderKind, Reason, Record, Timestamp};

#[test]
fn same_bytes_compares_length_and_content() {
    assert!(same_bytes(&vec![], &vec![]));
    assert!(same_bytes(&vec![1, 2, 3], &vec![1, 2, 3]));
    assert!(!same_bytes(&vec![1, 2, 3], &vec![1, 2]));
    assert!(!same_bytes(&vec![1, 2], &vec![1, 2, 3]));
    assert!(!same_bytes(&vec![1, 2, 3], &vec![1, 2, 4]));
    assert!(!same_bytes(&vec![0, 2, 3], &vec![1, 2, 3]));
}

#[test]
fn keys_and_hashes_compare_by_their_bytes() {
    assert!(AgentKey::new(vec![1, 2]).same_as(&AgentKey::new(vec![1, 2])));
    assert!(!AgentKey::new(vec![1, 2]).same_as(&AgentKey::new(vec![2, 1])));
    assert!(DhtHash::new(vec![1, 2]).same_as(&DhtHash::new(vec![1, 2])));
    assert!(!DhtHash::new(vec![1, 2]).same_as(&DhtHash::new(vec![1])));
}

#[test]
fn duplicate_hash_has_the_same_bytes() {
    let hash = DhtHash::new(vec![9, 8, 7]);
    assert_eq!(hash.duplicate(), hash);
    assert_eq!(hash.duplicate().bytes, vec![9, 8, 7]);
}

#[test]
fn create_header_names_an_entry_and_no_original() {
    let stamp = Timestamp { secs: 1, nanos: 2 };
    let header = Header::create(AgentKey::new(vec![1]), stamp, DhtHash::new(vec![2]));
    assert_eq!(header.kind, HeaderKind::Create);
    assert_eq!(header.author(), &AgentKey::new(vec![1]));
    assert_eq!(header.timestamp, stamp);
    assert_eq!(header.entry_hash, Some(DhtHash::new(vec![2])));
    assert_eq!(header.original_header_hash, None);
    assert_eq!(header.original_entry_hash, None);
}

#[test]
fn update_header_names_an_entry_and_the_original() {
    let stamp = Timestamp { secs: 1, nanos: 2 };
    let header = Header::update(
        AgentKey::new(vec![1]),
        stamp,
        DhtHash::new(vec![2]),
        DhtHash::new(vec![3]),
        DhtHash::new(vec![4]),
    );
    assert_eq!(header.kind, HeaderKind::Update);
    assert_eq!(header.entry_hash, Some(DhtHash::new(vec![2])));
    assert_eq!(header.original_header_hash, Some(DhtHash::new(vec![3])));
    assert_eq!(header.original_entry_hash, Some(DhtHash::new(vec![4])));
}

#[test]
fn other_header_names_nothing() {
    let header = Header::other(AgentKey::new(vec![1]), Timestamp { secs: 0, nanos: 0 });
    assert_eq!(header.kind, HeaderKind::Other);
    assert_eq!(header.entry_hash, None);
    assert_eq!(header.original_header_hash, None);
    assert_eq!(header.original_entry_hash, None);
}

#[test]
fn record_hands_out_its_header() {
    let header = Header::other(AgentKey::new(vec![1]), Timestamp { secs: 0, nanos: 0 });
    let record = Record::new(header.clone(), None);
    assert_eq!(record.header(), &header);
    assert_eq!(record.entry, None);
}

#[test]
fn missing_entry_is_reported_in_the_words_of_the_helper() {
    assert_eq!(Reason::EntryMissing.message(), "Element missing its Entry");
    assert_eq!(Reason::EntryMissing.message(), hdk_crud::Error::EntryMissing.to_string());
}

#[test]
fn foreign_reason_is_reported_in_its_own_words() {
    assert_eq!(Reason::Foreign(String::from("invalid type")).message(), "invalid type");
    assert_eq!(Reason::Foreign(String::new()).message(), "");
}

#[test]
fn every_reason_of_a_rule_has_words_of_its_own() {
    let reasons = vec![
        Reason::CorruptCreateAuthorReference,
        Reason::CorruptEditAuthorReference,
        Reason::TamperCreateAuthorReference,
        Reason::UpdateOnNonAuthoredOriginal,
        Reason::NoneNotSomeDuringEdit,
        Reason::SomeNotNoneDuringCreate,
        Reason::EntryMissing,
    ];
    for (i, first) in reasons.iter().enumerate() {
        assert!(!first.message().is_empty());
        for second in reasons.iter().skip(i + 1) {
            assert_ne!(first.message(), second.message());
        }
    }
}

#[test]
fn rule_reasons_are_reported_in_fixed_words() {
    assert_eq!(
        Reason::UpdateOnNonAuthoredOriginal.message(),
        "the update revises a record whose original author is another agent"
    );
    assert_eq!(
        Reason::NoneNotSomeDuringEdit.message(),
        "a field that an update must supply is absent"
    );
}

#[test]
fn failure_text_read_as_a_reason_is_reported_unchanged() {
    for text in ["Element missing its Entry", "invalid type", ""] {
        assert_eq!(Reason::from_failure_text(String::from(text)).message(), text);
    }
}
