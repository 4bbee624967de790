use project_validate::{
    must_get_header_and_entry, AgentKey, DhtHash, Entry, Error, Fetched, Header, Step, Timestamp,
};

fn author() -> AgentKey {
    AgentKey::new(vec![3; 39])
}

fn stamp() -> Timestamp {
    Timestamp { secs: 5, nanos: 0 }
}

#[test]
fn resolution_starts_with_the_header() {
    let hash = DhtHash::new(vec![1, 2, 3]);
    assert_eq!(
        must_get_header_and_entry::<u32>(Fetched::Nothing(hash.clone())),
        Step::FetchHeader(hash)
    );
}

#[test]
fn create_header_asks_for_its_entry() {
    let entry_hash = DhtHash::new(vec![4; 39]);
    let header = Header::create(author(), stamp(), entry_hash.clone());
    assert_eq!(
        must_get_header_and_entry::<u32>(Fetched::Header(header)),
        Step::FetchEntry(entry_hash)
    );
}

#[test]
fn update_header_asks_for_its_entry() {
    let entry_hash = DhtHash::new(vec![4; 39]);
    let header = Header::update(
        author(),
        stamp(),
        entry_hash.clone(),
        DhtHash::new(vec![5; 39]),
        DhtHash::new(vec![6; 39]),
    );
    assert_eq!(
        must_get_header_and_entry::<u32>(Fetched::Header(header)),
        Step::FetchEntry(entry_hash)
    );
}

#[test]
fn header_without_entry_is_refused() {
    let header = Header::other(author(), stamp());
    assert_eq!(
        must_get_header_and_entry::<u32>(Fetched::Header(header)),
        Step::Done(Err(Error::NotACreateOrUpdateHeader))
    );
}

#[test]
fn application_entry_is_handed_out_for_decoding() {
    assert_eq!(
        must_get_header_and_entry::<u32>(Fetched::Entry(Entry::App(vec![0xc0, 0xff]))),
        Step::Decode(vec![0xc0, 0xff])
    );
}

#[test]
fn empty_application_entry_is_handed_out_for_decoding() {
    assert_eq!(
        must_get_header_and_entry::<u32>(Fetched::Entry(Entry::App(vec![]))),
        Step::Decode(vec![])
    );
}

#[test]
fn agent_entry_is_an_unexpected_variant() {
    assert_eq!(
        must_get_header_and_entry::<u32>(Fetched::Entry(Entry::Agent(author()))),
        Step::Done(Err(Error::UnexpectedEntryVariant))
    );
}

#[test]
fn countersigned_entry_is_an_unexpected_variant() {
    assert_eq!(
        must_get_header_and_entry::<u32>(Fetched::Entry(Entry::CounterSign)),
        Step::Done(Err(Error::UnexpectedEntryVariant))
    );
}

#[test]
fn capability_entries_are_unexpected_variants() {
    assert_eq!(
        must_get_header_and_entry::<u32>(Fetched::Entry(Entry::CapClaim)),
        Step::Done(Err(Error::UnexpectedEntryVariant))
    );
    assert_eq!(
        must_get_header_and_entry::<u32>(Fetched::Entry(Entry::CapGrant)),
        Step::Done(Err(Error::UnexpectedEntryVariant))
    );
}

#[test]
fn decoded_value_ends_the_resolution() {
    assert_eq!(must_get_header_and_entry(Fetched::Payload(Ok(42u32))), Step::Done(Ok(42u32)));
}

#[test]
fn decoding_failure_is_reported_with_its_details() {
    assert_eq!(
        must_get_header_and_entry::<u32>(Fetched::Payload(Err(String::from("invalid type")))),
        Step::Done(Err(Error::DeserializationFailed(String::from("invalid type"))))
    );
}

#[test]
fn full_run_from_hash_to_value() {
    let header_hash = DhtHash::new(vec![1; 39]);
    let entry_hash = DhtHash::new(vec![2; 39]);
    let header = Header::create(author(), stamp(), entry_hash.clone());
    let entry = Entry::App(vec![7]);

    let mut fetched: Fetched<u8> = Fetched::Nothing(header_hash.clone());
    let mut trace = Vec::new();
    let outcome = loop {
        match must_get_header_and_entry(fetched) {
            Step::FetchHeader(hash) => {
                assert_eq!(hash, header_hash);
                trace.push("header");
                fetched = Fetched::Header(header.clone());
            }
            Step::FetchEntry(hash) => {
                assert_eq!(hash, entry_hash);
                trace.push("entry");
                fetched = Fetched::Entry(entry.clone());
            }
            Step::Decode(bytes) => {
                trace.push("decode");
                fetched = Fetched::Payload(Ok(bytes[0]));
            }
            Step::Done(outcome) => break outcome,
        }
    };
    assert_eq!(outcome, Ok(7));
    assert_eq!(trace, vec!["header", "entry", "decode"]);
}

#[test]
fn steps_give_the_same_answer_when_run_again() {
    let header = Header::other(author(), stamp());
    assert_eq!(
        must_get_header_and_entry::<u32>(Fetched::Header(header.clone())),
        must_get_header_and_entry::<u32>(Fetched::Header(header))
    );
}

#[test]
fn faults_are_reported_in_fixed_words() {
    assert_eq!(
        Error::NotACreateOrUpdateHeader.message(),
        "within resolve_header_to_entry a header that was not a Create variant was attempted"
    );
    assert_eq!(
        Error::UnexpectedEntryVariant.message(),
        "entry within resolve_header_to_entry must be an Entry::App variant"
    );
}

#[test]
fn decoding_fault_is_reported_in_the_words_of_the_decoder() {
    let fault = Error::DeserializationFailed(String::from("Deserialize(\"invalid type\")"));
    assert_eq!(fault.message(), "Deserialize(\"invalid type\")");
}
