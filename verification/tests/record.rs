use dnspod_ddns::record::{resync, Entry, Record, RecordState, ResyncError};

#[test]
fn classify_takes_address_records_only() {
    let a = Record::classify("A", "42".to_string(), "1.2.3.4".to_string());
    assert_eq!(a, Record::A("42".to_string(), "1.2.3.4".to_string()));
    for other in ["AAAA", "CNAME", "MX", "TXT", "a", "", " A", "A "] {
        let r = Record::classify(other, "42".to_string(), "1.2.3.4".to_string());
        assert_eq!(r, Record::NotFound);
    }
}

#[test]
fn into_state_gives_identifier_and_value() {
    let state = Record::A("42".to_string(), "1.2.3.4".to_string()).into_state();
    let expected = RecordState {
        record_id: "42".to_string(),
        record_value: "1.2.3.4".to_string(),
    };
    assert_eq!(state, Some(expected));
    assert_eq!(Record::NotFound.into_state(), None);
}

#[test]
fn resync_adopts_an_address_record() {
    let r = resync(Some(Record::A("42".to_string(), "1.2.3.4".to_string())));
    let expected = RecordState {
        record_id: "42".to_string(),
        record_value: "1.2.3.4".to_string(),
    };
    assert_eq!(r, Ok(expected));
}

#[test]
fn resync_tells_missing_from_failed() {
    assert_eq!(resync(Some(Record::NotFound)), Err(ResyncError::NotFound));
    assert_eq!(resync(None), Err(ResyncError::LookupFailed));
}

fn entry(name: &str, record_type: &str, id: &str, value: &str) -> Entry {
    Entry {
        name: name.to_string(),
        record_type: record_type.to_string(),
        id: id.to_string(),
        value: value.to_string(),
    }
}

#[test]
fn listing_gives_the_first_address_record_of_the_host() {
    let entries = vec![
        entry("www", "A", "1", "1.1.1.1"),
        entry("home", "CNAME", "2", "example.org."),
        entry("home", "AAAA", "3", "::1"),
        entry("home", "A", "4", "4.4.4.4"),
        entry("home", "A", "5", "5.5.5.5"),
    ];
    assert_eq!(
        Record::from_listing(&entries, "home"),
        Record::A("4".to_string(), "4.4.4.4".to_string())
    );
    assert_eq!(
        Record::from_listing(&entries, "www"),
        Record::A("1".to_string(), "1.1.1.1".to_string())
    );
}

#[test]
fn listing_without_a_match_gives_not_found() {
    let entries = vec![
        entry("www", "A", "1", "1.1.1.1"),
        entry("home", "CNAME", "2", "example.org."),
    ];
    assert_eq!(Record::from_listing(&entries, "home"), Record::NotFound);
    assert_eq!(Record::from_listing(&entries, "ww"), Record::NotFound);
    assert_eq!(Record::from_listing(&entries, "mail"), Record::NotFound);
    assert_eq!(Record::from_listing(&Vec::new(), "home"), Record::NotFound);
}
