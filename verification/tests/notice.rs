use address_store::submission_notice;
use address_store::AddressStore;

#[test]
fn notice_names_the_submitted_address() {
    assert_eq!(submission_notice("192.168.1.5"), "New IP Submitted: 192.168.1.5");
}

#[test]
fn notice_of_the_empty_text_is_the_heading_alone() {
    assert_eq!(submission_notice(""), "New IP Submitted: ");
    assert_eq!(submission_notice("").len(), 18);
}

#[test]
fn notice_keeps_the_text_as_it_came() {
    assert_eq!(submission_notice("  a\tb\n"), "New IP Submitted:   a\tb\n");
    assert_eq!(
        submission_notice("caf\u{e9} \u{1f980}"),
        "New IP Submitted: caf\u{e9} \u{1f980}"
    );
}

#[test]
fn notice_does_not_touch_the_store() {
    let mut store = AddressStore::new();
    store.submit_ip(String::from("10.0.0.1"));
    let line = submission_notice("10.0.0.2");
    assert_eq!(line, "New IP Submitted: 10.0.0.2");
    assert_eq!(store.fetch_server_ip(), "10.0.0.1");
}
