use lndk::collect_tls_ips;
use lndk::tls::{plan_tls_creds, split_text, TLS_KEY_FILE_MODE};

#[test]
fn test_collect_tls_ips() {
    // Test that it returns a vector of one element if only one ip is provided.
    let tls_ips_str = Some("192.168.0.1".to_string());
    let tls_ips = collect_tls_ips(tls_ips_str);
    assert!(tls_ips.is_some());
    assert!(tls_ips.as_ref().unwrap().len() == 1);

    // If no ip is provided, collect_tls_ips should return None.
    assert!(collect_tls_ips(None).is_none());

    // If two ips are provided, a vector of length two should be returned.
    let tls_ips_str = Some("192.168.0.1,192.168.0.3".to_string());
    let tls_ips = collect_tls_ips(tls_ips_str);
    assert!(tls_ips.is_some());
    assert!(tls_ips.as_ref().unwrap().len() == 2);
}

#[test]
fn collect_tls_ips_keeps_order_and_text() {
    let ips = collect_tls_ips(Some("10.0.0.2,10.0.0.1,::1".to_string())).unwrap();
    assert_eq!(ips, vec!["10.0.0.2".to_string(), "10.0.0.1".to_string(), "::1".to_string()]);
}

#[test]
fn collect_tls_ips_empty_entries() {
    assert!(collect_tls_ips(Some(String::new())).is_none());
    assert_eq!(
        collect_tls_ips(Some(",a,".to_string())).unwrap(),
        vec![String::new(), "a".to_string(), String::new()]
    );
}

#[test]
fn split_text_counts_separators() {
    let parts = split_text("a;b;;c", ';');
    assert_eq!(parts.len(), 4);
    assert_eq!(parts[2], "");
    assert_eq!(parts[3], "c");
}

#[test]
fn plan_tls_creds_when_files_exist() {
    assert!(plan_tls_creds(true, true, Some("1.2.3.4".to_string())).is_none());
}

#[test]
fn plan_tls_creds_when_a_file_is_missing() {
    let names = plan_tls_creds(true, false, Some("1.2.3.4,5.6.7.8".to_string())).unwrap();
    assert_eq!(names, vec!["localhost".to_string(), "1.2.3.4".to_string(), "5.6.7.8".to_string()]);
    let names = plan_tls_creds(false, true, None).unwrap();
    assert_eq!(names, vec!["localhost".to_string()]);
    let names = plan_tls_creds(false, false, Some(String::new())).unwrap();
    assert_eq!(names, vec!["localhost".to_string()]);
    assert!(plan_tls_creds(false, false, None).is_some());
}

#[test]
fn plan_tls_creds_second_start_issues_nothing() {
    let first = plan_tls_creds(false, false, Some("1.2.3.4".to_string()));
    assert!(first.is_some());
    let second = plan_tls_creds(true, true, Some("1.2.3.4".to_string()));
    assert!(second.is_none());
}

#[test]
fn key_file_mode_is_owner_read_write() {
    assert_eq!(TLS_KEY_FILE_MODE, 0o600);
}

#[test]
fn collect_tls_ips_rejoins_to_its_input() {
    for text in ["1.1.1.1", "a,,b", ",", "fe80::1,10.0.0.1,"] {
        let parts = collect_tls_ips(Some(text.to_string())).unwrap();
        assert_eq!(parts.len(), text.matches(',').count() + 1);
        assert_eq!(parts.join(","), text);
    }
}
