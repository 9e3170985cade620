use mdo_cdr::signatures::{is_location_allowed, SignatureEngine};
use mdo_cdr::{SignatureLocation, SignatureRule};

#[test]
fn finds_matching_rule() {
    let engine = SignatureEngine::from_rules(vec![SignatureRule::anywhere("x", b"ABC".to_vec())]);
    let hits = engine.scan(b"zzABCzz");
    assert_eq!(hits.len(), 1);
    assert_eq!(hits[0].rule_name, "x");
}

#[test]
fn empty_rules_returns_no_hits() {
    let engine = SignatureEngine::from_rules(Vec::new());
    let hits = engine.scan(b"anything");
    assert!(hits.is_empty());
}

#[test]
fn first_bytes_matches_within_window() {
    let engine = SignatureEngine::from_rules(vec![SignatureRule::first_bytes("magic", b"MZ".to_vec(), 4)]);
    assert_eq!(engine.scan(b"MZfoo").len(), 1);
}

#[test]
fn first_bytes_rejects_outside_window() {
    let engine = SignatureEngine::from_rules(vec![SignatureRule::first_bytes("magic", b"MZ".to_vec(), 4)]);
    assert!(engine.scan(b"........MZfoo").is_empty());
}

#[test]
fn last_bytes_matches_tail() {
    let engine = SignatureEngine::from_rules(vec![SignatureRule::last_bytes("eof", b"%%EOF".to_vec(), 8)]);
    let mut buf = vec![0u8; 100];
    buf.extend_from_slice(b"%%EOF");
    assert_eq!(engine.scan(&buf).len(), 1);
}

#[test]
fn last_bytes_rejects_head() {
    let engine = SignatureEngine::from_rules(vec![SignatureRule::last_bytes("eof", b"%%EOF".to_vec(), 8)]);
    let mut buf = b"%%EOF".to_vec();
    buf.extend_from_slice(&vec![0u8; 1000]);
    assert!(engine.scan(&buf).is_empty());
}

#[test]
fn each_rule_reports_at_most_once() {
    let engine = SignatureEngine::from_rules(vec![SignatureRule::anywhere("x", b"AB".to_vec())]);
    let hits = engine.scan(b"ABABABAB");
    assert_eq!(hits.len(), 1);
}

#[test]
fn baseline_catches_eicar() {
    let engine = SignatureEngine::with_baseline(Vec::new());
    let payload = b"X5O!P%@AP[4\\PZX54(P^)7CC)7}$EICAR-STANDARD-ANTIVIRUS-TEST-FILE!$H+H*";
    let hits = engine.scan(payload);
    let names: Vec<_> = hits.iter().map(|value| value.rule_name.as_str()).collect();
    assert!(names.contains(&"eicar_test_string"));
}

#[test]
fn baseline_catches_pe_but_only_at_start() {
    let engine = SignatureEngine::with_baseline(Vec::new());
    assert!(engine.scan(b"MZ\x90\x00").iter().any(|value| value.rule_name == "pe_dos_header"));
    let mut buf = vec![0u8; 100];
    buf.extend_from_slice(b"MZstuff");
    assert!(!engine.scan(&buf).iter().any(|value| value.rule_name == "pe_dos_header"));
}

#[test]
fn hits_name_each_matching_rule_and_skip_misplaced_matches() {
    let engine = SignatureEngine::from_rules(vec![
        SignatureRule::anywhere("second", b"CD".to_vec()),
        SignatureRule::first_bytes("head", b"AB".to_vec(), 2),
        SignatureRule::last_bytes("tail", b"AB".to_vec(), 2),
    ]);
    let hits = engine.scan(b"ABxxCD");
    let mut names: Vec<_> = hits.iter().map(|value| value.rule_name.as_str()).collect();
    names.sort();
    assert_eq!(names, vec!["head", "second"]);
}

#[test]
fn location_windows_are_exclusive_bounds() {
    assert!(is_location_allowed(&SignatureLocation::FirstBytes(4), 3, 10, 2));
    assert!(!is_location_allowed(&SignatureLocation::FirstBytes(4), 4, 10, 2));
    // A last-bytes window of 5 over 10 bytes starts at offset 5; a match
    // counts when it begins inside the window.
    assert!(is_location_allowed(&SignatureLocation::LastBytes(5), 5, 10, 2));
    assert!(!is_location_allowed(&SignatureLocation::LastBytes(5), 4, 10, 2));
    assert!(!is_location_allowed(&SignatureLocation::LastBytes(3), 0, 4, 2));
    assert!(is_location_allowed(&SignatureLocation::LastBytes(30), 0, 4, 2));
    assert!(is_location_allowed(&SignatureLocation::Anywhere, 9, 10, 1));
}
