use code_termination::updater::{
    contains_bytes, find_bytes, is_hacker_signal, latest_commit, short_commit, update_offered,
    update_signal, wants_update,
};

#[test]
fn find_first_occurrence() {
    assert_eq!(find_bytes(b"abcabc", b"bc", 0), Some(1));
    assert_eq!(find_bytes(b"abcabc", b"bc", 2), Some(4));
    assert_eq!(find_bytes(b"abc", b"x", 0), None);
    assert_eq!(find_bytes(b"abc", b"", 0), Some(0));
    assert_eq!(find_bytes(b"ab", b"abc", 0), None);
}

#[test]
fn contains() {
    assert!(contains_bytes(b"xx IDN:226531 yy", b"IDN:226531"));
    assert!(!contains_bytes(b"IDN:22653", b"IDN:226531"));
}

#[test]
fn commit_from_answer() {
    let answer = br#"{"sha": "0123456789abcdef", "node_id": "x"}"#;
    assert_eq!(latest_commit(answer), Some(b"0123456789abcdef".to_vec()));
    let answer = br#"[{"sha":"abc"}]"#;
    assert_eq!(latest_commit(answer), Some(b"abc".to_vec()));
}

#[test]
fn commit_missing_pieces() {
    assert_eq!(latest_commit(b"no key here"), None);
    assert_eq!(latest_commit(br#""sha": 5"#), None);
    assert_eq!(latest_commit(br#""sha": "unterminated"#), None);
    assert_eq!(latest_commit(br#""sha":"""#), Some(vec![]));
}

#[test]
fn short_hash() {
    assert_eq!(short_commit(b"0123456789"), b"0123456".to_vec());
    assert_eq!(short_commit(b"abc"), b"abc".to_vec());
    assert_eq!(short_commit(b"abcdefg"), b"abcdefg".to_vec());
}

#[test]
fn offer_rules() {
    assert!(update_offered(b"abc1234", b"def5678"));
    assert!(!update_offered(b"abc1234", b"abc1234"));
    assert!(!update_offered(b"abc1234", b"unknown"));
    assert!(!update_offered(b"", b"def5678"));
}

#[test]
fn signals() {
    assert_eq!(update_signal("DLC"), ("dlc_signal.txt", "DLC"));
    assert_eq!(update_signal("main"), ("update_signal.txt", "IDN:226531"));
    assert_eq!(update_signal("dlc"), ("update_signal.txt", "IDN:226531"));
}

#[test]
fn answers() {
    assert!(wants_update("y\n"));
    assert!(wants_update("  YeS "));
    assert!(wants_update("Y"));
    assert!(!wants_update("n"));
    assert!(!wants_update(""));
    assert!(!wants_update("yess"));
    assert!(!wants_update("y e s"));
}

#[test]
fn hacker_signal() {
    assert!(is_hacker_signal("HACKER-MODE-DLC"));
    assert!(is_hacker_signal("\tHACKER-MODE-DLC\r\n"));
    assert!(!is_hacker_signal("hacker-mode-dlc"));
    assert!(!is_hacker_signal("HACKER-MODE-DLC!"));
}
