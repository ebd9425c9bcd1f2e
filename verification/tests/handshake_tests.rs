use webview2wrapper::handshake::{
    check_loaded, ensure_bind, parse_probe_reply, BindStep, BindingHandshake, HandshakeError,
    ProbeReply,
};

#[test]
fn binds_after_three_retries() {
    // "not_loaded" exactly three times, then "loaded": the continuation
    // fires once, after exactly four registration attempts.
    let replies = vec![
        ProbeReply::NotLoaded,
        ProbeReply::NotLoaded,
        ProbeReply::NotLoaded,
        ProbeReply::Loaded,
    ];
    assert_eq!(ensure_bind(String::from("functioncall"), &replies), Some(4));
}

#[test]
fn binds_on_the_first_probe() {
    let replies = vec![ProbeReply::Loaded];
    assert_eq!(ensure_bind(String::from("chan"), &replies), Some(1));
}

#[test]
fn never_loaded_never_completes() {
    let replies = vec![ProbeReply::NotLoaded, ProbeReply::NotLoaded];
    assert_eq!(ensure_bind(String::from("chan"), &replies), None);
    assert_eq!(ensure_bind(String::from("chan"), &Vec::new()), None);
}

#[test]
fn probe_script_wraps_the_name_in_the_guard() {
    assert_eq!(
        check_loaded("chan"),
        "(function () { try { typeof window.chrome.webview.hostObjects.sync.chan; return 'loaded'; } catch (e) { return 'not_loaded'; } })()"
    );
}

#[test]
fn parse_recognizes_the_two_literals_only() {
    assert_eq!(parse_probe_reply(&String::from("\"loaded\"")), Some(ProbeReply::Loaded));
    assert_eq!(parse_probe_reply(&String::from("\"not_loaded\"")), Some(ProbeReply::NotLoaded));
    assert_eq!(parse_probe_reply(&String::from("loaded")), None);
    assert_eq!(parse_probe_reply(&String::from("")), None);
}

#[test]
fn unrecognized_reply_faults_and_changes_nothing() {
    let mut h = BindingHandshake::begin(String::from("chan"));
    assert_eq!(h.registration_count(), 1);
    assert_eq!(
        h.check_bind(&String::from("\"maybe\"")),
        Err(HandshakeError::UnrecognizedReply)
    );
    assert_eq!(h.registration_count(), 1);
    assert!(!h.bound());
    assert_eq!(h.check_bind(&String::from("\"not_loaded\"")), Ok(BindStep::Retry));
    assert_eq!(h.registration_count(), 2);
    assert!(!h.bound());
    assert_eq!(h.check_bind(&String::from("\"loaded\"")), Ok(BindStep::Bound));
    assert_eq!(h.registration_count(), 2);
    assert!(h.bound());
}

#[test]
fn probe_uses_the_handshake_name() {
    let h = BindingHandshake::begin(String::from("gadget"));
    assert_eq!(h.probe(), check_loaded("gadget"));
}
