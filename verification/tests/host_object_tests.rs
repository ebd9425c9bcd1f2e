use webview2wrapper::cell::ValueCell;
use webview2wrapper::host_object::{FunctionWithStringArgument, HostObjectError};
use webview2wrapper::session::SessionTable;

#[test]
fn invoke_acknowledges_and_forwards() {
    let mut t = SessionTable::new();
    let h = t.open(true);
    t.complete_open(h);
    let obj = FunctionWithStringArgument::new(h);
    let args = vec![ValueCell::from_text(String::from("ping"))];
    let r = obj.invoke(&mut t, &args).unwrap();
    assert_eq!(
        r.text().unwrap(),
        "Successful sync call functionWithStringArgument, and the argument is \"ping\"."
    );
    // the decoded text went onto the session's queue
    assert_eq!(t.queued_messages(h), 1);
    assert!(t.pull(h));
    assert_eq!(t.pull_buffer(h).unwrap().as_slice(), &[112u16, 105, 110, 103, 0]);
}

#[test]
fn invoke_requires_exactly_one_argument() {
    let mut t = SessionTable::new();
    let h = t.open(true);
    t.complete_open(h);
    let obj = FunctionWithStringArgument::new(h);
    let none: Vec<ValueCell> = Vec::new();
    assert!(matches!(obj.invoke(&mut t, &none), Err(HostObjectError::MissingArgument)));
    let two = vec![
        ValueCell::from_text(String::from("a")),
        ValueCell::from_text(String::from("b")),
    ];
    assert!(matches!(obj.invoke(&mut t, &two), Err(HostObjectError::MissingArgument)));
    assert_eq!(t.queued_messages(h), 0);
}

#[test]
fn invoke_requires_a_text_argument() {
    let mut t = SessionTable::new();
    let h = t.open(true);
    t.complete_open(h);
    let obj = FunctionWithStringArgument::new(h);
    let args = vec![ValueCell::from_integer(3)];
    assert!(matches!(obj.invoke(&mut t, &args), Err(HostObjectError::ArgumentNotText)));
    assert_eq!(t.queued_messages(h), 0);
}

#[test]
fn invoke_against_a_destroyed_session_severs_the_channel() {
    let mut t = SessionTable::new();
    let h = t.open(true);
    t.complete_open(h);
    t.close(h);
    let obj = FunctionWithStringArgument::new(h);
    let args = vec![ValueCell::from_text(String::from("late"))];
    assert!(matches!(obj.invoke(&mut t, &args), Err(HostObjectError::ChannelSevered)));
}

#[test]
fn type_info_capability_reports_none() {
    let obj = FunctionWithStringArgument::new(1);
    assert_eq!(obj.get_type_info_count(), 0);
    assert_eq!(obj.get_type_info(), Err(HostObjectError::NoTypeInfo));
    assert_eq!(obj.get_ids_of_names(), Ok(()));
}
