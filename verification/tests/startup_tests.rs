use webview2wrapper::startup::{
    define_cell, initialize_controller, initialize_controller_nobind, message_object_name,
    navigation_blocked, split_defines, EngineEnvironment, EngineTask, InitializeState,
    NavigationKind,
};

#[test]
fn defines_split_on_semicolons() {
    assert_eq!(
        split_defines("a;bb;c"),
        vec![String::from("a"), String::from("bb"), String::from("c")]
    );
    assert_eq!(split_defines("shellonly"), vec![String::from("shellonly")]);
}

#[test]
fn empty_fields_are_dropped() {
    assert_eq!(split_defines(""), Vec::<String>::new());
    assert_eq!(split_defines(";;"), Vec::<String>::new());
    assert_eq!(split_defines("x;;y;"), vec![String::from("x"), String::from("y")]);
    assert_eq!(split_defines(";lead"), vec![String::from("lead")]);
}

#[test]
fn open_plan_binds_defines_before_navigation() {
    let init = InitializeState {
        url_str: String::from("https://app.example/index.html"),
        host_name: Some(String::from("app.example")),
        folder_path: Some(String::from("C:\\site")),
        defines: vec![String::from("alpha"), String::from("beta")],
    };
    let plan = initialize_controller(init);
    assert_eq!(plan.len(), 5);
    // defines are taken from the back of the list, so in reverse order,
    // and all of them precede the navigation
    assert!(matches!(&plan[0], EngineTask::BindDefine(n) if n == "beta"));
    assert!(matches!(&plan[1], EngineTask::BindDefine(n) if n == "alpha"));
    assert!(matches!(&plan[2], EngineTask::BindMessageObject));
    assert!(
        matches!(&plan[3], EngineTask::MapHostFolder(h, f) if h == "app.example" && f == "C:\\site")
    );
    assert!(matches!(&plan[4], EngineTask::Navigate(u) if u == "https://app.example/index.html"));
}

#[test]
fn open_plan_without_a_mapping_or_defines() {
    let init = InitializeState {
        url_str: String::from("about:blank"),
        host_name: Some(String::from("app.example")),
        folder_path: None,
        defines: Vec::new(),
    };
    let plan = initialize_controller(init);
    assert_eq!(plan.len(), 2);
    assert!(matches!(&plan[0], EngineTask::BindMessageObject));
    assert!(matches!(&plan[1], EngineTask::Navigate(u) if u == "about:blank"));
}

#[test]
fn nobind_plan_skips_the_message_object() {
    let init = InitializeState {
        url_str: String::from("https://shell.example/index.html"),
        host_name: None,
        folder_path: None,
        defines: vec![String::from("shellonly")],
    };
    let plan = initialize_controller_nobind(init);
    assert_eq!(plan.len(), 2);
    assert!(matches!(&plan[0], EngineTask::BindDefine(n) if n == "shellonly"));
    assert!(matches!(&plan[1], EngineTask::Navigate(u) if u == "https://shell.example/index.html"));
}

#[test]
fn define_cell_is_a_zero_integer() {
    let c = define_cell();
    assert_eq!(c.integer(), Some(0));
}

#[test]
fn message_object_has_its_well_known_name() {
    assert_eq!(message_object_name(), "functioncall");
}

#[test]
fn init_env_applies_only_before_the_engine_starts() {
    let mut env = EngineEnvironment::new();
    assert!(!env.has_started());
    assert!(env.arguments().is_none());
    assert!(env.init_env());
    assert_eq!(
        env.arguments().unwrap(),
        "--autoplay-policy=no-user-gesture-required --unlimited-storage"
    );
    env.mark_started();
    assert!(env.has_started());
    assert!(!env.init_env());
    assert_eq!(
        env.arguments().unwrap(),
        "--autoplay-policy=no-user-gesture-required --unlimited-storage"
    );
}

#[test]
fn navigation_policy_blocks_history_and_reload() {
    assert!(navigation_blocked(NavigationKind::BackOrForward));
    assert!(navigation_blocked(NavigationKind::Reload));
    assert!(!navigation_blocked(NavigationKind::NewDocument));
}

#[test]
fn open_request_decodes_all_fields() {
    let url: Vec<u16> = "https://x.example/".encode_utf16().collect();
    let host: Vec<u16> = "x.example".encode_utf16().collect();
    let defines: Vec<u16> = "a;b".encode_utf16().collect();
    let init =
        webview2wrapper::startup::decode_open_request(&url, Some(&host), None, Some(&defines))
            .unwrap();
    assert_eq!(init.url_str, "https://x.example/");
    assert_eq!(init.host_name.as_deref(), Some("x.example"));
    assert!(init.folder_path.is_none());
    assert_eq!(init.defines, vec![String::from("a"), String::from("b")]);
}

#[test]
fn open_request_requires_a_url() {
    let empty: Vec<u16> = Vec::new();
    assert!(webview2wrapper::startup::decode_open_request(&empty, None, None, None).is_none());
    let lone_surrogate = vec![0xD800u16];
    assert!(
        webview2wrapper::startup::decode_open_request(&lone_surrogate, None, None, None).is_none()
    );
}

#[test]
fn open_request_tolerates_malformed_optional_fields() {
    let url = vec![97u16];
    let bad = vec![0xDC00u16];
    let empty: Vec<u16> = Vec::new();
    let init =
        webview2wrapper::startup::decode_open_request(&url, Some(&bad), Some(&empty), Some(&bad))
            .unwrap();
    assert_eq!(init.url_str, "a");
    assert!(init.host_name.is_none());
    assert!(init.folder_path.is_none());
    assert!(init.defines.is_empty());
}
