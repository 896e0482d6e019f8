use noorsigner_link::paths::{
    get_noornote_base_path, get_noorsigner_data_path, get_noorsigner_path, get_socket_path, join_path,
    sidecar_candidates, sidecar_file_name, trust_session_path, Platform, PIPE_NAME,
};

#[test]
fn joining_adds_a_separator_only_when_needed() {
    assert_eq!(join_path(Platform::Linux, "/home/u", "x"), "/home/u/x");
    assert_eq!(join_path(Platform::Linux, "/home/u/", "x"), "/home/u/x");
    assert_eq!(join_path(Platform::Linux, "", "x"), "x");
    assert_eq!(join_path(Platform::Windows, "C:\\Users\\u", "x"), "C:\\Users\\u\\x");
    assert_eq!(join_path(Platform::Windows, "C:\\Users\\u\\", "x"), "C:\\Users\\u\\x");
    assert_eq!(join_path(Platform::Windows, "C:/Users/u/", "x"), "C:/Users/u/x");
    assert_eq!(join_path(Platform::MacOs, "/Users/u", "a\\b"), "/Users/u/a\\b");
}

#[test]
fn unix_paths_hang_off_home() {
    assert_eq!(get_noornote_base_path(Platform::Linux, "/home/u"), "/home/u/.noornote");
    assert_eq!(get_noorsigner_path(Platform::Linux, "/home/u"), "/home/u/.noornote/bin/noorsigner");
    assert_eq!(get_noorsigner_path(Platform::MacOs, "/Users/u/"), "/Users/u/.noornote/bin/noorsigner");
    assert_eq!(get_socket_path(Platform::Linux, "/home/u"), "/home/u/.noorsigner/noorsigner.sock");
    assert_eq!(get_noorsigner_data_path(Platform::Linux, "/home/u", "ignored"), "/home/u/.noorsigner");
    assert_eq!(trust_session_path(Platform::MacOs, "/Users/u", ""), "/Users/u/.noorsigner/trust_session");
}

#[test]
fn windows_paths() {
    assert_eq!(get_noorsigner_path(Platform::Windows, "C:\\Users\\u"), "C:\\Users\\u\\.noornote\\bin\\noorsigner.exe");
    assert_eq!(get_socket_path(Platform::Windows, "C:\\Users\\u"), r"\\.\pipe\noorsigner");
    assert_eq!(PIPE_NAME, r"\\.\pipe\noorsigner");
    assert_eq!(
        trust_session_path(Platform::Windows, "C:\\Users\\u", "C:\\Users\\u\\AppData\\Roaming"),
        "C:\\Users\\u\\AppData\\Roaming\\NoorSigner\\trust_session"
    );
}

#[test]
fn sidecar_is_searched_in_four_places() {
    let name = sidecar_file_name(Platform::Linux, "x86_64-unknown-linux-gnu");
    assert_eq!(name, "noorsigner-x86_64-unknown-linux-gnu");
    assert_eq!(
        sidecar_candidates(Platform::Linux, "/opt/noornote", &name),
        vec![
            "/opt/noornote/noorsigner-x86_64-unknown-linux-gnu",
            "/usr/lib/noornote/noorsigner-x86_64-unknown-linux-gnu",
            "/opt/noornote/../Resources/noorsigner-x86_64-unknown-linux-gnu",
            "/opt/noornote/../../binaries/noorsigner-x86_64-unknown-linux-gnu",
        ]
    );
    assert_eq!(sidecar_file_name(Platform::Windows, "x86_64-pc-windows-msvc"), "noorsigner-x86_64-pc-windows-msvc.exe");
}
