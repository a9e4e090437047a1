use jupyter_api_nvim::session::Connection;
use runtimelib::ConnectionInfo;

fn info() -> ConnectionInfo {
    serde_json::from_str(
        r#"{"ip":"127.0.0.1","transport":"tcp","shell_port":1,"iopub_port":2,"stdin_port":3,"control_port":4,"hb_port":5,"key":"k","signature_scheme":"hmac-sha256","kernel_name":"python3"}"#,
    )
    .unwrap()
}

#[test]
fn open_generates_a_fresh_session_id() {
    let a = Connection::open(info(), 7, 9);
    let b = Connection::open(info(), 7, 9);
    assert_eq!(a.session_id().len(), 36);
    assert!(!a.session_id().is_empty());
    assert_ne!(a.session_id(), b.session_id());
    assert_eq!(a.session_id().matches('-').count(), 4);
}

#[test]
fn open_keeps_pipes_and_parameters() {
    let c = Connection::open(info(), 11, 12);
    assert_eq!(c.read_pipe_fd(), 11);
    assert_eq!(c.write_pipe_fd(), 12);
    assert_eq!(c.connection_info().ip, "127.0.0.1");
    assert_eq!(c.connection_info().shell_port, 1);
}

#[test]
fn session_id_is_hyphenated_v4_text() {
    let c = Connection::open(info(), 1, 2);
    let id: Vec<char> = c.session_id().chars().collect();
    assert_eq!(id.len(), 36);
    for (i, ch) in id.iter().enumerate() {
        if [8, 13, 18, 23].contains(&i) {
            assert_eq!(*ch, '-');
        } else {
            assert!(ch.is_ascii_digit() || ('a'..='f').contains(ch));
        }
    }
    assert_eq!(id[14], '4');
    assert!(['8', '9', 'a', 'b'].contains(&id[19]));
}
