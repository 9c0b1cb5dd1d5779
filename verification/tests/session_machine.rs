use serial_monitor::session::{
    list_ports, send_outcome, ConnectPlan, RecordPlan, SessionError, SessionManager, TaskKind,
};

#[test]
fn connect_then_disconnect_returns_to_start() {
    let mut s = SessionManager::new();
    s.configure(String::from("COM3"), 9600).expect("closed session accepts configuration");
    let ports = vec![String::from("COM1"), String::from("COM3")];

    match s.toggle_connection_plan(&ports).expect("port is available") {
        ConnectPlan::OpenDevice { port_path, baud_rate } => {
            assert_eq!(port_path, "COM3");
            assert_eq!(baud_rate, 9600);
        }
        _ => panic!("closed session must plan an open"),
    }
    assert_eq!(s.open_outcome(Ok(1)), Ok(true));
    assert_eq!(s.handle, Some(1));
    assert_eq!(s.task, Some(TaskKind::Reader));
    assert!(s.running);
    assert!(!s.recording);

    match s.toggle_connection_plan(&ports).expect("open session plans a close") {
        ConnectPlan::CloseDevice => {}
        _ => panic!("open session must plan a close"),
    }
    s.apply_close();
    assert_eq!(s.handle, None);
    assert_eq!(s.task, None);
    assert!(!s.running);
    assert!(!s.recording);
    assert_eq!(s.config.port_path, "COM3");
    assert_eq!(s.config.baud_rate, 9600);
}

#[test]
fn connect_refused_while_recording() {
    let mut s = SessionManager::new();
    s.configure(String::from("COM3"), 9600).unwrap();
    s.set_recording_folder(String::from("/data"));
    s.open_outcome(Ok(7)).unwrap();
    s.record_start_outcome(Ok(())).unwrap();

    let ports = vec![String::from("COM3")];
    let r = s.toggle_connection_plan(&ports);
    assert_eq!(r, Err(SessionError::RecordingInProgress));
    // nothing changed
    assert_eq!(s.handle, Some(7));
    assert_eq!(s.task, Some(TaskKind::Recorder));
    assert!(s.running);
    assert!(s.recording);
}

#[test]
fn connect_refused_when_port_missing() {
    let mut s = SessionManager::new();
    s.configure(String::from("COM9"), 115200).unwrap();
    let ports = vec![String::from("COM1"), String::from("COM2")];
    assert_eq!(s.toggle_connection_plan(&ports), Err(SessionError::PortNotAvailable));
    assert_eq!(s.handle, None);
}

#[test]
fn configure_refused_while_open() {
    let mut s = SessionManager::new();
    s.configure(String::from("COM3"), 9600).unwrap();
    s.open_outcome(Ok(3)).unwrap();
    let r = s.configure(String::from("COM4"), 19200);
    assert_eq!(r, Err(SessionError::InvalidConfig));
    assert_eq!(s.config.port_path, "COM3");
    assert_eq!(s.config.baud_rate, 9600);
}

#[test]
fn recording_needs_open_device() {
    let s = SessionManager::new();
    assert_eq!(s.toggle_recording_plan(), Err(SessionError::NotConnected));
    assert!(!s.recording);
}

#[test]
fn recording_needs_folder() {
    let mut s = SessionManager::new();
    s.open_outcome(Ok(2)).unwrap();
    assert_eq!(s.toggle_recording_plan(), Err(SessionError::FolderNotSet));
    assert!(!s.recording);
}

#[test]
fn recording_toggles_and_stop_tears_down() {
    let mut s = SessionManager::new();
    s.set_recording_folder(String::from("/data/logs"));
    s.open_outcome(Ok(2)).unwrap();
    match s.toggle_recording_plan().expect("open session with folder starts recording") {
        RecordPlan::StartRecording { folder } => assert_eq!(folder, "/data/logs"),
        _ => panic!("must plan a recording start"),
    }
    s.record_start_outcome(Ok(())).unwrap();
    assert!(s.recording);
    assert_eq!(s.task, Some(TaskKind::Recorder));
    assert_eq!(s.handle, Some(2));

    match s.toggle_recording_plan().expect("recording session plans a stop") {
        RecordPlan::StopRecording => {}
        _ => panic!("must plan a recording stop"),
    }
    s.apply_close();
    assert!(!s.recording);
    assert_eq!(s.handle, None);
    assert_eq!(s.task, None);
    // the folder is kept for the next start
    assert_eq!(s.folder, Some(String::from("/data/logs")));
}

#[test]
fn disconnect_is_idempotent() {
    let mut s = SessionManager::new();
    s.open_outcome(Ok(4)).unwrap();
    assert!(s.disconnect());
    assert_eq!(s.handle, None);
    assert!(!s.disconnect());
    assert_eq!(s.handle, None);
}

#[test]
fn send_needs_open_device() {
    let s = SessionManager::new();
    assert_eq!(s.send_check(), Err(SessionError::NotConnected));
    let mut s = s;
    s.open_outcome(Ok(11)).unwrap();
    assert_eq!(s.send_check(), Ok(11));
}

#[test]
fn failed_open_leaves_session_closed() {
    let mut s = SessionManager::new();
    let r = s.open_outcome(Err(String::from("permission denied")));
    assert_eq!(r, Err(SessionError::OpenFailure(String::from("permission denied"))));
    assert_eq!(s.handle, None);
    assert_eq!(s.task, None);
    assert!(!s.running);
}

#[test]
fn failed_file_create_leaves_recording_off() {
    let mut s = SessionManager::new();
    s.set_recording_folder(String::from("/data"));
    s.open_outcome(Ok(5)).unwrap();
    let r = s.record_start_outcome(Err(String::from("read-only file system")));
    assert_eq!(
        r,
        Err(SessionError::FileCreateFailure(String::from("read-only file system")))
    );
    assert!(!s.recording);
    assert_eq!(s.task, Some(TaskKind::Reader));
    assert_eq!(s.handle, Some(5));
}

#[test]
fn send_outcome_keeps_count_and_wraps_error() {
    assert_eq!(send_outcome(Ok(7)), Ok(7));
    assert_eq!(
        send_outcome(Err(String::from("broken pipe"))),
        Err(SessionError::WriteFailure(String::from("broken pipe")))
    );
}

#[test]
fn enumeration_failure_gives_empty_list() {
    let ports = list_ports(Some(vec![String::from("COM1")]));
    assert_eq!(ports, vec![String::from("COM1")]);
    let none: Vec<String> = list_ports(None);
    assert!(none.is_empty());
}
