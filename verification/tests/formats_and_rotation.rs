use serial_monitor::hex::hex_string;
use serial_monitor::reader::{recorder_step, ReadEvent, RecorderStep, RecordingTarget,
    ROTATION_INTERVAL_SECS};
use serial_monitor::session::SessionError;
use serial_monitor::timefmt::{local_timestamp, log_line, recording_file_name, Timestamp};

fn ts(year: i32, month: u32, day: u32, hour: u32, minute: u32, second: u32) -> Timestamp {
    Timestamp::new(year, month, day, hour, minute, second).expect("fields in range")
}

#[test]
fn file_name_has_fixed_pattern() {
    let t = ts(2024, 1, 5, 7, 9, 3);
    let name = recording_file_name(&t);
    assert_eq!(name, "DCubedISM2024-01-05_07.09.03.txt");
}

#[test]
fn log_line_has_fixed_pattern() {
    let t = ts(2024, 12, 31, 23, 59, 58);
    let line = log_line(&t, "INFO", "Serial communication thread started.");
    assert_eq!(line, "[2024-12-31 23:59:58] [INFO] Serial communication thread started.");
}

#[test]
fn timestamp_rejects_out_of_range_fields() {
    assert!(Timestamp::new(-44, 1, 1, 0, 0, 0).is_none());
    assert!(Timestamp::new(10000, 1, 1, 0, 0, 0).is_none());
    assert!(Timestamp::new(2024, 0, 1, 0, 0, 0).is_none());
    assert!(Timestamp::new(2024, 13, 1, 0, 0, 0).is_none());
    assert!(Timestamp::new(2024, 1, 0, 0, 0, 0).is_none());
    assert!(Timestamp::new(2024, 1, 32, 0, 0, 0).is_none());
    assert!(Timestamp::new(2024, 1, 1, 24, 0, 0).is_none());
    assert!(Timestamp::new(2024, 1, 1, 0, 60, 0).is_none());
    assert!(Timestamp::new(2024, 1, 1, 0, 0, 60).is_none());
    assert!(Timestamp::new(0, 1, 1, 0, 0, 0).is_some());
}

#[test]
fn clock_yields_a_valid_timestamp() {
    let t = local_timestamp().expect("the clock's year fits four digits");
    assert!(t.year <= 9999);
    assert!((1..=12).contains(&t.month));
    assert!((1..=31).contains(&t.day));
    assert!(t.hour < 24);
    assert!(t.minute < 60);
    assert!(t.second < 60);
}

#[test]
fn rotation_after_full_interval_yields_two_distinct_files() {
    // A simulated recording session: the first file opens at second 0, reads
    // arrive for over 600 seconds, the rotation check runs once per
    // iteration.
    let first_name = recording_file_name(&ts(2024, 3, 1, 10, 0, 0));
    let mut target = RecordingTarget::new(String::from("/data"), first_name.clone(), 0);

    let mut names: Vec<String> = vec![target.file_name.clone()];
    let mut intervals: Vec<(u64, u64)> = Vec::new();
    for now in (0u64..=600).step_by(60) {
        match recorder_step(ReadEvent::Data(vec![0x55; 8])) {
            RecorderStep::Persist(bytes) => assert_eq!(bytes.len(), 8),
            _ => panic!("data must be persisted"),
        }
        if target.rotation_due(now) {
            let second = (now % 60) as u32;
            let minute = ((now / 60) % 60) as u32;
            let new_name = recording_file_name(&ts(2024, 3, 1, 10 + (now / 3600) as u32, minute, second));
            intervals.push((target.opened_at, now));
            target.rotate(new_name, now);
            names.push(target.file_name.clone());
        }
    }
    intervals.push((target.opened_at, 601));

    assert!(names.len() >= 2, "at least two files over a full interval");
    assert_ne!(names[0], names[1], "rotated files are distinct");
    assert_eq!(names[0], first_name);
    // the files cover disjoint, contiguous sub-intervals
    for w in intervals.windows(2) {
        assert_eq!(w[0].1, w[1].0);
        assert!(w[0].0 < w[0].1);
    }
    assert_eq!(intervals[0], (0, 600));
}

#[test]
fn rotation_not_due_before_interval() {
    let target = RecordingTarget::new(String::from("/data"), String::from("a.txt"), 100);
    assert!(!target.rotation_due(100 + ROTATION_INTERVAL_SECS - 1));
    assert!(target.rotation_due(100 + ROTATION_INTERVAL_SECS));
}

#[test]
fn recorder_step_timeout_and_error() {
    assert!(matches!(recorder_step(ReadEvent::TimedOut), RecorderStep::Idle));
    match recorder_step(ReadEvent::Failed(String::from("io error"))) {
        RecorderStep::LinkLost(e) => {
            assert_eq!(e, SessionError::ReadFailure(String::from("io error")))
        }
        _ => panic!("a read error must end the recorder"),
    }
}

#[test]
fn hex_rendering_matches_expected_text() {
    assert_eq!(hex_string(&vec![0x01, 0xAB, 0x00, 0xFF]), "01 AB 00 FF");
    assert_eq!(hex_string(&vec![0x2A]), "2A");
    assert_eq!(hex_string(&Vec::new()), "");
}
