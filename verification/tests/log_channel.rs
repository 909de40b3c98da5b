use discobot_supervisor::compact::{
    build_separator, compact_contents, compact_tail, session_separator, truncate_plan,
};
use discobot_supervisor::logpath::{
    choose_state_dir, get_log_file_path, log_dir_path, log_file_in_dir, LogPathError,
};

const MAX_SIZE: u64 = 1_048_576;
const KEEP_SIZE: u64 = 10_240;

#[test]
fn truncate_plan_is_noop_within_bounds() {
    assert_eq!(truncate_plan(0), None);
    assert_eq!(truncate_plan(KEEP_SIZE), None);
    assert_eq!(truncate_plan(MAX_SIZE), None);
}

#[test]
fn truncate_plan_keeps_last_window() {
    assert_eq!(truncate_plan(MAX_SIZE + 1), Some(MAX_SIZE + 1 - KEEP_SIZE));
    assert_eq!(truncate_plan(2_000_000), Some(2_000_000 - KEEP_SIZE));
}

#[test]
fn compaction_is_banner_plus_tail() {
    let size: u64 = MAX_SIZE + 1000;
    let content: Vec<u8> = (0..size).map(|i| (i % 251) as u8).collect();
    let seek = truncate_plan(size).unwrap() as usize;
    let tail: Vec<u8> = content[seek..].to_vec();
    let ts: Vec<u8> = "2024-01-01 00:00:00".as_bytes().to_vec();
    let out = compact_contents(&tail, size, &ts);
    let banner = format!(
        "=== Log truncated at 2024-01-01 00:00:00 (was {} bytes, keeping last {} bytes) ===\n",
        size, KEEP_SIZE
    );
    assert_eq!(out.len(), banner.len() + KEEP_SIZE as usize);
    assert!(out.starts_with(banner.as_bytes()));
    assert_eq!(&out[banner.len()..], &content[content.len() - KEEP_SIZE as usize..]);
}

#[test]
fn compact_tail_stamps_current_time() {
    let tail: Vec<u8> = vec![1, 2, 3];
    let out = compact_tail(&tail, MAX_SIZE + 3);
    assert!(out.starts_with("=== Log truncated at ".as_bytes()));
    assert!(out.ends_with(&[b'\n', 1, 2, 3]));
    let text = String::from_utf8_lossy(&out[..out.len() - 3]).into_owned();
    assert!(text.contains(&format!(" (was {} bytes, keeping last 3 bytes) ===\n", MAX_SIZE + 3)));
}

#[test]
fn separator_embeds_timestamp() {
    let sep = build_separator(&"T".as_bytes().to_vec());
    assert_eq!(sep, "\n\n=== Server started at T ===\n".as_bytes());
}

#[test]
fn session_separator_carries_wall_clock() {
    let sep = session_separator();
    let prefix = "\n\n=== Server started at ";
    let suffix = " ===\n";
    assert!(sep.starts_with(prefix.as_bytes()));
    assert!(sep.ends_with(suffix.as_bytes()));
    let ts = &sep[prefix.len()..sep.len() - suffix.len()];
    // The stamp has the fixed year-month-day hour:minute:second shape.
    assert_eq!(ts.len(), 19);
    for (i, b) in ts.iter().enumerate() {
        match i {
            4 | 7 => assert_eq!(*b, b'-'),
            10 => assert_eq!(*b, b' '),
            13 | 16 => assert_eq!(*b, b':'),
            _ => assert!(b.is_ascii_digit()),
        }
    }
}

#[test]
fn state_dir_precedence() {
    assert_eq!(
        choose_state_dir(Some("/a".to_string()), Some("/b".to_string())),
        Ok("/a".to_string())
    );
    assert_eq!(choose_state_dir(None, Some("/b".to_string())), Ok("/b".to_string()));
    assert_eq!(
        choose_state_dir(None, None),
        Err(LogPathError::NoStateDir)
    );
}

#[test]
fn log_path_layout() {
    let dir = log_dir_path("/base".to_string());
    assert_eq!(dir, "/base/discobot/logs");
    let file = log_file_in_dir(&dir);
    assert_eq!(file, "/base/discobot/logs/server.log");
}

#[test]
fn resolved_log_path_ends_with_subpath() {
    match get_log_file_path() {
        Ok(p) => {
            assert!(p.dir.ends_with("/discobot/logs"));
            assert_eq!(p.file, format!("{}/server.log", p.dir));
        }
        Err(e) => assert_eq!(e, LogPathError::NoStateDir),
    }
}

#[test]
fn no_state_dir_message() {
    assert_eq!(
        LogPathError::NoStateDir.message(),
        "Could not determine state directory"
    );
}
