use os3::logging::{init, level_color, Level, LevelFilter};
use os3::loader::AppStacks;
use os3::syscall::fs::{written_text, FD_STDOUT};
use os3::syscall::KernelPanic;
use os3::task::{TaskManager, ALL_COMPLETED};

#[test]
fn the_trap_vector_is_set_in_direct_mode() {
    assert_eq!(os3::trap::init(0x8020_0000), Some(0x8020_0000));
    assert_eq!(os3::trap::init(0x8020_0ff4), Some(0x8020_0ff4));
    assert_eq!(os3::trap::init(0), Some(0));
    assert_eq!(os3::trap::init(usize::MAX - 3), Some(usize::MAX - 3));
}

#[test]
fn the_trap_vector_must_be_aligned() {
    assert_eq!(os3::trap::init(0x8020_0001), None);
    assert_eq!(os3::trap::init(0x8020_0002), None);
    assert_eq!(os3::trap::init(0x8020_0003), None);
    assert_eq!(os3::trap::init(usize::MAX), None);
}

#[test]
fn log_levels_are_named_in_capitals() {
    assert_eq!(init(Some("ERROR")), LevelFilter::Error);
    assert_eq!(init(Some("WARN")), LevelFilter::Warn);
    assert_eq!(init(Some("INFO")), LevelFilter::Info);
    assert_eq!(init(Some("DEBUG")), LevelFilter::Debug);
    assert_eq!(init(Some("TRACE")), LevelFilter::Trace);
}

#[test]
fn logging_is_off_unless_a_level_is_named() {
    assert_eq!(init(None), LevelFilter::Off);
    assert_eq!(init(Some("")), LevelFilter::Off);
    assert_eq!(init(Some("off")), LevelFilter::Off);
    assert_eq!(init(Some("info")), LevelFilter::Off);
    assert_eq!(init(Some("INFO ")), LevelFilter::Off);
    assert_eq!(init(Some("ERRO")), LevelFilter::Off);
    assert_eq!(init(Some("WARNING")), LevelFilter::Off);
    assert_eq!(init(Some("TRÄCE")), LevelFilter::Off);
}

#[test]
fn log_colours() {
    assert_eq!(level_color(Level::Error), 31);
    assert_eq!(level_color(Level::Warn), 93);
    assert_eq!(level_color(Level::Info), 34);
    assert_eq!(level_color(Level::Debug), 32);
    assert_eq!(level_color(Level::Trace), 90);
}

#[test]
fn written_text_is_the_bytes_as_text() {
    assert_eq!(FD_STDOUT, 1);
    assert_eq!(written_text(b"hello"), Ok("hello"));
    assert_eq!(written_text(b""), Ok(""));
    assert_eq!(written_text("grüß dich\n".as_bytes()), Ok("grüß dich\n"));
}

#[test]
fn written_text_refuses_bytes_that_are_no_text() {
    assert_eq!(written_text(&[0xff]), Err(KernelPanic::InvalidText));
    assert_eq!(written_text(&[b'a', 0xc3]), Err(KernelPanic::InvalidText));
    assert_eq!(written_text(&[0xed, 0xa0, 0x80]), Err(KernelPanic::InvalidText));
}

#[test]
fn the_completion_message() {
    assert_eq!(ALL_COMPLETED, "All applications completed!");
}

#[test]
fn running_and_started() {
    let mut stacks = AppStacks::new(0x8020_0000, 0x8030_0000).unwrap();
    let mut manager = TaskManager::new(2, &mut stacks, 0, 0x8020_0f00).unwrap();
    assert!(!manager.is_running());
    assert!(!manager.current_started_by(usize::MAX));
    manager.run_first_task(50);
    assert!(manager.is_running());
    assert!(manager.current_started_by(50));
    assert!(manager.current_started_by(51));
    assert!(!manager.current_started_by(49));
    manager.mark_current_suspended();
    assert!(!manager.is_running());
    assert!(manager.current_started_by(50));
}
