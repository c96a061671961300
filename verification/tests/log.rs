use core::fmt::Write;
use sgx_std::io::write_buffer::{WriteBuffer, BUFFER_SIZE};
use sgx_std::panicking::log::{log_panic_info, panic_message, FORMAT_FAILED, LOCK_POISONED};
use sgx_std::sync::PoisonError;

#[test]
fn fixed_messages() {
    assert_eq!(FORMAT_FAILED, "Failed to format panic log info.");
    assert_eq!(LOCK_POISONED, "Mutex for panic logging has been poisoned.");
}

#[test]
fn formatted_information_is_the_message() {
    let mut buffer = WriteBuffer::new();
    buffer.write("panicked at src/lib.rs:3:5").unwrap();

    assert_eq!(panic_message(&buffer, true), b"panicked at src/lib.rs:3:5");
}

#[test]
fn failed_formatting_gives_the_fallback_message() {
    let mut buffer = WriteBuffer::new();
    buffer.write("panicked at ").unwrap();

    assert_eq!(
        panic_message(&buffer, false),
        b"Failed to format panic log info."
    );
}

#[test]
fn panic_information_is_logged() {
    let mut buffer = WriteBuffer::new();

    let message = log_panic_info(Ok(&mut buffer), |buffer| {
        buffer.write_str("panicked at ")?;
        buffer.write_str("src/lib.rs:3:5")?;
        buffer.write_str(":\nout of cheese")
    });

    assert_eq!(message, b"panicked at src/lib.rs:3:5:\nout of cheese");
}

#[test]
fn message_buffer_is_cleared_before_use() {
    let mut buffer = WriteBuffer::new();
    buffer.write("an earlier panic").unwrap();

    let message = log_panic_info(Ok(&mut buffer), |buffer| buffer.write_str("this panic"));

    assert_eq!(message, b"this panic");
    let contents: &str = buffer.as_ref();
    assert_eq!(contents, "this panic");
}

#[test]
fn information_that_exceeds_the_buffer_gives_the_fallback_message() {
    let mut buffer = WriteBuffer::new();
    let long = vec![66u8; BUFFER_SIZE];
    let long = core::str::from_utf8(&long).unwrap();

    let message = log_panic_info(Ok(&mut buffer), |buffer| {
        buffer.write_str("panicked at ")?;
        buffer.write_str(long)
    });

    assert_eq!(message, b"Failed to format panic log info.");
}

#[test]
fn information_that_fills_the_buffer_is_logged_whole() {
    let mut buffer = WriteBuffer::new();
    let long = vec![66u8; BUFFER_SIZE];
    let long = core::str::from_utf8(&long).unwrap();

    let message = log_panic_info(Ok(&mut buffer), |buffer| buffer.write_str(long));

    assert_eq!(message, long.as_bytes());
}

#[test]
fn failure_of_the_formatter_gives_the_fallback_message() {
    let mut buffer = WriteBuffer::new();

    let message = log_panic_info(Ok(&mut buffer), |buffer| {
        buffer.write_str("half of it")?;
        Err(core::fmt::Error)
    });

    assert_eq!(message, b"Failed to format panic log info.");
}

#[test]
fn poisoned_message_buffer_is_left_alone() {
    let mut buffer = WriteBuffer::new();
    buffer.write("an earlier panic").unwrap();

    let message = log_panic_info(Err(PoisonError::new(&mut buffer)), |buffer| {
        buffer.write_str("this panic")
    });

    assert_eq!(message, b"Mutex for panic logging has been poisoned.");
    let contents: &str = buffer.as_ref();
    assert_eq!(contents, "an earlier panic");
}
