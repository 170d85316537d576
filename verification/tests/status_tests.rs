use learnopengl_utils::get_status_and_output;
use learnopengl_utils::status::{info_log_text, text_end};

#[test]
fn text_end_stops_at_first_nul() {
    assert_eq!(text_end(b"abc\0def\0"), 3);
    assert_eq!(text_end(b"\0"), 0);
    assert_eq!(text_end(b"abc"), 3);
    assert_eq!(text_end(b""), 0);
}

#[test]
fn info_log_text_reads_up_to_nul() {
    let mut buf = [0u8; 512];
    let msg = b"0:1(1): error: syntax error";
    buf[..msg.len()].copy_from_slice(msg);
    assert_eq!(info_log_text(&buf), Some("0:1(1): error: syntax error".to_string()));
}

#[test]
fn info_log_text_ignores_bytes_after_nul() {
    assert_eq!(info_log_text(b"link failed\0\xff\xfe"), Some("link failed".to_string()));
}

#[test]
fn info_log_text_without_nul_takes_whole_buffer() {
    assert_eq!(info_log_text(b"no terminator"), Some("no terminator".to_string()));
}

#[test]
fn info_log_text_empty_log() {
    assert_eq!(info_log_text(&[0u8; 512]), Some(String::new()));
}

#[test]
fn info_log_text_decodes_multibyte_utf8() {
    assert_eq!(info_log_text("unerwartetes Zeichen »ä«\0".as_bytes()), Some("unerwartetes Zeichen »ä«".to_string()));
}

#[test]
fn info_log_text_rejects_invalid_utf8() {
    assert_eq!(info_log_text(b"bad \xff byte\0"), None);
    // a truncated multi-byte sequence before the NUL
    assert_eq!(info_log_text(b"\xc3\0"), None);
}

#[test]
fn status_nonzero_is_ok_with_uid() {
    assert_eq!(get_status_and_output(7, 1, &[]), Ok(7));
    assert_eq!(get_status_and_output(42, -3, b"ignored\0"), Ok(42));
}

#[test]
fn status_zero_is_err_with_log_message() {
    let mut buf = [0u8; 512];
    buf[..9].copy_from_slice(b"ERROR: 0:");
    assert_eq!(get_status_and_output(7, 0, &buf), Err("ERROR: 0:".to_string()));
}

#[test]
fn status_zero_with_empty_log_is_err_with_empty_message() {
    assert_eq!(get_status_and_output(3, 0, &[0u8; 16]), Err(String::new()));
}

#[test]
fn error_text_stays_within_the_log() {
    let mut buf = [b'x'; 512];
    buf[511] = 0;
    match get_status_and_output(1, 0, &buf) {
        Err(m) => {
            assert_eq!(m.len(), 511);
            assert!(!m.contains('\0'));
        }
        Ok(_) => panic!("status 0 must fail"),
    }
}
