use shader_program::bytes::{c_string, contains_nul, copied, nul_terminated, prefix_before_nul};
use shader_program::diagnostic::{decode_log, log_buffer};

#[test]
fn nul_detection_and_framing() {
    assert!(!contains_nul(b""));
    assert!(!contains_nul(b"abc"));
    assert!(contains_nul(b"a\0c"));
    assert_eq!(nul_terminated(b"ab"), vec![b'a', b'b', 0]);
    assert_eq!(nul_terminated(b""), vec![0]);
}

#[test]
fn c_string_of_uniform_names() {
    assert_eq!(c_string("texture1"), Some(b"texture1\0".to_vec()));
    assert_eq!(c_string(""), Some(vec![0]));
    assert_eq!(c_string("bad\0name"), None);
    assert_eq!(c_string("é"), Some(vec![0xC3, 0xA9, 0]));
}

#[test]
fn text_stops_at_first_nul() {
    assert_eq!(prefix_before_nul(&b"ab\0cd\0".to_vec()), b"ab".to_vec());
    assert_eq!(prefix_before_nul(&b"abc".to_vec()), b"abc".to_vec());
    assert_eq!(prefix_before_nul(&b"\0abc".to_vec()), Vec::<u8>::new());
    assert_eq!(copied(&vec![3u32, 1, 2]), vec![3, 1, 2]);
}

#[test]
fn log_buffer_is_sized_from_reported_length() {
    assert_eq!(log_buffer(-3), Vec::<u8>::new());
    assert_eq!(log_buffer(0), Vec::<u8>::new());
    assert_eq!(log_buffer(5), vec![0u8; 5]);
}

#[test]
fn log_decoding() {
    assert_eq!(decode_log(&b"0:1: error\n\0   ".to_vec()), Some("0:1: error\n".to_string()));
    assert_eq!(decode_log(&Vec::new()), Some(String::new()));
    assert_eq!(decode_log(&vec![0xC3, 0xA9, b'!', 0]), Some("é!".to_string()));
    assert_eq!(decode_log(&vec![0xC3, 0]), None);
    assert_eq!(decode_log(&vec![0xff]), None);
}
