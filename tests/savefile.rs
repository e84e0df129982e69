use nes::savefile::{save_file_name, save_name_from_digest};

#[test]
fn save_name_is_md5_of_basename() {
    assert_eq!(save_file_name(b""), "d41d8cd98f00b204e9800998ecf8427e.data");
    assert_eq!(save_file_name(b"abc"), "900150983cd24fb0d6963f7d28e17f72.data");
}

#[test]
fn save_name_from_hex() {
    assert_eq!(save_name_from_digest(String::from("00ff")), "00ff.data");
}
