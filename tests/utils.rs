use cgl_rs::utils::{lerp, read_file_as_string};

#[test]
fn lerp_values() {
    assert_eq!(lerp(0, 10, 1), 10);
    assert_eq!(lerp(0, 10, 0), 0);
    assert_eq!(lerp(3, 7, 2), 11);
    assert_eq!(lerp(-4, 4, 3), 20);
}

#[test]
fn map_values() {
    assert_eq!(cgl_rs::utils::map(5, 0, 10, 0, 100), 0);
    assert_eq!(cgl_rs::utils::map(10, 0, 10, 0, 100), 100);
    assert_eq!(cgl_rs::utils::map(20, 0, 10, 0, 100), 200);
    assert_eq!(cgl_rs::utils::map(-15, 0, 10, 0, 100), -100);
    assert_eq!(cgl_rs::utils::map(7, 10, 0, 0, 6), 0);
}

#[test]
fn bytes_become_latin1_chars() {
    let data: Vec<i8> = vec![104, 105, -23, 0];
    let s = read_file_as_string(&data);
    assert_eq!(s, "hi\u{e9}\u{0}");
    assert_eq!(s.chars().count(), 4);
    assert_eq!(read_file_as_string(&Vec::new()), "");
}
