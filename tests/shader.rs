use learnopenrgl::utils::uniform_name_with_nul;

#[test]
fn name_gets_terminating_zero() {
    assert_eq!(uniform_name_with_nul("view"), Some(b"view\0".to_vec()));
}

#[test]
fn empty_name_is_only_the_terminator() {
    assert_eq!(uniform_name_with_nul(""), Some(vec![0u8]));
}

#[test]
fn multibyte_name_keeps_its_utf8_bytes() {
    assert_eq!(uniform_name_with_nul("\u{e9}"), Some(vec![0xc3, 0xa9, 0]));
}

#[test]
fn name_with_inner_zero_is_refused() {
    assert_eq!(uniform_name_with_nul("mo\0del"), None);
    assert_eq!(uniform_name_with_nul("model\0"), None);
}
