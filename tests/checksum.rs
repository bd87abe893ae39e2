use dreamcanvas_shell::compute_checksum;

#[test]
fn checksum_of_empty_object() {
    assert_eq!(
        compute_checksum(&"{}".to_string()),
        "44136fa355b3678a1146ad16f7e8649e94fb4fc21fe77e8310c060f61caaff8a"
    );
}

#[test]
fn checksum_of_empty_text() {
    assert_eq!(
        compute_checksum(&String::new()),
        "e3b0c44298fc1c149afbf4c8996fb92427ae41e4649b934ca495991b7852b855"
    );
}

#[test]
fn checksum_is_lower_hex_of_length_64() {
    let c = compute_checksum(&"{\"a\":1}".to_string());
    assert_eq!(c.len(), 64);
    assert!(c.chars().all(|ch| ch.is_ascii_digit() || ('a'..='f').contains(&ch)));
}
