use client_lib::login::hwid::get_screen_hwid;

#[test]
fn failed_probe_gives_no_fingerprint() {
    assert_eq!(get_screen_hwid(None), "");
}

#[test]
fn blank_probe_gives_no_fingerprint() {
    assert_eq!(get_screen_hwid(Some(b"")), "");
    assert_eq!(get_screen_hwid(Some(b" \t\r\n")), "");
}

#[test]
fn fingerprint_is_the_md5_of_the_trimmed_output() {
    assert_eq!(get_screen_hwid(Some(b"abc")), "900150983cd24fb0d6963f7d28e17f72");
    assert_eq!(get_screen_hwid(Some(b"  abc\r\n")), "900150983cd24fb0d6963f7d28e17f72");
    assert_eq!(
        get_screen_hwid(Some(b"The quick brown fox jumps over the lazy dog\n")),
        "9e107d9d372bb6826bd81d3542a419d6"
    );
    assert_eq!(get_screen_hwid(Some(b"a")), "0cc175b9c0f1b6a831c399e269772661");
    assert_eq!(get_screen_hwid(Some(b"a b")), get_screen_hwid(Some(b"\na b ")));
    assert_ne!(get_screen_hwid(Some(b"a b")), get_screen_hwid(Some(b"ab")));
}

#[test]
fn fingerprint_is_stable_and_has_32_hex_digits() {
    let first = get_screen_hwid(Some(b"DISPLAY\\DEL4098\\5&1a2b3c4d&0&UID4352\r\n"));
    let second = get_screen_hwid(Some(b"DISPLAY\\DEL4098\\5&1a2b3c4d&0&UID4352\r\n"));
    assert_eq!(first, second);
    assert_eq!(first.len(), 32);
    assert!(first.chars().all(|c| c.is_ascii_digit() || ('a'..='f').contains(&c)));
    assert_ne!(first, get_screen_hwid(Some(b"DISPLAY\\DEL4098\\5&1a2b3c4d&0&UID4353\r\n")));
}

#[test]
fn ill_formed_utf8_is_replaced_before_hashing() {
    let lossy = String::from_utf8_lossy(b"\xff").into_owned();
    assert_eq!(get_screen_hwid(Some(b"\xff")), get_screen_hwid(Some(lossy.as_bytes())));
    assert_eq!(get_screen_hwid(Some(b"\xff")).len(), 32);
}
