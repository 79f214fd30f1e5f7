use stremio_core::base16::FromHexError;
use stremio_core::torrent::InfoHash;

#[test]
fn test_info_has_for_zero_sized_chunk() {
    let _err = InfoHash::from_str("").expect_err("Should error with zero size");

    let _err = InfoHash::from_str("0x").expect_err("Should error");

    InfoHash::from_str("df389295484b3059a4726dc6d8a57f71bb5f4c81").expect("Should be correct");

    InfoHash::from_str("df389295484b3059a4726dc6d8a57f71bb5f4c81").expect("Should be correct");
}

#[test]
fn info_hash_text_round_trips() {
    let mut bytes = [0u8; 20];
    for (i, b) in bytes.iter_mut().enumerate() {
        *b = (i as u8).wrapping_mul(37).wrapping_add(200);
    }
    let hash = InfoHash::new(bytes);
    let text = hash.to_string();
    assert_eq!(text.len(), 40);
    assert_eq!(text, "c8ed12375c81a6cbf0153a5f84a9cef3183d6287");
    assert!(text
        .chars()
        .all(|c| c.is_ascii_digit() || ('a'..='f').contains(&c)));
    let back = InfoHash::from_str(&text).expect("reads back");
    assert_eq!(back.as_array(), bytes);
    assert_eq!(back, hash);
    assert_eq!(back.as_ref(), &bytes[..]);
    assert!(back.same(&hash));
}

#[test]
fn info_hash_reads_either_case() {
    let lower = InfoHash::from_str("df389295484b3059a4726dc6d8a57f71bb5f4c81").unwrap();
    let upper = InfoHash::from_str("DF389295484B3059A4726DC6D8A57F71BB5F4C81").unwrap();
    assert_eq!(lower, upper);
    assert_eq!(upper.to_string(), "df389295484b3059a4726dc6d8a57f71bb5f4c81");
    assert_eq!(lower.as_array()[0], 0xdf);
    assert_eq!(lower.as_array()[19], 0x81);
}

#[test]
fn info_hash_of_wrong_length_is_refused() {
    let short = "df389295484b3059a4726dc6d8a57f71bb5f4c8";
    let long = "df389295484b3059a4726dc6d8a57f71bb5f4c811";
    assert_eq!(short.len(), 39);
    assert_eq!(long.len(), 41);
    assert_eq!(InfoHash::from_str(short), Err(FromHexError::OddLength));
    assert_eq!(InfoHash::from_str(long), Err(FromHexError::OddLength));
    assert_eq!(
        InfoHash::from_str("df38"),
        Err(FromHexError::InvalidStringLength)
    );
    assert_eq!(
        InfoHash::from_str("df389295484b3059a4726dc6d8a57f71bb5f4c8100"),
        Err(FromHexError::InvalidStringLength)
    );
    assert_eq!(InfoHash::from_str(""), Err(FromHexError::InvalidStringLength));
    // 39 characters in 40 bytes
    let accented = "df389295484b3059a4726dc6d8a57f71bb5f4c\u{e9}";
    assert_eq!(accented.chars().count(), 39);
    assert_eq!(
        InfoHash::from_str(accented),
        Err(FromHexError::InvalidHexCharacter {
            c: '\u{c3}',
            index: 38
        })
    );
}

#[test]
fn info_hash_with_a_bad_digit_is_refused() {
    assert_eq!(
        InfoHash::from_str("dg389295484b3059a4726dc6d8a57f71bb5f4c81"),
        Err(FromHexError::InvalidHexCharacter { c: 'g', index: 1 })
    );
    assert_eq!(
        InfoHash::from_str("0x389295484b3059a4726dc6d8a57f71bb5f4c8z"),
        Err(FromHexError::InvalidHexCharacter { c: 'x', index: 1 })
    );
}
