use stremio_core::lz::{pack, unpack};

#[test]
fn test_lz_string_decompress() {
    let url = "http://127.0.0.1:11470/nzb/create?lz=N4IgdgXgRgqgTgGxALhACwC4YA4GdkD0BAJnAK5gDWApmLgmQOYB0AxgPYC2Bj1GkUAgEMAjAA4RAdlYBOSQFYx1GQBYAZqwDMa6cXmyha6spmbRalWM0A2KBOYCAZAEsAvFIAM16x8dxX8tZqHjLUrFBCUAZCmqyRYqxiPvIATB4qItRQ1EIgADQguNRwAG7FuCgA2uBgOPhEUACekpweYNjU1sgAQswpMABqAPpiAEoeUACk8gCiAI4AAmDUAO64zGRFyxhFpcVsXMgqKpoEKvk1dYQEAFZC5BHIMAAilCsDalBqC0WsZHDUByrdY5XCNZZrA6cI4nM4XMC1PDXCjYSQpTSSFQeESaE7IZ4qFZiGSTdEARRUAC1GAANMQAYVJ3Umkm6AA8ABSklTTGZiFIAWlJmmmzxuC2oZA2Wz42Dgzk4gI40OOp3OBQRVyIrDiKhS1E0gREevkeigyEmmgAggB5STEXnsSmW+nWGRWoRLYHMVbUShCBwIZCBNUgAC6AF8gA".parse::<url::Url>().unwrap();
    let lz_str = url
        .query_pairs()
        .find_map(|(key, value)| {
            if key == "lz" {
                Some(value.to_string())
            } else {
                None
            }
        })
        .unwrap();
    let decomp_string = unpack(&lz_str).expect("Should decompress");

    println!(
        "Compressed string length: {}\nServer Url total Length: {}\n\t{decomp_string}",
        decomp_string.len(),
        url.as_str().len(),
    );
}

#[test]
fn packed_text_unpacks_to_itself() {
    for text in [
        "",
        "a",
        "{\"urls\":[[\"https://example.com/file.rar\"]]}",
        "aaaaaaaaaaaaaaaaaaaaaaaaaaaaaaaaaaaaaaaaaaaaaaaaaaaaaaaaaaaaaaaaaaaaaaaaaaaaaaaa",
        "\u{1f600} caf\u{e9} \u{4e2d}\u{6587}",
    ] {
        let packed = pack(text).expect("packs");
        assert_ne!(packed, text);
        assert!(packed
            .chars()
            .all(|c| c.is_ascii_alphanumeric() || c == '+' || c == '-' || c == '$'));
        assert_eq!(unpack(&packed).as_deref(), Some(text));
    }
    assert_eq!(
        pack("{\"ftpUrl\":\"ftp://example.com/b.zip\"}").as_deref(),
        Some("N4IgZgLgDgqgTgGxALnNZB6DBTAHgQwFsoFsA6AYwHtCMAjMgLwEsoQBfIA")
    );
}

#[test]
fn what_is_not_packed_does_not_unpack() {
    // The first two bits of a packed text never are both set.
    assert_eq!(unpack("w"), None);
    assert_eq!(unpack("w4IgZgLgDgqgTgGxALnNZB6DBTAHgQwFsoFsA6AYwHtCMAjMgLwEsoQBfIA"), None);
}
