use stremio_core::conversion::{
    file_index_segment, filename_of, ftp_scheme, proxy_header, proxy_origin, proxy_path,
    proxy_query, strip_leading_slash, strip_tracker,
};
use stremio_core::defaults::is_default_value;
use stremio_core::error::{ConvertError, SourceKind};
use stremio_core::json::{array_of, quote_each, string_array};
use stremio_core::stream::StreamProxyHeaders;
use stremio_core::magnet::{can_normalize, renormalize};
use stremio_core::ordered_map::OrderedMap;
use stremio_core::percent::{encode_uri_component, unreserved};
use stremio_core::text::{
    clone_texts, decimal, field, non_empty_of, same_opt_text, same_texts,
    strip_known_prefix,
};

#[test]
fn percent_encoding_keeps_unreserved_bytes() {
    assert_eq!(
        encode_uri_component("AZaz09-_.!~*'()"),
        "AZaz09-_.!~*'()"
    );
    assert_eq!(encode_uri_component("udp://t.co"), "udp%3A%2F%2Ft.co");
    assert_eq!(encode_uri_component("a b&c=d/e?f#g%h+i"), "a%20b%26c%3Dd%2Fe%3Ff%23g%25h%2Bi");
    assert_eq!(encode_uri_component("caf\u{e9} \u{1f600}"), "caf%C3%A9%20%F0%9F%98%80");
    assert_eq!(encode_uri_component(""), "");
    assert_eq!(encode_uri_component("\u{0}\u{7f}"), "%00%7F");
    assert!(unreserved(b'a'));
    assert!(unreserved(b'~'));
    assert!(!unreserved(b':'));
    assert!(!unreserved(b' '));
    assert!(!unreserved(0x80));
    for b in 0u8..=255 {
        let js_unreserved = b.is_ascii_alphanumeric() || b"-_.!~*'()".contains(&b);
        assert_eq!(unreserved(b), js_unreserved);
    }
}

#[test]
fn decimal_writes_numbers() {
    assert_eq!(decimal(0), "0");
    assert_eq!(decimal(7), "7");
    assert_eq!(decimal(10), "10");
    assert_eq!(decimal(65535), "65535");
    assert_eq!(decimal(10_000), "10000");
    assert_eq!(decimal(u64::MAX), "18446744073709551615");
}

#[test]
fn text_fields_are_found() {
    assert_eq!(field("a:b:c", ':', 0), Some("a".to_string()));
    assert_eq!(field("a:b:c", ':', 1), Some("b".to_string()));
    assert_eq!(field("a:b:c", ':', 2), Some("c".to_string()));
    assert_eq!(field("a:b:c", ':', 3), None);
    assert_eq!(field("yt_id:CHANNEL:VIDEO", ':', 2), Some("VIDEO".to_string()));
    assert_eq!(field("yt_id:CHANNEL:VIDEO:more", ':', 2), Some("VIDEO".to_string()));
    assert_eq!(field("yt_id:CHANNEL", ':', 2), None);
    assert_eq!(field("yt_id:CHANNEL:", ':', 2), Some("".to_string()));
    assert_eq!(field("\u{e9}:\u{1f600}:z", ':', 1), Some("\u{1f600}".to_string()));
    assert_eq!(field("", ':', 0), Some("".to_string()));
    assert_eq!(field("", ':', 1), None);
}

#[test]
fn prefixes_are_stripped_once() {
    assert_eq!(strip_known_prefix("tracker:udp://t.co", "tracker:"), "udp://t.co");
    assert_eq!(strip_known_prefix("udp://t.co", "tracker:"), "udp://t.co");
    assert_eq!(strip_tracker("tracker:udp://t.co"), "udp://t.co");
    assert_eq!(strip_tracker("dht:abc"), "abc");
    assert_eq!(strip_tracker("tracker:dht:abc"), "abc");
    assert_eq!(strip_tracker("dht:tracker:abc"), "tracker:abc");
    assert_eq!(strip_tracker("tracker:tracker:abc"), "tracker:abc");
    assert_eq!(strip_tracker("udp://t.co"), "udp://t.co");
    assert_eq!(strip_leading_slash("/a/b"), "a/b");
    assert_eq!(strip_leading_slash("//a"), "/a");
    assert_eq!(strip_leading_slash("a/b"), "a/b");
    assert_eq!(strip_leading_slash(""), "");
}

#[test]
fn lists_of_texts_are_compared_and_copied() {
    let a = vec!["x".to_string(), "".to_string(), "y".to_string()];
    let b = vec!["x".to_string(), "y".to_string()];
    assert!(same_texts(&a, &a.clone()));
    assert!(!same_texts(&a, &b));
    assert_eq!(clone_texts(&a), a);
    assert_eq!(non_empty_of(&a), b);
    assert!(same_opt_text(&None, &None));
    assert!(same_opt_text(&Some("a".to_string()), &Some("a".to_string())));
    assert!(!same_opt_text(&Some("a".to_string()), &None));
    assert!(!same_opt_text(&Some("a".to_string()), &Some("b".to_string())));
}

#[test]
fn json_arrays_are_written_compactly() {
    assert_eq!(array_of(&vec![]), "[]");
    assert_eq!(array_of(&vec!["1".to_string()]), "[1]");
    assert_eq!(
        array_of(&vec!["1".to_string(), "\"a\"".to_string(), "[]".to_string()]),
        "[1,\"a\",[]]"
    );
    assert_eq!(string_array(&vec![]), "[]");
    assert_eq!(
        string_array(&vec!["a\"b".to_string(), "c\\d\n".to_string(), "\u{e9}".to_string()]),
        "[\"a\\\"b\",\"c\\\\d\\n\",\"\u{e9}\"]"
    );
    assert_eq!(
        quote_each(&vec!["a".to_string(), "\u{1}".to_string()]),
        vec!["\"a\"".to_string(), "\"\\u0001\"".to_string()]
    );
    assert_eq!(string_array(&vec!["".to_string(), "a/b".to_string()]), "[\"\",\"a/b\"]");
    assert_eq!(
        string_array(&vec![
            "\u{0}\u{8}\t\n\u{b}\u{c}\r\u{1f} \"\\\u{7f}\u{80}\u{1f600}".to_string()
        ]),
        "[\"\\u0000\\b\\t\\n\\u000b\\f\\r\\u001f \\\"\\\\\u{7f}\u{80}\u{1f600}\"]"
    );
    for code in 0u32..=0x7f {
        let c = char::from_u32(code).unwrap();
        let expected = match c {
            '"' => "\\\"".to_string(),
            '\\' => "\\\\".to_string(),
            '\u{8}' => "\\b".to_string(),
            '\t' => "\\t".to_string(),
            '\n' => "\\n".to_string(),
            '\u{c}' => "\\f".to_string(),
            '\r' => "\\r".to_string(),
            c if code < 0x20 => format!("\\u{:04x}", c as u32),
            c => c.to_string(),
        };
        assert_eq!(
            quote_each(&vec![c.to_string()]),
            vec![format!("\"{}\"", expected)]
        );
    }
}

#[test]
fn ordered_map_keeps_insertion_order() {
    let map = OrderedMap::new();
    assert!(map.is_empty());
    assert_eq!(map.len(), 0);
    assert_eq!(map.get("a"), None);
    let map = map
        .insert("b".to_string(), "1".to_string())
        .insert("a".to_string(), "2".to_string())
        .insert("b".to_string(), "3".to_string());
    assert_eq!(map.len(), 2);
    assert!(!map.is_empty());
    assert_eq!(map.entry(0), Some(("b", "3")));
    assert_eq!(map.entry(1), Some(("a", "2")));
    assert_eq!(map.entry(2), None);
    assert_eq!(map.get("a"), Some("2"));
    assert_eq!(map.get("b"), Some("3"));
    assert_eq!(map.get("c"), None);
    assert_eq!(map.position("b"), 0);
    assert_eq!(map.position("a"), 1);
    assert_eq!(map.position("c"), 2);
    assert!(map.same(&map.clone()));
    assert_eq!(map.clone(), map);
    let other = OrderedMap::new()
        .insert("a".to_string(), "2".to_string())
        .insert("b".to_string(), "3".to_string());
    assert!(!map.same(&other));
    assert!(OrderedMap::default().same(&OrderedMap::new()));
}

#[test]
fn proxy_pieces_are_put_together() {
    assert_eq!(proxy_origin("https", "example.com:8080"), "https://example.com:8080");
    assert_eq!(proxy_header("User-Agent", "Stremio"), "User-Agent:Stremio");
    assert_eq!(proxy_path("d=x&h=y", "/dir/file.mp4"), "proxy/d=x&h=y/dir/file.mp4");
    assert_eq!(proxy_path("d=x", "file.mp4"), "proxy/d=x/file.mp4");
    assert_eq!(proxy_path("d=x", "/"), "proxy/d=x/");
}

#[test]
fn conversion_pieces_decide_on_plain_values() {
    assert!(ftp_scheme("ftp"));
    assert!(ftp_scheme("ftps"));
    assert!(!ftp_scheme("http"));
    assert!(!ftp_scheme("sftp"));
    assert!(!ftp_scheme(""));
    assert_eq!(filename_of(Some("file.rar".to_string())), Ok("file.rar".to_string()));
    assert_eq!(filename_of(Some("".to_string())), Err(ConvertError::MissingFilename));
    assert_eq!(filename_of(None), Err(ConvertError::MissingFilename));
    assert_eq!(file_index_segment(None), "-1");
    assert_eq!(file_index_segment(Some(0)), "0");
    assert_eq!(file_index_segment(Some(65535)), "65535");
}

#[test]
fn errors_say_what_went_wrong() {
    assert_eq!(
        ConvertError::HelperUnavailable(SourceKind::Torrent).message(),
        "Can't play Torrent because the streaming server is not running"
    );
    assert_eq!(
        ConvertError::HelperUnavailable(SourceKind::Ftp).message(),
        "Can't play Ftp(s) because the streaming server is not running"
    );
    assert_eq!(
        ConvertError::EmptyPartList(SourceKind::Rar).message(),
        "No Rar URLs provided"
    );
    assert_eq!(
        ConvertError::EmptyPartList(SourceKind::Nzb).message(),
        "No Nzb server URLs provided"
    );
    assert_eq!(
        ConvertError::HelperUnavailable(SourceKind::Nzb).message(),
        "Can't play Nzb because the streaming server is not running"
    );
    assert_eq!(SourceKind::Ftp.endpoint_str(), "ftp/");
    assert_eq!(SourceKind::YouTube.endpoint_str(), "yt");
    assert_eq!(SourceKind::Torrent.endpoint_str(), "");
    assert_eq!(SourceKind::Rar.endpoint_str(), "rar/create");
    assert_eq!(SourceKind::Zip.endpoint_str(), "zip/create");
    assert_eq!(SourceKind::Tgz.endpoint_str(), "tgz/create");
    assert_eq!(SourceKind::Tar.endpoint_str(), "tar/create");
    assert_eq!(
        ConvertError::MissingFilename.message(),
        "Ftp(s) filepath is missing in the url"
    );
    assert_eq!(
        ConvertError::InvalidExternalSource.message(),
        "Invalid StreamSource::External"
    );
    assert!(!ConvertError::PayloadEncodingFailure.message().is_empty());
    assert!(!ConvertError::InvalidHelperUrl.message().is_empty());
    assert_eq!(SourceKind::Zip7.endpoint_str(), "7zip/create");
    assert_eq!(SourceKind::Nzb.endpoint_str(), "nzb/create");
    assert_eq!(SourceKind::Zip7.name(), "7zip");
}

#[test]
fn magnet_links_are_rewritten() {
    let magnet = "magnet:?xt=urn:btih:08ada5a7a6183aae1e09d831df6748d566095a10&dn=Sintel&tr=udp%3A%2F%2Fexplodie.org%3A6969&ws=https%3A%2F%2Fwebtorrent.io%2Ftorrents%2F";
    assert_eq!(
        renormalize(magnet),
        Some("magnet:?xt=urn:btih:08ada5a7a6183aae1e09d831df6748d566095a10&dn=Sintel&tr=udp%3A%2F%2Fexplodie.org%3A6969&ws=https%3A%2F%2Fwebtorrent.io%2Ftorrents%2F".to_string())
    );
    assert_eq!(
        renormalize("magnet:?dn=Name&xt=urn:btih:abcdef&xl=1234"),
        Some("magnet:?xt=urn:btih:abcdef&dn=Name&xl=1234".to_string())
    );
    assert_eq!(renormalize("https://example.com/"), None);
    assert!(can_normalize("magnet:?xt=urn:btih:abcdef&xl=1234"));
    assert!(can_normalize("magnet:?xl=1234567890123456789"));
    assert!(can_normalize("xl"));
    assert!(can_normalize(""));
    // The outside parser would give up the program on each of these.
    for text in [
        "magnet:?xl=",
        "magnet:?xl=&dn=a",
        "magnet:?xl=12345678901234567890",
        "magnet:?xl=99999999999999999999999",
        "magnet:?dn=a&xl=",
        "magnet:?xl=1&xl=",
        "magnet:?dn=\u{e9}&xl=1",
    ] {
        assert!(!can_normalize(text));
        assert_eq!(renormalize(text), None);
    }
}

#[test]
fn default_values_are_told_from_others() {
    assert!(is_default_value(&false));
    assert!(!is_default_value(&true));
    assert!(is_default_value(&0u16));
    assert!(!is_default_value(&3u16));
    assert!(is_default_value(&String::new()));
    assert!(is_default_value(&Option::<u8>::None));
    assert!(is_default_value(&stremio_core::stream::StreamBehaviorHints::default()));
    let mut hints = stremio_core::stream::StreamBehaviorHints::default();
    hints.not_web_ready = true;
    assert!(!is_default_value(&hints));
}

#[test]
fn proxy_query_is_form_encoded() {
    let headers = |request: &[(&str, &str)], response: &[(&str, &str)]| {
        let fill = |pairs: &[(&str, &str)]| {
            let mut map = OrderedMap::new();
            for (name, value) in pairs {
                map = map.insert(name.to_string(), value.to_string());
            }
            map
        };
        StreamProxyHeaders {
            request: fill(request),
            response: fill(response),
        }
    };
    assert_eq!(
        proxy_query("https://example.com", &headers(&[], &[])),
        "d=https%3A%2F%2Fexample.com"
    );
    assert_eq!(
        proxy_query(
            "http://h",
            &headers(&[("A-b", "c d"), ("E", "f+g")], &[("H_i", "j*k.l~")])
        ),
        "d=http%3A%2F%2Fh&h=A-b%3Ac+d&h=E%3Af%2Bg&r=H_i%3Aj*k.l%7E"
    );
    assert_eq!(proxy_query("", &headers(&[], &[("", "")])), "d=&r=%3A");
    assert_eq!(
        proxy_query("caf\u{e9}", &headers(&[], &[])),
        "d=caf%C3%A9"
    );
    for b in 0u8..=127 {
        let text = (b as char).to_string();
        let expected = if b.is_ascii_alphanumeric() || b"*-._".contains(&b) {
            text.clone()
        } else if b == b' ' {
            "+".to_string()
        } else {
            format!("%{:02X}", b)
        };
        assert_eq!(
            proxy_query(&text, &headers(&[], &[])),
            format!("d={}", expected)
        );
    }
}
