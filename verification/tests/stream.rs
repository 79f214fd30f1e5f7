use stremio_core::converted_source::ConvertedStreamSource;
use stremio_core::error::ConvertError;
use stremio_core::rating::{Rating, RatingGetStatusRequest, RatingSendRequest};
use stremio_core::stream::{
    deserialize_stream_source_external, ArchiveUrl, ArchiveUrlShort, Stream,
    StreamBehaviorHints, StreamProxyHeaders, StreamSource,
};
use stremio_core::stream_urls::{
    data_uri, get_download_url, get_m3u_data_uri, get_magnet_url, get_streaming_url,
    magnet_trackers, playlist_lines, youtube_page, StreamUrls,
};
use stremio_core::streaming_server::{
    ArchiveStreamBody, ArchiveStreamOptions, CreateMagnetRequest, CreateTorrentBlobRequest,
    FtpStreamBody, NzbStreamBody, PeerSearch, StatisticsRequest, TorrentStatisticsRequest,
};
use stremio_core::torrent::InfoHash;
use stremio_core::web_url::Url;

fn url(text: &str) -> Url {
    Url::parse(text).expect("a valid URL")
}

fn stream(source: StreamSource) -> Stream {
    Stream {
        source,
        name: None,
        description: None,
        thumbnail: None,
        subtitles: vec![],
        behavior_hints: StreamBehaviorHints::default(),
    }
}

fn converted(source: ConvertedStreamSource) -> Stream<ConvertedStreamSource> {
    Stream {
        source,
        name: None,
        description: None,
        thumbnail: None,
        subtitles: vec![],
        behavior_hints: StreamBehaviorHints::default(),
    }
}

#[test]
fn youtube_stream_from_video_id() {
    assert_eq!(
        Stream::youtube("yt_id:UCchannel:aqz-KE-bpKQ"),
        Some(stream(StreamSource::YouTube {
            yt_id: "aqz-KE-bpKQ".to_string()
        }))
    );
    assert_eq!(
        Stream::youtube("yt_id:UCchannel:video:rest"),
        Some(stream(StreamSource::YouTube {
            yt_id: "video".to_string()
        }))
    );
    assert_eq!(Stream::youtube("yt_id:UCchannel"), None);
    assert_eq!(Stream::youtube("tt0111161"), None);
    assert_eq!(Stream::youtube("other:UCchannel:video"), None);
    assert_eq!(Stream::youtube(""), None);
}

#[test]
fn streams_match_by_source() {
    let a = stream(StreamSource::Url {
        url: url("https://example.com/a"),
    });
    let mut same = stream(StreamSource::Url {
        url: url("https://example.com/a"),
    });
    same.name = Some("other name".to_string());
    let b = stream(StreamSource::Url {
        url: url("https://example.com/b"),
    });
    let yt = stream(StreamSource::YouTube {
        yt_id: "https://example.com/a".to_string(),
    });
    assert!(a.is_source_match(&same));
    assert!(!a.is_source_match(&b));
    assert!(!a.is_source_match(&yt));
    let rar = |bytes: Option<u64>, idx: Option<u16>| {
        stream(StreamSource::Rar {
            urls: vec![ArchiveUrl {
                url: url("https://example.com/a.rar"),
                bytes,
            }],
            file_idx: idx,
            file_must_include: vec!["x".to_string()],
        })
    };
    assert!(rar(Some(1), None).is_source_match(&rar(Some(1), None)));
    assert!(!rar(Some(1), None).is_source_match(&rar(Some(2), None)));
    assert!(!rar(Some(1), None).is_source_match(&rar(None, None)));
    assert!(!rar(Some(1), None).is_source_match(&rar(Some(1), Some(0))));
    let zip = stream(StreamSource::Zip {
        urls: vec![ArchiveUrl {
            url: url("https://example.com/a.rar"),
            bytes: Some(1),
        }],
        file_idx: None,
        file_must_include: vec!["x".to_string()],
    });
    assert!(!rar(Some(1), None).is_source_match(&zip));
    let torrent = |first: u8| {
        stream(StreamSource::Torrent {
            info_hash: [first; 20],
            file_idx: None,
            announce: vec![],
            file_must_include: vec![],
        })
    };
    assert!(torrent(1).is_source_match(&torrent(1)));
    assert!(!torrent(1).is_source_match(&torrent(2)));
    assert!(torrent(1).source.same(&torrent(1).source));
}

#[test]
fn streams_match_by_binge_group() {
    let with_group = |group: Option<&str>| {
        let mut s = stream(StreamSource::YouTube {
            yt_id: "id".to_string(),
        });
        s.behavior_hints.binge_group = group.map(|g| g.to_string());
        s
    };
    assert!(with_group(Some("a")).is_binge_match(&with_group(Some("a"))));
    assert!(!with_group(Some("a")).is_binge_match(&with_group(Some("b"))));
    assert!(!with_group(Some("a")).is_binge_match(&with_group(None)));
    assert!(!with_group(None).is_binge_match(&with_group(Some("a"))));
    assert!(!with_group(None).is_binge_match(&with_group(None)));
    assert!(!with_group(Some("")).is_binge_match(&with_group(Some(""))));
}

#[test]
fn external_source_needs_one_field() {
    assert_eq!(
        deserialize_stream_source_external(None, None, None, None),
        Err(ConvertError::InvalidExternalSource)
    );
    assert_eq!(
        deserialize_stream_source_external(None, None, None, Some("webos".to_string())),
        Ok(StreamSource::External {
            external_url: None,
            android_tv_url: None,
            tizen_url: None,
            webos_url: Some("webos".to_string()),
        })
    );
    assert_eq!(
        deserialize_stream_source_external(
            Some(url("https://example.com/")),
            Some(url("https://example.com/tv")),
            Some("tizen".to_string()),
            None
        ),
        Ok(StreamSource::External {
            external_url: Some(url("https://example.com/")),
            android_tv_url: Some(url("https://example.com/tv")),
            tizen_url: Some("tizen".to_string()),
            webos_url: None,
        })
    );
}

#[test]
fn archive_url_has_a_short_form() {
    let long = ArchiveUrl {
        url: url("http://example.com/file1.rar"),
        bytes: Some(123),
    };
    let short = ArchiveUrlShort::from(long.clone());
    assert_eq!(
        short,
        ArchiveUrlShort(url("http://example.com/file1.rar"), Some(123))
    );
    assert_eq!(ArchiveUrl::from(short), long);
    assert!(long.same(&long.clone()));
    assert_eq!(long.to_json(), "[\"http://example.com/file1.rar\",123]");
    let unsized_part = ArchiveUrl {
        url: url("http://example.com/file0.rar"),
        bytes: None,
    };
    assert_eq!(unsized_part.to_json(), "[\"http://example.com/file0.rar\"]");
    assert!(!long.same(&unsized_part));
}

#[test]
fn request_bodies_are_compact_json() {
    let body = ArchiveStreamBody {
        urls: vec![
            ArchiveUrl {
                url: url("http://example.com/file0.rar"),
                bytes: None,
            },
            ArchiveUrl {
                url: url("http://example.com/file1.rar"),
                bytes: Some(123),
            },
        ],
        options: ArchiveStreamOptions {
            file_idx: None,
            file_must_include: vec![],
        },
    };
    assert_eq!(
        body.to_json(),
        "{\"urls\":[[\"http://example.com/file0.rar\"],[\"http://example.com/file1.rar\",123]]}"
    );
    let body = ArchiveStreamBody {
        urls: vec![],
        options: ArchiveStreamOptions {
            file_idx: Some(0),
            file_must_include: vec!["a".to_string(), "b".to_string()],
        },
    };
    assert_eq!(
        body.to_json(),
        "{\"urls\":[],\"fileIdx\":0,\"fileMustInclude\":[\"a\",\"b\"]}"
    );
    assert_eq!(ArchiveStreamBody::default().to_json(), "{\"urls\":[]}");
    assert_eq!(
        FtpStreamBody {
            ftp_url: url("ftp://example.com/a \"b\"")
        }
        .to_json(),
        "{\"ftpUrl\":\"ftp://example.com/a%20%22b%22\"}"
    );
    assert_eq!(
        NzbStreamBody {
            nzb_url: url("https://example.com/file.nzb"),
            servers: vec![]
        }
        .to_json(),
        "{\"nzbUrl\":\"https://example.com/file.nzb\",\"servers\":[]}"
    );
}

#[test]
fn helper_requests_name_their_endpoints() {
    let blob = CreateTorrentBlobRequest {
        server_url: url("http://127.0.0.1:11470/base/"),
        torrent: vec![1, 2, 3, 15, 16, 255],
    };
    assert_eq!(
        blob.endpoint().unwrap().as_str(),
        "http://127.0.0.1:11470/create"
    );
    assert_eq!(blob.body().blob, "0102030f10ff");

    let hash = InfoHash::from_str("df389295484b3059a4726dc6d8a57f71bb5f4c81").unwrap();
    let magnet = CreateMagnetRequest {
        server_url: url("http://127.0.0.1:11470/"),
        info_hash: hash,
        announce: vec!["tracker:udp://t.co".to_string()],
    };
    assert_eq!(
        magnet.endpoint().unwrap().as_str(),
        "http://127.0.0.1:11470/df389295484b3059a4726dc6d8a57f71bb5f4c81/create"
    );
    let body = magnet.body();
    assert_eq!(body.stream.info_hash, hash);
    assert_eq!(
        body.peer_search,
        Some(PeerSearch {
            min: 40,
            max: 200,
            info_hash: hash,
            additional_trackers: vec!["tracker:udp://t.co".to_string()],
        })
    );
    assert_eq!(
        PeerSearch::new(1, 2, hash, vec![]),
        PeerSearch {
            min: 1,
            max: 2,
            info_hash: hash,
            additional_trackers: vec![],
        }
    );
    let quiet = CreateMagnetRequest {
        server_url: url("http://127.0.0.1:11470/"),
        info_hash: hash,
        announce: vec![],
    };
    assert_eq!(quiet.body().stream.info_hash, hash);
    assert_eq!(quiet.body().peer_search, None);

    let statistics = TorrentStatisticsRequest {
        server_url: url("http://127.0.0.1:11470/"),
        request: StatisticsRequest {
            info_hash: "6d0cdb871b81477d00f53f78529028994b364877".to_string(),
            file_idx: 7,
        },
    };
    assert_eq!(
        statistics.endpoint().unwrap().as_str(),
        "http://127.0.0.1:11470/6d0cdb871b81477d00f53f78529028994b364877/7/stats.json"
    );
    let odd = TorrentStatisticsRequest {
        server_url: url("http://127.0.0.1:11470/"),
        request: StatisticsRequest {
            info_hash: "a b/c".to_string(),
            file_idx: 0,
        },
    };
    assert_eq!(
        odd.endpoint().unwrap().as_str(),
        "http://127.0.0.1:11470/a+b%2Fc/0/stats.json"
    );
}

#[test]
fn rating_requests_name_their_endpoints() {
    let api = url("https://likes.example.com/");
    let get = RatingGetStatusRequest {
        auth_key: "key".to_string(),
        meta_item_id: "tt0111161".to_string(),
        meta_item_type: "movie".to_string(),
    };
    assert_eq!(
        get.reference(),
        "api/get_status?authToken=key&mediaId=tt0111161&mediaType=movie"
    );
    assert_eq!(
        get.endpoint(&api).unwrap().as_str(),
        "https://likes.example.com/api/get_status?authToken=key&mediaId=tt0111161&mediaType=movie"
    );
    let send = RatingSendRequest {
        auth_key: "key".to_string(),
        meta_item_id: "tt0111161".to_string(),
        meta_item_type: "movie".to_string(),
        rating: Some(Rating::Loved),
    };
    assert_eq!(
        send.endpoint(&api).unwrap().as_str(),
        "https://likes.example.com/api/send"
    );
    let body = send.body();
    assert_eq!(body.auth_token, "key");
    assert_eq!(body.media_id, "tt0111161");
    assert_eq!(body.media_type, "movie");
    assert_eq!(body.status, Some(Rating::Loved));
}

#[test]
fn stream_text_frames_json() {
    let json = "{\"url\":\"https://example.com/\"}";
    let encode_json = |json: &str| Stream::<StreamSource>::encode(json);
    let decode_json = |text: &str| Stream::<StreamSource>::decode(text);
    let text = encode_json(json).expect("frames");
    assert_eq!(
        text,
        "eAEBHgDh/3sidXJsIjoiaHR0cHM6Ly9leGFtcGxlLmNvbS8ifaBfCmE="
    );
    assert_eq!(decode_json(&text), Some(json.to_string()));
    assert_eq!(
        decode_json("eAEBBQD6/2hlbGxvBiwCFQ=="),
        Some("hello".to_string())
    );
    assert_eq!(decode_json("not base 64"), None);
    assert_eq!(decode_json("aGVsbG8="), None);
    let wide = "caf\u{e9} \u{1f600}";
    assert_eq!(
        decode_json(&encode_json(wide).expect("frames")),
        Some(wide.to_string())
    );
}

#[test]
fn playlist_wraps_the_streaming_url() {
    assert_eq!(
        playlist_lines("https://example.com/movie.mp4"),
        "#EXTM3U\n#EXTINF:0\nhttps://example.com/movie.mp4"
    );
    assert_eq!(
        data_uri("abc"),
        "data:application/octet-stream;charset=utf-8;base64,abc"
    );
    assert_eq!(
        get_m3u_data_uri(&url("https://example.com/movie.mp4")),
        "data:application/octet-stream;charset=utf-8;base64,I0VYVE0zVQojRVhUSU5GOjAKaHR0cHM6Ly9leGFtcGxlLmNvbS9tb3ZpZS5tcDQ="
    );
    let plain = converted(ConvertedStreamSource::Url {
        url: url("https://example.com/movie.mp4"),
    });
    let urls = StreamUrls::new(plain.clone(), None);
    assert_eq!(
        urls.m3u_data_uri,
        Some(get_m3u_data_uri(&url("https://example.com/movie.mp4")))
    );
    assert_eq!(get_streaming_url(&plain), Some(url("https://example.com/movie.mp4")));
    assert_eq!(get_download_url(&plain, None), Some(url("https://example.com/movie.mp4")));
    assert_eq!(get_magnet_url(&plain), None);
}

#[test]
fn torrent_magnet_names_topic_name_and_trackers() {
    let hash = InfoHash::from_str("df389295484b3059a4726dc6d8a57f71bb5f4c81").unwrap();
    let mut torrent = converted(ConvertedStreamSource::Torrent {
        url: url("http://127.0.0.1:11470/df389295484b3059a4726dc6d8a57f71bb5f4c81/-1?tr=x&f=y"),
        info_hash: hash,
        file_idx: None,
        announce: vec![
            "tracker:udp://t.co".to_string(),
            "dht:df389295484b3059a4726dc6d8a57f71bb5f4c81".to_string(),
            "tracker:tracker:x y".to_string(),
        ],
        file_must_include: vec![],
    });
    torrent.name = Some("Sintel".to_string());
    assert_eq!(
        get_magnet_url(&torrent).expect("a magnet link").as_str(),
        "magnet:?xt=urn:btih:df389295484b3059a4726dc6d8a57f71bb5f4c81&dn=Sintel&tr=udp%3A%2F%2Ft.co&tr=df389295484b3059a4726dc6d8a57f71bb5f4c81&tr=tracker%3Ax%20y"
    );
    let trackers = magnet_trackers(&vec![
        "tracker:udp://t.co".to_string(),
        "dht:abc".to_string(),
        "tracker:tracker:x".to_string(),
        "tracker:dht:tracker:".to_string(),
    ]);
    assert_eq!(
        trackers,
        vec![
            "udp%3A%2F%2Ft.co".to_string(),
            "abc".to_string(),
            "tracker%3Ax".to_string(),
            "tracker%3A".to_string(),
        ]
    );
    for tracker in &trackers {
        assert!(!tracker.starts_with("tracker:"));
        assert!(!tracker.starts_with("dht:"));
    }
    let helper = url("http://127.0.0.1:11470/");
    assert_eq!(
        get_download_url(&torrent, Some(&helper)).expect("a download link").as_str(),
        "http://127.0.0.1:11470/df389295484b3059a4726dc6d8a57f71bb5f4c81/-1?external=1&download=1"
    );
    assert_eq!(get_download_url(&torrent, None), None);
    let urls = StreamUrls::new(torrent.clone(), None);
    assert!(urls.m3u_data_uri.is_some());
    assert_eq!(urls.stream, torrent);
}

#[test]
fn streaming_url_is_there_for_what_can_be_played() {
    let helper = url("http://127.0.0.1:11470/");
    let sources = vec![
        (
            ConvertedStreamSource::Url {
                url: url("https://example.com/a"),
            },
            true,
        ),
        (
            ConvertedStreamSource::Url {
                url: url("magnet:?xt=urn:btih:abcdef"),
            },
            false,
        ),
        (
            ConvertedStreamSource::YouTube {
                url: url("http://127.0.0.1:11470/yt/id"),
                yt_id: "id".to_string(),
            },
            true,
        ),
        (
            ConvertedStreamSource::Torrent {
                url: url("http://127.0.0.1:11470/abc/-1"),
                info_hash: InfoHash::new([1; 20]),
                file_idx: None,
                announce: vec![],
                file_must_include: vec![],
            },
            true,
        ),
        (
            ConvertedStreamSource::PlayerFrame {
                player_frame_url: url("https://example.com/frame"),
            },
            false,
        ),
        (
            ConvertedStreamSource::External {
                external_url: None,
                android_tv_url: Some(url("https://example.com/tv")),
                tizen_url: None,
                webos_url: None,
            },
            false,
        ),
    ];
    for (source, playable) in sources {
        for helper in [None, Some(&helper)] {
            let urls = StreamUrls::new(converted(source.clone()), helper);
            assert_eq!(urls.streaming_url.is_some(), playable);
            assert_eq!(urls.m3u_data_uri.is_some(), playable);
            assert!(source.same(&urls.stream.source));
        }
    }
    let external = converted(ConvertedStreamSource::External {
        external_url: None,
        android_tv_url: Some(url("https://example.com/tv")),
        tizen_url: None,
        webos_url: None,
    });
    assert_eq!(get_download_url(&external, None), None);
    assert_eq!(youtube_page("a b"), "https://youtube.com/watch?v=a%20b");
}

#[test]
fn proxy_headers_default_to_none() {
    let hints = StreamBehaviorHints::default();
    assert!(!hints.not_web_ready);
    assert_eq!(hints.binge_group, None);
    assert_eq!(hints.country_whitelist, None);
    assert_eq!(hints.proxy_headers, None);
    assert_eq!(hints.filename, None);
    assert_eq!(hints.video_hash, None);
    assert_eq!(hints.video_size, None);
    assert!(hints.other.is_empty());
    assert_eq!(hints.clone(), hints);
    let headers = StreamProxyHeaders::default();
    assert!(headers.request.is_empty());
    assert!(headers.response.is_empty());
    assert_eq!(headers.clone(), headers);
}
