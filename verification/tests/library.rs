use mangaplus_api::cache_gc::{CacheEntry, PruneStats, Pruner};
use mangaplus_api::client::{throttle_wait, ClientConfig, DEFAULT_MAX_CONCURRENT_IMAGES};
use mangaplus_api::error::HttpFault;
use mangaplus_api::image::{
    cache_key, check_image_response, image_content_type, usable_cache_hit, ImageRetry, RetryStep,
    MAX_IMAGE_BYTES,
};
use mangaplus_api::lang;
use mangaplus_api::proto::{self, response, success_result::Data};
use mangaplus_api::register::{register_query, register_url, registration_params};
use mangaplus_api::request::{api_url, check_status, request_query, ApiCall, HttpMethod};
use mangaplus_api::response::{
    chapter_pages_from_response, decode_ack, device_secret_from_response, extract_success_data,
    search_from_response, title_detail_from_response, variant_name,
};
use mangaplus_api::ApiError;
use std::time::Duration;

fn pairs(q: &[(String, String)]) -> Vec<(&str, &str)> {
    q.iter().map(|(a, b)| (a.as_str(), b.as_str())).collect()
}

fn success(data: Option<Data>) -> proto::Response {
    proto::Response {
        result: Some(response::Result::Success(proto::SuccessResult { data })),
    }
}

fn server_failure(action: i32, debug: &str) -> proto::Response {
    proto::Response {
        result: Some(response::Result::Error(proto::ErrorResult {
            action,
            english_popup: None,
            debug_info: debug.into(),
        })),
    }
}

#[test]
fn config_defaults() {
    let cfg = ClientConfig::new("s3cret");
    assert_eq!(cfg.host, "jumpg-api.tokyo-cdn.com");
    assert_eq!(cfg.app_ver, "250");
    assert_eq!(cfg.os_ver, "36");
    assert_eq!(cfg.secret, "s3cret");
    assert_eq!(cfg.min_request_interval, Duration::from_millis(500));
    assert!(cfg.image_cache_dir.is_none());
    assert_eq!(cfg.max_concurrent_images, DEFAULT_MAX_CONCURRENT_IMAGES);
    assert_eq!(cfg.image_retry_attempts, 2);
    assert_eq!(cfg.image_retry_backoff_ms, 250);
    assert_eq!(cfg.image_permits(), 12);
    let mut zero = cfg.clone();
    zero.max_concurrent_images = 0;
    assert_eq!(zero.image_permits(), 1);
}

#[test]
fn throttle_waits_for_the_rest_of_the_interval() {
    let min = Duration::from_millis(500);
    assert_eq!(throttle_wait(None, min), None);
    assert_eq!(throttle_wait(Some(Duration::from_millis(120)), min), Some(Duration::from_millis(380)));
    assert_eq!(throttle_wait(Some(Duration::from_millis(500)), min), None);
    assert_eq!(throttle_wait(Some(Duration::from_secs(3)), min), None);
}

#[test]
fn request_url_and_mandatory_query() {
    let cfg = ClientConfig::new("abc");
    assert_eq!(api_url(&cfg.host, "profile"), "https://jumpg-api.tokyo-cdn.com/api/profile");
    let q = request_query(&cfg, &[("title_id", "7")]);
    assert_eq!(
        pairs(&q),
        vec![("os", "android"), ("os_ver", "36"), ("app_ver", "250"), ("secret", "abc"), ("title_id", "7")]
    );
    assert_eq!(request_query(&cfg, &[]).len(), 4);
}

#[test]
fn status_check_accepts_only_2xx() {
    assert!(check_status(200).is_ok());
    assert!(check_status(299).is_ok());
    assert!(matches!(check_status(199), Err(ApiError::Status(199))));
    assert!(matches!(check_status(300), Err(ApiError::Status(300))));
    assert!(matches!(check_status(404), Err(ApiError::Status(404))));
}

#[test]
fn endpoint_calls_carry_their_parameters() {
    let c = ApiCall::title_detail(100020, "ESP", "xx", "US");
    assert_eq!(c.method, HttpMethod::Get);
    assert_eq!(c.path, "title_detailV3");
    assert_eq!(
        pairs(&c.query),
        vec![("title_id", "100020"), ("lang", "esp"), ("clang", "eng"), ("country_code", "US")]
    );
    let c = ApiCall::chapter_pages(1000486, "high", "vertical", "fra", "");
    assert_eq!(c.path, "manga_viewer_v3");
    assert_eq!(
        pairs(&c.query),
        vec![
            ("chapter_id", "1000486"),
            ("split", "yes"),
            ("img_quality", "high"),
            ("ticket_reading", "no"),
            ("free_reading", "no"),
            ("subscription_reading", "yes"),
            ("viewer_mode", "vertical"),
            ("clang", "fra"),
            ("country_code", ""),
        ]
    );
    let c = ApiCall::add_favorite(0);
    assert_eq!((c.method, c.path), (HttpMethod::Put, "title_list/bookmark"));
    assert_eq!(pairs(&c.query), vec![("title_id", "0")]);
    let c = ApiCall::remove_favorite(4294967295);
    assert_eq!((c.method, c.path), (HttpMethod::Delete, "title_list/bookmark"));
    assert_eq!(pairs(&c.query), vec![("title_id", "4294967295")]);
    let c = ApiCall::search("Tha", "deu");
    assert_eq!(pairs(&c.query), vec![("lang", "tha"), ("clang", "deu")]);
    let c = ApiCall::all_titles_by_type("completed", "vie", "PTB");
    assert_eq!(c.path, "title_list/all_v3");
    assert_eq!(pairs(&c.query), vec![("type", "completed"), ("lang", "vie"), ("clang", "ptb")]);
    let c = ApiCall::subscription("JP");
    assert_eq!(c.path, "subscription");
    assert_eq!(pairs(&c.query), vec![("country_code", "JP")]);
    assert_eq!(ApiCall::profile().path, "profile");
    assert!(ApiCall::profile().query.is_empty());
    assert_eq!(ApiCall::favorites().path, "title_list/bookmark");
}

#[test]
fn registration_request_shape() {
    assert_eq!(register_url(), "https://jumpg-api.tokyo-cdn.com/api/register");
    let q = register_query("t", "k");
    assert_eq!(
        pairs(&q),
        vec![("os", "android"), ("os_ver", "36"), ("app_ver", "250"), ("device_token", "t"), ("security_key", "k")]
    );
    let (token, key) = registration_params().unwrap();
    let (t2, _) = registration_params().unwrap();
    assert_ne!(token, t2);
    assert_eq!(token.len(), 32);
    assert_eq!(key.len(), 32);
    assert!(token.chars().all(|c| c.is_ascii_hexdigit() && !c.is_ascii_uppercase()));
}

#[test]
fn cache_key_strips_host_secure_and_query() {
    assert_eq!(
        cache_key("https://jumpg-assets3.tokyo-cdn.com/secure/title/1/chapter/2/manga_page/high/3.webp?hash=abc"),
        "title/1/chapter/2/manga_page/high/3.webp"
    );
    assert_eq!(cache_key("https://host/title/9.webp"), "title/9.webp");
    assert_eq!(cache_key("no-slashes?x=1"), "no-slashes");
    assert_eq!(cache_key("a/b/secure/c"), "c");
    assert_eq!(cache_key("secure/x"), "x");
    assert_eq!(cache_key("https://host/secure/"), "");
}

#[test]
fn image_response_checks() {
    assert!(check_image_response(200, Some(MAX_IMAGE_BYTES)).is_ok());
    assert!(check_image_response(204, None).is_ok());
    assert!(matches!(check_image_response(404, Some(1)), Err(ApiError::Status(404))));
    match check_image_response(200, Some(MAX_IMAGE_BYTES + 1)) {
        Err(ApiError::Other(m)) => assert_eq!(m, "image too large: 33554433 bytes (cap 33554432)"),
        other => panic!("unexpected {other:?}"),
    }
    assert_eq!(image_content_type(Some("image/png".into()), "image/webp"), "image/png");
    assert_eq!(image_content_type(None, "image/webp"), "image/webp");
    assert_eq!(usable_cache_hit(Some(vec![1, 2])), Some(vec![1, 2]));
    assert_eq!(usable_cache_hit(Some(vec![])), None);
    assert_eq!(usable_cache_hit(None), None);
}

#[test]
fn retry_schedule_backs_off_then_gives_up() {
    let mut r = ImageRetry::new(2, 250);
    match r.on_result::<u8>(Err(ApiError::Status(503))) {
        RetryStep::RetryAfter(ms) => assert_eq!(ms, 250),
        other => panic!("unexpected {other:?}"),
    }
    assert_eq!(r.attempt(), 1);
    match r.on_result::<u8>(Err(ApiError::Status(429))) {
        RetryStep::RetryAfter(ms) => assert_eq!(ms, 500),
        other => panic!("unexpected {other:?}"),
    }
    match r.on_result::<u8>(Err(ApiError::Status(500))) {
        RetryStep::Done(Err(ApiError::Status(500))) => {}
        other => panic!("unexpected {other:?}"),
    }
    assert_eq!(r.attempt(), 2);
}

#[test]
fn retry_stops_on_success_and_hard_errors() {
    let mut r = ImageRetry::new(5, 10);
    assert!(matches!(r.on_result(Ok(7u8)), RetryStep::Done(Ok(7))));
    assert!(matches!(r.on_result::<u8>(Err(ApiError::Status(404))), RetryStep::Done(Err(ApiError::Status(404)))));
    let mut none = ImageRetry::new(0, 10);
    let fault = ApiError::Http(HttpFault { timeout: true, connect: false, request: false, body: false, message: "t".into() });
    assert!(matches!(none.on_result::<u8>(Err(fault)), RetryStep::Done(Err(ApiError::Http(_)))));
    let mut many = ImageRetry::new(u32::MAX, 1);
    assert!(matches!(many.on_result::<u8>(Err(ApiError::Status(502))), RetryStep::RetryAfter(1)));
}

#[test]
fn response_payload_kinds_and_errors() {
    let r = search_from_response(success(Some(Data::SearchView(proto::SearchView { encoded: vec![1, 2, 3] }))));
    assert_eq!(r.unwrap().encoded, vec![1, 2, 3]);
    match search_from_response(success(Some(Data::SubscriptionView(proto::SubscriptionView { encoded: vec![] })))) {
        Err(ApiError::UnexpectedVariant { actual, expected }) => {
            assert_eq!(actual, "subscription_view");
            assert_eq!(expected, "search_view");
        }
        other => panic!("unexpected {other:?}"),
    }
    assert!(matches!(search_from_response(success(None)), Err(ApiError::EmptyResponse)));
    assert!(matches!(search_from_response(proto::Response { result: None }), Err(ApiError::EmptyResponse)));
    let err = search_from_response(server_failure(5, "")).unwrap_err();
    assert_eq!(err.to_string(), "API error: action=5");
    let err = device_secret_from_response(server_failure(-1, "down")).unwrap_err();
    assert_eq!(err.to_string(), "API error: down (action=-1)");
    let secret = device_secret_from_response(success(Some(Data::RegisterationData(proto::RegisterationData {
        device_secret: "abc".into(),
    }))));
    assert_eq!(secret.unwrap(), "abc");
    assert!(extract_success_data(success(None)).is_err());
    assert_eq!(
        variant_name(&Data::FavoriteTitlesView(proto::FavoriteTitlesView { encoded: vec![] })),
        "favorite_titles_view"
    );
}

#[test]
fn ack_accepts_anything_but_a_server_error() {
    assert!(decode_ack(success(None)).is_ok());
    assert!(decode_ack(proto::Response { result: None }).is_ok());
    let err = decode_ack(server_failure(1, "")).unwrap_err();
    assert_eq!(err.to_string(), "API error: action=1");
}

#[test]
fn language_checks_name_the_mismatch() {
    let detail = proto::TitleDetailView { title: Some(proto::Title { language: 8 }), encoded: vec![] };
    let r = title_detail_from_response(success(Some(Data::TitleDetailView(detail))), "ENG");
    assert_eq!(
        r.unwrap_err().to_string(),
        "title detail language mismatch: requested eng, got unknown (enum 8)"
    );
    let untitled = proto::TitleDetailView { title: None, encoded: vec![9, 8] };
    let kept = title_detail_from_response(success(Some(Data::TitleDetailView(untitled))), "fra").unwrap();
    assert_eq!(kept.encoded, vec![9, 8]);
    let french = proto::TitleDetailView { title: Some(proto::Title { language: 2 }), encoded: vec![1, 2, 3] };
    let kept = title_detail_from_response(success(Some(Data::TitleDetailView(french))), "FRA").unwrap();
    assert_eq!(kept.encoded, vec![1, 2, 3]);
    assert_eq!(kept.title.unwrap().language, 2);
    let viewer = proto::MangaViewer { title_language: "ESP".into(), encoded: vec![7, 7, 7] };
    let kept = chapter_pages_from_response(success(Some(Data::MangaViewer(viewer))), "esp").unwrap();
    assert_eq!(kept.encoded, vec![7, 7, 7]);
    assert_eq!(kept.title_language, "ESP");
    let viewer = proto::MangaViewer { title_language: "esp".into(), encoded: vec![] };
    let r = chapter_pages_from_response(success(Some(Data::MangaViewer(viewer))), "rus");
    assert_eq!(r.unwrap_err().to_string(), "manga viewer language mismatch: requested rus, got esp");
    assert_eq!(lang::from_wire_enum(8), None);
    assert_eq!(lang::wire_enum("VIE"), 9);
}

#[test]
fn error_texts() {
    assert_eq!(ApiError::Status(503).to_string(), "HTTP status 503");
    assert_eq!(ApiError::EmptyResponse.to_string(), "empty response");
    assert_eq!(ApiError::Decode("bad wire type".into()).to_string(), "protobuf decode error: bad wire type");
    assert_eq!(ApiError::Other("boom".into()).to_string(), "boom");
    let e = ApiError::UnexpectedVariant { actual: "manga_viewer", expected: "search_view" };
    assert_eq!(e.to_string(), "unexpected response variant: expected search_view, got manga_viewer");
    let e = ApiError::Server { code: None, action: None, english: None };
    assert_eq!(e.to_string(), "API error");
}

fn entry(size: u64, age_secs: i128, path: &[&str]) -> CacheEntry {
    CacheEntry {
        size,
        modified_nanos: 1_000_000 * 1_000_000_000 - age_secs * 1_000_000_000,
        path: path.iter().map(|c| c.as_bytes().to_vec()).collect(),
    }
}

fn run(entries: Vec<CacheEntry>, max: u64, fail: &[usize]) -> (Vec<usize>, PruneStats) {
    let mut p = Pruner::new(entries, max).unwrap();
    let mut tried = Vec::new();
    while let Some(v) = p.next_victim() {
        tried.push(v);
        p.record(!fail.contains(&v));
    }
    (tried, p.stats())
}

#[test]
fn under_budget_is_a_noop() {
    let (tried, stats) = run(vec![entry(100, 30, &["/c", "a", "1.webp"]), entry(100, 10, &["/c", "b", "2.webp"])], 1000, &[]);
    assert!(tried.is_empty());
    assert_eq!(stats.files_scanned, 2);
    assert_eq!(stats.bytes_scanned, 200);
    assert_eq!(stats.files_removed, 0);
}

#[test]
fn removes_oldest_first_until_within_budget() {
    let es = vec![
        entry(100, 100, &["/c", "new.webp"]),
        entry(100, 300, &["/c", "old.webp"]),
        entry(100, 200, &["/c", "mid.webp"]),
    ];
    let (tried, stats) = run(es, 150, &[]);
    assert_eq!(tried, vec![1, 2]);
    assert_eq!(stats.files_removed, 2);
    assert_eq!(stats.bytes_removed, 200);
}

#[test]
fn missing_directory_is_a_noop() {
    let (tried, stats) = run(vec![], 1000, &[]);
    assert!(tried.is_empty());
    assert_eq!(stats, PruneStats::default());
}

#[test]
fn zero_budget_removes_everything() {
    let (tried, stats) = run(vec![entry(50, 20, &["/c", "a", "1.webp"]), entry(50, 10, &["/c", "a", "2.webp"])], 0, &[]);
    assert_eq!(tried, vec![0, 1]);
    assert_eq!(stats.files_removed, 2);
    assert_eq!(stats.bytes_removed, 100);
}

#[test]
fn ties_break_by_path_and_undeletable_files_are_skipped() {
    let es = vec![
        entry(10, 5, &["/c", "b"]),
        entry(10, 5, &["/c", "a.b", "x"]),
        entry(10, 5, &["/c", "a", "x"]),
        entry(10, 9, &["/c", "z"]),
    ];
    let (tried, stats) = run(es, 15, &[3]);
    assert_eq!(tried, vec![3, 2, 1, 0]);
    assert_eq!(stats.files_removed, 3);
    assert_eq!(stats.bytes_removed, 30);
}

#[test]
fn overflowing_sizes_are_refused() {
    assert!(Pruner::new(vec![entry(u64::MAX, 1, &["a"]), entry(1, 1, &["b"])], 0).is_none());
    assert!(Pruner::new(vec![entry(u64::MAX, 1, &["a"])], 0).is_some());
}

#[test]
fn transport_error_text() {
    let e = ApiError::Http(HttpFault { timeout: false, connect: true, request: false, body: false, message: "refused".into() });
    assert_eq!(e.to_string(), "HTTP error: refused");
    let e = ApiError::Server { code: Some("action=1".into()), action: Some("x".into()), english: Some("m".into()) };
    assert_eq!(e.to_string(), "API error: m (action=1, x)");
    assert_eq!(lang::normalize(lang::normalize("dEu")), "deu");
}

#[test]
fn pruning_deletes_the_shortest_oldest_prefix() {
    // Five files of 10 bytes, budget 25: the three oldest go, in age order,
    // whatever order the scan listed them in.
    let es = vec![
        entry(10, 1, &["/c", "e"]),
        entry(10, 50, &["/c", "a"]),
        entry(10, 3, &["/c", "d"]),
        entry(10, 40, &["/c", "b"]),
        entry(10, 20, &["/c", "c"]),
    ];
    let (tried, stats) = run(es, 25, &[]);
    assert_eq!(tried, vec![1, 3, 4]);
    assert_eq!(stats.bytes_removed, 30);
    assert_eq!(stats.files_scanned, 5);
    assert_eq!(stats.bytes_scanned, 50);
}
