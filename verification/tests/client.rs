use mangaplus_api::error::{is_retriable, HttpFault};
use mangaplus_api::image::{backoff_delay_ms, content_type_from_ext};
use mangaplus_api::lang;
use mangaplus_api::proto;
use mangaplus_api::register::{derive_register_params, md5_hex};
use mangaplus_api::response::{server_error, validate_manga_viewer_language, validate_title_detail_language};
use mangaplus_api::ApiError;

#[test]
fn server_error_surfaces_english_popup() {
    // Live-observed shape: a subscription-locked chapter returns
    // english_popup { subject: "Invalid user", body: "Invalid user
    // access(11301)" } with action=0 and empty debug_info.
    let err = server_error(proto::ErrorResult {
        action: 0,
        english_popup: Some(proto::ErrorPopup {
            subject: "Invalid user".into(),
            body: "Invalid user access(11301)".into(),
        }),
        debug_info: String::new(),
    });
    assert_eq!(
        err.to_string(),
        "API error: Invalid user: Invalid user access(11301) (action=0)"
    );
}

#[test]
fn server_error_falls_back_to_debug_info_then_code() {
    let err = server_error(proto::ErrorResult {
        action: 2,
        english_popup: None,
        debug_info: "maintenance".into(),
    });
    assert_eq!(err.to_string(), "API error: maintenance (action=2)");

    let bare = server_error(proto::ErrorResult {
        action: 3,
        english_popup: None,
        debug_info: String::new(),
    });
    assert_eq!(bare.to_string(), "API error: action=3");
}

#[test]
fn supported_languages_are_normalized_with_english_as_default() {
    let supported = [
        lang::ENGLISH,
        lang::SPANISH,
        lang::FRENCH,
        lang::INDONESIAN,
        lang::PORTUGUESE_BR,
        lang::RUSSIAN,
        lang::THAI,
        lang::VIETNAMESE,
        lang::GERMAN,
    ];
    for code in supported {
        assert_eq!(lang::normalize(code), code);
        assert_eq!(lang::normalize(&code.to_ascii_uppercase()), code);
    }
    assert_eq!(lang::normalize(""), lang::ENGLISH);
    assert_eq!(lang::normalize("unsupported"), lang::ENGLISH);
}

#[test]
fn supported_language_wire_mapping_round_trips() {
    for code in [
        lang::ENGLISH,
        lang::SPANISH,
        lang::FRENCH,
        lang::INDONESIAN,
        lang::PORTUGUESE_BR,
        lang::RUSSIAN,
        lang::THAI,
        lang::VIETNAMESE,
        lang::GERMAN,
    ] {
        assert_eq!(lang::from_wire_enum(lang::wire_enum(code)), Some(code));
    }
    assert_eq!(lang::from_wire_enum(i32::MAX), None);
}

#[test]
fn title_detail_and_manga_viewer_accept_only_the_requested_language() {
    for code in [
        lang::ENGLISH,
        lang::SPANISH,
        lang::FRENCH,
        lang::INDONESIAN,
        lang::PORTUGUESE_BR,
        lang::RUSSIAN,
        lang::THAI,
        lang::VIETNAMESE,
        lang::GERMAN,
    ] {
        let detail = proto::TitleDetailView {
            title: Some(proto::Title {
                language: lang::wire_enum(code),
                ..Default::default()
            }),
            ..Default::default()
        };
        assert!(validate_title_detail_language(detail, code).is_ok());

        let viewer = proto::MangaViewer {
            title_language: code.to_string(),
            ..Default::default()
        };
        assert!(validate_manga_viewer_language(viewer, code).is_ok());
    }

    let spanish_detail = proto::TitleDetailView {
        title: Some(proto::Title {
            language: lang::wire_enum(lang::SPANISH),
            ..Default::default()
        }),
        ..Default::default()
    };
    assert!(validate_title_detail_language(spanish_detail, lang::PORTUGUESE_BR).is_err());

    let spanish_viewer = proto::MangaViewer {
        title_language: lang::SPANISH.to_string(),
        ..Default::default()
    };
    assert!(validate_manga_viewer_language(spanish_viewer, lang::PORTUGUESE_BR).is_err());
}

#[test]
fn md5_hex_known_vectors() {
    assert_eq!(md5_hex(b""), "d41d8cd98f00b204e9800998ecf8427e");
    assert_eq!(md5_hex(b"abc"), "900150983cd24fb0d6963f7d28e17f72");
}

#[test]
fn register_handshake_matches_official_app() {
    let android_id = "0123456789abcdef";
    let (device_token, security_key) = derive_register_params(android_id);
    assert_eq!(device_token, "4032af8d61035123906e58e067140cc5");
    assert_eq!(security_key, "1d296d89370e92821e55b10ef8c3b315");
}

#[test]
fn content_type_from_ext_known_extensions() {
    assert_eq!(content_type_from_ext("https://h/p/img.png"), "image/png");
    assert_eq!(content_type_from_ext("https://h/p/img.jpg"), "image/jpeg");
    assert_eq!(content_type_from_ext("https://h/p/img.jpeg"), "image/jpeg");
    assert_eq!(content_type_from_ext("https://h/p/img.gif"), "image/gif");
    assert_eq!(content_type_from_ext("https://h/p/img.avif"), "image/avif");
    assert_eq!(content_type_from_ext("https://h/p/img.heic"), "image/heif");
    assert_eq!(content_type_from_ext("https://h/p/img.webp"), "image/webp");
    // Unknown extension falls back to webp (the overwhelming case).
    assert_eq!(content_type_from_ext("https://h/p/img.xyz"), "image/webp");
    // Query string must not confuse the extension match.
    assert_eq!(content_type_from_ext("https://h/p/img.png?sig=abc"), "image/png");
}

#[test]
fn backoff_delay_is_zero_for_initial_attempt() {
    assert_eq!(backoff_delay_ms(250, 0), 0);
    assert_eq!(backoff_delay_ms(9999, 0), 0);
}

#[test]
fn backoff_delay_doubles_each_retry() {
    assert_eq!(backoff_delay_ms(250, 1), 250);
    assert_eq!(backoff_delay_ms(250, 2), 500);
    assert_eq!(backoff_delay_ms(250, 3), 1_000);
    assert_eq!(backoff_delay_ms(250, 4), 2_000);
    assert_eq!(backoff_delay_ms(250, 5), 4_000);
}

#[test]
fn backoff_delay_caps_shift_at_eight() {
    assert_eq!(backoff_delay_ms(250, 9), 64_000);
    assert_eq!(backoff_delay_ms(250, 50), 64_000);
    assert_eq!(backoff_delay_ms(250, u32::MAX), 64_000);
}

#[test]
fn backoff_delay_saturates_on_huge_base() {
    let huge = u64::MAX / 2;
    assert_eq!(backoff_delay_ms(huge, 9), u64::MAX);
}

#[test]
fn is_retriable_treats_transport_faults_and_5xx_as_retriable() {
    assert!(is_retriable(&ApiError::Status(500)));
    assert!(is_retriable(&ApiError::Status(503)));
    assert!(is_retriable(&ApiError::Status(599)));
    assert!(is_retriable(&ApiError::Status(408)));
    assert!(is_retriable(&ApiError::Status(429)));
}

#[test]
fn is_retriable_fails_fast_on_hard_4xx_and_logic_errors() {
    assert!(!is_retriable(&ApiError::Status(400)));
    assert!(!is_retriable(&ApiError::Status(401)));
    assert!(!is_retriable(&ApiError::Status(403)));
    assert!(!is_retriable(&ApiError::Status(404)));
    assert!(!is_retriable(&ApiError::Status(410)));
    assert!(!is_retriable(&ApiError::EmptyResponse));
}

#[test]
fn is_retriable_follows_transport_fault_kind() {
    let fault = |timeout, connect, request, body| {
        ApiError::Http(HttpFault { timeout, connect, request, body, message: "x".into() })
    };
    assert!(is_retriable(&fault(true, false, false, false)));
    assert!(is_retriable(&fault(false, true, false, false)));
    assert!(is_retriable(&fault(false, false, true, false)));
    assert!(is_retriable(&fault(false, false, false, true)));
    assert!(!is_retriable(&fault(false, false, false, false)));
    assert!(!is_retriable(&ApiError::Other("x".into())));
    assert!(!is_retriable(&ApiError::Status(200)));
    assert!(!is_retriable(&ApiError::Status(600)));
}
