//! Interpretation of decoded API answers: server errors, the success
//! payload, the payload kind each endpoint expects, and the language checks
//! applied to title details and chapter viewers.

use vstd::prelude::*;
use crate::error::{opt_view, ApiError, Result};
use crate::lang::{
    law_normalize_defaults_to_english, law_normalize_idempotent, law_wire_values_fixed, lemma_code_spellings, supported_codes,
    code_wire_value, is_supported, law_normalize_matches_ignoring_case, law_supported_ci_distinct,
    law_wire_value_injective, from_wire_enum, normalize, spec_from_wire_enum, spec_normalize, wire_enum};
use crate::proto::response;
use crate::proto::success_result::Data;
use crate::proto::{
    ErrorPopup, ErrorResult, FavoriteTitlesView, MangaViewer, ProfileSettingsView, Response,
    SearchView, SubscribedTitlesView, SubscriptionView, TitleDetailView,
};
use crate::text::{ascii_ci_eq, eq_ignore_ascii_case, push_signed_decimal, push_str, signed_decimal};

verus! {

/// The message of an English popup: "subject: body", or whichever of the
/// two is non-empty; none when both are empty or there is no popup.
pub open spec fn popup_text(p: Option<ErrorPopup>) -> Option<Seq<char>> {
    match p {
        None => None,
        Some(p) => if p.subject@.len() > 0 && p.body@.len() > 0 {
            Some(p.subject@ + ": "@ + p.body@)
        } else if p.subject@.len() > 0 {
            Some(p.subject@)
        } else if p.body@.len() > 0 {
            Some(p.body@)
        } else {
            None
        },
    }
}

/// The English text of a server error: the popup if it has text, else the
/// debug info if it is non-empty, else none.
pub open spec fn server_english(e: ErrorResult) -> Option<Seq<char>> {
    match popup_text(e.english_popup) {
        Some(t) => Some(t),
        None => if e.debug_info@.len() > 0 {
            Some(e.debug_info@)
        } else {
            None
        },
    }
}

/// `x` is the client error for the server error `e`.
pub open spec fn server_error_of(x: ApiError, e: ErrorResult) -> bool {
    match x {
        ApiError::Server { code, action, english } => {
            &&& opt_view(code) == Some("action="@ + signed_decimal(e.action as int))
            &&& action is None
            &&& opt_view(english) == server_english(e)
        },
        _ => false,
    }
}

/// Turn a server error result into a client error. Prefers the server's
/// human-readable English popup over the usually-empty debug info.
pub fn server_error(e: ErrorResult) -> (r: ApiError)
    ensures
        server_error_of(r, e),
{
    let ghost e0 = e;
    let ErrorResult { action, english_popup, debug_info } = e;
    let popup: Option<String> = match english_popup {
        Some(p) => {
            let ErrorPopup { subject, body } = p;
            let subject_empty = subject.as_str().is_empty();
            let body_empty = body.as_str().is_empty();
            if !subject_empty && !body_empty {
                let mut text = subject;
                push_str(&mut text, ": ");
                push_str(&mut text, body.as_str());
                Some(text)
            } else if !subject_empty {
                Some(subject)
            } else if !body_empty {
                Some(body)
            } else {
                None
            }
        },
        None => None,
    };
    assert(opt_view(popup) == popup_text(e0.english_popup));
    let english: Option<String> = match popup {
        Some(t) => Some(t),
        None => if debug_info.as_str().is_empty() {
            None
        } else {
            Some(debug_info)
        },
    };
    let mut code = String::new();
    push_str(&mut code, "action=");
    push_signed_decimal(&mut code, action as i64);
    assert(code@ =~= "action="@ + signed_decimal(e0.action as int));
    ApiError::Server { code: Some(code), action: None, english }
}

/// The wire label of a payload kind.
pub open spec fn spec_variant_name(d: Data) -> Seq<char> {
    match d {
        Data::RegisterationData(_) => "registeration_data"@,
        Data::SubscribedTitlesView(_) => "subscribed_titles_view"@,
        Data::TitleDetailView(_) => "title_detail_view"@,
        Data::MangaViewer(_) => "manga_viewer"@,
        Data::ProfileSettingsView(_) => "profile_settings_view"@,
        Data::SearchView(_) => "search_view"@,
        Data::SubscriptionView(_) => "subscription_view"@,
        Data::FavoriteTitlesView(_) => "favorite_titles_view"@,
    }
}

/// The wire label of a payload kind.
pub fn variant_name(d: &Data) -> (r: &'static str)
    ensures
        r@ == spec_variant_name(*d),
{
    match d {
        Data::RegisterationData(_) => "registeration_data",
        Data::SubscribedTitlesView(_) => "subscribed_titles_view",
        Data::TitleDetailView(_) => "title_detail_view",
        Data::MangaViewer(_) => "manga_viewer",
        Data::ProfileSettingsView(_) => "profile_settings_view",
        Data::SearchView(_) => "search_view",
        Data::SubscriptionView(_) => "subscription_view",
        Data::FavoriteTitlesView(_) => "favorite_titles_view",
    }
}

/// The success payload of an answer, if it has one.
pub open spec fn resp_data(resp: Response) -> Option<Data> {
    match resp.result {
        Some(response::Result::Success(s)) => s.data,
        _ => None,
    }
}

/// `x` is the error for an answer without a success payload: the server's
/// error if it reported one, else `EmptyResponse`.
pub open spec fn failure_error(resp: Response, x: ApiError) -> bool {
    match resp.result {
        Some(response::Result::Error(e)) => server_error_of(x, e),
        _ => x is EmptyResponse,
    }
}

/// Pull the success payload out of an answer.
pub fn extract_success_data(resp: Response) -> (r: Result<Data>)
    ensures
        resp_data(resp) matches Some(d) ==> r == Ok::<Data, ApiError>(d),
        resp_data(resp) is None ==> (r matches Err(x) && failure_error(resp, x)),
{
    match resp.result {
        Some(response::Result::Success(s)) => match s.data {
            Some(d) => Ok(d),
            None => Err(ApiError::EmptyResponse),
        },
        Some(response::Result::Error(e)) => Err(server_error(e)),
        None => Err(ApiError::EmptyResponse),
    }
}

/// For ack-only answers: succeed unless the server reported an error.
pub fn decode_ack(resp: Response) -> (r: Result<()>)
    ensures
        match resp.result {
            Some(response::Result::Error(e)) => r matches Err(x) && server_error_of(x, e),
            _ => r is Ok,
        },
{
    match resp.result {
        Some(response::Result::Success(_)) | None => Ok(()),
        Some(response::Result::Error(e)) => Err(server_error(e)),
    }
}

/// Extract the success payload and apply `matcher`, which accepts the
/// expected payload kind and refuses the others.
pub fn extract_variant<T, F: FnOnce(Data) -> std::result::Result<T, ()>>(
    resp: Response,
    expected_label: &'static str,
    matcher: F,
) -> (r: Result<T>)
    requires
        forall|d: Data| #[trigger] matcher.requires((d,)),
    ensures
        resp_data(resp) is None ==> (r matches Err(x) && failure_error(resp, x)),
        resp_data(resp) matches Some(d) ==> exists|m: std::result::Result<T, ()>|
            #[trigger] matcher.ensures((d,), m) && match m {
                Ok(v) => r == Ok::<T, ApiError>(v),
                Err(_) => r matches Err(ApiError::UnexpectedVariant { actual, expected })
                    && actual@ == spec_variant_name(d) && expected == expected_label,
            },
{
    let data = extract_success_data(resp)?;
    let label = variant_name(&data);
    let ghost d = data;
    let m = matcher(data);
    match m {
        Ok(v) => Ok(v),
        Err(_) => Err(ApiError::UnexpectedVariant { actual: label, expected: expected_label }),
    }
}

/// The outcome an endpoint owes for an answer, when `pick` selects the
/// payload kind that the endpoint expects and `label` is that kind's name.
pub open spec fn variant_outcome<T>(
    resp: Response,
    label: Seq<char>,
    pick: spec_fn(Data) -> Option<T>,
    r: Result<T>,
) -> bool {
    match resp_data(resp) {
        None => r matches Err(x) && failure_error(resp, x),
        Some(d) => match pick(d) {
            Some(v) => r == Ok::<T, ApiError>(v),
            None => r matches Err(ApiError::UnexpectedVariant { actual, expected })
                && actual@ == spec_variant_name(d) && expected@ == label,
        },
    }
}

/// The search catalog in an answer.
pub open spec fn pick_search(d: Data) -> Option<SearchView> {
    match d {
        Data::SearchView(v) => Some(v),
        _ => None,
    }
}

/// Accepts a search catalog payload.
fn accept_search(d: Data) -> (m: std::result::Result<SearchView, ()>)
    ensures
        pick_search(d) matches Some(v) ==> (m matches Ok(x) && x == v),
        pick_search(d) is None ==> m is Err,
{
    match d {
        Data::SearchView(v) => Ok(v),
        _ => Err(()),
    }
}

/// The search catalog (or an all-titles bucket) of an answer.
pub fn search_from_response(resp: Response) -> (r: Result<SearchView>)
    ensures
        variant_outcome(resp, "search_view"@, |d: Data| pick_search(d), r),
{
    extract_variant(resp, "search_view", accept_search)
}

/// The profile settings in an answer.
pub open spec fn pick_profile(d: Data) -> Option<ProfileSettingsView> {
    match d {
        Data::ProfileSettingsView(v) => Some(v),
        _ => None,
    }
}

/// The bookmarked titles in an answer.
pub open spec fn pick_favorites(d: Data) -> Option<SubscribedTitlesView> {
    match d {
        Data::SubscribedTitlesView(v) => Some(v),
        _ => None,
    }
}

/// The subscription state in an answer.
pub open spec fn pick_subscription(d: Data) -> Option<SubscriptionView> {
    match d {
        Data::SubscriptionView(v) => Some(v),
        _ => None,
    }
}

/// The title detail in an answer.
pub open spec fn pick_title_detail(d: Data) -> Option<TitleDetailView> {
    match d {
        Data::TitleDetailView(v) => Some(v),
        _ => None,
    }
}

/// The chapter viewer in an answer.
pub open spec fn pick_manga_viewer(d: Data) -> Option<MangaViewer> {
    match d {
        Data::MangaViewer(v) => Some(v),
        _ => None,
    }
}

/// The device secret in a registration answer.
pub open spec fn pick_device_secret(d: Data) -> Option<String> {
    match d {
        Data::RegisterationData(r) => Some(r.device_secret),
        _ => None,
    }
}

fn accept_profile(d: Data) -> (m: std::result::Result<ProfileSettingsView, ()>)
    ensures
        pick_profile(d) matches Some(v) ==> (m matches Ok(x) && x == v),
        pick_profile(d) is None ==> m is Err,
{
    match d {
        Data::ProfileSettingsView(v) => Ok(v),
        _ => Err(()),
    }
}

fn accept_favorites(d: Data) -> (m: std::result::Result<SubscribedTitlesView, ()>)
    ensures
        pick_favorites(d) matches Some(v) ==> (m matches Ok(x) && x == v),
        pick_favorites(d) is None ==> m is Err,
{
    match d {
        Data::SubscribedTitlesView(v) => Ok(v),
        _ => Err(()),
    }
}

fn accept_subscription(d: Data) -> (m: std::result::Result<SubscriptionView, ()>)
    ensures
        pick_subscription(d) matches Some(v) ==> (m matches Ok(x) && x == v),
        pick_subscription(d) is None ==> m is Err,
{
    match d {
        Data::SubscriptionView(v) => Ok(v),
        _ => Err(()),
    }
}

fn accept_title_detail(d: Data) -> (m: std::result::Result<TitleDetailView, ()>)
    ensures
        pick_title_detail(d) matches Some(v) ==> (m matches Ok(x) && x == v),
        pick_title_detail(d) is None ==> m is Err,
{
    match d {
        Data::TitleDetailView(v) => Ok(v),
        _ => Err(()),
    }
}

fn accept_manga_viewer(d: Data) -> (m: std::result::Result<MangaViewer, ()>)
    ensures
        pick_manga_viewer(d) matches Some(v) ==> (m matches Ok(x) && x == v),
        pick_manga_viewer(d) is None ==> m is Err,
{
    match d {
        Data::MangaViewer(v) => Ok(v),
        _ => Err(()),
    }
}

fn accept_device_secret(d: Data) -> (m: std::result::Result<String, ()>)
    ensures
        pick_device_secret(d) matches Some(v) ==> (m matches Ok(x) && x == v),
        pick_device_secret(d) is None ==> m is Err,
{
    match d {
        Data::RegisterationData(r) => Ok(r.device_secret),
        _ => Err(()),
    }
}

/// The profile settings of an answer.
pub fn profile_from_response(resp: Response) -> (r: Result<ProfileSettingsView>)
    ensures
        variant_outcome(resp, "profile_settings_view"@, |d: Data| pick_profile(d), r),
{
    extract_variant(resp, "profile_settings_view", accept_profile)
}

/// The bookmarked titles of an answer.
pub fn favorites_from_response(resp: Response) -> (r: Result<SubscribedTitlesView>)
    ensures
        variant_outcome(resp, "subscribed_titles_view"@, |d: Data| pick_favorites(d), r),
{
    extract_variant(resp, "subscribed_titles_view", accept_favorites)
}

/// The subscription state of an answer.
pub fn subscription_from_response(resp: Response) -> (r: Result<SubscriptionView>)
    ensures
        variant_outcome(resp, "subscription_view"@, |d: Data| pick_subscription(d), r),
{
    extract_variant(resp, "subscription_view", accept_subscription)
}

/// The device secret of a registration answer.
pub fn device_secret_from_response(resp: Response) -> (r: Result<String>)
    ensures
        variant_outcome(resp, "registeration_data"@, |d: Data| pick_device_secret(d), r),
{
    extract_variant(resp, "registeration_data", accept_device_secret)
}

/// The wire enum of the language that `clang` asks for.
pub open spec fn requested_wire_value(clang: Seq<char>) -> i32 {
    code_wire_value(spec_normalize(clang))
}

/// A title detail is in the requested language: it has no title, or its
/// title's language enum is that of the requested code.
pub open spec fn title_detail_language_ok(view: TitleDetailView, clang: Seq<char>) -> bool {
    match view.title {
        None => true,
        Some(t) => t.language == requested_wire_value(clang),
    }
}

/// The name of a wire language value in error messages.
pub open spec fn wire_value_name(value: i32) -> Seq<char> {
    match spec_from_wire_enum(value) {
        Some(c) => c,
        None => "unknown"@,
    }
}

/// The error text for a title detail in another language.
pub open spec fn title_mismatch_message(clang: Seq<char>, actual: i32) -> Seq<char> {
    "title detail language mismatch: requested "@ + spec_normalize(clang) + ", got "@
        + wire_value_name(actual) + " (enum "@ + signed_decimal(actual as int) + ")"@
}

/// Reject a detail payload for a different translated edition. Chapter
/// metadata is returned atomically with this title, so validating the
/// title's wire enum keeps a mislabeled detail/chapter list from the UI.
pub fn validate_title_detail_language(view: TitleDetailView, clang: &str) -> (r: Result<TitleDetailView>)
    ensures
        title_detail_language_ok(view, clang@) ==> r == Ok::<TitleDetailView, ApiError>(view),
        !title_detail_language_ok(view, clang@) ==> (r matches Err(ApiError::Other(m))
            && m@ == title_mismatch_message(clang@, view.title->0.language)),
{
    let expected_code = normalize(clang);
    let expected_enum = wire_enum(expected_code);
    proof {
        crate::lang::law_normalize_idempotent(clang@);
    }
    if let Some(title) = &view.title {
        if title.language != expected_enum {
            let actual = match from_wire_enum(title.language) {
                Some(c) => c,
                None => "unknown",
            };
            let mut m = String::new();
            push_str(&mut m, "title detail language mismatch: requested ");
            push_str(&mut m, expected_code);
            push_str(&mut m, ", got ");
            push_str(&mut m, actual);
            push_str(&mut m, " (enum ");
            push_signed_decimal(&mut m, title.language as i64);
            push_str(&mut m, ")");
            assert(m@ =~= title_mismatch_message(clang@, view.title->0.language));
            return Err(ApiError::Other(m));
        }
    }
    Ok(view)
}

/// A chapter viewer is in the requested language, compared ignoring ASCII
/// case.
pub open spec fn manga_viewer_language_ok(viewer: MangaViewer, clang: Seq<char>) -> bool {
    ascii_ci_eq(viewer.title_language@, spec_normalize(clang))
}

/// The error text for a chapter viewer in another language.
pub open spec fn viewer_mismatch_message(clang: Seq<char>, actual: Seq<char>) -> Seq<char> {
    "manga viewer language mismatch: requested "@ + spec_normalize(clang) + ", got "@ + actual
}

/// `manga_viewer_v3` includes the content language as a three-character
/// string. Enforce it before exposing chapter pages so navigation cannot
/// silently switch translated editions.
pub fn validate_manga_viewer_language(viewer: MangaViewer, clang: &str) -> (r: Result<MangaViewer>)
    ensures
        manga_viewer_language_ok(viewer, clang@) ==> r == Ok::<MangaViewer, ApiError>(viewer),
        !manga_viewer_language_ok(viewer, clang@) ==> (r matches Err(ApiError::Other(m))
            && m@ == viewer_mismatch_message(clang@, viewer.title_language@)),
{
    let expected = normalize(clang);
    if !eq_ignore_ascii_case(viewer.title_language.as_str(), expected) {
        let mut m = String::new();
        push_str(&mut m, "manga viewer language mismatch: requested ");
        push_str(&mut m, expected);
        push_str(&mut m, ", got ");
        push_str(&mut m, viewer.title_language.as_str());
        assert(m@ =~= viewer_mismatch_message(clang@, viewer.title_language@));
        return Err(ApiError::Other(m));
    }
    Ok(viewer)
}

/// The title detail of an answer, refused unless it is in the language that
/// `clang` asks for.
pub fn title_detail_from_response(resp: Response, clang: &str) -> (r: Result<TitleDetailView>)
    ensures
        match resp_data(resp) {
            Some(Data::TitleDetailView(v)) => if title_detail_language_ok(v, clang@) {
                r == Ok::<TitleDetailView, ApiError>(v) && r->Ok_0.encoded@ == v.encoded@
            } else {
                r matches Err(ApiError::Other(m)) && m@ == title_mismatch_message(clang@, v.title->0.language)
            },
            _ => variant_outcome(resp, "title_detail_view"@, |d: Data| pick_title_detail(d), r),
        },
{
    let view = extract_variant(resp, "title_detail_view", accept_title_detail)?;
    validate_title_detail_language(view, clang)
}

/// The chapter viewer of an answer, refused unless it is in the language
/// that `clang` asks for.
pub fn chapter_pages_from_response(resp: Response, clang: &str) -> (r: Result<MangaViewer>)
    ensures
        match resp_data(resp) {
            Some(Data::MangaViewer(v)) => if manga_viewer_language_ok(v, clang@) {
                r == Ok::<MangaViewer, ApiError>(v) && r->Ok_0.encoded@ == v.encoded@
            } else {
                r matches Err(ApiError::Other(m)) && m@ == viewer_mismatch_message(clang@, v.title_language@)
            },
            _ => variant_outcome(resp, "manga_viewer"@, |d: Data| pick_manga_viewer(d), r),
        },
{
    let viewer = extract_variant(resp, "manga_viewer", accept_manga_viewer)?;
    validate_manga_viewer_language(viewer, clang)
}

/// A title detail whose title is in a supported language is accepted for a
/// request in that language and refused for a request in any other
/// supported language.
pub proof fn law_title_detail_accepts_only_requested(view: TitleDetailView, actual: Seq<char>, requested: Seq<char>)
    requires
        is_supported(actual),
        is_supported(requested),
        view.title matches Some(t) && t.language == code_wire_value(actual),
    ensures
        title_detail_language_ok(view, requested) <==> actual == requested,
{
    law_normalize_matches_ignoring_case(requested, requested);
    if title_detail_language_ok(view, requested) {
        law_wire_value_injective(actual, requested);
    }
}

/// A chapter viewer labelled with a supported code (in any ASCII case) is
/// accepted for a request in that language and refused for a request in any
/// other supported language.
pub proof fn law_manga_viewer_accepts_only_requested(viewer: MangaViewer, actual: Seq<char>, requested: Seq<char>)
    requires
        is_supported(actual),
        is_supported(requested),
        ascii_ci_eq(viewer.title_language@, actual),
    ensures
        manga_viewer_language_ok(viewer, requested) <==> actual == requested,
{
    law_normalize_matches_ignoring_case(requested, requested);
    if manga_viewer_language_ok(viewer, requested) {
        assert(ascii_ci_eq(actual, requested));
        law_supported_ci_distinct(actual, requested);
    }
}

/// A chapter viewer's acceptance depends on the requested code only
/// through its normalization; a missing, malformed or unsupported code asks
/// for English, so it accepts a viewer labelled "eng" in any ASCII case.
pub proof fn law_manga_viewer_check_uses_normalized_code(viewer: MangaViewer, clang: Seq<char>)
    ensures
        manga_viewer_language_ok(viewer, clang) == manga_viewer_language_ok(viewer, spec_normalize(clang)),
        (forall|i: int| 0 <= i < 9 ==> !ascii_ci_eq(clang, #[trigger] supported_codes()[i]))
            && ascii_ci_eq(viewer.title_language@, seq!['e', 'n', 'g'])
            ==> manga_viewer_language_ok(viewer, clang),
{
    law_normalize_idempotent(clang);
    if forall|i: int| 0 <= i < 9 ==> !ascii_ci_eq(clang, #[trigger] supported_codes()[i]) {
        law_normalize_defaults_to_english(clang);
        lemma_code_spellings();
    }
}

/// A title detail's acceptance depends on the requested code only through
/// its normalization; a missing, malformed or unsupported code asks for
/// English, so it accepts a title whose language value is 0.
pub proof fn law_title_detail_check_uses_normalized_code(view: TitleDetailView, clang: Seq<char>)
    ensures
        title_detail_language_ok(view, clang) == title_detail_language_ok(view, spec_normalize(clang)),
        (forall|i: int| 0 <= i < 9 ==> !ascii_ci_eq(clang, #[trigger] supported_codes()[i]))
            && (view.title is Some && view.title->0.language == 0) ==> title_detail_language_ok(view, clang),
{
    law_normalize_idempotent(clang);
    if forall|i: int| 0 <= i < 9 ==> !ascii_ci_eq(clang, #[trigger] supported_codes()[i]) {
        law_normalize_defaults_to_english(clang);
        law_wire_values_fixed();
        lemma_code_spellings();
    }
}

} // verus!
