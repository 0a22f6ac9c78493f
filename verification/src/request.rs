//! Construction of API requests: the URL, the mandatory query parameters,
//! the parameters of each endpoint, and the status check on the answer.

use vstd::prelude::*;
use crate::client::ClientConfig;
use crate::error::{ApiError, Result};
use crate::lang::{normalize, spec_normalize};
use crate::text::{decimal, decimal_string, push_str};

verus! {

/// The HTTP methods the API uses.
#[derive(Debug, Clone, Copy, PartialEq, Eq, Structural)]
pub enum HttpMethod {
    Get,
    Put,
    Delete,
    Post,
}

/// A query parameter list, by the characters of its names and values.
pub open spec fn pairs_view(q: Seq<(String, String)>) -> Seq<(Seq<char>, Seq<char>)> {
    q.map_values(|p: (String, String)| (p.0@, p.1@))
}

/// A borrowed query parameter list, by the characters of its names and
/// values.
pub open spec fn str_pairs_view(q: Seq<(&str, &str)>) -> Seq<(Seq<char>, Seq<char>)> {
    q.map_values(|p: (&str, &str)| (p.0@, p.1@))
}

/// One query parameter.
pub fn pair(name: &str, value: &str) -> (r: (String, String))
    ensures
        r.0@ == name@,
        r.1@ == value@,
{
    (name.to_owned(), value.to_owned())
}

/// The URL of the API endpoint `path` on `host`.
pub fn api_url(host: &str, path: &str) -> (r: String)
    ensures
        r@ == "https://"@ + host@ + "/api/"@ + path@,
{
    let mut s = String::new();
    push_str(&mut s, "https://");
    push_str(&mut s, host);
    push_str(&mut s, "/api/");
    push_str(&mut s, path);
    assert(s@ =~= "https://"@ + host@ + "/api/"@ + path@);
    s
}

/// The four parameters every API request carries.
pub open spec fn base_query(cfg: ClientConfig) -> Seq<(Seq<char>, Seq<char>)> {
    seq![
        ("os"@, "android"@),
        ("os_ver"@, cfg.os_ver@),
        ("app_ver"@, cfg.app_ver@),
        ("secret"@, cfg.secret@),
    ]
}

/// The query of an API request: `os`, `os_ver`, `app_ver` and `secret`,
/// then the caller's extra parameters in order.
pub fn request_query(cfg: &ClientConfig, extra: &[(&str, &str)]) -> (r: Vec<(String, String)>)
    ensures
        pairs_view(r@) == base_query(*cfg) + str_pairs_view(extra@),
{
    let mut q: Vec<(String, String)> = Vec::new();
    q.push(pair("os", "android"));
    q.push(pair("os_ver", cfg.os_ver.as_str()));
    q.push(pair("app_ver", cfg.app_ver.as_str()));
    q.push(pair("secret", cfg.secret.as_str()));
    assert(pairs_view(q@) =~= base_query(*cfg));
    let mut i: usize = 0;
    while i < extra.len()
        invariant
            i <= extra@.len(),
            pairs_view(q@) == base_query(*cfg) + str_pairs_view(extra@.take(i as int)),
        decreases extra@.len() - i,
    {
        let (name, value) = extra[i];
        let ghost before = q@;
        q.push(pair(name, value));
        assert(pairs_view(q@) =~= pairs_view(before).push((name@, value@)));
        assert(str_pairs_view(extra@.take(i + 1)) =~= str_pairs_view(extra@.take(i as int)).push(
            (name@, value@),
        ));
        i = i + 1;
    }
    assert(extra@.take(extra@.len() as int) =~= extra@);
    q
}

/// HTTP's success class: 200 to 299.
pub open spec fn status_is_success(status: u16) -> bool {
    200 <= status <= 299
}

/// Accept a 2xx status; any other becomes `ApiError::Status`.
pub fn check_status(status: u16) -> (r: Result<()>)
    ensures
        status_is_success(status) ==> r is Ok,
        !status_is_success(status) ==> (r matches Err(ApiError::Status(s)) && s == status),
{
    if 200 <= status && status <= 299 {
        Ok(())
    } else {
        Err(ApiError::Status(status))
    }
}

/// A typed endpoint request: method, path below `/api/`, and its own query
/// parameters (the mandatory ones are added by [`request_query`]).
#[derive(Debug)]
pub struct ApiCall {
    pub method: HttpMethod,
    pub path: &'static str,
    pub query: Vec<(String, String)>,
}

impl ApiCall {
    /// `GET profile`.
    pub fn profile() -> (r: ApiCall)
        ensures
            r.method == HttpMethod::Get,
            r.path@ == "profile"@,
            pairs_view(r.query@) == Seq::<(Seq<char>, Seq<char>)>::empty(),
    {
        let q: Vec<(String, String)> = Vec::new();
        assert(pairs_view(q@) =~= Seq::<(Seq<char>, Seq<char>)>::empty());
        ApiCall { method: HttpMethod::Get, path: "profile", query: q }
    }

    /// `GET title_list/bookmark`: the bookmarked titles.
    pub fn favorites() -> (r: ApiCall)
        ensures
            r.method == HttpMethod::Get,
            r.path@ == "title_list/bookmark"@,
            pairs_view(r.query@) == Seq::<(Seq<char>, Seq<char>)>::empty(),
    {
        let q: Vec<(String, String)> = Vec::new();
        assert(pairs_view(q@) =~= Seq::<(Seq<char>, Seq<char>)>::empty());
        ApiCall { method: HttpMethod::Get, path: "title_list/bookmark", query: q }
    }

    /// `PUT title_list/bookmark`: bookmark a title.
    pub fn add_favorite(title_id: u32) -> (r: ApiCall)
        ensures
            r.method == HttpMethod::Put,
            r.path@ == "title_list/bookmark"@,
            pairs_view(r.query@) == seq![("title_id"@, decimal(title_id as nat))],
    {
        let id = decimal_string(title_id as u64);
        let mut q: Vec<(String, String)> = Vec::new();
        q.push(pair("title_id", id.as_str()));
        assert(pairs_view(q@) =~= seq![("title_id"@, decimal(title_id as nat))]);
        ApiCall { method: HttpMethod::Put, path: "title_list/bookmark", query: q }
    }

    /// `DELETE title_list/bookmark`: remove a bookmark.
    pub fn remove_favorite(title_id: u32) -> (r: ApiCall)
        ensures
            r.method == HttpMethod::Delete,
            r.path@ == "title_list/bookmark"@,
            pairs_view(r.query@) == seq![("title_id"@, decimal(title_id as nat))],
    {
        let id = decimal_string(title_id as u64);
        let mut q: Vec<(String, String)> = Vec::new();
        q.push(pair("title_id", id.as_str()));
        assert(pairs_view(q@) =~= seq![("title_id"@, decimal(title_id as nat))]);
        ApiCall { method: HttpMethod::Delete, path: "title_list/bookmark", query: q }
    }

    /// `GET title_list/search`: the whole searchable catalog of a language.
    pub fn search(lang: &str, clang: &str) -> (r: ApiCall)
        ensures
            r.method == HttpMethod::Get,
            r.path@ == "title_list/search"@,
            pairs_view(r.query@) == seq![
                ("lang"@, spec_normalize(lang@)),
                ("clang"@, spec_normalize(clang@)),
            ],
    {
        let mut q: Vec<(String, String)> = Vec::new();
        q.push(pair("lang", normalize(lang)));
        q.push(pair("clang", normalize(clang)));
        assert(pairs_view(q@) =~= seq![
            ("lang"@, spec_normalize(lang@)),
            ("clang"@, spec_normalize(clang@)),
        ]);
        ApiCall { method: HttpMethod::Get, path: "title_list/search", query: q }
    }

    /// `GET title_list/all_v3`: one publication-status bucket of the
    /// catalog ("serializing" or "completed").
    pub fn all_titles_by_type(type_bucket: &str, lang: &str, clang: &str) -> (r: ApiCall)
        ensures
            r.method == HttpMethod::Get,
            r.path@ == "title_list/all_v3"@,
            pairs_view(r.query@) == seq![
                ("type"@, type_bucket@),
                ("lang"@, spec_normalize(lang@)),
                ("clang"@, spec_normalize(clang@)),
            ],
    {
        let mut q: Vec<(String, String)> = Vec::new();
        q.push(pair("type", type_bucket));
        q.push(pair("lang", normalize(lang)));
        q.push(pair("clang", normalize(clang)));
        assert(pairs_view(q@) =~= seq![
            ("type"@, type_bucket@),
            ("lang"@, spec_normalize(lang@)),
            ("clang"@, spec_normalize(clang@)),
        ]);
        ApiCall { method: HttpMethod::Get, path: "title_list/all_v3", query: q }
    }

    /// `GET title_detailV3`: a title's detail and chapter list.
    pub fn title_detail(title_id: u32, lang: &str, clang: &str, country_code: &str) -> (r: ApiCall)
        ensures
            r.method == HttpMethod::Get,
            r.path@ == "title_detailV3"@,
            pairs_view(r.query@) == seq![
                ("title_id"@, decimal(title_id as nat)),
                ("lang"@, spec_normalize(lang@)),
                ("clang"@, spec_normalize(clang@)),
                ("country_code"@, country_code@),
            ],
    {
        let id = decimal_string(title_id as u64);
        let mut q: Vec<(String, String)> = Vec::new();
        q.push(pair("title_id", id.as_str()));
        q.push(pair("lang", normalize(lang)));
        q.push(pair("clang", normalize(clang)));
        q.push(pair("country_code", country_code));
        assert(pairs_view(q@) =~= seq![
            ("title_id"@, decimal(title_id as nat)),
            ("lang"@, spec_normalize(lang@)),
            ("clang"@, spec_normalize(clang@)),
            ("country_code"@, country_code@),
        ]);
        ApiCall { method: HttpMethod::Get, path: "title_detailV3", query: q }
    }

    /// `GET subscription`: the account's subscription state.
    pub fn subscription(country_code: &str) -> (r: ApiCall)
        ensures
            r.method == HttpMethod::Get,
            r.path@ == "subscription"@,
            pairs_view(r.query@) == seq![("country_code"@, country_code@)],
    {
        let mut q: Vec<(String, String)> = Vec::new();
        q.push(pair("country_code", country_code));
        assert(pairs_view(q@) =~= seq![("country_code"@, country_code@)]);
        ApiCall { method: HttpMethod::Get, path: "subscription", query: q }
    }

    /// `GET manga_viewer_v3`: a chapter's page list, requested as a
    /// subscriber reading split pages.
    pub fn chapter_pages(
        chapter_id: u32,
        img_quality: &str,
        viewer_mode: &str,
        clang: &str,
        country_code: &str,
    ) -> (r: ApiCall)
        ensures
            r.method == HttpMethod::Get,
            r.path@ == "manga_viewer_v3"@,
            pairs_view(r.query@) == seq![
                ("chapter_id"@, decimal(chapter_id as nat)),
                ("split"@, "yes"@),
                ("img_quality"@, img_quality@),
                ("ticket_reading"@, "no"@),
                ("free_reading"@, "no"@),
                ("subscription_reading"@, "yes"@),
                ("viewer_mode"@, viewer_mode@),
                ("clang"@, spec_normalize(clang@)),
                ("country_code"@, country_code@),
            ],
    {
        let id = decimal_string(chapter_id as u64);
        let mut q: Vec<(String, String)> = Vec::new();
        q.push(pair("chapter_id", id.as_str()));
        q.push(pair("split", "yes"));
        q.push(pair("img_quality", img_quality));
        q.push(pair("ticket_reading", "no"));
        q.push(pair("free_reading", "no"));
        q.push(pair("subscription_reading", "yes"));
        q.push(pair("viewer_mode", viewer_mode));
        q.push(pair("clang", normalize(clang)));
        q.push(pair("country_code", country_code));
        assert(pairs_view(q@) =~= seq![
            ("chapter_id"@, decimal(chapter_id as nat)),
            ("split"@, "yes"@),
            ("img_quality"@, img_quality@),
            ("ticket_reading"@, "no"@),
            ("free_reading"@, "no"@),
            ("subscription_reading"@, "yes"@),
            ("viewer_mode"@, viewer_mode@),
            ("clang"@, spec_normalize(clang@)),
            ("country_code"@, country_code@),
        ]);
        ApiCall { method: HttpMethod::Get, path: "manga_viewer_v3", query: q }
    }
}

} // verus!
