use gw3::api::{normalize_api_path, public_endpoints, ApiRequest, ClientConfig, Gw3Error, PublicEndpointKind};
use gw3::gw2::chunk::chunk_ids;
use gw3::gw2::fetch::{plan_get_json, ChunkMerge};
use gw3::gw2::operations::{
    public_all_request, public_get_request, public_list_request, public_page_request,
};
use gw3::gw2::public::{excluded_endpoints, resolve_public_endpoint};
use gw3::gw2::query::{build_url, query_pairs, target_text};
use gw3::gw2::response::{decode_api_response, decode_wiki_response};
use gw3::gw2::template::render_public_path;
use gw3::gw2::validate_lang;
use gw3::text::{decimal_string, join, replace_all, str_lt, trim, trim_end_matches_char};
use gw3::wiki::{page_query_pairs, page_url, search_url};

fn strings(items: &[&str]) -> Vec<String> {
    items.iter().map(|s| s.to_string()).collect()
}

fn pairs(items: &[(&str, &str)]) -> Vec<(String, String)> {
    items.iter().map(|(a, b)| (a.to_string(), b.to_string())).collect()
}

#[test]
fn normalize_places_paths_under_v2() {
    assert_eq!(normalize_api_path("items").unwrap(), "/v2/items");
    assert_eq!(normalize_api_path("/items").unwrap(), "/v2/items");
    assert_eq!(normalize_api_path("  /v2/items \n").unwrap(), "/v2/items");
    assert_eq!(normalize_api_path("v2").unwrap(), "/v2");
    assert_eq!(normalize_api_path("v2/account").unwrap(), "/v2/account");
    assert_eq!(normalize_api_path("v2.json").unwrap(), "/v2.json");
    assert_eq!(normalize_api_path(" /v2.json ").unwrap(), "/v2.json");
    assert_eq!(normalize_api_path("v2x").unwrap(), "/v2/v2x");
    assert_eq!(normalize_api_path("//x").unwrap(), "/v2//x");
}

#[test]
fn normalize_refuses_empty_paths() {
    for path in ["", "   ", "/", " / ", "\u{3000}/\u{a0}"] {
        let error = normalize_api_path(path).expect_err("empty path should be refused");
        assert!(matches!(error, Gw3Error::InvalidPath(ref t) if t == path.trim()));
    }
}

#[test]
fn normalize_is_idempotent_on_examples() {
    for path in ["items", " /v2/items", "v2", "v2.json", "a b ", "/v2//x"] {
        let once = normalize_api_path(path).unwrap();
        assert_eq!(normalize_api_path(&once).unwrap(), once);
        assert!(once.starts_with("/v2"));
    }
}

#[test]
fn validate_lang_accepts_only_known_codes() {
    for lang in ["en", "es", "de", "fr", "zh"] {
        assert!(validate_lang(Some(lang)).is_ok());
    }
    assert!(validate_lang(None).is_ok());
    for lang in ["EN", "jp", "", "english"] {
        let error = validate_lang(Some(lang)).expect_err("unknown language");
        assert!(matches!(error, Gw3Error::InvalidLanguage(ref l) if l == lang));
    }
}

#[test]
fn text_primitives_behave_like_std() {
    for s in ["", "  a b  ", "\t\nx\u{2003}", "\u{85}y\u{3000}", "plain"] {
        assert_eq!(trim(s), s.trim());
    }
    assert_eq!(trim_end_matches_char("https://x///", '/'), "https://x");
    assert_eq!(trim_end_matches_char("///", '/'), "");
    assert_eq!(replace_all("/a/:id/b/:id", ":id", "7"), "/a/7/b/7");
    assert_eq!(replace_all("aaa", "aa", "b"), "ba");
    assert_eq!(replace_all("abc", "", "x"), "abc");
    assert_eq!(join(&strings(&["1", "2", "3"]), ","), "1,2,3");
    assert_eq!(join(&strings(&[]), ","), "");
    for n in [0u32, 7, 10, 200, 4294967295] {
        assert_eq!(decimal_string(n), n.to_string());
    }
    assert!(str_lt("a", "b"));
    assert!(str_lt("ab", "abc"));
    assert!(!str_lt("b", "ab"));
    assert!(!str_lt("x", "x"));
}

#[test]
fn default_config_points_at_official_origins() {
    let config = ClientConfig::default();
    assert_eq!(config.base_url, "https://api.guildwars2.com");
    assert_eq!(config.wiki_base_url, "https://wiki.guildwars2.com/api.php");
    assert!(config.lang.is_none());
    assert!(config.schema_version.is_none());
    assert!(config.api_key.is_none());
    assert_eq!(config.timeout_secs, 30);
    let request = ApiRequest::default();
    assert_eq!(request.path, "");
    assert!(request.ids.is_empty() && request.query.is_empty() && !request.requires_auth);
}

#[test]
fn builders_set_only_their_field() {
    let request = ApiRequest::new("/v2/items")
        .with_id("1")
        .with_ids(strings(&["2", "3"]))
        .with_lang(Some("en".to_string()))
        .with_schema_version(Some("latest".to_string()))
        .with_page(Some(0), None)
        .with_query_param("a", "b")
        .with_query_param("c", "d")
        .requires_auth();
    assert_eq!(request.path, "/v2/items");
    assert_eq!(request.id.as_deref(), Some("1"));
    assert_eq!(request.ids, strings(&["2", "3"]));
    assert_eq!(request.page, Some(0));
    assert_eq!(request.page_size, None);
    assert_eq!(request.query, pairs(&[("a", "b"), ("c", "d")]));
    assert!(request.requires_auth);
    let replaced = request.with_query_params(pairs(&[("x", "y")])).with_id_opt(None);
    assert_eq!(replaced.query, pairs(&[("x", "y")]));
    assert_eq!(replaced.id.as_deref(), Some("1"));
}

#[test]
fn query_pairs_follow_fixed_order() {
    let config = ClientConfig {
        lang: Some("de".to_string()),
        schema_version: Some("2019-12-19T00:00:00.000Z".to_string()),
        ..ClientConfig::default()
    };
    let request = ApiRequest::new("items")
        .with_id("9")
        .with_page(Some(3), Some(25))
        .with_query_param("extra", "1");
    let got = query_pairs(&config, &request, &strings(&["1", "2"]));
    assert_eq!(
        got,
        pairs(&[
            ("id", "9"),
            ("ids", "1,2"),
            ("page", "3"),
            ("page_size", "25"),
            ("lang", "de"),
            ("v", "2019-12-19T00:00:00.000Z"),
            ("extra", "1"),
        ])
    );
    let own = request.with_lang(Some("fr".to_string()));
    let got = query_pairs(&config, &own, &vec![]);
    assert!(got.contains(&("lang".to_string(), "fr".to_string())));
    assert!(!got.iter().any(|(n, _)| n == "ids"));
}

#[test]
fn url_joins_base_and_path() {
    assert_eq!(target_text("https://api.guildwars2.com//", "/v2/items"), "https://api.guildwars2.com/v2/items");
    let config = ClientConfig::default();
    let url = build_url(&config, &ApiRequest::new("items"), &strings(&["1"])).unwrap();
    assert_eq!(url, "https://api.guildwars2.com/v2/items?ids=1");
    let url = build_url(&config, &ApiRequest::new("build"), &vec![]).unwrap();
    assert_eq!(url, "https://api.guildwars2.com/v2/build?");
}

#[test]
fn plan_reports_local_failures_in_order() {
    let bad_lang = ApiRequest::new("items").with_lang(Some("xx".to_string()));
    let error = plan_get_json(&ClientConfig::default(), &bad_lang).unwrap_err();
    assert!(matches!(error, Gw3Error::InvalidLanguage(ref l) if l == "xx"));

    let error = plan_get_json(&ClientConfig::default(), &ApiRequest::new(" / ")).unwrap_err();
    assert!(matches!(error, Gw3Error::InvalidPath(ref p) if p == "/"));

    let config = ClientConfig { base_url: "not a url".to_string(), ..ClientConfig::default() };
    let error = plan_get_json(&config, &ApiRequest::new("items")).unwrap_err();
    assert!(matches!(error, Gw3Error::InvalidUrl { ref url, .. } if url == "not a url/v2/items"));

    let error = plan_get_json(&config, &bad_lang.requires_auth()).unwrap_err();
    assert!(matches!(error, Gw3Error::MissingApiKey));
}

#[test]
fn empty_and_exact_id_lists_go_in_one_request() {
    let config = ClientConfig::default();
    let plan = plan_get_json(&config, &ApiRequest::new("items")).unwrap();
    assert!(!plan.chunked);
    assert_eq!(plan.requests.len(), 1);
    let ids: Vec<String> = (1..=200).map(|id| id.to_string()).collect();
    let plan = plan_get_json(&config, &ApiRequest::new("items").with_ids(ids)).unwrap();
    assert!(!plan.chunked);
    assert_eq!(plan.requests.len(), 1);
    let ids: Vec<String> = (1..=401).map(|id| id.to_string()).collect();
    let plan = plan_get_json(&config, &ApiRequest::new("items").with_ids(ids)).unwrap();
    assert!(plan.chunked);
    assert_eq!(plan.requests.len(), 3);
}

#[test]
fn chunks_cover_ids_in_order() {
    let ids: Vec<String> = (0..450).map(|id| id.to_string()).collect();
    let chunks = chunk_ids(&ids);
    assert_eq!(chunks.iter().map(|c| c.len()).collect::<Vec<_>>(), vec![200, 200, 50]);
    assert_eq!(chunks.concat(), ids);
    assert!(chunk_ids(&vec![]).is_empty());
}

#[test]
fn chunk_merge_refuses_non_arrays() {
    let mut merge = ChunkMerge::new();
    merge.absorb(serde_json::from_str::<serde_json::Value>(r#"[1, 2]"#).unwrap()).unwrap();
    let error = merge.absorb(serde_json::from_str::<serde_json::Value>(r#"{ "id": 3 }"#).unwrap()).unwrap_err();
    assert!(matches!(error, Gw3Error::UnexpectedResponse(ref v) if v["id"] == 3));
    assert_eq!(merge.finish(), serde_json::from_str::<serde_json::Value>(r#"[1, 2]"#).unwrap());
}

#[test]
fn statuses_map_to_stable_errors() {
    let body = || "b".to_string();
    assert!(matches!(
        decode_api_response(206, "[]".to_string()),
        Err(Gw3Error::PartialContent { ref body }) if body == "[]"
    ));
    assert_eq!(decode_api_response(200, "[1, 2]".to_string()).unwrap().to_string(), "[1,2]");
    assert!(matches!(decode_api_response(200, "{".to_string()), Err(Gw3Error::Json(_))));
    assert!(matches!(decode_api_response(403, body()), Err(Gw3Error::Forbidden { ref body }) if body == "b"));
    assert!(matches!(decode_api_response(404, body()), Err(Gw3Error::NotFound { .. })));
    assert!(matches!(decode_api_response(429, body()), Err(Gw3Error::RateLimited { .. })));
    assert!(matches!(decode_api_response(503, body()), Err(Gw3Error::DisabledEndpoint { .. })));
    assert!(matches!(
        decode_api_response(502, body()),
        Err(Gw3Error::Upstream { status: 502, ref body }) if body == "b"
    ));
    assert!(matches!(
        decode_api_response(400, body()),
        Err(Gw3Error::UnexpectedStatus { status: 400, .. })
    ));
    assert!(matches!(decode_wiki_response(206, body()), Err(Gw3Error::UnexpectedStatus { status: 206, .. })));
    assert!(matches!(decode_wiki_response(503, body()), Err(Gw3Error::Upstream { status: 503, .. })));
    assert!(matches!(decode_wiki_response(403, body()), Err(Gw3Error::UnexpectedStatus { status: 403, .. })));
    assert!(matches!(decode_wiki_response(429, body()), Err(Gw3Error::RateLimited { .. })));
}

#[test]
fn registry_lists_public_routes_only() {
    let public = public_endpoints();
    let excluded = excluded_endpoints();
    assert!(public.iter().all(|e| e.path.starts_with("/v2/")));
    assert!(!public.iter().any(|e| e.key == "account" || e.path == "/v2/account"));
    assert!(excluded.iter().all(|e| e.auth || !e.active));
    for e in &public {
        assert!(!excluded.iter().any(|x| x.key == e.key));
    }
    let skins = resolve_public_endpoint("skins").unwrap();
    assert_eq!(skins.path, "/v2/skins");
    assert_eq!(skins.kind, PublicEndpointKind::Collection);
    assert!(skins.lang);
}

#[test]
fn resolution_failures_are_local() {
    assert!(matches!(
        resolve_public_endpoint("tokeninfo"),
        Err(Gw3Error::PublicEndpointRequiresAuth { ref key, .. }) if key == "tokeninfo"
    ));
    assert!(matches!(
        resolve_public_endpoint("adventures"),
        Err(Gw3Error::InactivePublicEndpoint { ref path, .. }) if path == "/v2/adventures"
    ));
    assert!(matches!(
        resolve_public_endpoint("nope"),
        Err(Gw3Error::UnknownPublicEndpoint(ref k)) if k == "nope"
    ));
    assert!(matches!(
        public_get_request("adventures", None, vec![], None, None),
        Err(Gw3Error::InactivePublicEndpoint { .. })
    ));
}

#[test]
fn public_operations_respect_route_kinds() {
    let build = public_get_request("build", None, vec![], None, None).unwrap();
    assert_eq!(build.path, "/v2/build");
    assert!(matches!(
        public_get_request("build", Some("1".to_string()), vec![], None, None),
        Err(Gw3Error::UnsupportedPublicOperation { ref operation, .. }) if operation == "get with id or ids"
    ));
    assert!(matches!(
        public_get_request("recipes_search", None, vec![], None, None),
        Err(Gw3Error::UnsupportedPublicOperation { ref operation, .. }) if operation == "get"
    ));
    assert!(matches!(
        public_list_request("build", None, None),
        Err(Gw3Error::UnsupportedPublicOperation { ref operation, .. }) if operation == "list"
    ));
    let all = public_all_request("skins", Some("zh".to_string()), None).unwrap();
    assert_eq!(all.query, pairs(&[("ids", "all")]));
    assert_eq!(all.lang.as_deref(), Some("zh"));
    let page = public_page_request("maps", 0, Some(5), Some("zh".to_string()), None).unwrap();
    assert_eq!(page.path, "/v2/maps");
    assert_eq!((page.page, page.page_size), (Some(0), Some(5)));
    assert!(!page.requires_auth);
    assert!(matches!(
        public_page_request("recipes_search", 0, None, None, None),
        Err(Gw3Error::UnsupportedPublicOperation { ref operation, .. }) if operation == "page"
    ));
}

#[test]
fn path_templates_check_parameters() {
    let expected = strings(&["id", "board", "region"]);
    let template = "/v2/pvp/seasons/:id/leaderboards/:board/:region";
    let missing = render_public_path("k", template, &expected, &pairs(&[("id", "1"), ("region", "eu")]));
    assert!(matches!(missing, Err(Gw3Error::MissingPathParameter { ref name, .. }) if name == "board"));
    let extra = render_public_path(
        "k",
        template,
        &expected,
        &pairs(&[("zeta", "1"), ("id", "1"), ("board", "b"), ("region", "r"), ("alpha", "2")]),
    );
    assert!(matches!(extra, Err(Gw3Error::UnexpectedPathParameter { ref name, .. }) if name == "alpha"));
    let last_wins = render_public_path(
        "k",
        template,
        &expected,
        &pairs(&[("id", "1"), ("board", "b"), ("region", "r"), ("id", "2")]),
    )
    .unwrap();
    assert_eq!(last_wins, "/v2/pvp/seasons/2/leaderboards/b/r");
}

#[test]
fn wiki_urls_carry_mediawiki_parameters() {
    assert_eq!(
        page_query_pairs("Legendary armor"),
        pairs(&[
            ("action", "query"),
            ("prop", "extracts|info"),
            ("exintro", "1"),
            ("explaintext", "1"),
            ("inprop", "url"),
            ("titles", "Legendary armor"),
            ("format", "json"),
        ])
    );
    let url = page_url("https://wiki.guildwars2.com/api.php", "Legendary armor").unwrap();
    assert!(url.starts_with("https://wiki.guildwars2.com/api.php?action=query&prop=extracts%7Cinfo"));
    let search = search_url("https://wiki.guildwars2.com/api.php", "a b").unwrap();
    assert!(search.ends_with("srsearch=a+b&format=json&srlimit=10"));
    assert!(matches!(
        search_url("::", "x"),
        Err(Gw3Error::InvalidUrl { ref url, .. }) if url == "::"
    ));
}

#[test]
fn error_messages_set_fields_into_fixed_texts() {
    assert_eq!(
        Gw3Error::MissingApiKey.message(),
        "GW2_API_KEY or --api-key is required for this command"
    );
    assert_eq!(
        Gw3Error::InvalidLanguage("jp".to_string()).message(),
        "invalid language `jp`; expected one of en, es, de, fr, zh"
    );
    assert_eq!(
        Gw3Error::Upstream { status: 502, body: "down".to_string() }.message(),
        "official API upstream failure 502: down"
    );
    assert_eq!(
        Gw3Error::PartialContent { body: "[]".to_string() }.message(),
        "official API returned partial content: []"
    );
    assert_eq!(
        Gw3Error::PublicEndpointRequiresAuth {
            key: "account".to_string(),
            path: "/v2/account".to_string()
        }
        .message(),
        "public endpoint `account` (/v2/account) requires an API key and is not part of the public commands"
    );
    let source = url::Url::parse("::").unwrap_err();
    assert_eq!(
        Gw3Error::InvalidUrl { url: "::".to_string(), source }.message(),
        format!("invalid URL `::`: {source}")
    );
    let value: serde_json::Value = serde_json::from_str(r#"{"a": 1}"#).unwrap();
    assert_eq!(
        Gw3Error::UnexpectedResponse(value).message(),
        r#"unexpected response shape: {"a":1}"#
    );
}

#[test]
fn configured_key_never_reaches_urls_or_errors() {
    let request = ApiRequest::new("items").with_ids(strings(&["1", "2"]));
    let without = ClientConfig { base_url: "not a url".to_string(), ..ClientConfig::default() };
    let with = ClientConfig { api_key: Some("SECRET-KEY".to_string()), ..without.clone() };
    let a = build_url(&without, &request, &request.ids).unwrap_err();
    let b = build_url(&with, &request, &request.ids).unwrap_err();
    assert_eq!(a.message(), b.message());
    assert!(!b.message().contains("SECRET-KEY"));
    let good = ClientConfig { api_key: Some("SECRET-KEY".to_string()), ..ClientConfig::default() };
    let url = build_url(&good, &request, &request.ids).unwrap();
    assert_eq!(url, build_url(&ClientConfig::default(), &request, &request.ids).unwrap());
    assert!(!url.contains("SECRET-KEY"));
}
