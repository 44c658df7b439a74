use gw3::api::{ApiRequest, ClientConfig, Gw3Error};
use gw3::gw2::fetch::{plan_get_json, ChunkMerge};
use gw3::gw2::response::{decode_api_response, decode_wiki_response};
use gw3::wiki::search_url;

fn query_of(url: &str) -> Vec<(String, String)> {
    url::Url::parse(url)
        .expect("planned URL should parse")
        .query_pairs()
        .map(|(name, value)| (name.into_owned(), value.into_owned()))
        .collect()
}

fn has_pair(url: &str, name: &str, value: &str) -> bool {
    query_of(url)
        .iter()
        .any(|(n, v)| n == name && v == value)
}

fn path_of(url: &str) -> String {
    url::Url::parse(url).expect("planned URL should parse").path().to_string()
}

#[test]
fn public_item_lookup_returns_json() {
    let config = ClientConfig {
        base_url: "http://127.0.0.1:8080".to_string(),
        lang: Some("zh".to_string()),
        ..ClientConfig::default()
    };
    let plan = plan_get_json(
        &config,
        &ApiRequest::new("/v2/items").with_ids(vec!["19684".to_string()]),
    )
    .expect("public request should succeed");
    assert_eq!(plan.requests.len(), 1);
    let url = &plan.requests[0].url;
    assert_eq!(path_of(url), "/v2/items");
    assert!(has_pair(url, "ids", "19684"));
    assert!(has_pair(url, "lang", "zh"));
    assert!(plan.requests[0].bearer.is_none());

    let body = r#"[{ "id": 19684, "name": "Copper Ore" }]"#.to_string();
    let value = decode_api_response(200, body).expect("public request should succeed");
    assert_eq!(value[0]["id"], 19684);
}

#[test]
fn authenticated_request_requires_key_before_http() {
    let config = ClientConfig {
        base_url: "http://127.0.0.1:8080".to_string(),
        ..ClientConfig::default()
    };
    let error = plan_get_json(&config, &ApiRequest::new("/v2/account").requires_auth())
        .expect_err("missing key should fail locally");
    assert!(matches!(error, Gw3Error::MissingApiKey));
}

#[test]
fn authenticated_request_uses_authorization_header() {
    let config = ClientConfig {
        base_url: "http://127.0.0.1:8080".to_string(),
        api_key: Some("test-key".to_string()),
        ..ClientConfig::default()
    };
    let plan = plan_get_json(&config, &ApiRequest::new("/v2/account").requires_auth())
        .expect("authenticated request should succeed");
    assert_eq!(plan.requests.len(), 1);
    assert_eq!(plan.requests[0].bearer.as_deref(), Some("test-key"));
    assert!(!plan.requests[0].url.contains("test-key"));

    let body = r#"{ "name": "Example.1234" }"#.to_string();
    let value = decode_api_response(200, body).expect("authenticated request should succeed");
    assert_eq!(value["name"], "Example.1234");
}

#[test]
fn id_lists_are_chunked_to_two_hundred() {
    let ids: Vec<String> = (1..=201).map(|id| id.to_string()).collect();
    let first_chunk = ids[..200].join(",");
    let second_chunk = ids[200..].join(",");
    let config = ClientConfig {
        base_url: "http://127.0.0.1:8080".to_string(),
        ..ClientConfig::default()
    };
    let plan = plan_get_json(&config, &ApiRequest::new("/v2/items").with_ids(ids))
        .expect("chunked request should succeed");
    assert!(plan.chunked);
    assert_eq!(plan.requests.len(), 2);
    assert!(has_pair(&plan.requests[0].url, "ids", first_chunk.as_str()));
    assert!(has_pair(&plan.requests[1].url, "ids", second_chunk.as_str()));

    let mut merge = ChunkMerge::new();
    merge
        .absorb(decode_api_response(200, r#"[{ "id": 1 }]"#.to_string()).unwrap())
        .expect("chunked request should succeed");
    merge
        .absorb(decode_api_response(200, r#"[{ "id": 201 }]"#.to_string()).unwrap())
        .expect("chunked request should succeed");
    let value = merge.finish();
    assert_eq!(value.as_array().unwrap().len(), 2);
    assert_eq!(value[1]["id"], 201);
}

#[test]
fn rate_limit_is_reported_as_stable_error() {
    let body = r#"{ "text": "too many requests" }"#.to_string();
    let error = decode_api_response(429, body).expect_err("429 should be normalized");
    assert!(matches!(error, Gw3Error::RateLimited { .. }));
}

#[test]
fn wiki_search_returns_titles() {
    let url = search_url("http://127.0.0.1:8080/", "Legendary armor")
        .expect("wiki client should be valid");
    assert_eq!(path_of(&url), "/");
    assert!(has_pair(&url, "action", "query"));
    assert!(has_pair(&url, "list", "search"));
    assert!(has_pair(&url, "srsearch", "Legendary armor"));

    let body =
        r#"{"query":{"search":[{"title":"Legendary armor","pageid":167995}]}}"#.to_string();
    let value = decode_wiki_response(200, body).expect("wiki search should succeed");
    assert_eq!(value["query"]["search"][0]["title"], "Legendary armor");
}

fn json(text: &str) -> serde_json::Value {
    serde_json::from_str(text).unwrap()
}

#[test]
fn fetch_run_sends_batches_in_order_and_merges() {
    let ids: Vec<String> = (1..=401).map(|id| id.to_string()).collect();
    let plan = plan_get_json(&ClientConfig::default(), &ApiRequest::new("items").with_ids(ids)).unwrap();
    let (mut run, action) = gw3::gw2::fetch::FetchRun::start(&plan);
    assert!(matches!(action, gw3::gw2::fetch::FetchAction::Send(0)));
    let action = run.step(Ok(json("[1, 2]")));
    assert!(matches!(action, gw3::gw2::fetch::FetchAction::Send(1)));
    let action = run.step(Ok(json("[]")));
    assert!(matches!(action, gw3::gw2::fetch::FetchAction::Send(2)));
    match run.step(Ok(json("[3]"))) {
        gw3::gw2::fetch::FetchAction::Finish(Ok(value)) => assert_eq!(value, json("[1, 2, 3]")),
        other => panic!("expected the merged array, got {other:?}"),
    }
}

#[test]
fn fetch_run_stops_at_first_failure() {
    let ids: Vec<String> = (1..=201).map(|id| id.to_string()).collect();
    let plan = plan_get_json(&ClientConfig::default(), &ApiRequest::new("items").with_ids(ids)).unwrap();
    let (mut run, _) = gw3::gw2::fetch::FetchRun::start(&plan);
    match run.step(Err(Gw3Error::RateLimited { body: "slow".to_string() })) {
        gw3::gw2::fetch::FetchAction::Finish(Err(Gw3Error::RateLimited { body })) => assert_eq!(body, "slow"),
        other => panic!("expected the rate limit, got {other:?}"),
    }
    let (mut run, _) = gw3::gw2::fetch::FetchRun::start(&plan);
    match run.step(Ok(json(r#"{"id": 1}"#))) {
        gw3::gw2::fetch::FetchAction::Finish(Err(Gw3Error::UnexpectedResponse(v))) => assert_eq!(v["id"], 1),
        other => panic!("expected a refused shape, got {other:?}"),
    }
}

#[test]
fn fetch_run_passes_a_single_answer_through() {
    let plan = plan_get_json(&ClientConfig::default(), &ApiRequest::new("build")).unwrap();
    let (mut run, action) = gw3::gw2::fetch::FetchRun::start(&plan);
    assert!(matches!(action, gw3::gw2::fetch::FetchAction::Send(0)));
    match run.step(Ok(json(r#"{"id": 115267}"#))) {
        gw3::gw2::fetch::FetchAction::Finish(Ok(value)) => assert_eq!(value["id"], 115267),
        other => panic!("expected the answer itself, got {other:?}"),
    }
    let empty = gw3::gw2::fetch::FetchPlan { requests: vec![], chunked: false };
    let (_, action) = gw3::gw2::fetch::FetchRun::start(&empty);
    assert!(matches!(action, gw3::gw2::fetch::FetchAction::Finish(Err(Gw3Error::Runtime(_)))));
}
