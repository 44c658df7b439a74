use gw3::api::ClientConfig;
use gw3::gw2::fetch::plan_get_json;
use gw3::gw2::operations::{item_prices_request, public_call_request, public_get_request};
use gw3::gw2::response::decode_api_response;
use gw3::mcp::{api_request_from_params, ApiRequestParams};

fn mock_config() -> ClientConfig {
    ClientConfig {
        base_url: "http://127.0.0.1:8080".to_string(),
        ..ClientConfig::default()
    }
}

fn query_of(url: &str) -> Vec<(String, String)> {
    url::Url::parse(url)
        .expect("planned URL should parse")
        .query_pairs()
        .map(|(name, value)| (name.into_owned(), value.into_owned()))
        .collect()
}

#[test]
fn mcp_item_prices_uses_shared_api_client() {
    let plan = plan_get_json(&mock_config(), &item_prices_request(vec!["19684".to_string()]))
        .expect("mcp tool should return JSON string");
    let url = url::Url::parse(&plan.requests[0].url).unwrap();
    assert_eq!(url.path(), "/v2/commerce/prices");
    assert_eq!(query_of(&plan.requests[0].url), vec![("ids".to_string(), "19684".to_string())]);

    let body = r#"[{ "id": 19684, "buys": { "unit_price": 10 } }]"#.to_string();
    let value = decode_api_response(200, body).expect("mcp tool should return JSON string");
    let output = serde_json::to_string_pretty(&value).unwrap();
    assert!(output.contains("19684"));
    assert!(output.contains("unit_price"));
}

#[test]
fn mcp_public_get_uses_shared_api_client() {
    let request = public_get_request(
        "skins",
        None,
        vec!["4674".to_string()],
        Some("zh".to_string()),
        None,
    )
    .expect("mcp public tool should return JSON string");
    assert!(!request.requires_auth);
    let plan = plan_get_json(&mock_config(), &request).unwrap();
    let url = url::Url::parse(&plan.requests[0].url).unwrap();
    assert_eq!(url.path(), "/v2/skins");
    let query = query_of(&plan.requests[0].url);
    assert!(query.contains(&("ids".to_string(), "4674".to_string())));
    assert!(query.contains(&("lang".to_string(), "zh".to_string())));

    let body = r#"[{ "id": 4674, "name": "Foefire Wraps" }]"#.to_string();
    let output = decode_api_response(200, body).unwrap().to_string();
    assert!(output.contains("Foefire Wraps"));
}

#[test]
fn mcp_public_call_supports_path_and_query_parameters() {
    let request = public_call_request(
        "pvp_season_leaderboard_entries",
        vec![
            ("board".to_string(), "ladder".to_string()),
            ("id".to_string(), "season-1".to_string()),
            ("region".to_string(), "eu".to_string()),
        ],
        vec![("foo".to_string(), "bar".to_string())],
        None,
        None,
    )
    .expect("mcp public call should succeed");
    assert_eq!(request.path, "/v2/pvp/seasons/season-1/leaderboards/ladder/eu");
    let plan = plan_get_json(&mock_config(), &request).unwrap();
    let url = url::Url::parse(&plan.requests[0].url).unwrap();
    assert_eq!(url.path(), "/v2/pvp/seasons/season-1/leaderboards/ladder/eu");
    assert_eq!(query_of(&plan.requests[0].url), vec![("foo".to_string(), "bar".to_string())]);

    let output = decode_api_response(200, r#"{ "top": [] }"#.to_string())
        .unwrap()
        .to_string();
    assert!(output.contains("\"top\""));
}

#[test]
fn mcp_api_request_carries_every_argument() {
    let request = api_request_from_params(ApiRequestParams {
        path: "account".to_string(),
        id: Some("7".to_string()),
        ids: vec!["1".to_string(), "2".to_string()],
        page: Some(3),
        page_size: Some(50),
        lang: Some("de".to_string()),
        schema_version: Some("latest".to_string()),
        requires_auth: true,
    });
    assert_eq!(request.path, "account");
    assert_eq!(request.id.as_deref(), Some("7"));
    assert_eq!(request.ids, vec!["1".to_string(), "2".to_string()]);
    assert_eq!(request.page, Some(3));
    assert_eq!(request.page_size, Some(50));
    assert_eq!(request.lang.as_deref(), Some("de"));
    assert_eq!(request.schema_version.as_deref(), Some("latest"));
    assert!(request.query.is_empty());
    assert!(request.requires_auth);
}
