use gw3::api::{ClientConfig, Gw3Error};
use gw3::cli::{
    join_query, plan_command, split_assignment, AccountCommands, ApiCommands, ApiGetArgs, Cli,
    CommandPlan, Commands, IdsArgs, ItemCommands, McpCommands, PublicCallArgs, PublicCommands,
    PublicGetArgs, QueryArgs, WikiCommands,
};
use gw3::config::{DEFAULT_API_BASE_URL, DEFAULT_WIKI_BASE_URL};
use gw3::gw2::fetch::plan_get_json;

fn cli(command: Commands) -> Cli {
    Cli {
        api_base_url: DEFAULT_API_BASE_URL.to_string(),
        wiki_base_url: DEFAULT_WIKI_BASE_URL.to_string(),
        api_key: None,
        lang: None,
        schema_version: None,
        command,
    }
}

fn api_plan(plan: CommandPlan) -> (ClientConfig, gw3::api::ApiRequest) {
    match plan {
        CommandPlan::Api { config, request } => (config, request),
        other => panic!("expected an API request, got {other:?}"),
    }
}

#[test]
fn cli_mcp_help_exposes_stdio_server_mode() {
    let plan = plan_command(cli(Commands::Mcp { command: McpCommands::Serve }))
        .expect("mcp serve should be planned");
    assert!(matches!(plan, CommandPlan::Serve));
}

#[test]
fn cli_item_get_outputs_public_item_json() {
    let plan = plan_command(cli(Commands::Item {
        command: ItemCommands::Get(IdsArgs { ids: vec!["19684".to_string()], lang: None }),
    }))
    .expect("item get should be planned");
    let (config, request) = api_plan(plan);
    assert_eq!(config.base_url, DEFAULT_API_BASE_URL);
    assert_eq!(request.path, "/v2/items");
    assert_eq!(request.ids, vec!["19684".to_string()]);
    assert!(!request.requires_auth);
    let fetch = plan_get_json(&config, &request).expect("public request needs no key");
    assert_eq!(fetch.requests[0].url, "https://api.guildwars2.com/v2/items?ids=19684");
}

#[test]
fn cli_account_info_requires_key_without_http_request() {
    let plan = plan_command(cli(Commands::Account { command: AccountCommands::Info }))
        .expect("account info should be planned");
    let (config, request) = api_plan(plan);
    assert!(request.requires_auth);
    let error = plan_get_json(&config, &request).expect_err("missing key should fail locally");
    assert!(matches!(error, Gw3Error::MissingApiKey));
}

#[test]
fn cli_wiki_search_outputs_page_title() {
    let plan = plan_command(cli(Commands::Wiki {
        command: WikiCommands::Search(QueryArgs {
            query: vec!["Legendary".to_string(), "armor".to_string()],
        }),
    }))
    .expect("wiki search should be planned");
    match plan {
        CommandPlan::WikiSearch { base_url, query } => {
            assert_eq!(base_url, DEFAULT_WIKI_BASE_URL);
            assert_eq!(query, "Legendary armor");
        }
        other => panic!("expected a wiki search, got {other:?}"),
    }
}

#[test]
fn cli_rejects_unsupported_global_language() {
    let mut c = cli(Commands::Account { command: AccountCommands::Info });
    c.lang = Some("jp".to_string());
    let error = plan_command(c).expect_err("unsupported language should fail");
    assert!(matches!(error, Gw3Error::InvalidLanguage(l) if l == "jp"));
}

#[test]
fn cli_api_get_prefers_its_own_key() {
    let mut c = cli(Commands::Api {
        command: ApiCommands::Get(ApiGetArgs {
            path: "items".to_string(),
            id: Some("19684".to_string()),
            ids: vec![],
            page: Some(2),
            page_size: Some(10),
            lang: Some("fr".to_string()),
            schema_version: None,
            api_key: Some("own-key".to_string()),
        }),
    });
    c.api_key = Some("global-key".to_string());
    let (config, request) = api_plan(plan_command(c).unwrap());
    assert_eq!(config.api_key.as_deref(), Some("own-key"));
    assert_eq!(config.timeout_secs, 30);
    assert_eq!(request.path, "items");
    assert_eq!(request.id.as_deref(), Some("19684"));
    assert_eq!(request.page, Some(2));
    assert_eq!(request.page_size, Some(10));
    assert_eq!(request.lang.as_deref(), Some("fr"));
    assert!(request.requires_auth);
}

#[test]
fn cli_api_get_sends_its_key_as_bearer() {
    let mut c = cli(Commands::Api {
        command: ApiCommands::Get(ApiGetArgs {
            path: "/v2/account".to_string(),
            id: None,
            ids: vec![],
            page: None,
            page_size: None,
            lang: None,
            schema_version: None,
            api_key: Some("test-key".to_string()),
        }),
    });
    c.api_base_url = "http://127.0.0.1:9000".to_string();
    let (config, request) = api_plan(plan_command(c).unwrap());
    let fetch = plan_get_json(&config, &request).unwrap();
    assert_eq!(fetch.requests.len(), 1);
    assert_eq!(fetch.requests[0].url, "http://127.0.0.1:9000/v2/account?");
    assert_eq!(fetch.requests[0].bearer.as_deref(), Some("test-key"));
}

#[test]
fn cli_api_get_without_any_key_sends_none() {
    let c = cli(Commands::Api {
        command: ApiCommands::Get(ApiGetArgs {
            path: "items".to_string(),
            id: None,
            ids: vec!["1".to_string()],
            page: None,
            page_size: None,
            lang: None,
            schema_version: None,
            api_key: None,
        }),
    });
    let (config, request) = api_plan(plan_command(c).unwrap());
    assert!(!request.requires_auth);
    let fetch = plan_get_json(&config, &request).unwrap();
    assert!(fetch.requests[0].bearer.is_none());
}

#[test]
fn cli_api_routes_asks_for_latest_schema() {
    let (_, request) = api_plan(
        plan_command(cli(Commands::Api { command: ApiCommands::Routes })).unwrap(),
    );
    assert_eq!(request.path, "/v2.json");
    assert_eq!(request.schema_version.as_deref(), Some("latest"));
}

#[test]
fn cli_public_get_on_authenticated_route_fails_locally() {
    let error = plan_command(cli(Commands::Public {
        command: PublicCommands::Get(PublicGetArgs {
            key: "account".to_string(),
            id: None,
            ids: vec![],
            lang: None,
            schema_version: None,
        }),
    }))
    .expect_err("authenticated route should be refused");
    assert!(matches!(
        error,
        Gw3Error::PublicEndpointRequiresAuth { ref key, ref path } if key == "account" && path == "/v2/account"
    ));
}

#[test]
fn cli_public_call_expands_path_template() {
    let (_, request) = api_plan(
        plan_command(cli(Commands::Public {
            command: PublicCommands::Call(PublicCallArgs {
                key: "pvp_season_leaderboards".to_string(),
                params: vec![
                    ("id".to_string(), "2v2-season".to_string()),
                    ("board".to_string(), "ladder".to_string()),
                    ("region".to_string(), "eu".to_string()),
                ],
                query: vec![],
                lang: None,
                schema_version: None,
            }),
        }))
        .unwrap(),
    );
    assert_eq!(request.path, "/v2/pvp/seasons/2v2-season/leaderboards/ladder/eu");
}

#[test]
fn cli_public_call_sends_custom_query() {
    let (config, request) = api_plan(
        plan_command(cli(Commands::Public {
            command: PublicCommands::Call(PublicCallArgs {
                key: "recipes_search".to_string(),
                params: vec![],
                query: vec![("input".to_string(), "46747".to_string())],
                lang: None,
                schema_version: None,
            }),
        }))
        .unwrap(),
    );
    let fetch = plan_get_json(&config, &request).unwrap();
    assert_eq!(
        fetch.requests[0].url,
        "https://api.guildwars2.com/v2/recipes/search?input=46747"
    );
    assert!(fetch.requests[0].bearer.is_none());
}

#[test]
fn cli_public_routes_is_local() {
    let plan = plan_command(cli(Commands::Public { command: PublicCommands::Routes })).unwrap();
    assert!(matches!(plan, CommandPlan::PublicRoutes));
}

#[test]
fn join_query_uses_single_spaces() {
    assert_eq!(join_query(vec![]), "");
    assert_eq!(join_query(vec!["a".to_string()]), "a");
    assert_eq!(
        join_query(vec!["Legendary".to_string(), "armor".to_string(), "set".to_string()]),
        "Legendary armor set"
    );
}

#[test]
fn split_assignment_cuts_at_first_equals() {
    assert_eq!(
        split_assignment("input=46747"),
        Some(("input".to_string(), "46747".to_string()))
    );
    assert_eq!(split_assignment("a=b=c"), Some(("a".to_string(), "b=c".to_string())));
    assert_eq!(split_assignment("=x"), Some((String::new(), "x".to_string())));
    assert_eq!(split_assignment("novalue"), None);
}
