//! The command line: its arguments, and what each command decides to do
//! before any HTTP request.
use crate::config::{ClientConfig, DEFAULT_TIMEOUT_SECS};
use crate::error::Gw3Error;
use crate::gw2::operations::{
    public_all_outcome, public_call_outcome, public_get_outcome, public_list_outcome,
    public_page_outcome, account_info_request, character_list_request, item_lookup_request, item_prices_request,
    public_all_request, public_call_request, public_get_request, public_list_request,
    public_page_request, routes_request, token_info_request,
};
use crate::gw2::path::{is_supported_lang, validate_lang};
use crate::gw2::request::{ApiRequest, ApiRequestModel};
use crate::text::{join, joined, opt_view, owned, pairs_view, strings_view};
use vstd::prelude::*;
use vstd::string::*;

verus! {

/// The global options and the command.
#[derive(Debug)]
pub struct Cli {
    pub api_base_url: String,
    pub wiki_base_url: String,
    pub api_key: Option<String>,
    pub lang: Option<String>,
    pub schema_version: Option<String>,
    pub command: Commands,
}

/// The command families.
#[derive(Debug)]
pub enum Commands {
    Api { command: ApiCommands },
    Token { command: TokenCommands },
    Item { command: ItemCommands },
    Account { command: AccountCommands },
    Character { command: CharacterCommands },
    Public { command: PublicCommands },
    Wiki { command: WikiCommands },
    Mcp { command: McpCommands },
}

/// `api routes` and `api get`.
#[derive(Debug)]
pub enum ApiCommands {
    Routes,
    Get(ApiGetArgs),
}

/// The arguments of `api get`.
#[derive(Debug)]
pub struct ApiGetArgs {
    pub path: String,
    pub id: Option<String>,
    pub ids: Vec<String>,
    pub page: Option<u32>,
    pub page_size: Option<u32>,
    pub lang: Option<String>,
    pub schema_version: Option<String>,
    pub api_key: Option<String>,
}

/// `token info`.
#[derive(Debug)]
pub enum TokenCommands {
    Info,
}

/// `item get` and `item prices`.
#[derive(Debug)]
pub enum ItemCommands {
    Get(IdsArgs),
    Prices(IdsArgs),
}

/// An id list and a language.
#[derive(Debug)]
pub struct IdsArgs {
    pub ids: Vec<String>,
    pub lang: Option<String>,
}

/// `account info`.
#[derive(Debug)]
pub enum AccountCommands {
    Info,
}

/// `character list`.
#[derive(Debug)]
pub enum CharacterCommands {
    List,
}

/// `public routes|list|get|all|page|call`.
#[derive(Debug)]
pub enum PublicCommands {
    Routes,
    List(PublicKeyArgs),
    Get(PublicGetArgs),
    All(PublicKeyArgs),
    Page(PublicPageArgs),
    Call(PublicCallArgs),
}

/// A registry key with a language and schema version.
#[derive(Debug)]
pub struct PublicKeyArgs {
    pub key: String,
    pub lang: Option<String>,
    pub schema_version: Option<String>,
}

/// The arguments of `public get`.
#[derive(Debug)]
pub struct PublicGetArgs {
    pub key: String,
    pub id: Option<String>,
    pub ids: Vec<String>,
    pub lang: Option<String>,
    pub schema_version: Option<String>,
}

/// The arguments of `public page`.
#[derive(Debug)]
pub struct PublicPageArgs {
    pub key: String,
    pub page: u32,
    pub page_size: Option<u32>,
    pub lang: Option<String>,
    pub schema_version: Option<String>,
}

/// The arguments of `public call`: `--param name=value` and
/// `--query name=value`, already split.
#[derive(Debug)]
pub struct PublicCallArgs {
    pub key: String,
    pub params: Vec<(String, String)>,
    pub query: Vec<(String, String)>,
    pub lang: Option<String>,
    pub schema_version: Option<String>,
}

/// `wiki search` and `wiki page`.
#[derive(Debug)]
pub enum WikiCommands {
    Search(QueryArgs),
    Page(QueryArgs),
}

/// The words of a Wiki query.
#[derive(Debug)]
pub struct QueryArgs {
    pub query: Vec<String>,
}

/// `mcp serve`.
#[derive(Debug)]
pub enum McpCommands {
    Serve,
}

/// What a command does once decided.
#[derive(Debug)]
pub enum CommandPlan {
    /// Serve MCP over standard input and output.
    Serve,
    /// Send `request` with a client configured by `config`.
    Api { config: ClientConfig, request: ApiRequest },
    /// Print the public route registry.
    PublicRoutes,
    /// Search the Wiki at `base_url`.
    WikiSearch { base_url: String, query: String },
    /// Summarize a Wiki page at `base_url`.
    WikiPage { base_url: String, title: String },
}

/// The words of a query joined by single spaces.
pub fn join_query(query: Vec<String>) -> (res: String)
    ensures
        res@ == joined(strings_view(query@), " "@),
{
    join(&query, " ")
}

/// Splits `name=value` at its first `=`; `None` where there is none.
pub fn split_assignment(text: &str) -> (res: Option<(String, String)>)
    ensures
        match res {
            Some((name, value)) => {
                &&& text@ == name@ + seq!['='] + value@
                &&& !name@.contains('=')
            },
            None => !text@.contains('='),
        },
{
    let n = text.unicode_len();
    let mut i: usize = 0;
    while i < n
        invariant
            n == text@.len(),
            i <= n,
            forall|k: int| 0 <= k < i ==> text@[k] != '=',
        decreases n - i,
    {
        if text.get_char(i) == '=' {
            let name = owned(text.substring_char(0, i));
            let value = owned(text.substring_char(i + 1, n));
            assert(text@ =~= name@ + seq!['='] + value@);
            assert(!name@.contains('=')) by {
                if name@.contains('=') {
                    let k = choose|k: int| 0 <= k < name@.len() && name@[k] == '=';
                    assert(text@[k] == '=');
                }
            }
            return Some((name, value));
        }
        i = i + 1;
    }
    None
}

/// The configuration of the API client that a command uses: the global
/// options, with `api_key` as the key, and the default timeout.
pub open spec fn command_config(cli: Cli, api_key: Option<String>) -> ClientConfig {
    ClientConfig {
        base_url: cli.api_base_url,
        wiki_base_url: cli.wiki_base_url,
        lang: cli.lang,
        schema_version: cli.schema_version,
        api_key,
        timeout_secs: 30,
    }
}

/// Whether `plan` sends a request whose model is `req` with the client
/// configured from the global options and `api_key`.
pub open spec fn sends(plan: CommandPlan, cli: Cli, api_key: Option<String>, req: ApiRequestModel) -> bool {
    plan matches CommandPlan::Api { config, request } && config == command_config(cli, api_key)
        && request@ == req
}

fn config_for(
    base_url: &String,
    wiki_base_url: &String,
    lang: &Option<String>,
    schema_version: &Option<String>,
    api_key: Option<String>,
) -> (res: ClientConfig)
    ensures
        res == (ClientConfig {
            base_url: *base_url,
            wiki_base_url: *wiki_base_url,
            lang: *lang,
            schema_version: *schema_version,
            api_key,
            timeout_secs: 30,
        }),
{
    ClientConfig {
        base_url: base_url.clone(),
        wiki_base_url: wiki_base_url.clone(),
        lang: crate::text::clone_opt(lang),
        schema_version: crate::text::clone_opt(schema_version),
        api_key,
        timeout_secs: DEFAULT_TIMEOUT_SECS,
    }
}

/// The request of a `public` command's plan, or its error; any plan other
/// than a request with the client configured from the global options stands
/// for no outcome that the `public` family has.
pub open spec fn public_result(res: Result<CommandPlan, Gw3Error>, cli: Cli) -> Result<ApiRequest, Gw3Error> {
    match res {
        Ok(CommandPlan::Api { config, request }) => if config == command_config(cli, cli.api_key) {
            Ok(request)
        } else {
            Err(Gw3Error::Runtime(arbitrary()))
        },
        Ok(_) => Err(Gw3Error::Runtime(arbitrary())),
        Err(e) => Err(e),
    }
}

/// What a command does, decided before any HTTP request: `mcp serve` serves;
/// every other command first needs a supported global language
/// (`InvalidLanguage`); `api get` uses its own key where given and the
/// global one otherwise, and sends that key as a bearer token whenever there
/// is one; the `public` family resolves its registry key and
/// fails locally as that resolution does; the Wiki commands join their
/// words with spaces.
pub fn plan_command(cli: Cli) -> (res: Result<CommandPlan, Gw3Error>)
    ensures
        res matches Ok(CommandPlan::Api { config, request }) ==> {
            &&& config.base_url == cli.api_base_url
            &&& config.wiki_base_url == cli.wiki_base_url
            &&& config.lang == cli.lang
            &&& config.schema_version == cli.schema_version
            &&& config.timeout_secs == 30
            &&& !(cli.command matches Commands::Api { command: ApiCommands::Get(_) })
                ==> config.api_key == cli.api_key
        },
        cli.command is Mcp ==> res matches Ok(CommandPlan::Serve),
        !(cli.command is Mcp) && !(opt_view(cli.lang) matches Some(l) ==> is_supported_lang(l))
            ==> (res matches Err(Gw3Error::InvalidLanguage(l)) && opt_view(cli.lang) == Some(l@)),
        !(cli.command is Mcp) && (opt_view(cli.lang) matches Some(l) ==> is_supported_lang(l)) ==> {
            match cli.command {
                Commands::Api { command: ApiCommands::Routes } => res matches Ok(p) && sends(
                    p,
                    cli,
                    cli.api_key,
                    crate::gw2::request::ApiRequestModel {
                        schema_version: Some("latest"@),
                        ..crate::gw2::request::bare_request("/v2.json"@)
                    },
                ),
                Commands::Api { command: ApiCommands::Get(args) } => res matches Ok(p) && sends(
                    p,
                    cli,
                    match args.api_key {
                        Some(k) => Some(k),
                        None => cli.api_key,
                    },
                    crate::gw2::request::ApiRequestModel {
                        id: opt_view(args.id),
                        ids: strings_view(args.ids@),
                        page: args.page,
                        page_size: args.page_size,
                        lang: opt_view(args.lang),
                        schema_version: opt_view(args.schema_version),
                        requires_auth: (args.api_key is Some || cli.api_key is Some),
                        ..crate::gw2::request::bare_request(args.path@)
                    },
                ),
                Commands::Token { .. } => res matches Ok(p) && sends(
                    p,
                    cli,
                    cli.api_key,
                    crate::gw2::request::ApiRequestModel {
                        requires_auth: true,
                        ..crate::gw2::request::bare_request("/v2/tokeninfo"@)
                    },
                ),
                Commands::Item { command: ItemCommands::Get(args) } => res matches Ok(p) && sends(
                    p,
                    cli,
                    cli.api_key,
                    crate::gw2::request::ApiRequestModel {
                        ids: strings_view(args.ids@),
                        lang: opt_view(args.lang),
                        ..crate::gw2::request::bare_request("/v2/items"@)
                    },
                ),
                Commands::Item { command: ItemCommands::Prices(args) } => res matches Ok(p) && sends(
                    p,
                    cli,
                    cli.api_key,
                    crate::gw2::request::ApiRequestModel {
                        ids: strings_view(args.ids@),
                        ..crate::gw2::request::bare_request("/v2/commerce/prices"@)
                    },
                ),
                Commands::Account { .. } => res matches Ok(p) && sends(
                    p,
                    cli,
                    cli.api_key,
                    crate::gw2::request::ApiRequestModel {
                        requires_auth: true,
                        ..crate::gw2::request::bare_request("/v2/account"@)
                    },
                ),
                Commands::Character { .. } => res matches Ok(p) && sends(
                    p,
                    cli,
                    cli.api_key,
                    crate::gw2::request::ApiRequestModel {
                        requires_auth: true,
                        ..crate::gw2::request::bare_request("/v2/characters"@)
                    },
                ),
                Commands::Public { command: PublicCommands::Routes } => res matches Ok(
                    CommandPlan::PublicRoutes,
                ),
                Commands::Public { command: PublicCommands::List(a) } => public_list_outcome(
                    a.key@,
                    opt_view(a.lang),
                    opt_view(a.schema_version),
                    public_result(res, cli),
                ),
                Commands::Public { command: PublicCommands::Get(a) } => public_get_outcome(
                    a.key@,
                    opt_view(a.id),
                    strings_view(a.ids@),
                    opt_view(a.lang),
                    opt_view(a.schema_version),
                    public_result(res, cli),
                ),
                Commands::Public { command: PublicCommands::All(a) } => public_all_outcome(
                    a.key@,
                    opt_view(a.lang),
                    opt_view(a.schema_version),
                    public_result(res, cli),
                ),
                Commands::Public { command: PublicCommands::Page(a) } => public_page_outcome(
                    a.key@,
                    a.page,
                    a.page_size,
                    opt_view(a.lang),
                    opt_view(a.schema_version),
                    public_result(res, cli),
                ),
                Commands::Public { command: PublicCommands::Call(a) } => public_call_outcome(
                    a.key@,
                    pairs_view(a.params@),
                    pairs_view(a.query@),
                    opt_view(a.lang),
                    opt_view(a.schema_version),
                    public_result(res, cli),
                ),
                Commands::Wiki { command: WikiCommands::Search(args) } => res matches Ok(
                    CommandPlan::WikiSearch { base_url, query },
                ) && base_url == cli.wiki_base_url && query@ == joined(
                    strings_view(args.query@),
                    " "@,
                ),
                Commands::Wiki { command: WikiCommands::Page(args) } => res matches Ok(
                    CommandPlan::WikiPage { base_url, title },
                ) && base_url == cli.wiki_base_url && title@ == joined(
                    strings_view(args.query@),
                    " "@,
                ),
                Commands::Mcp { .. } => true,
            }
        },
{
    if let Commands::Mcp { .. } = &cli.command {
        return Ok(CommandPlan::Serve);
    }
    let checked = match &cli.lang {
        Some(l) => validate_lang(Some(l.as_str())),
        None => validate_lang(None),
    };
    if let Err(e) = checked {
        return Err(e);
    }
    let api_key = crate::text::clone_opt(&cli.api_key);
    let (key, request) = match cli.command {
        Commands::Api { command: ApiCommands::Routes } => (api_key, routes_request()),
        Commands::Api { command: ApiCommands::Get(args) } => {
            let key = match args.api_key {
                Some(k) => Some(k),
                None => api_key,
            };
            let mut request = ApiRequest::new(args.path.as_str()).with_ids(args.ids).with_lang(
                args.lang,
            ).with_schema_version(args.schema_version).with_page(args.page, args.page_size);
            if let Some(id) = args.id {
                request = request.with_id(id.as_str());
            }
            if key.is_some() {
                request = request.requires_auth();
            }
            (key, request)
        },
        Commands::Token { .. } => (api_key, token_info_request()),
        Commands::Item { command: ItemCommands::Get(args) } => (
            api_key,
            item_lookup_request(args.ids, args.lang),
        ),
        Commands::Item { command: ItemCommands::Prices(args) } => (
            api_key,
            item_prices_request(args.ids),
        ),
        Commands::Account { .. } => (api_key, account_info_request()),
        Commands::Character { .. } => (api_key, character_list_request()),
        Commands::Public { command } => {
            let planned = match command {
                PublicCommands::Routes => return Ok(CommandPlan::PublicRoutes),
                PublicCommands::List(a) => public_list_request(
                    a.key.as_str(),
                    a.lang,
                    a.schema_version,
                ),
                PublicCommands::Get(a) => public_get_request(
                    a.key.as_str(),
                    a.id,
                    a.ids,
                    a.lang,
                    a.schema_version,
                ),
                PublicCommands::All(a) => public_all_request(a.key.as_str(), a.lang, a.schema_version),
                PublicCommands::Page(a) => public_page_request(
                    a.key.as_str(),
                    a.page,
                    a.page_size,
                    a.lang,
                    a.schema_version,
                ),
                PublicCommands::Call(a) => public_call_request(
                    a.key.as_str(),
                    a.params,
                    a.query,
                    a.lang,
                    a.schema_version,
                ),
            };
            match planned {
                Ok(request) => (api_key, request),
                Err(e) => return Err(e),
            }
        },
        Commands::Wiki { command: WikiCommands::Search(args) } => {
            return Ok(
                CommandPlan::WikiSearch {
                    base_url: cli.wiki_base_url.clone(),
                    query: join_query(args.query),
                },
            );
        },
        Commands::Wiki { command: WikiCommands::Page(args) } => {
            return Ok(
                CommandPlan::WikiPage {
                    base_url: cli.wiki_base_url.clone(),
                    title: join_query(args.query),
                },
            );
        },
        Commands::Mcp { .. } => return Ok(CommandPlan::Serve),
    };
    let config = config_for(
        &cli.api_base_url,
        &cli.wiki_base_url,
        &cli.lang,
        &cli.schema_version,
        key,
    );
    Ok(CommandPlan::Api { config, request })
}

} // verus!
