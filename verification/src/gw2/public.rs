//! The registry of public official API routes and the checks that the
//! `public` command family applies before any HTTP request.
use crate::error::Gw3Error;
use crate::text::{owned, str_eq, strings_view};
use vstd::prelude::*;

verus! {

/// How a public route is reached.
#[derive(Debug, Clone, Copy, PartialEq, Eq, Structural)]
pub enum PublicEndpointKind {
    /// A base list with optional `id` or `ids`.
    Collection,
    /// Fetched directly at its base path.
    Singleton,
    /// Needs path or query parameters of its own.
    CallOnly,
}

/// A public route: its user-facing key, its official path (a template with
/// `:name` placeholders for call-only routes), whether it takes `lang`, how
/// it is reached and the names of its path parameters.
#[derive(Debug, Clone)]
pub struct PublicEndpointSpec {
    pub key: String,
    pub path: String,
    pub lang: bool,
    pub kind: PublicEndpointKind,
    pub path_params: Vec<String>,
}

/// What a public route entry holds, as character sequences.
pub struct PublicEndpointModel {
    pub key: Seq<char>,
    pub path: Seq<char>,
    pub lang: bool,
    pub kind: PublicEndpointKind,
    pub path_params: Seq<Seq<char>>,
}

impl View for PublicEndpointSpec {
    type V = PublicEndpointModel;

    open spec fn view(&self) -> PublicEndpointModel {
        PublicEndpointModel {
            key: self.key@,
            path: self.path@,
            lang: self.lang,
            kind: self.kind,
            path_params: strings_view(self.path_params@),
        }
    }
}

/// A route that the `public` family refuses: its key, path, and whether it
/// needs a key or is active.
#[derive(Debug, Clone)]
pub struct ExcludedEndpointSpec {
    pub key: String,
    pub path: String,
    pub auth: bool,
    pub active: bool,
}

/// What an excluded route entry holds, as character sequences.
pub struct ExcludedEndpointModel {
    pub key: Seq<char>,
    pub path: Seq<char>,
    pub auth: bool,
    pub active: bool,
}

impl View for ExcludedEndpointSpec {
    type V = ExcludedEndpointModel;

    open spec fn view(&self) -> ExcludedEndpointModel {
        ExcludedEndpointModel { key: self.key@, path: self.path@, auth: self.auth, active: self.active }
    }
}

/// One public route entry.
pub open spec fn public_entry(
    key: Seq<char>,
    path: Seq<char>,
    lang: bool,
    kind: PublicEndpointKind,
    path_params: Seq<Seq<char>>,
) -> PublicEndpointModel {
    PublicEndpointModel { key, path, lang, kind, path_params }
}

/// The public routes, sorted by key.
pub open spec fn public_registry() -> Seq<PublicEndpointModel> {
    seq![
        public_entry("achievements"@, "/v2/achievements"@, true, PublicEndpointKind::Collection, seq![]),
        public_entry("build"@, "/v2/build"@, false, PublicEndpointKind::Singleton, seq![]),
        public_entry("commerce_prices"@, "/v2/commerce/prices"@, false, PublicEndpointKind::Collection, seq![]),
        public_entry("items"@, "/v2/items"@, true, PublicEndpointKind::Collection, seq![]),
        public_entry("maps"@, "/v2/maps"@, true, PublicEndpointKind::Collection, seq![]),
        public_entry(
            "pvp_season_leaderboard_entries"@,
            "/v2/pvp/seasons/:id/leaderboards/:board/:region"@,
            false,
            PublicEndpointKind::CallOnly,
            seq!["id"@, "board"@, "region"@],
        ),
        public_entry(
            "pvp_season_leaderboards"@,
            "/v2/pvp/seasons/:id/leaderboards/:board/:region"@,
            false,
            PublicEndpointKind::CallOnly,
            seq!["id"@, "board"@, "region"@],
        ),
        public_entry("recipes_search"@, "/v2/recipes/search"@, false, PublicEndpointKind::CallOnly, seq![]),
        public_entry("skins"@, "/v2/skins"@, true, PublicEndpointKind::Collection, seq![]),
    ]
}

/// One excluded route entry.
pub open spec fn excluded_entry(key: Seq<char>, path: Seq<char>, auth: bool, active: bool) -> ExcludedEndpointModel {
    ExcludedEndpointModel { key, path, auth, active }
}

/// The routes that the `public` family refuses, sorted by key.
pub open spec fn excluded_registry() -> Seq<ExcludedEndpointModel> {
    seq![
        excluded_entry("account"@, "/v2/account"@, true, true),
        excluded_entry("adventures"@, "/v2/adventures"@, false, false),
        excluded_entry("characters"@, "/v2/characters"@, true, true),
        excluded_entry("tokeninfo"@, "/v2/tokeninfo"@, true, true),
    ]
}

/// The first entry of `reg` with key `key`.
pub open spec fn find_public(reg: Seq<PublicEndpointModel>, key: Seq<char>) -> Option<PublicEndpointModel>
    decreases reg.len(),
{
    if reg.len() == 0 {
        None
    } else if reg[0].key == key {
        Some(reg[0])
    } else {
        find_public(reg.drop_first(), key)
    }
}

/// The first entry of `reg` with key `key`.
pub open spec fn find_excluded(reg: Seq<ExcludedEndpointModel>, key: Seq<char>) -> Option<ExcludedEndpointModel>
    decreases reg.len(),
{
    if reg.len() == 0 {
        None
    } else if reg[0].key == key {
        Some(reg[0])
    } else {
        find_excluded(reg.drop_first(), key)
    }
}

/// The error that resolving a key with no public entry ends in: it needs a
/// key, it is inactive, or it is unknown.
pub open spec fn resolve_failure(key: Seq<char>, e: Gw3Error) -> bool {
    match find_excluded(excluded_registry(), key) {
        Some(x) => if x.auth {
            e matches Gw3Error::PublicEndpointRequiresAuth { key: k, path: p } && k@ == key && p@
                == x.path
        } else if !x.active {
            e matches Gw3Error::InactivePublicEndpoint { key: k, path: p } && k@ == key && p@
                == x.path
        } else {
            e matches Gw3Error::UnknownPublicEndpoint(k) && k@ == key
        },
        None => e matches Gw3Error::UnknownPublicEndpoint(k) && k@ == key,
    }
}

fn public_spec(key: &str, path: &str, lang: bool, kind: PublicEndpointKind, params: &[&str]) -> (res:
    PublicEndpointSpec)
    ensures
        res@ == public_entry(key@, path@, lang, kind, params@.map_values(|p: &str| p@)),
{
    let mut path_params: Vec<String> = Vec::new();
    let mut i: usize = 0;
    while i < params.len()
        invariant
            i <= params.len(),
            strings_view(path_params@) == params@.take(i as int).map_values(|p: &str| p@),
        decreases params.len() - i,
    {
        let ghost before = path_params@;
        let item = owned(params[i]);
        assert(item@ == params@[i as int]@);
        path_params.push(item);
        assert(strings_view(path_params@) =~= strings_view(before).push(params@[i as int]@));
        assert(params@.take(i + 1).map_values(|p: &str| p@) =~= params@.take(i as int).map_values(
            |p: &str| p@,
        ).push(params@[i as int]@));
        assert(strings_view(path_params@) =~= params@.take(i + 1).map_values(|p: &str| p@));
        i = i + 1;
    }
    assert(params@.take(params.len() as int) =~= params@);
    PublicEndpointSpec { key: owned(key), path: owned(path), lang, kind, path_params }
}

/// The public routes.
pub fn public_endpoints() -> (res: Vec<PublicEndpointSpec>)
    ensures
        res@.map_values(|e: PublicEndpointSpec| e@) == public_registry(),
{
    let no_params: [&str; 0] = [];
    let board_params = ["id", "board", "region"];
    let mut v: Vec<PublicEndpointSpec> = Vec::new();
    v.push(public_spec("achievements", "/v2/achievements", true, PublicEndpointKind::Collection, &no_params));
    v.push(public_spec("build", "/v2/build", false, PublicEndpointKind::Singleton, &no_params));
    v.push(public_spec("commerce_prices", "/v2/commerce/prices", false, PublicEndpointKind::Collection, &no_params));
    v.push(public_spec("items", "/v2/items", true, PublicEndpointKind::Collection, &no_params));
    v.push(public_spec("maps", "/v2/maps", true, PublicEndpointKind::Collection, &no_params));
    v.push(public_spec(
        "pvp_season_leaderboard_entries",
        "/v2/pvp/seasons/:id/leaderboards/:board/:region",
        false,
        PublicEndpointKind::CallOnly,
        &board_params,
    ));
    v.push(public_spec(
        "pvp_season_leaderboards",
        "/v2/pvp/seasons/:id/leaderboards/:board/:region",
        false,
        PublicEndpointKind::CallOnly,
        &board_params,
    ));
    v.push(public_spec("recipes_search", "/v2/recipes/search", false, PublicEndpointKind::CallOnly, &no_params));
    v.push(public_spec("skins", "/v2/skins", true, PublicEndpointKind::Collection, &no_params));
    assert(no_params@.map_values(|p: &str| p@) =~= Seq::<Seq<char>>::empty());
    assert(board_params@.map_values(|p: &str| p@) =~= seq!["id"@, "board"@, "region"@]);
    assert(v@.map_values(|e: PublicEndpointSpec| e@) =~= public_registry());
    v
}

fn excluded_spec(key: &str, path: &str, auth: bool, active: bool) -> (res: ExcludedEndpointSpec)
    ensures
        res@ == excluded_entry(key@, path@, auth, active),
{
    ExcludedEndpointSpec { key: owned(key), path: owned(path), auth, active }
}

/// The routes that the `public` family refuses.
pub fn excluded_endpoints() -> (res: Vec<ExcludedEndpointSpec>)
    ensures
        res@.map_values(|e: ExcludedEndpointSpec| e@) == excluded_registry(),
{
    let mut v: Vec<ExcludedEndpointSpec> = Vec::new();
    v.push(excluded_spec("account", "/v2/account", true, true));
    v.push(excluded_spec("adventures", "/v2/adventures", false, false));
    v.push(excluded_spec("characters", "/v2/characters", true, true));
    v.push(excluded_spec("tokeninfo", "/v2/tokeninfo", true, true));
    assert(v@.map_values(|e: ExcludedEndpointSpec| e@) =~= excluded_registry());
    v
}

/// The public route with key `key`, if any.
pub fn public_endpoint(key: &str) -> (res: Option<PublicEndpointSpec>)
    ensures
        match res {
            Some(e) => find_public(public_registry(), key@) == Some(e@),
            None => find_public(public_registry(), key@) is None,
        },
{
    let reg = public_endpoints();
    let ghost view = reg@.map_values(|e: PublicEndpointSpec| e@);
    let mut i: usize = 0;
    assert(view.skip(0) =~= view);
    while i < reg.len()
        invariant
            i <= reg.len(),
            view == reg@.map_values(|e: PublicEndpointSpec| e@),
            view == public_registry(),
            find_public(view, key@) == find_public(view.skip(i as int), key@),
        decreases reg.len() - i,
    {
        assert(view.skip(i as int)[0] == reg@[i as int]@);
        if str_eq(reg[i].key.as_str(), key) {
            return Some(reg[i].clone_spec());
        }
        assert(view.skip(i as int).drop_first() =~= view.skip(i + 1));
        i = i + 1;
    }
    None
}

/// The excluded route with key `key`, if any.
pub fn excluded_endpoint(key: &str) -> (res: Option<ExcludedEndpointSpec>)
    ensures
        match res {
            Some(e) => find_excluded(excluded_registry(), key@) == Some(e@),
            None => find_excluded(excluded_registry(), key@) is None,
        },
{
    let reg = excluded_endpoints();
    let ghost view = reg@.map_values(|e: ExcludedEndpointSpec| e@);
    let mut i: usize = 0;
    assert(view.skip(0) =~= view);
    while i < reg.len()
        invariant
            i <= reg.len(),
            view == reg@.map_values(|e: ExcludedEndpointSpec| e@),
            view == excluded_registry(),
            find_excluded(view, key@) == find_excluded(view.skip(i as int), key@),
        decreases reg.len() - i,
    {
        assert(view.skip(i as int)[0] == reg@[i as int]@);
        if str_eq(reg[i].key.as_str(), key) {
            let e = &reg[i];
            return Some(ExcludedEndpointSpec {
                key: e.key.clone(),
                path: e.path.clone(),
                auth: e.auth,
                active: e.active,
            });
        }
        assert(view.skip(i as int).drop_first() =~= view.skip(i + 1));
        i = i + 1;
    }
    None
}

impl PublicEndpointSpec {
    /// A copy of this entry.
    pub fn clone_spec(&self) -> (res: Self)
        ensures
            res@ == self@,
    {
        PublicEndpointSpec {
            key: self.key.clone(),
            path: self.path.clone(),
            lang: self.lang,
            kind: self.kind,
            path_params: crate::text::clone_strings(&self.path_params),
        }
    }
}

/// The public route with key `key`; where there is none,
/// `PublicEndpointRequiresAuth` for an excluded route that needs a key,
/// `InactivePublicEndpoint` for an excluded inactive one, and
/// `UnknownPublicEndpoint` otherwise.
pub fn resolve_public_endpoint(key: &str) -> (res: Result<PublicEndpointSpec, Gw3Error>)
    ensures
        match find_public(public_registry(), key@) {
            Some(e) => res matches Ok(r) && r@ == e,
            None => res matches Err(e) && resolve_failure(key@, e),
        },
{
    if let Some(endpoint) = public_endpoint(key) {
        return Ok(endpoint);
    }
    if let Some(endpoint) = excluded_endpoint(key) {
        if endpoint.auth {
            return Err(Gw3Error::PublicEndpointRequiresAuth { key: owned(key), path: endpoint.path });
        }
        if !endpoint.active {
            return Err(Gw3Error::InactivePublicEndpoint { key: owned(key), path: endpoint.path });
        }
    }
    Err(Gw3Error::UnknownPublicEndpoint(owned(key)))
}

} // verus!

verus! {

/// Every route that the `public` family refuses needs a key or is
/// inactive, no key names two public routes, and no key names both a public
/// route and a refused one: each key resolves one way only.
pub proof fn lemma_registry_consistent()
    ensures
        forall|j: int|
            0 <= j < excluded_registry().len() ==> #[trigger] excluded_registry()[j].auth
                || !excluded_registry()[j].active,
        forall|i: int, j: int|
            0 <= i < j < public_registry().len() ==> #[trigger] public_registry()[i].key
                != #[trigger] public_registry()[j].key,
        forall|i: int, j: int|
            0 <= i < public_registry().len() && 0 <= j < excluded_registry().len()
                ==> #[trigger] public_registry()[i].key != #[trigger] excluded_registry()[j].key,
{
    reveal_strlit("achievements");
    reveal_strlit("build");
    reveal_strlit("commerce_prices");
    reveal_strlit("items");
    reveal_strlit("maps");
    reveal_strlit("pvp_season_leaderboard_entries");
    reveal_strlit("pvp_season_leaderboards");
    reveal_strlit("recipes_search");
    reveal_strlit("skins");
    reveal_strlit("account");
    reveal_strlit("adventures");
    reveal_strlit("characters");
    reveal_strlit("tokeninfo");
    let p = public_registry();
    let x = excluded_registry();
    assert forall|i: int, j: int| 0 <= i < j < p.len() implies #[trigger] p[i].key != #[trigger] p[j].key by {
        if p[i].key.len() == p[j].key.len() {
            assert(p[i].key[0] != p[j].key[0]);
        }
    }
    assert forall|i: int, j: int| 0 <= i < p.len() && 0 <= j < x.len() implies #[trigger] p[i].key
        != #[trigger] x[j].key by {
        if p[i].key.len() == x[j].key.len() {
            assert(p[i].key[0] != x[j].key[0]);
        }
    }
}

} // verus!
