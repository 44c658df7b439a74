//! The description of one official API call.
use crate::text::{opt_view, owned, pairs_view, strings_view};
use vstd::prelude::*;

verus! {

/// What a request holds, as character sequences.
pub struct ApiRequestModel {
    pub path: Seq<char>,
    pub id: Option<Seq<char>>,
    pub ids: Seq<Seq<char>>,
    pub page: Option<u32>,
    pub page_size: Option<u32>,
    pub lang: Option<Seq<char>>,
    pub schema_version: Option<Seq<char>>,
    pub query: Seq<(Seq<char>, Seq<char>)>,
    pub requires_auth: bool,
}

/// The model of a request for `path` with nothing else set.
pub open spec fn bare_request(path: Seq<char>) -> ApiRequestModel {
    ApiRequestModel {
        path,
        id: None,
        ids: seq![],
        page: None,
        page_size: None,
        lang: None,
        schema_version: None,
        query: seq![],
        requires_auth: false,
    }
}

/// One call of the official API: the path, the optional `id`, `ids`, paging,
/// language and schema version, extra query pairs, and whether the call
/// needs the API key.
#[derive(Debug, Clone)]
pub struct ApiRequest {
    pub path: String,
    pub id: Option<String>,
    pub ids: Vec<String>,
    pub page: Option<u32>,
    pub page_size: Option<u32>,
    pub lang: Option<String>,
    pub schema_version: Option<String>,
    pub query: Vec<(String, String)>,
    pub requires_auth: bool,
}

impl View for ApiRequest {
    type V = ApiRequestModel;

    open spec fn view(&self) -> ApiRequestModel {
        ApiRequestModel {
            path: self.path@,
            id: opt_view(self.id),
            ids: strings_view(self.ids@),
            page: self.page,
            page_size: self.page_size,
            lang: opt_view(self.lang),
            schema_version: opt_view(self.schema_version),
            query: pairs_view(self.query@),
            requires_auth: self.requires_auth,
        }
    }
}

impl Default for ApiRequest {
    /// A request for the empty path with nothing set.
    fn default() -> (res: Self)
        ensures
            res@ == bare_request(Seq::empty()),
    {
        let res = ApiRequest {
            path: String::new(),
            id: None,
            ids: Vec::new(),
            page: None,
            page_size: None,
            lang: None,
            schema_version: None,
            query: Vec::new(),
            requires_auth: false,
        };
        assert(res@.ids =~= Seq::<Seq<char>>::empty());
        assert(res@.query =~= Seq::<(Seq<char>, Seq<char>)>::empty());
        res
    }
}

impl ApiRequest {
    /// A request for `path` with nothing else set.
    pub fn new(path: &str) -> (res: Self)
        ensures
            res@ == bare_request(path@),
    {
        let res = ApiRequest {
            path: owned(path),
            id: None,
            ids: Vec::new(),
            page: None,
            page_size: None,
            lang: None,
            schema_version: None,
            query: Vec::new(),
            requires_auth: false,
        };
        assert(res@.ids =~= Seq::<Seq<char>>::empty());
        assert(res@.query =~= Seq::<(Seq<char>, Seq<char>)>::empty());
        res
    }

    /// The same request, marked as needing the API key.
    pub fn requires_auth(self) -> (res: Self)
        ensures
            res@ == (ApiRequestModel { requires_auth: true, ..self@ }),
    {
        ApiRequest { requires_auth: true, ..self }
    }

    /// The same request with `id` set.
    pub fn with_id(self, id: &str) -> (res: Self)
        ensures
            res@ == (ApiRequestModel { id: Some(id@), ..self@ }),
    {
        ApiRequest { id: Some(owned(id)), ..self }
    }

    /// The same request with `id` set where one is given, and unchanged otherwise.
    pub fn with_id_opt(self, id: Option<String>) -> (res: Self)
        ensures
            res@ == (match id {
                Some(i) => ApiRequestModel { id: Some(i@), ..self@ },
                None => self@,
            }),
    {
        match id {
            Some(i) => ApiRequest { id: Some(i), ..self },
            None => self,
        }
    }

    /// The same request with its id list replaced by `ids`.
    pub fn with_ids(self, ids: Vec<String>) -> (res: Self)
        ensures
            res@ == (ApiRequestModel { ids: strings_view(ids@), ..self@ }),
    {
        ApiRequest { ids, ..self }
    }

    /// The same request with its language replaced by `lang`.
    pub fn with_lang(self, lang: Option<String>) -> (res: Self)
        ensures
            res@ == (ApiRequestModel { lang: opt_view(lang), ..self@ }),
    {
        ApiRequest { lang, ..self }
    }

    /// The same request with its schema version replaced by `schema_version`.
    pub fn with_schema_version(self, schema_version: Option<String>) -> (res: Self)
        ensures
            res@ == (ApiRequestModel { schema_version: opt_view(schema_version), ..self@ }),
    {
        ApiRequest { schema_version, ..self }
    }

    /// The same request with its page and page size replaced.
    pub fn with_page(self, page: Option<u32>, page_size: Option<u32>) -> (res: Self)
        ensures
            res@ == (ApiRequestModel { page, page_size, ..self@ }),
    {
        ApiRequest { page, page_size, ..self }
    }

    /// The same request with one more query pair after the others.
    pub fn with_query_param(self, name: &str, value: &str) -> (res: Self)
        ensures
            res@ == (ApiRequestModel { query: self@.query.push((name@, value@)), ..self@ }),
    {
        let mut req = self;
        let ghost before = req.query@;
        req.query.push((owned(name), owned(value)));
        assert(pairs_view(req.query@) =~= pairs_view(before).push((name@, value@)));
        req
    }

    /// The same request with its query pairs replaced by `query`.
    pub fn with_query_params(self, query: Vec<(String, String)>) -> (res: Self)
        ensures
            res@ == (ApiRequestModel { query: pairs_view(query@), ..self@ }),
    {
        ApiRequest { query, ..self }
    }
}

} // verus!
