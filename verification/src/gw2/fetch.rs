//! The decisions of one official API call: what is refused before any HTTP
//! request, which requests are sent, and how chunked answers are merged.
use crate::config::ClientConfig;
use crate::error::Gw3Error;
use crate::gw2::chunk::{chunk_ids, id_batches, MAX_IDS_PER_REQUEST};
use crate::gw2::path::{is_supported_lang, normalized_api_path, validate_lang};
use crate::gw2::query::{build_url, call_url, call_url_error, request_target};
use crate::gw2::request::{ApiRequest, ApiRequestModel};
use crate::outside::{json_array, json_array_elements, json_array_items};
use crate::text::{clone_opt, clone_strings, opt_view, owned, strings_view, trimmed};
use vstd::prelude::*;

verus! {

/// One HTTP GET to send: its URL and the bearer token of its
/// `Authorization` header, if any.
#[derive(Debug)]
pub struct PreparedRequest {
    pub url: String,
    pub bearer: Option<String>,
}

/// The requests that one call sends, in order, and whether their answers are
/// merged as chunks of one JSON array.
#[derive(Debug)]
pub struct FetchPlan {
    pub requests: Vec<PreparedRequest>,
    pub chunked: bool,
}

/// Whether the call lacks the key that it needs.
pub open spec fn lacks_key(config: ClientConfig, req: ApiRequestModel) -> bool {
    req.requires_auth && config.api_key is None
}

/// Whether the request's own language, if any, is supported.
pub open spec fn lang_accepted(req: ApiRequestModel) -> bool {
    req.lang matches Some(l) ==> is_supported_lang(l)
}

/// The bearer token that a call sends: the configured key, and only for a
/// call that needs it.
pub open spec fn bearer_for(config: ClientConfig, req: ApiRequestModel) -> Option<Seq<char>> {
    if req.requires_auth {
        opt_view(config.api_key)
    } else {
        None
    }
}

/// `e` is the failure of the first batch of the call whose target does not
/// parse: an `InvalidUrl` holding the target text and that batch's parse error.
pub open spec fn first_url_failure(config: ClientConfig, request: ApiRequest, e: Gw3Error) -> bool {
    exists|i: int|
        #![trigger id_batches(request.ids@)[i]]
        0 <= i < id_batches(request.ids@).len() && (forall|j: int|
            0 <= j < i ==> call_url(config, request@, strings_view(id_batches(request.ids@)[j])) is Some)
            && (e matches Gw3Error::InvalidUrl { url, source } && url@ == request_target(
            config.base_url@,
            normalized_api_path(request@.path).unwrap(),
        ) && call_url_error(config, request@, strings_view(id_batches(request.ids@)[i]))
            == Some(source))
}

/// Decides a call before any HTTP request: `MissingApiKey` where the call
/// needs a key and none is configured, then `InvalidLanguage` for an
/// unsupported request language, then `InvalidPath` where the path does not
/// normalize, then `InvalidUrl` where a URL does not parse; otherwise one
/// request per id batch, in order, each with the URL of its batch and the
/// bearer token that the call sends, chunked exactly where there are more
/// than `MAX_IDS_PER_REQUEST` ids.
pub fn plan_get_json(config: &ClientConfig, request: &ApiRequest) -> (res: Result<FetchPlan, Gw3Error>)
    ensures
        lacks_key(*config, request@) ==> res matches Err(Gw3Error::MissingApiKey),
        !lacks_key(*config, request@) && !lang_accepted(request@) ==> (res matches Err(
            Gw3Error::InvalidLanguage(l),
        ) && request@.lang == Some(l@)),
        !lacks_key(*config, request@) && lang_accepted(request@) && normalized_api_path(
            request@.path,
        ) is None ==> (res matches Err(Gw3Error::InvalidPath(t)) && t@ == trimmed(request@.path)),
        !lacks_key(*config, request@) && lang_accepted(request@) && normalized_api_path(
            request@.path,
        ) is Some ==> ((res is Ok <==> forall|i: int|
            0 <= i < id_batches(request.ids@).len() ==> #[trigger] call_url(
                *config,
                request@,
                strings_view(id_batches(request.ids@)[i]),
            ) is Some) && (res matches Err(e) ==> first_url_failure(*config, *request, e))),
        res matches Ok(plan) ==> {
            &&& plan.chunked == (request.ids.len() > MAX_IDS_PER_REQUEST)
            &&& plan.requests.len() == id_batches(request.ids@).len()
            &&& forall|i: int|
                0 <= i < plan.requests.len() ==> call_url(
                    *config,
                    request@,
                    strings_view(id_batches(request.ids@)[i]),
                ) == Some(#[trigger] plan.requests@[i].url@)
            &&& forall|i: int|
                0 <= i < plan.requests.len() ==> opt_view(#[trigger] plan.requests@[i].bearer)
                    == bearer_for(*config, request@)
        },
{
    if request.requires_auth && config.api_key.is_none() {
        return Err(Gw3Error::MissingApiKey);
    }
    let checked = match &request.lang {
        Some(l) => validate_lang(Some(l.as_str())),
        None => validate_lang(None),
    };
    if let Err(e) = checked {
        return Err(e);
    }
    let chunked = request.ids.len() > MAX_IDS_PER_REQUEST;
    let batches: Vec<Vec<String>> = if chunked {
        chunk_ids(&request.ids)
    } else {
        let mut b: Vec<Vec<String>> = Vec::new();
        b.push(clone_strings(&request.ids));
        assert(b@.map_values(|c: Vec<String>| c@) =~= id_batches(request.ids@));
        b
    };
    assert(batches@.map_values(|c: Vec<String>| c@) == id_batches(request.ids@));
    let bearer = if request.requires_auth {
        clone_opt(&config.api_key)
    } else {
        None
    };
    let mut requests: Vec<PreparedRequest> = Vec::new();
    let mut i: usize = 0;
    while i < batches.len()
        invariant
            i <= batches.len(),
            batches@.map_values(|c: Vec<String>| c@) == id_batches(request.ids@),
            batches.len() >= 1,
            opt_view(bearer) == bearer_for(*config, request@),
            requests.len() == i,
            forall|k: int|
                0 <= k < i ==> call_url(*config, request@, strings_view(id_batches(request.ids@)[k]))
                    == Some(#[trigger] requests@[k].url@),
            forall|k: int|
                0 <= k < i ==> opt_view(#[trigger] requests@[k].bearer) == bearer_for(
                    *config,
                    request@,
                ),
            i > 0 ==> normalized_api_path(request@.path) is Some,
            !lacks_key(*config, request@),
            lang_accepted(request@),
        decreases batches.len() - i,
    {
        assert(batches@.map_values(|c: Vec<String>| c@)[i as int] == batches@[i as int]@);
        match build_url(config, request, &batches[i]) {
            Ok(url) => {
                let ghost before = requests@;
                let ghost u = url@;
                assert(call_url(*config, request@, strings_view(batches@[i as int]@)) == Some(u));
                assert(call_url(*config, request@, strings_view(id_batches(request.ids@)[i as int]))
                    == Some(u));
                requests.push(PreparedRequest { url, bearer: clone_opt(&bearer) });
                assert(requests@[i as int].url@ == u);
                assert forall|k: int| 0 <= k < i + 1 implies call_url(
                    *config,
                    request@,
                    strings_view(id_batches(request.ids@)[k]),
                ) == Some(#[trigger] requests@[k].url@) by {
                    if k < i {
                        assert(requests@[k] == before[k]);
                        let w = before[k].url@;
                        assert(call_url(*config, request@, strings_view(id_batches(request.ids@)[k]))
                            == Some(w));
                    } else {
                        assert(id_batches(request.ids@)[k] == batches@[i as int]@);
                    }
                }
            },
            Err(e) => {
                assert(!(forall|k: int|
                    0 <= k < id_batches(request.ids@).len() ==> #[trigger] call_url(
                        *config,
                        request@,
                        strings_view(id_batches(request.ids@)[k]),
                    ) is Some)) by {
                    assert(call_url(*config, request@, strings_view(id_batches(request.ids@)[i as int])) is None);
                }
                assert(normalized_api_path(request@.path) is Some ==> first_url_failure(
                    *config,
                    *request,
                    e,
                )) by {
                    assert(id_batches(request.ids@)[i as int] == id_batches(request.ids@)[i as int]);
                    assert forall|j: int| 0 <= j < i implies call_url(
                        *config,
                        request@,
                        strings_view(id_batches(request.ids@)[j]),
                    ) is Some by {
                        assert(call_url(*config, request@, strings_view(id_batches(request.ids@)[j]))
                            == Some(requests@[j].url@));
                    }
                }
                return Err(e);
            },
        }
        i = i + 1;
    }
    assert forall|k: int|
        0 <= k < id_batches(request.ids@).len() implies #[trigger] call_url(
            *config,
            request@,
            strings_view(id_batches(request.ids@)[k]),
        ) is Some by {
        assert(call_url(*config, request@, strings_view(id_batches(request.ids@)[k])) == Some(
            requests@[k].url@,
        ));
    }
    Ok(FetchPlan { requests, chunked })
}

/// The merged elements of the chunked answers of one call.
pub struct ChunkMerge {
    merged: Vec<serde_json::Value>,
}

impl ChunkMerge {
    /// The elements merged so far, in order.
    pub closed spec fn items(&self) -> Seq<serde_json::Value> {
        self.merged@
    }

    /// Nothing merged yet.
    pub fn new() -> (res: Self)
        ensures
            res.items() == Seq::<serde_json::Value>::empty(),
    {
        ChunkMerge { merged: Vec::new() }
    }

    /// Appends the elements of one chunk's answer, which must be a JSON
    /// array; any other answer is refused as `UnexpectedResponse`, holding
    /// that answer, and leaves the merge as it was.
    pub fn absorb(&mut self, value: serde_json::Value) -> (res: Result<(), Gw3Error>)
        ensures
            match json_array_elements(value) {
                Some(elements) => res is Ok && final(self).items() == old(self).items() + elements,
                None => {
                    &&& res matches Err(Gw3Error::UnexpectedResponse(v)) && v == value
                    &&& final(self).items() == old(self).items()
                },
            },
    {
        match json_array_items(value) {
            Ok(items) => {
                let mut items = items;
                self.merged.append(&mut items);
                Ok(())
            },
            Err(other) => Err(Gw3Error::UnexpectedResponse(other)),
        }
    }

    /// The JSON array of all merged elements, in order.
    pub fn finish(self) -> (res: serde_json::Value)
        ensures
            json_array_elements(res) == Some(self.items()),
    {
        json_array(self.merged)
    }

    /// The JSON array of all merged elements, in order, leaving the merge
    /// empty.
    fn take_array(&mut self) -> (res: serde_json::Value)
        ensures
            json_array_elements(res) == Some(old(self).items()),
            final(self).items() == Seq::<serde_json::Value>::empty(),
    {
        let all = self.merged.split_off(0);
        assert(all@ =~= old(self).merged@);
        json_array(all)
    }
}

/// What a call does next.
#[derive(Debug)]
pub enum FetchAction {
    /// Send the planned request with this index.
    Send(usize),
    /// The call is over, with this outcome.
    Finish(Result<serde_json::Value, Gw3Error>),
}

/// A call in progress: whether its answers are merged as chunks, how many
/// requests it plans, which one's answer it awaits, and what it has merged.
pub struct FetchRun {
    chunked: bool,
    total: usize,
    next: usize,
    merge: ChunkMerge,
}

impl FetchRun {
    /// Whether the answers are merged as chunks of one array.
    pub closed spec fn chunked(&self) -> bool {
        self.chunked
    }

    /// How many requests the call plans.
    pub closed spec fn total(&self) -> nat {
        self.total as nat
    }

    /// The index of the request whose answer is awaited.
    pub closed spec fn awaited(&self) -> nat {
        self.next as nat
    }

    /// The elements merged so far, in order.
    pub closed spec fn items(&self) -> Seq<serde_json::Value> {
        self.merge.items()
    }

    /// Starts a call of `plan`: send its first request, or, for a plan with
    /// no request, finish with a `Runtime` error.
    pub fn start(plan: &FetchPlan) -> (res: (FetchRun, FetchAction))
        ensures
            res.0.chunked() == plan.chunked,
            res.0.total() == plan.requests.len(),
            res.0.awaited() == 0,
            res.0.items() == Seq::<serde_json::Value>::empty(),
            plan.requests.len() > 0 ==> (res.1 matches FetchAction::Send(i) && i == 0),
            plan.requests.len() == 0 ==> (res.1 matches FetchAction::Finish(
                Err(Gw3Error::Runtime(m)),
            ) && m@ == "no request was planned"@),
    {
        let run = FetchRun {
            chunked: plan.chunked,
            total: plan.requests.len(),
            next: 0,
            merge: ChunkMerge::new(),
        };
        if plan.requests.len() == 0 {
            (run, FetchAction::Finish(Err(Gw3Error::Runtime(owned("no request was planned")))))
        } else {
            (run, FetchAction::Send(0))
        }
    }

    /// Takes the answer of the awaited request (its JSON value, or the error
    /// that sending or decoding it ended in) and decides: an error ends the
    /// call with that error; an unchunked call ends with the answer itself; a
    /// chunked call refuses an answer that is not an array
    /// (`UnexpectedResponse`), else merges its elements and sends the next
    /// request, or, after the last one, ends with the array of all merged
    /// elements in order.
    pub fn step(&mut self, answer: Result<serde_json::Value, Gw3Error>) -> (res: FetchAction)
        requires
            old(self).awaited() < old(self).total(),
        ensures
            final(self).chunked() == old(self).chunked(),
            final(self).total() == old(self).total(),
            match answer {
                Err(e) => res matches FetchAction::Finish(Err(x)) && x == e,
                Ok(v) => if !old(self).chunked() {
                    res matches FetchAction::Finish(Ok(x)) && x == v
                } else {
                    match json_array_elements(v) {
                        None => res matches FetchAction::Finish(Err(Gw3Error::UnexpectedResponse(x)))
                            && x == v,
                        Some(elements) => if old(self).awaited() + 1 < old(self).total() {
                            &&& res matches FetchAction::Send(i) && i == old(self).awaited() + 1
                            &&& final(self).awaited() == old(self).awaited() + 1
                            &&& final(self).items() == old(self).items() + elements
                        } else {
                            res matches FetchAction::Finish(Ok(x)) && json_array_elements(x) == Some(
                                old(self).items() + elements,
                            )
                        },
                    }
                },
            },
    {
        let value = match answer {
            Err(e) => return FetchAction::Finish(Err(e)),
            Ok(v) => v,
        };
        if !self.chunked {
            return FetchAction::Finish(Ok(value));
        }
        if let Err(e) = self.merge.absorb(value) {
            return FetchAction::Finish(Err(e));
        }
        if self.next + 1 < self.total {
            self.next = self.next + 1;
            FetchAction::Send(self.next)
        } else {
            FetchAction::Finish(Ok(self.merge.take_array()))
        }
    }
}

} // verus!

verus! {

/// Whether two configurations differ at most in their key.
pub open spec fn same_but_key(a: ClientConfig, b: ClientConfig) -> bool {
    &&& a.base_url == b.base_url
    &&& a.wiki_base_url == b.wiki_base_url
    &&& a.lang == b.lang
    &&& a.schema_version == b.schema_version
    &&& a.timeout_secs == b.timeout_secs
}

/// The key never reaches a URL: under two configurations that differ only in
/// their key, a call has the same query pairs, the same URL and the same
/// parse error for every id batch, and fails first at the same batch with
/// the same `InvalidUrl`. So every error that `plan_get_json` ends in, other
/// than `MissingApiKey` (which holds nothing), and its message, are the same
/// whatever key is configured.
pub proof fn lemma_urls_ignore_key(
    a: ClientConfig,
    b: ClientConfig,
    request: ApiRequest,
    ids: Seq<Seq<char>>,
    e: Gw3Error,
)
    requires
        same_but_key(a, b),
    ensures
        crate::gw2::query::query_pairs_for(opt_view(a.lang), opt_view(a.schema_version), request@, ids)
            == crate::gw2::query::query_pairs_for(
            opt_view(b.lang),
            opt_view(b.schema_version),
            request@,
            ids,
        ),
        call_url(a, request@, ids) == call_url(b, request@, ids),
        call_url_error(a, request@, ids) == call_url_error(b, request@, ids),
        first_url_failure(a, request, e) == first_url_failure(b, request, e),
{
    assert forall|i: int| 0 <= i < id_batches(request.ids@).len() implies call_url(
        a,
        request@,
        strings_view(#[trigger] id_batches(request.ids@)[i]),
    ) == call_url(b, request@, strings_view(id_batches(request.ids@)[i])) && call_url_error(
        a,
        request@,
        strings_view(id_batches(request.ids@)[i]),
    ) == call_url_error(b, request@, strings_view(id_batches(request.ids@)[i])) by {}
}

} // verus!
