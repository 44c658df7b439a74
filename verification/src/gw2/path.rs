//! Normalization of official API paths and validation of language codes.
use crate::error::Gw3Error;
use crate::text::{
    is_white_space, owned, starts_with, str_eq, str_starts_with, trim, trim_end, trim_start, trimmed,
};
use vstd::prelude::*;
use vstd::string::*;

verus! {

/// `s` without one leading `/`, where it has one.
pub open spec fn strip_slash(s: Seq<char>) -> Seq<char> {
    if s.len() > 0 && s[0] == '/' {
        s.drop_first()
    } else {
        s
    }
}

/// The canonical form of an official API path: `/v2.json` for the route
/// list, `/v2...` kept as it is, any other non-empty path placed under
/// `/v2/`; `None` where nothing is left after trimming and one leading `/`.
pub open spec fn normalized_api_path(path: Seq<char>) -> Option<Seq<char>> {
    let t = trimmed(path);
    if t == "/v2.json"@ || t == "v2.json"@ {
        Some("/v2.json"@)
    } else {
        let p = strip_slash(t);
        if p == "v2"@ || starts_with(p, "v2/"@) {
            Some("/"@ + p)
        } else if p.len() > 0 {
            Some("/v2/"@ + p)
        } else {
            None
        }
    }
}

/// The language codes that the official API accepts.
pub open spec fn is_supported_lang(lang: Seq<char>) -> bool {
    ||| lang == "en"@
    ||| lang == "es"@
    ||| lang == "de"@
    ||| lang == "fr"@
    ||| lang == "zh"@
}

/// Brings an official API path into its canonical form; fails with
/// `InvalidPath` (holding the trimmed path) where nothing is left of it.
pub fn normalize_api_path(path: &str) -> (res: Result<String, Gw3Error>)
    ensures
        match res {
            Ok(p) => normalized_api_path(path@) == Some(p@),
            Err(e) => normalized_api_path(path@) is None && (e matches Gw3Error::InvalidPath(t)
                && t@ == trimmed(path@)),
        },
{
    let trimmed_path = trim(path);
    let t = trimmed_path.as_str();
    if str_eq(t, "/v2.json") || str_eq(t, "v2.json") {
        return Ok(owned("/v2.json"));
    }
    let p = if t.unicode_len() > 0 && t.get_char(0) == '/' {
        t.substring_char(1, t.unicode_len())
    } else {
        t
    };
    assert(p@ =~= strip_slash(t@));
    if str_eq(p, "v2") || str_starts_with(p, "v2/") {
        Ok(owned("/").concat(p))
    } else if p.unicode_len() > 0 {
        Ok(owned("/v2/").concat(p))
    } else {
        Err(Gw3Error::InvalidPath(trimmed_path))
    }
}

/// Accepts no language or one of `en`, `es`, `de`, `fr`, `zh`; fails with
/// `InvalidLanguage` holding any other code.
pub fn validate_lang(lang: Option<&str>) -> (res: Result<(), Gw3Error>)
    ensures
        res is Ok <==> (lang matches Some(l) ==> is_supported_lang(l@)),
        res matches Err(e) ==> (lang matches Some(l) && e matches Gw3Error::InvalidLanguage(c)
            && c@ == l@),
{
    match lang {
        None => Ok(()),
        Some(l) => {
            if str_eq(l, "en") || str_eq(l, "es") || str_eq(l, "de") || str_eq(l, "fr") || str_eq(
                l,
                "zh",
            ) {
                Ok(())
            } else {
                Err(Gw3Error::InvalidLanguage(owned(l)))
            }
        },
    }
}

} // verus!

verus! {

proof fn lemma_trim_start_shape(s: Seq<char>)
    ensures
        exists|k: int| 0 <= k <= s.len() && trim_start(s) == s.subrange(k, s.len() as int),
        trim_start(s).len() > 0 ==> !is_white_space(trim_start(s)[0]),
    decreases s.len(),
{
    if s.len() > 0 && is_white_space(s[0]) {
        lemma_trim_start_shape(s.drop_first());
        let k = choose|k: int|
            0 <= k <= s.drop_first().len() && trim_start(s.drop_first()) == s.drop_first().subrange(
                k,
                s.drop_first().len() as int,
            );
        assert(s.drop_first().subrange(k, s.drop_first().len() as int) =~= s.subrange(
            k + 1,
            s.len() as int,
        ));
    } else {
        assert(s.subrange(0, s.len() as int) =~= s);
    }
}

proof fn lemma_trim_end_shape(s: Seq<char>)
    ensures
        exists|k: int| 0 <= k <= s.len() && trim_end(s) == s.subrange(0, k),
        trim_end(s).len() > 0 ==> !is_white_space(trim_end(s).last()),
    decreases s.len(),
{
    if s.len() > 0 && is_white_space(s.last()) {
        lemma_trim_end_shape(s.drop_last());
        let k = choose|k: int|
            0 <= k <= s.drop_last().len() && trim_end(s.drop_last()) == s.drop_last().subrange(0, k);
        assert(s.drop_last().subrange(0, k) =~= s.subrange(0, k));
    } else {
        assert(s.subrange(0, s.len() as int) =~= s);
    }
}

proof fn lemma_trimmed_shape(s: Seq<char>)
    ensures
        trimmed(s).len() > 0 ==> !is_white_space(trimmed(s)[0]) && !is_white_space(
            trimmed(s).last(),
        ),
{
    lemma_trim_start_shape(s);
    lemma_trim_end_shape(trim_start(s));
    let u = trim_start(s);
    let k = choose|k: int| 0 <= k <= u.len() && trim_end(u) == u.subrange(0, k);
    if k > 0 {
        assert(trim_end(u)[0] == u[0]);
    }
}

proof fn lemma_trimmed_fixed(s: Seq<char>)
    requires
        s.len() > 0 ==> !is_white_space(s[0]) && !is_white_space(s.last()),
    ensures
        trimmed(s) == s,
{
    assert(trim_start(s) == s);
    assert(trim_end(s) == s);
}

/// Trimming twice trims no more than trimming once.
pub proof fn lemma_trimmed_idempotent(s: Seq<char>)
    ensures
        trimmed(trimmed(s)) == trimmed(s),
{
    lemma_trimmed_shape(s);
    lemma_trimmed_fixed(trimmed(s));
}

/// Surrounding whitespace does not change how a path normalizes.
pub proof fn lemma_normalize_ignores_whitespace(path: Seq<char>)
    ensures
        normalized_api_path(trimmed(path)) == normalized_api_path(path),
{
    lemma_trimmed_idempotent(path);
}

/// A normalized path is its own trim, is `/v2.json`, `/v2` or begins with
/// `/v2/`, and normalizes to itself.
pub proof fn lemma_normalize_idempotent(path: Seq<char>)
    requires
        normalized_api_path(path) is Some,
    ensures
        trimmed(normalized_api_path(path).unwrap()) == normalized_api_path(path).unwrap(),
        normalized_api_path(path).unwrap() == "/v2.json"@ || normalized_api_path(path).unwrap()
            == "/v2"@ || starts_with(normalized_api_path(path).unwrap(), "/v2/"@),
        starts_with(normalized_api_path(path).unwrap(), "/v2"@),
        normalized_api_path(normalized_api_path(path).unwrap()) == normalized_api_path(path),
{
    reveal_strlit("/v2.json");
    reveal_strlit("v2.json");
    reveal_strlit("v2");
    reveal_strlit("v2/");
    reveal_strlit("/");
    reveal_strlit("/v2/");
    reveal_strlit("/v2");
    let out = normalized_api_path(path).unwrap();
    let t = trimmed(path);
    lemma_trimmed_shape(path);
    if t == "/v2.json"@ || t == "v2.json"@ {
        assert(out == "/v2.json"@);
        lemma_trimmed_fixed(out);
        assert(out.subrange(0, 3) =~= "/v2"@);
    } else {
        let q = strip_slash(t);
        assert(q.len() > 0);
        assert(q.last() == t.last());
        if q == "v2"@ || starts_with(q, "v2/"@) {
            assert(out == "/"@ + q);
            assert(out.last() == q.last());
            assert(out[0] == '/');
            lemma_trimmed_fixed(out);
            assert(out.subrange(0, 3) =~= "/v2"@) by {
                if q == "v2"@ {
                } else {
                    assert(q.subrange(0, 3)[0] == 'v');
                    assert(q.subrange(0, 3)[1] == '2');
                }
            }
            assert(strip_slash(out) =~= q);
            if q != "v2"@ {
                assert(out.subrange(0, 4) =~= "/v2/"@) by {
                    assert(q.subrange(0, 3)[0] == 'v');
                    assert(q.subrange(0, 3)[1] == '2');
                    assert(q.subrange(0, 3)[2] == '/');
                }
            } else {
                assert(out =~= "/v2"@);
            }
        } else {
            assert(out == "/v2/"@ + q);
            assert(out.last() == q.last());
            lemma_trimmed_fixed(out);
            assert(out.subrange(0, 3) =~= "/v2"@);
            assert(out != "/v2.json"@) by {
                if out.len() == "/v2.json"@.len() {
                    assert(out[3] != "/v2.json"@[3]);
                }
            }
            assert(out != "v2.json"@) by {
                assert(out[0] != "v2.json"@[0]);
            }
            assert(out.subrange(0, 4) =~= "/v2/"@);
            let r = strip_slash(out);
            assert(r =~= "v2/"@ + q);
            assert(r.subrange(0, 3) =~= "v2/"@);
            assert("/"@ + r =~= out);
        }
    }
}

} // verus!
