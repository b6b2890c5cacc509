//! Builds the query string of a web search request.
//!
//! Each present parameter becomes one `key=value` pair, in a fixed field
//! order; string values are percent-encoded, numeric values written in
//! decimal; the pairs are joined with `&` behind the fixed search path.

use vstd::prelude::*;
use vstd::string::StringExecFns;
use crate::numbers::{dec_str, u64_to_dec, lemma_dec_str_digits};
use crate::query_params::WebSearchQueryParams;

verus! {

broadcast use vstd::seq::group_seq_axioms;

/// Whether a character passes through percent-encoding unchanged: the
/// ASCII alphanumerics and '-', '.', '_', '~'.
pub open spec fn is_unreserved(c: char) -> bool {
    ||| 'a' as u32 <= c as u32 <= 'z' as u32
    ||| 'A' as u32 <= c as u32 <= 'Z' as u32
    ||| '0' as u32 <= c as u32 <= '9' as u32
    ||| c == '-'
    ||| c == '.'
    ||| c == '_'
    ||| c == '~'
}

/// Whether every character of a text is unreserved.
pub open spec fn all_unreserved(s: Seq<char>) -> bool {
    forall|i: int| 0 <= i < s.len() ==> is_unreserved(#[trigger] s[i])
}

/// Whether a text is free of the pair separator '&'.
pub open spec fn amp_free(s: Seq<char>) -> bool {
    forall|i: int| 0 <= i < s.len() ==> #[trigger] s[i] != '&'
}

/// Whether every string parameter that is present consists of
/// unreserved characters alone.
pub open spec fn params_unreserved(p: WebSearchQueryParams) -> bool {
    &&& (p.q matches Some(s) ==> all_unreserved(s@))
    &&& (p.search_lang matches Some(s) ==> all_unreserved(s@))
    &&& (p.safesearch matches Some(s) ==> all_unreserved(s@))
    &&& (p.freshness matches Some(s) ==> all_unreserved(s@))
    &&& (p.country matches Some(s) ==> all_unreserved(s@))
    &&& (p.source matches Some(s) ==> all_unreserved(s@))
}

/// What percent-encoding a text yields; the result depends on the text
/// alone.
pub uninterp spec fn percent_encoded(s: Seq<char>) -> Seq<char>;

/// Relies on urlencoding::encode: it percent-encodes every byte except
/// the ASCII alphanumerics and '-', '.', '_', '~', which pass through
/// unchanged; an escape is '%' followed by two uppercase hex digits.
#[verifier::external_body]
fn url_encode(s: &str) -> (r: String)
    ensures
        r@ == percent_encoded(s@),
        all_unreserved(s@) ==> r@ == s@,
        forall|i: int| 0 <= i < r@.len() ==> is_unreserved(#[trigger] r@[i]) || r@[i] == '%',
        s@.len() > 0 ==> r@.len() > 0,
{
    urlencoding::encode(s).into_owned()
}

/// The `key=value` pair that field `k` of the fixed order contributes,
/// or `None` when the field is absent.  With `raw` the value is the
/// field's own text; without it the value is the text as it stands in
/// the query string (percent-encoded strings, decimal numbers).
pub open spec fn pair_slot(p: WebSearchQueryParams, k: int, raw: bool) -> Option<
    (Seq<char>, Seq<char>),
> {
    if k == 0 {
        match p.q {
            Some(s) => Some(("q"@, if raw { s@ } else { percent_encoded(s@) })),
            None => None,
        }
    } else if k == 1 {
        match p.count {
            Some(c) => Some(("count"@, dec_str(c as nat))),
            None => None,
        }
    } else if k == 2 {
        match p.offset {
            Some(o) => Some(("offset"@, dec_str(o as nat))),
            None => None,
        }
    } else if k == 3 {
        match p.search_lang {
            Some(s) => Some(("search_lang"@, if raw { s@ } else { percent_encoded(s@) })),
            None => None,
        }
    } else if k == 4 {
        match p.safesearch {
            Some(s) => Some(("safesearch"@, if raw { s@ } else { percent_encoded(s@) })),
            None => None,
        }
    } else if k == 5 {
        match p.freshness {
            Some(s) => Some(("freshness"@, if raw { s@ } else { percent_encoded(s@) })),
            None => None,
        }
    } else if k == 6 {
        match p.country {
            Some(s) => Some(("country"@, if raw { s@ } else { percent_encoded(s@) })),
            None => None,
        }
    } else if k == 7 {
        match p.source {
            Some(s) => Some(("source"@, if raw { s@ } else { percent_encoded(s@) })),
            None => None,
        }
    } else {
        None
    }
}

/// The pairs of the first `k` fields of the fixed order, in order.
pub open spec fn pairs_upto(p: WebSearchQueryParams, k: int, raw: bool) -> Seq<
    (Seq<char>, Seq<char>),
>
    decreases k,
{
    if k <= 0 {
        Seq::empty()
    } else {
        match pair_slot(p, k - 1, raw) {
            Some(kv) => pairs_upto(p, k - 1, raw).push(kv),
            None => pairs_upto(p, k - 1, raw),
        }
    }
}

/// One pair per present field, in the fixed field order, with the values
/// as they stand in the query string.
pub open spec fn encoded_pairs(p: WebSearchQueryParams) -> Seq<(Seq<char>, Seq<char>)> {
    pairs_upto(p, 8, false)
}

/// One pair per present field, in the fixed field order, with the
/// fields' own values.
pub open spec fn plain_pairs(p: WebSearchQueryParams) -> Seq<(Seq<char>, Seq<char>)> {
    pairs_upto(p, 8, true)
}

/// The text of one pair.
pub open spec fn pair_text(kv: (Seq<char>, Seq<char>)) -> Seq<char> {
    kv.0 + seq!['='] + kv.1
}

/// The pair texts joined with '&'.
pub open spec fn join_pairs(ps: Seq<(Seq<char>, Seq<char>)>) -> Seq<char>
    decreases ps.len(),
{
    if ps.len() == 0 {
        Seq::empty()
    } else if ps.len() == 1 {
        pair_text(ps[0])
    } else {
        join_pairs(ps.drop_last()) + seq!['&'] + pair_text(ps.last())
    }
}

/// What each field appender maintains: the text built so far is the
/// join of the first `k` fields' pairs, and the separator flag says
/// whether there is at least one of them.
pub open spec fn built_upto(p: WebSearchQueryParams, k: int, out: Seq<char>, any: bool) -> bool {
    &&& out == join_pairs(pairs_upto(p, k, false))
    &&& any == (pairs_upto(p, k, false).len() > 0)
}

/// Appends `&` when needed, then `key=`, then the value.
fn append_pair(out: &mut String, any: bool, key_eq: &str, value: &str)
    ensures
        final(out)@ == old(out)@ + (if any {
            seq!['&']
        } else {
            Seq::<char>::empty()
        }) + key_eq@ + value@,
{
    proof {
        reveal_strlit("&");
    }
    if any {
        out.append("&");
    }
    out.append(key_eq);
    out.append(value);
    proof {
        assert(out@ =~= old(out)@ + (if any {
            seq!['&']
        } else {
            Seq::<char>::empty()
        }) + key_eq@ + value@);
    }
}

/// One step of the build: what holds of the text and the flag after the
/// pair of slot `k` (when present) has been appended to a join of the
/// first `k` slots.
proof fn lemma_built_step(
    p: WebSearchQueryParams,
    k: int,
    out0: Seq<char>,
    any0: bool,
    out1: Seq<char>,
    any1: bool,
)
    requires
        0 <= k < 8,
        built_upto(p, k, out0, any0),
        match pair_slot(p, k, false) {
            Some(kv) => out1 == out0 + (if any0 {
                seq!['&']
            } else {
                Seq::<char>::empty()
            }) + kv.0 + seq!['='] + kv.1 && any1,
            None => out1 == out0 && any1 == any0,
        },
    ensures
        built_upto(p, k + 1, out1, any1),
{
    match pair_slot(p, k, false) {
        Some(kv) => {
            let prev = pairs_upto(p, k, false);
            let cur = pairs_upto(p, k + 1, false);
            assert(cur == prev.push(kv));
            assert(cur.drop_last() =~= prev);
            assert(cur.last() == kv);
            if prev.len() == 0 {
                assert(join_pairs(cur) == pair_text(kv));
                assert(out1 =~= pair_text(kv));
            } else {
                assert(join_pairs(cur) == join_pairs(prev) + seq!['&'] + pair_text(kv));
                assert(out1 =~= join_pairs(prev) + seq!['&'] + pair_text(kv));
            }
        },
        None => {
            assert(pairs_upto(p, k + 1, false) == pairs_upto(p, k, false));
        },
    }
}

/// Appends the `q` pair when the field is present.
fn add_q(params: &WebSearchQueryParams, out: &mut String, any: &mut bool)
    requires
        built_upto(*params, 0, old(out)@, *old(any)),
    ensures
        built_upto(*params, 1, final(out)@, *final(any)),
        params_unreserved(*params) ==> pair_slot(*params, 0, false) == pair_slot(
            *params,
            0,
            true,
        ),
        (pair_slot(*params, 0, false) matches Some(kv) ==> amp_free(kv.1)),
{
    proof {
        reveal_strlit("q");
        reveal_strlit("q=");
    }
    if let Some(q) = &params.q {
        let enc = url_encode(q.as_str());
        let ghost out0 = out@;
        let ghost any0 = *any;
        append_pair(out, *any, "q=", enc.as_str());
        *any = true;
        proof {
            assert(out@ =~= out0 + (if any0 {
                seq!['&']
            } else {
                Seq::<char>::empty()
            }) + "q"@ + seq!['='] + enc@);
            lemma_built_step(*params, 0, out0, any0, out@, *any);
        }
    }
}

/// Appends the `count` pair when the field is present.
fn add_count(params: &WebSearchQueryParams, out: &mut String, any: &mut bool)
    requires
        built_upto(*params, 1, old(out)@, *old(any)),
    ensures
        built_upto(*params, 2, final(out)@, *final(any)),
        (pair_slot(*params, 1, false) matches Some(kv) ==> amp_free(kv.1)),
{
    proof {
        reveal_strlit("count");
        reveal_strlit("count=");
    }
    if let Some(c) = params.count {
        let num = u64_to_dec(c as u64);
        let ghost out0 = out@;
        let ghost any0 = *any;
        append_pair(out, *any, "count=", num.as_str());
        *any = true;
        proof {
            lemma_dec_str_digits(c as nat);
            assert(out@ =~= out0 + (if any0 {
                seq!['&']
            } else {
                Seq::<char>::empty()
            }) + "count"@ + seq!['='] + num@);
            lemma_built_step(*params, 1, out0, any0, out@, *any);
        }
    }
}

/// Appends the `offset` pair when the field is present.
fn add_offset(params: &WebSearchQueryParams, out: &mut String, any: &mut bool)
    requires
        built_upto(*params, 2, old(out)@, *old(any)),
    ensures
        built_upto(*params, 3, final(out)@, *final(any)),
        (pair_slot(*params, 2, false) matches Some(kv) ==> amp_free(kv.1)),
{
    proof {
        reveal_strlit("offset");
        reveal_strlit("offset=");
    }
    if let Some(o) = params.offset {
        let num = u64_to_dec(o as u64);
        let ghost out0 = out@;
        let ghost any0 = *any;
        append_pair(out, *any, "offset=", num.as_str());
        *any = true;
        proof {
            lemma_dec_str_digits(o as nat);
            assert(out@ =~= out0 + (if any0 {
                seq!['&']
            } else {
                Seq::<char>::empty()
            }) + "offset"@ + seq!['='] + num@);
            lemma_built_step(*params, 2, out0, any0, out@, *any);
        }
    }
}

/// Appends the `search_lang` pair when the field is present.
fn add_search_lang(params: &WebSearchQueryParams, out: &mut String, any: &mut bool)
    requires
        built_upto(*params, 3, old(out)@, *old(any)),
    ensures
        built_upto(*params, 4, final(out)@, *final(any)),
        params_unreserved(*params) ==> pair_slot(*params, 3, false) == pair_slot(
            *params,
            3,
            true,
        ),
        (pair_slot(*params, 3, false) matches Some(kv) ==> amp_free(kv.1)),
{
    proof {
        reveal_strlit("search_lang");
        reveal_strlit("search_lang=");
    }
    if let Some(v) = &params.search_lang {
        let enc = url_encode(v.as_str());
        let ghost out0 = out@;
        let ghost any0 = *any;
        append_pair(out, *any, "search_lang=", enc.as_str());
        *any = true;
        proof {
            assert(out@ =~= out0 + (if any0 {
                seq!['&']
            } else {
                Seq::<char>::empty()
            }) + "search_lang"@ + seq!['='] + enc@);
            lemma_built_step(*params, 3, out0, any0, out@, *any);
        }
    }
}

/// Appends the `safesearch` pair when the field is present.
fn add_safesearch(params: &WebSearchQueryParams, out: &mut String, any: &mut bool)
    requires
        built_upto(*params, 4, old(out)@, *old(any)),
    ensures
        built_upto(*params, 5, final(out)@, *final(any)),
        params_unreserved(*params) ==> pair_slot(*params, 4, false) == pair_slot(
            *params,
            4,
            true,
        ),
        (pair_slot(*params, 4, false) matches Some(kv) ==> amp_free(kv.1)),
{
    proof {
        reveal_strlit("safesearch");
        reveal_strlit("safesearch=");
    }
    if let Some(v) = &params.safesearch {
        let enc = url_encode(v.as_str());
        let ghost out0 = out@;
        let ghost any0 = *any;
        append_pair(out, *any, "safesearch=", enc.as_str());
        *any = true;
        proof {
            assert(out@ =~= out0 + (if any0 {
                seq!['&']
            } else {
                Seq::<char>::empty()
            }) + "safesearch"@ + seq!['='] + enc@);
            lemma_built_step(*params, 4, out0, any0, out@, *any);
        }
    }
}

/// Appends the `freshness` pair when the field is present.
fn add_freshness(params: &WebSearchQueryParams, out: &mut String, any: &mut bool)
    requires
        built_upto(*params, 5, old(out)@, *old(any)),
    ensures
        built_upto(*params, 6, final(out)@, *final(any)),
        params_unreserved(*params) ==> pair_slot(*params, 5, false) == pair_slot(
            *params,
            5,
            true,
        ),
        (pair_slot(*params, 5, false) matches Some(kv) ==> amp_free(kv.1)),
{
    proof {
        reveal_strlit("freshness");
        reveal_strlit("freshness=");
    }
    if let Some(v) = &params.freshness {
        let enc = url_encode(v.as_str());
        let ghost out0 = out@;
        let ghost any0 = *any;
        append_pair(out, *any, "freshness=", enc.as_str());
        *any = true;
        proof {
            assert(out@ =~= out0 + (if any0 {
                seq!['&']
            } else {
                Seq::<char>::empty()
            }) + "freshness"@ + seq!['='] + enc@);
            lemma_built_step(*params, 5, out0, any0, out@, *any);
        }
    }
}

/// Appends the `country` pair when the field is present.
fn add_country(params: &WebSearchQueryParams, out: &mut String, any: &mut bool)
    requires
        built_upto(*params, 6, old(out)@, *old(any)),
    ensures
        built_upto(*params, 7, final(out)@, *final(any)),
        params_unreserved(*params) ==> pair_slot(*params, 6, false) == pair_slot(
            *params,
            6,
            true,
        ),
        (pair_slot(*params, 6, false) matches Some(kv) ==> amp_free(kv.1)),
{
    proof {
        reveal_strlit("country");
        reveal_strlit("country=");
    }
    if let Some(v) = &params.country {
        let enc = url_encode(v.as_str());
        let ghost out0 = out@;
        let ghost any0 = *any;
        append_pair(out, *any, "country=", enc.as_str());
        *any = true;
        proof {
            assert(out@ =~= out0 + (if any0 {
                seq!['&']
            } else {
                Seq::<char>::empty()
            }) + "country"@ + seq!['='] + enc@);
            lemma_built_step(*params, 6, out0, any0, out@, *any);
        }
    }
}

/// Appends the `source` pair when the field is present.
fn add_source(params: &WebSearchQueryParams, out: &mut String, any: &mut bool)
    requires
        built_upto(*params, 7, old(out)@, *old(any)),
    ensures
        built_upto(*params, 8, final(out)@, *final(any)),
        params_unreserved(*params) ==> pair_slot(*params, 7, false) == pair_slot(
            *params,
            7,
            true,
        ),
        (pair_slot(*params, 7, false) matches Some(kv) ==> amp_free(kv.1)),
{
    proof {
        reveal_strlit("source");
        reveal_strlit("source=");
    }
    if let Some(v) = &params.source {
        let enc = url_encode(v.as_str());
        let ghost out0 = out@;
        let ghost any0 = *any;
        append_pair(out, *any, "source=", enc.as_str());
        *any = true;
        proof {
            assert(out@ =~= out0 + (if any0 {
                seq!['&']
            } else {
                Seq::<char>::empty()
            }) + "source"@ + seq!['='] + enc@);
            lemma_built_step(*params, 7, out0, any0, out@, *any);
        }
    }
}

/// There is a pair to write exactly when some field is present.
proof fn lemma_pairs_nonempty(p: WebSearchQueryParams)
    ensures
        pairs_upto(p, 8, false).len() > 0 <==> p.has_any(),
{
    reveal_with_fuel(pairs_upto, 9);
}

/// Builds the query string for the given parameters: the fixed search
/// path, then one `key=value` pair per present field, joined with '&'.
/// With no field present there is no query string.
pub fn web_search_query_builder(params: &WebSearchQueryParams) -> (r: Option<String>)
    ensures
        r is Some <==> params.has_any(),
        r matches Some(s) ==> s@ == "/web/search?"@ + join_pairs(encoded_pairs(*params)),
        r matches Some(s) ==> s@.take(12) == "/web/search?"@,
        r matches Some(s) ==> parse_pairs(s@.skip(12)) == encoded_pairs(*params),
        params_unreserved(*params) ==> encoded_pairs(*params) == plain_pairs(*params),
{
    let mut out = String::new();
    let mut any: bool = false;
    proof {
        assert(out@ =~= join_pairs(pairs_upto(*params, 0, false)));
    }

    add_q(params, &mut out, &mut any);
    add_count(params, &mut out, &mut any);
    add_offset(params, &mut out, &mut any);
    add_search_lang(params, &mut out, &mut any);
    add_safesearch(params, &mut out, &mut any);
    add_freshness(params, &mut out, &mut any);
    add_country(params, &mut out, &mut any);
    add_source(params, &mut out, &mut any);

    proof {
        lemma_pairs_nonempty(*params);
        lemma_keys_wf(*params, false);
        assert forall|m: int| 0 <= m < 8 implies (match #[trigger] pair_slot(
            *params,
            m,
            false,
        ) {
            Some(kv) => wf_pair(kv),
            None => true,
        }) by {
            match pair_slot(*params, m, false) {
                Some(kv) => {
                    assert(amp_free(kv.1));
                },
                None => {},
            }
        }
        assert(slots_wf(*params, 8));
        lemma_pairs_upto_wf(*params, 8);
        if params.has_any() {
            lemma_parse_join(encoded_pairs(*params));
        }
        if params_unreserved(*params) {
            assert forall|m: int| 0 <= m < 8 implies #[trigger] pair_slot(*params, m, false)
                == pair_slot(*params, m, true) by {}
            assert(slots_raw_agree(*params, 8));
            lemma_pairs_upto_raw(*params, 8);
        }
    }
    if any {
        let mut s = "/web/search?".to_owned();
        s.append(out.as_str());
        proof {
            reveal_strlit("/web/search?");
            assert(s@.take(12) =~= "/web/search?"@);
            assert(s@.skip(12) =~= join_pairs(encoded_pairs(*params)));
        }
        Some(s)
    } else {
        None
    }
}

/// The first position of `c` in `s`, or the length when `c` is absent.
pub open spec fn find_char(s: Seq<char>, c: char) -> int
    decreases s.len(),
{
    if s.len() == 0 {
        0
    } else if s[0] == c {
        0
    } else {
        1 + find_char(s.drop_first(), c)
    }
}

pub proof fn lemma_find_char_range(s: Seq<char>, c: char)
    ensures
        0 <= find_char(s, c) <= s.len(),
        find_char(s, c) < s.len() ==> s[find_char(s, c)] == c,
    decreases s.len(),
{
    if s.len() > 0 && s[0] != c {
        lemma_find_char_range(s.drop_first(), c);
    }
}

proof fn lemma_find_char_append(a: Seq<char>, c: char, b: Seq<char>)
    requires
        forall|i: int| 0 <= i < a.len() ==> #[trigger] a[i] != c,
    ensures
        find_char(a + seq![c] + b, c) == a.len(),
    decreases a.len(),
{
    let s = a + seq![c] + b;
    if a.len() == 0 {
        assert(s[0] == c);
    } else {
        assert(s[0] == a[0]);
        assert forall|i: int| 0 <= i < a.drop_first().len() implies #[trigger] a.drop_first()[i]
            != c by {
            assert(a.drop_first()[i] == a[i + 1]);
        }
        lemma_find_char_append(a.drop_first(), c, b);
        assert(s.drop_first() =~= a.drop_first() + seq![c] + b);
    }
}

proof fn lemma_find_char_absent(s: Seq<char>, c: char)
    requires
        forall|i: int| 0 <= i < s.len() ==> #[trigger] s[i] != c,
    ensures
        find_char(s, c) == s.len(),
    decreases s.len(),
{
    if s.len() > 0 {
        assert forall|i: int| 0 <= i < s.drop_first().len() implies #[trigger] s.drop_first()[i]
            != c by {
            assert(s.drop_first()[i] == s[i + 1]);
        }
        lemma_find_char_absent(s.drop_first(), c);
    }
}

/// The key and the value of one `key=value` text: the part before the
/// first '=' and the part after it.
pub open spec fn split_pair(s: Seq<char>) -> (Seq<char>, Seq<char>) {
    let i = find_char(s, '=');
    if i < s.len() {
        (s.take(i), s.skip(i + 1))
    } else {
        (s, Seq::empty())
    }
}

/// The pairs read back from a query text: split on '&', then each part
/// on its first '='.
pub open spec fn parse_pairs(s: Seq<char>) -> Seq<(Seq<char>, Seq<char>)>
    decreases s.len(),
{
    let i = find_char(s, '&');
    if i >= s.len() {
        seq![split_pair(s)]
    } else {
        proof {
            lemma_find_char_range(s, '&');
        }
        seq![split_pair(s.take(i))] + parse_pairs(s.skip(i + 1))
    }
}

/// A pair that can be read back: the key holds no '&' or '=', the
/// value no '&'.
pub open spec fn wf_pair(kv: (Seq<char>, Seq<char>)) -> bool {
    &&& forall|i: int| 0 <= i < kv.0.len() ==> #[trigger] kv.0[i] != '&' && kv.0[i] != '='
    &&& amp_free(kv.1)
}

proof fn lemma_pair_text_amp_free(kv: (Seq<char>, Seq<char>))
    requires
        wf_pair(kv),
    ensures
        amp_free(pair_text(kv)),
{
    let s = pair_text(kv);
    assert forall|i: int| 0 <= i < s.len() implies #[trigger] s[i] != '&' by {
        if i < kv.0.len() {
            assert(s[i] == kv.0[i]);
        } else if i == kv.0.len() {
            assert(s[i] == '=');
        } else {
            assert(s[i] == kv.1[i - kv.0.len() - 1]);
        }
    }
}

proof fn lemma_split_pair(kv: (Seq<char>, Seq<char>))
    requires
        forall|i: int| 0 <= i < kv.0.len() ==> #[trigger] kv.0[i] != '&' && kv.0[i] != '=',
    ensures
        split_pair(pair_text(kv)) == kv,
{
    let s = pair_text(kv);
    assert forall|i: int| 0 <= i < kv.0.len() implies #[trigger] kv.0[i] != '=' by {}
    lemma_find_char_append(kv.0, '=', kv.1);
    assert(find_char(s, '=') == kv.0.len());
    assert(s.take(kv.0.len() as int) =~= kv.0);
    assert(s.skip(kv.0.len() as int + 1) =~= kv.1);
}

proof fn lemma_join_front(ps: Seq<(Seq<char>, Seq<char>)>)
    requires
        ps.len() >= 2,
    ensures
        join_pairs(ps) == pair_text(ps[0]) + seq!['&'] + join_pairs(ps.drop_first()),
    decreases ps.len(),
{
    if ps.len() == 2 {
        assert(ps.drop_last() =~= seq![ps[0]]);
        assert(ps.drop_first() =~= seq![ps[1]]);
        assert(join_pairs(seq![ps[0]]) == pair_text(ps[0]));
        assert(join_pairs(seq![ps[1]]) == pair_text(ps[1]));
        assert(join_pairs(ps) =~= pair_text(ps[0]) + seq!['&'] + join_pairs(ps.drop_first()));
    } else {
        lemma_join_front(ps.drop_last());
        assert(ps.drop_last()[0] == ps[0]);
        assert(ps.drop_last().drop_first() =~= ps.drop_first().drop_last());
        assert(ps.drop_first().last() == ps.last());
        assert(join_pairs(ps.drop_first()) == join_pairs(ps.drop_first().drop_last())
            + seq!['&'] + pair_text(ps.drop_first().last()));
        assert(join_pairs(ps) =~= pair_text(ps[0]) + seq!['&'] + join_pairs(ps.drop_first()));
    }
}

/// Reading the joined pair texts back gives the pairs: splitting on
/// '&' and '=' undoes the join, as long as each pair is well formed.
pub proof fn lemma_parse_join(ps: Seq<(Seq<char>, Seq<char>)>)
    requires
        ps.len() >= 1,
        forall|i: int| 0 <= i < ps.len() ==> wf_pair(#[trigger] ps[i]),
    ensures
        parse_pairs(join_pairs(ps)) == ps,
    decreases ps.len(),
{
    if ps.len() == 1 {
        let s = join_pairs(ps);
        lemma_pair_text_amp_free(ps[0]);
        lemma_find_char_absent(s, '&');
        lemma_split_pair(ps[0]);
        assert(parse_pairs(s) =~= ps);
    } else {
        lemma_join_front(ps);
        let s = join_pairs(ps);
        let h = pair_text(ps[0]);
        let rest = join_pairs(ps.drop_first());
        lemma_pair_text_amp_free(ps[0]);
        lemma_find_char_append(h, '&', rest);
        assert(find_char(s, '&') == h.len());
        assert(s.take(h.len() as int) =~= h);
        assert(s.skip(h.len() as int + 1) =~= rest);
        lemma_split_pair(ps[0]);
        assert forall|i: int| 0 <= i < ps.drop_first().len() implies wf_pair(
            #[trigger] ps.drop_first()[i],
        ) by {
            assert(ps.drop_first()[i] == ps[i + 1]);
        }
        lemma_parse_join(ps.drop_first());
        assert(parse_pairs(s) =~= seq![split_pair(h)] + parse_pairs(rest));
        assert(parse_pairs(s) =~= ps);
    }
}

/// Whether each of the first `k` slots is the same with raw and with
/// encoded values.
pub open spec fn slots_raw_agree(p: WebSearchQueryParams, k: int) -> bool {
    forall|m: int| 0 <= m < k ==> pair_slot(p, m, false) == pair_slot(p, m, true)
}

proof fn lemma_pairs_upto_raw(p: WebSearchQueryParams, k: int)
    requires
        0 <= k <= 8,
        slots_raw_agree(p, k),
    ensures
        pairs_upto(p, k, false) == pairs_upto(p, k, true),
    decreases k,
{
    if k > 0 {
        lemma_pairs_upto_raw(p, k - 1);
    }
}

/// Whether each of the first `k` slots that is present is well formed.
pub open spec fn slots_wf(p: WebSearchQueryParams, k: int) -> bool {
    forall|m: int| 0 <= m < k ==> (match #[trigger] pair_slot(p, m, false) {
        Some(kv) => wf_pair(kv),
        None => true,
    })
}

proof fn lemma_pairs_upto_wf(p: WebSearchQueryParams, k: int)
    requires
        0 <= k <= 8,
        slots_wf(p, 8),
    ensures
        forall|i: int| 0 <= i < pairs_upto(p, k, false).len() ==> wf_pair(
            #[trigger] pairs_upto(p, k, false)[i],
        ),
    decreases k,
{
    if k > 0 {
        lemma_pairs_upto_wf(p, k - 1);
        let prev = pairs_upto(p, k - 1, false);
        let cur = pairs_upto(p, k, false);
        match pair_slot(p, k - 1, false) {
            Some(kv) => {
                assert forall|i: int| 0 <= i < cur.len() implies wf_pair(#[trigger] cur[i]) by {
                    if i < prev.len() {
                        assert(cur[i] == prev[i]);
                    } else {
                        assert(cur[i] == kv);
                    }
                }
            },
            None => {
                assert forall|i: int| 0 <= i < cur.len() implies wf_pair(#[trigger] cur[i]) by {
                    assert(cur[i] == prev[i]);
                }
            },
        }
    }
}

/// Every key of the fixed field order is free of '&' and '='.
proof fn lemma_keys_wf(p: WebSearchQueryParams, raw: bool)
    ensures
        forall|m: int| 0 <= m < 8 ==> (match #[trigger] pair_slot(p, m, raw) {
            Some(kv) => forall|i: int| 0 <= i < kv.0.len() ==> #[trigger] kv.0[i] != '&'
                && kv.0[i] != '=',
            None => true,
        }),
{
    reveal_strlit("q");
    reveal_strlit("count");
    reveal_strlit("offset");
    reveal_strlit("search_lang");
    reveal_strlit("safesearch");
    reveal_strlit("freshness");
    reveal_strlit("country");
    reveal_strlit("source");
    assert forall|m: int| 0 <= m < 8 implies (match #[trigger] pair_slot(p, m, raw) {
        Some(kv) => forall|i: int| 0 <= i < kv.0.len() ==> #[trigger] kv.0[i] != '&'
            && kv.0[i] != '=',
        None => true,
    }) by {
        match pair_slot(p, m, raw) {
            Some(kv) => {
                assert forall|i: int| 0 <= i < kv.0.len() implies #[trigger] kv.0[i] != '&'
                    && kv.0[i] != '=' by {}
            },
            None => {},
        }
    }
}

/// Round trip of the encoder's pair layer: when every string field
/// consists of unreserved characters, so that percent-encoding leaves
/// it unchanged, splitting the joined pairs back on '&' and '=' yields
/// one pair per present field, in the fixed order, with the field's
/// own value.  A value with a reserved character (a space, an '&')
/// reads back as its encoded text instead.
pub proof fn lemma_query_round_trip(p: WebSearchQueryParams)
    requires
        p.has_any(),
        params_unreserved(p),
    ensures
        parse_pairs(join_pairs(plain_pairs(p))) == plain_pairs(p),
        plain_pairs(p).len() >= 1,
{
    lemma_keys_wf(p, true);
    assert forall|m: int| 0 <= m < 8 implies (match #[trigger] pair_slot(p, m, true) {
        Some(kv) => wf_pair(kv),
        None => true,
    }) by {
        match pair_slot(p, m, true) {
            Some(kv) => {
                if m == 1 {
                    lemma_dec_str_digits(p.count->0 as nat);
                } else if m == 2 {
                    lemma_dec_str_digits(p.offset->0 as nat);
                }
                assert(amp_free(kv.1));
            },
            None => {},
        }
    }
    lemma_raw_pairs_wf_helper(p);
    reveal_with_fuel(pairs_upto, 9);
    assert(plain_pairs(p).len() >= 1);
    lemma_parse_join(plain_pairs(p));
}

proof fn lemma_raw_pairs_wf_helper(p: WebSearchQueryParams)
    requires
        forall|m: int| 0 <= m < 8 ==> (match #[trigger] pair_slot(p, m, true) {
            Some(kv) => wf_pair(kv),
            None => true,
        }),
    ensures
        forall|i: int| 0 <= i < plain_pairs(p).len() ==> wf_pair(#[trigger] plain_pairs(p)[i]),
{
    lemma_pairs_upto_wf_raw(p, 8);
}

proof fn lemma_pairs_upto_wf_raw(p: WebSearchQueryParams, k: int)
    requires
        0 <= k <= 8,
        forall|m: int| 0 <= m < 8 ==> (match #[trigger] pair_slot(p, m, true) {
            Some(kv) => wf_pair(kv),
            None => true,
        }),
    ensures
        forall|i: int| 0 <= i < pairs_upto(p, k, true).len() ==> wf_pair(
            #[trigger] pairs_upto(p, k, true)[i],
        ),
    decreases k,
{
    if k > 0 {
        lemma_pairs_upto_wf_raw(p, k - 1);
        let prev = pairs_upto(p, k - 1, true);
        let cur = pairs_upto(p, k, true);
        match pair_slot(p, k - 1, true) {
            Some(kv) => {
                assert forall|i: int| 0 <= i < cur.len() implies wf_pair(#[trigger] cur[i]) by {
                    if i < prev.len() {
                        assert(cur[i] == prev[i]);
                    } else {
                        assert(cur[i] == kv);
                    }
                }
            },
            None => {
                assert forall|i: int| 0 <= i < cur.len() implies wf_pair(#[trigger] cur[i]) by {
                    assert(cur[i] == prev[i]);
                }
            },
        }
    }
}

} // verus!
