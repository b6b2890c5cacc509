//! The optional parameters of a web search request.

use vstd::prelude::*;
use vstd::string::StringExecFns;

verus! {

/// The parameters of one search request.  Every field is optional; a
/// field that is `None` is left out of the encoded query string.
#[derive(Debug)]
pub struct WebSearchQueryParams {
    /// The free-text search term.
    pub q: Option<String>,
    /// How many results to return.
    pub count: Option<u32>,
    /// The pagination offset.
    pub offset: Option<u32>,
    /// The language to search in.
    pub search_lang: Option<String>,
    /// The safesearch level.
    pub safesearch: Option<String>,
    /// The freshness window.
    pub freshness: Option<String>,
    /// The country code.
    pub country: Option<String>,
    /// The source or goggle identifier.
    pub source: Option<String>,
}

impl WebSearchQueryParams {
    /// Whether at least one parameter is present.
    pub open spec fn has_any(self) -> bool {
        ||| self.q is Some
        ||| self.count is Some
        ||| self.offset is Some
        ||| self.search_lang is Some
        ||| self.safesearch is Some
        ||| self.freshness is Some
        ||| self.country is Some
        ||| self.source is Some
    }
}

impl Default for WebSearchQueryParams {
    /// The empty parameter set.
    fn default() -> (r: Self)
        ensures
            r.q is None,
            r.count is None,
            r.offset is None,
            r.search_lang is None,
            r.safesearch is None,
            r.freshness is None,
            r.country is None,
            r.source is None,
    {
        WebSearchQueryParams {
            q: None,
            count: None,
            offset: None,
            search_lang: None,
            safesearch: None,
            freshness: None,
            country: None,
            source: None,
        }
    }
}

/// Collects the parameters of a search request step by step; every field
/// starts out absent.
#[derive(Debug)]
pub struct WebSearchQueryParamsBuilder {
    /// The parameters collected so far.
    pub params: WebSearchQueryParams,
}

impl Default for WebSearchQueryParamsBuilder {
    /// A builder with every parameter absent.
    fn default() -> (r: Self)
        ensures
            !r.params.has_any(),
    {
        WebSearchQueryParamsBuilder { params: WebSearchQueryParams::default() }
    }
}

impl WebSearchQueryParamsBuilder {
    /// Sets the free-text search term.
    pub fn q(self, v: &str) -> (r: Self)
        ensures
            (r.params.q matches Some(s) && s@ == v@),
            r.params.count == self.params.count,
            r.params.offset == self.params.offset,
            r.params.search_lang == self.params.search_lang,
            r.params.safesearch == self.params.safesearch,
            r.params.freshness == self.params.freshness,
            r.params.country == self.params.country,
            r.params.source == self.params.source,
    {
        WebSearchQueryParamsBuilder {
            params: WebSearchQueryParams { q: Some(v.to_owned()), ..self.params },
        }
    }

    /// Sets how many results to return.
    pub fn count(self, v: u32) -> (r: Self)
        ensures
            r.params.count == Some(v),
            r.params.q == self.params.q,
            r.params.offset == self.params.offset,
            r.params.search_lang == self.params.search_lang,
            r.params.safesearch == self.params.safesearch,
            r.params.freshness == self.params.freshness,
            r.params.country == self.params.country,
            r.params.source == self.params.source,
    {
        WebSearchQueryParamsBuilder {
            params: WebSearchQueryParams { count: Some(v), ..self.params },
        }
    }

    /// Sets the pagination offset.
    pub fn offset(self, v: u32) -> (r: Self)
        ensures
            r.params.offset == Some(v),
            r.params.q == self.params.q,
            r.params.count == self.params.count,
            r.params.search_lang == self.params.search_lang,
            r.params.safesearch == self.params.safesearch,
            r.params.freshness == self.params.freshness,
            r.params.country == self.params.country,
            r.params.source == self.params.source,
    {
        WebSearchQueryParamsBuilder {
            params: WebSearchQueryParams { offset: Some(v), ..self.params },
        }
    }

    /// Sets the language to search in.
    pub fn search_lang(self, v: &str) -> (r: Self)
        ensures
            (r.params.search_lang matches Some(s) && s@ == v@),
            r.params.q == self.params.q,
            r.params.count == self.params.count,
            r.params.offset == self.params.offset,
            r.params.safesearch == self.params.safesearch,
            r.params.freshness == self.params.freshness,
            r.params.country == self.params.country,
            r.params.source == self.params.source,
    {
        WebSearchQueryParamsBuilder {
            params: WebSearchQueryParams { search_lang: Some(v.to_owned()), ..self.params },
        }
    }

    /// Sets the safesearch level.
    pub fn safesearch(self, v: &str) -> (r: Self)
        ensures
            (r.params.safesearch matches Some(s) && s@ == v@),
            r.params.q == self.params.q,
            r.params.count == self.params.count,
            r.params.offset == self.params.offset,
            r.params.search_lang == self.params.search_lang,
            r.params.freshness == self.params.freshness,
            r.params.country == self.params.country,
            r.params.source == self.params.source,
    {
        WebSearchQueryParamsBuilder {
            params: WebSearchQueryParams { safesearch: Some(v.to_owned()), ..self.params },
        }
    }

    /// Sets the freshness window.
    pub fn freshness(self, v: &str) -> (r: Self)
        ensures
            (r.params.freshness matches Some(s) && s@ == v@),
            r.params.q == self.params.q,
            r.params.count == self.params.count,
            r.params.offset == self.params.offset,
            r.params.search_lang == self.params.search_lang,
            r.params.safesearch == self.params.safesearch,
            r.params.country == self.params.country,
            r.params.source == self.params.source,
    {
        WebSearchQueryParamsBuilder {
            params: WebSearchQueryParams { freshness: Some(v.to_owned()), ..self.params },
        }
    }

    /// Sets the country code.
    pub fn country(self, v: &str) -> (r: Self)
        ensures
            (r.params.country matches Some(s) && s@ == v@),
            r.params.q == self.params.q,
            r.params.count == self.params.count,
            r.params.offset == self.params.offset,
            r.params.search_lang == self.params.search_lang,
            r.params.safesearch == self.params.safesearch,
            r.params.freshness == self.params.freshness,
            r.params.source == self.params.source,
    {
        WebSearchQueryParamsBuilder {
            params: WebSearchQueryParams { country: Some(v.to_owned()), ..self.params },
        }
    }

    /// Sets the source or goggle identifier.
    pub fn source(self, v: &str) -> (r: Self)
        ensures
            (r.params.source matches Some(s) && s@ == v@),
            r.params.q == self.params.q,
            r.params.count == self.params.count,
            r.params.offset == self.params.offset,
            r.params.search_lang == self.params.search_lang,
            r.params.safesearch == self.params.safesearch,
            r.params.freshness == self.params.freshness,
            r.params.country == self.params.country,
    {
        WebSearchQueryParamsBuilder {
            params: WebSearchQueryParams { source: Some(v.to_owned()), ..self.params },
        }
    }

    /// The collected parameter set.
    pub fn build(self) -> (r: WebSearchQueryParams)
        ensures
            r == self.params,
    {
        self.params
    }
}

} // verus!
