//! Configuration consumed by the pipeline: three optional strings, each with
//! a documented default.

use vstd::prelude::*;
use vstd::string::*;

verus! {

/// Origin used where the configuration names no `domain`.
pub const DEFAULT_DOMAIN: &'static str = "http://mininform.gov.by";

/// Path of the listing page used where the configuration names no `url`.
pub const DEFAULT_URL: &'static str =
    "/documents/respublikanskiy-spisok-ekstremistskikh-materialov/";

/// Pattern used where the configuration names no `re`: an anchor with a
/// `download` attribute, capturing its `href`.
pub const DEFAULT_PATTERN: &'static str = "<a download href=\"([A-Za-z0-9./]*)\">";

/// The three optional settings. An absent field falls back to its default.
#[derive(Debug, Clone, PartialEq, Eq)]
pub struct Config {
    /// Base origin, without a trailing path.
    pub domain: Option<String>,
    /// Path appended to the domain to reach the listing page.
    pub url: Option<String>,
    /// Pattern whose first capture group is the document's relative path.
    pub re: Option<String>,
}

/// The value of an optional setting: its text, or the default's.
pub open spec fn setting(field: Option<String>, fallback: Seq<char>) -> Seq<char> {
    match field {
        Some(s) => s@,
        None => fallback,
    }
}

impl Config {
    /// The base origin in effect.
    pub open spec fn domain_text(&self) -> Seq<char> {
        setting(self.domain, DEFAULT_DOMAIN@)
    }

    /// The listing page's path in effect.
    pub open spec fn url_text(&self) -> Seq<char> {
        setting(self.url, DEFAULT_URL@)
    }

    /// The pattern in effect.
    pub open spec fn pattern_text(&self) -> Seq<char> {
        setting(self.re, DEFAULT_PATTERN@)
    }

    /// The absolute address of the listing page: domain, then path.
    pub open spec fn page_address(&self) -> Seq<char> {
        self.domain_text() + self.url_text()
    }

    /// The absolute address of the document found at `path`.
    pub open spec fn document_address(&self, path: Seq<char>) -> Seq<char> {
        self.domain_text() + path
    }

    /// A configuration with every field absent.
    pub fn new() -> (c: Config)
        ensures
            c.domain is None,
            c.url is None,
            c.re is None,
    {
        Config { domain: None, url: None, re: None }
    }

    /// The base origin: the configured one, else the default.
    pub fn domain(&self) -> (d: &str)
        ensures
            d@ == self.domain_text(),
    {
        match &self.domain {
            Some(s) => s.as_str(),
            None => DEFAULT_DOMAIN,
        }
    }

    /// The listing page's path: the configured one, else the default.
    pub fn url(&self) -> (u: &str)
        ensures
            u@ == self.url_text(),
    {
        match &self.url {
            Some(s) => s.as_str(),
            None => DEFAULT_URL,
        }
    }

    /// The link pattern: the configured one, else the default.
    pub fn pattern(&self) -> (p: &str)
        ensures
            p@ == self.pattern_text(),
    {
        match &self.re {
            Some(s) => s.as_str(),
            None => DEFAULT_PATTERN,
        }
    }

    /// The absolute address of the listing page.
    pub fn page_url(&self) -> (address: String)
        ensures
            address@ == self.page_address(),
    {
        String::from_str(self.domain()).concat(self.url())
    }

    /// The absolute address of the document whose relative path is `path`.
    pub fn document_url(&self, path: &str) -> (address: String)
        ensures
            address@ == self.document_address(path@),
    {
        String::from_str(self.domain()).concat(path)
    }
}

} // verus!
