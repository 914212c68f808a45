//! Ideas: the window of a query and the stored form of the tags.

use vstd::prelude::*;
use crate::text::texts;

verus! {

/// The number of ideas on a page where the query names none.
pub const DEFAULT_IDEA_LIMIT: u32 = 20;

/// The largest number of ideas on a page.
pub const MAX_IDEA_LIMIT: u32 = 100;

/// Where the icon of every idea is served from.
pub const ICON_URI: &'static str = "https://haveanidea.me/ipfs";

/// What is stored for tags that cannot be written as JSON.
pub const NO_TAGS: &'static str = "[]";

/// The error type of the `serde_json` crate.
#[verifier::external_type_specification]
#[verifier::external_body]
pub struct ExJsonError(serde_json::Error);

/// The JSON text that `serde_json::to_string` writes for a list of
/// strings, or `None` where it reports an error.
pub uninterp spec fn json_array_text(items: Seq<Seq<char>>) -> Option<Seq<char>>;

/// `serde_json::to_string` on a list of strings: the list as a JSON array
/// of JSON strings. The text is a function of the strings alone.
#[verifier::external_body]
fn json_of_strings(items: &Vec<String>) -> (outcome: Result<String, serde_json::Error>)
    ensures
        match outcome {
            Ok(text) => json_array_text(texts(items@)) == Some(text@),
            Err(_) => json_array_text(texts(items@)) is None,
        },
{
    serde_json::to_string(items)
}

/// A query for a page of ideas.
#[derive(Debug)]
pub struct IdeaQuery {
    pub category: Option<String>,
    pub chain: Option<String>,
    pub idea_type: Option<String>,
    pub page: Option<u32>,
    pub limit: Option<u32>,
}

/// The number of ideas on a page: what the query asks for, at most
/// `MAX_IDEA_LIMIT`, and `DEFAULT_IDEA_LIMIT` where it names none.
pub open spec fn idea_limit(limit: Option<u32>) -> u32 {
    match limit {
        Some(n) => if n > MAX_IDEA_LIMIT {
            MAX_IDEA_LIMIT
        } else {
            n
        },
        None => DEFAULT_IDEA_LIMIT,
    }
}

/// The number of ideas before the page of a query; pages count from one,
/// and a query without a page asks for the first.
pub open spec fn idea_offset(page: Option<u32>, limit: Option<u32>) -> int {
    match page {
        Some(p) => (p - 1) * idea_limit(limit),
        None => 0,
    }
}

impl IdeaQuery {
    /// The number of ideas on the page.
    pub fn page_limit(&self) -> (limit: u32)
        ensures
            limit == idea_limit(self.limit),
    {
        match self.limit {
            Some(n) => if n > MAX_IDEA_LIMIT {
                MAX_IDEA_LIMIT
            } else {
                n
            },
            None => DEFAULT_IDEA_LIMIT,
        }
    }

    /// The number of ideas before the page.
    pub fn page_offset(&self) -> (offset: i64)
        requires
            self.page != Some(0u32),
        ensures
            offset == idea_offset(self.page, self.limit),
            offset >= 0,
    {
        let limit = self.page_limit();
        match self.page {
            Some(p) => {
                let before: i64 = (p - 1) as i64;
                assert(0 <= before * (limit as i64) <= 0xffff_ffff * 100) by (nonlinear_arith)
                    requires
                        0 <= before <= 0xffff_ffff,
                        0 <= limit <= 100,
                ;
                before * (limit as i64)
            },
            None => 0,
        }
    }
}

/// The stored form of the tags of an idea, given the outcome `encoded` of
/// writing them as JSON: the JSON text, or `NO_TAGS` where writing failed.
pub fn tags_text(encoded: Result<String, serde_json::Error>) -> (text: String)
    ensures
        match encoded {
            Ok(json) => text == json,
            Err(_) => text@ == NO_TAGS@,
        },
{
    match encoded {
        Ok(json) => json,
        Err(_) => NO_TAGS.to_owned(),
    }
}

/// The stored form of the tags of an idea: nothing for an idea without a
/// list of tags, else the list as a JSON array of strings, or `NO_TAGS`
/// where the list cannot be written.
pub fn tags_to_json(tags: &Option<Vec<String>>) -> (stored: Option<String>)
    ensures
        match tags {
            None => stored is None,
            Some(list) => stored matches Some(text) && text@ == match json_array_text(
                texts(list@),
            ) {
                Some(json) => json,
                None => NO_TAGS@,
            },
        },
{
    match tags {
        None => None,
        Some(list) => Some(tags_text(json_of_strings(list))),
    }
}

} // verus!
