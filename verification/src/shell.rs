//! Plain data the shell exchanges with the library and its workers:
//! the install request raised by a deep link, the search parameters of
//! the platform catalog, and the request kinds of the worker's HTTP
//! tool with their wire names.

use vstd::prelude::*;

use crate::text::str_eq;

verus! {

/// A tool-server install request raised to the shell: the server's
/// name and its configuration, both as given.
pub struct MCPInstallParam {
    pub name: String,
    pub config: String,
}

/// Search parameters for the platform's tool-server catalog.
pub struct MCPServerSearchParam {
    pub search_input: String,
    pub page: Option<u32>,
    pub tags: Option<Vec<String>>,
    pub subscription_level: Option<u8>,
    pub is_official: Option<bool>,
    pub sort_order: Option<u8>,
}

/// Request method of the worker's HTTP tool.
#[derive(Clone, Copy, Debug, PartialEq, Eq, Structural)]
pub enum HttpMethod {
    Get,
    Post,
    Put,
    Delete,
    Options,
}

/// Body encoding of the worker's HTTP tool.
#[derive(Clone, Copy, Debug, PartialEq, Eq, Structural)]
pub enum ContentType {
    Json,
    Form,
}

/// The wire name of a method: upper case.
pub open spec fn method_name_spec(m: HttpMethod) -> Seq<char> {
    match m {
        HttpMethod::Get => "GET"@,
        HttpMethod::Post => "POST"@,
        HttpMethod::Put => "PUT"@,
        HttpMethod::Delete => "DELETE"@,
        HttpMethod::Options => "OPTIONS"@,
    }
}

/// The method a wire name names, if any.
pub open spec fn parse_method_spec(s: Seq<char>) -> Option<HttpMethod> {
    if s == "GET"@ {
        Some(HttpMethod::Get)
    } else if s == "POST"@ {
        Some(HttpMethod::Post)
    } else if s == "PUT"@ {
        Some(HttpMethod::Put)
    } else if s == "DELETE"@ {
        Some(HttpMethod::Delete)
    } else if s == "OPTIONS"@ {
        Some(HttpMethod::Options)
    } else {
        None
    }
}

impl HttpMethod {
    /// The wire name of this method.
    pub fn name(self) -> (r: String)
        ensures
            r@ == method_name_spec(self),
    {
        match self {
            HttpMethod::Get => "GET".to_owned(),
            HttpMethod::Post => "POST".to_owned(),
            HttpMethod::Put => "PUT".to_owned(),
            HttpMethod::Delete => "DELETE".to_owned(),
            HttpMethod::Options => "OPTIONS".to_owned(),
        }
    }

    /// The method a wire name names, if any.
    pub fn parse(s: &str) -> (r: Option<HttpMethod>)
        ensures
            r == parse_method_spec(s@),
    {
        if str_eq(s, "GET") {
            Some(HttpMethod::Get)
        } else if str_eq(s, "POST") {
            Some(HttpMethod::Post)
        } else if str_eq(s, "PUT") {
            Some(HttpMethod::Put)
        } else if str_eq(s, "DELETE") {
            Some(HttpMethod::Delete)
        } else if str_eq(s, "OPTIONS") {
            Some(HttpMethod::Options)
        } else {
            None
        }
    }

    /// The method of a request that names none: `GET`.
    pub fn default_method() -> (r: HttpMethod)
        ensures
            r is Get,
    {
        HttpMethod::Get
    }
}

/// The wire name of a body encoding: lower case.
pub open spec fn content_type_name_spec(c: ContentType) -> Seq<char> {
    match c {
        ContentType::Json => "json"@,
        ContentType::Form => "form"@,
    }
}

/// The body encoding a wire name names, if any.
pub open spec fn parse_content_type_spec(s: Seq<char>) -> Option<ContentType> {
    if s == "json"@ {
        Some(ContentType::Json)
    } else if s == "form"@ {
        Some(ContentType::Form)
    } else {
        None
    }
}

impl ContentType {
    /// The wire name of this body encoding.
    pub fn name(self) -> (r: String)
        ensures
            r@ == content_type_name_spec(self),
    {
        match self {
            ContentType::Json => "json".to_owned(),
            ContentType::Form => "form".to_owned(),
        }
    }

    /// The body encoding a wire name names, if any.
    pub fn parse(s: &str) -> (r: Option<ContentType>)
        ensures
            r == parse_content_type_spec(s@),
    {
        if str_eq(s, "json") {
            Some(ContentType::Json)
        } else if str_eq(s, "form") {
            Some(ContentType::Form)
        } else {
            None
        }
    }
}

} // verus!
