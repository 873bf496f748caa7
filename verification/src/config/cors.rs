//! What the settings allow of requests from other origins.
//!
//! The settings name origins, methods and headers as text. This module
//! turns them into the plan that the web framework is configured with.

use crate::config::settings::{texts, Settings};
use crate::utils::text::{same_text, to_uppercase, uppercase_of};
use vstd::prelude::*;

verus! {

/// A request method that can be allowed to other origins.
#[derive(Clone, Copy, Debug, PartialEq, Eq, Structural)]
pub enum HttpMethod {
    Get,
    Post,
    Put,
    Delete,
    Patch,
    Head,
    Options,
}

/// What is allowed to requests from other origins.
#[derive(Clone, Debug, PartialEq, Eq)]
pub struct CorsPlan {
    pub allowed_origins: Vec<String>,
    pub allowed_methods: Vec<HttpMethod>,
    pub allowed_headers: Vec<String>,
    pub supports_credentials: bool,
}

/// The method that `name` names, in capital letters.
pub open spec fn method_named(name: Seq<char>) -> Option<HttpMethod> {
    if name == "GET"@ {
        Some(HttpMethod::Get)
    } else if name == "POST"@ {
        Some(HttpMethod::Post)
    } else if name == "PUT"@ {
        Some(HttpMethod::Put)
    } else if name == "DELETE"@ {
        Some(HttpMethod::Delete)
    } else if name == "PATCH"@ {
        Some(HttpMethod::Patch)
    } else if name == "HEAD"@ {
        Some(HttpMethod::Head)
    } else if name == "OPTIONS"@ {
        Some(HttpMethod::Options)
    } else {
        None
    }
}

/// The methods that `names` name, in whatever case, in their order. A name
/// that names no method is passed over.
pub open spec fn methods_named(names: Seq<Seq<char>>) -> Seq<HttpMethod>
    decreases names.len(),
{
    if names.len() == 0 {
        seq![]
    } else {
        let before = methods_named(names.drop_last());
        match method_named(uppercase_of(names.last())) {
            Some(method) => before.push(method),
            None => before,
        }
    }
}

impl HttpMethod {
    /// The method that `name` names, in whatever case.
    pub fn parse(name: &str) -> (r: Option<HttpMethod>)
        ensures
            r == method_named(uppercase_of(name@)),
    {
        let upper = to_uppercase(name);
        HttpMethod::from_upper(upper.as_str())
    }

    /// The method that `name` names, in capital letters.
    pub fn from_upper(name: &str) -> (r: Option<HttpMethod>)
        ensures
            r == method_named(name@),
    {
        if same_text(name, "GET") {
            Some(HttpMethod::Get)
        } else if same_text(name, "POST") {
            Some(HttpMethod::Post)
        } else if same_text(name, "PUT") {
            Some(HttpMethod::Put)
        } else if same_text(name, "DELETE") {
            Some(HttpMethod::Delete)
        } else if same_text(name, "PATCH") {
            Some(HttpMethod::Patch)
        } else if same_text(name, "HEAD") {
            Some(HttpMethod::Head)
        } else if same_text(name, "OPTIONS") {
            Some(HttpMethod::Options)
        } else {
            None
        }
    }
}

/// A copy of a list of strings.
fn copy_of(list: &Vec<String>) -> (r: Vec<String>)
    ensures
        texts(r@) == texts(list@),
{
    let mut out: Vec<String> = Vec::new();
    let mut i: usize = 0;
    assert(texts(out@) =~= texts(list@).take(0));
    while i < list.len()
        invariant
            i <= list.len(),
            texts(out@) == texts(list@).take(i as int),
        decreases list.len() - i,
    {
        let ghost before = texts(out@);
        let copy = list[i].clone();
        out.push(copy);
        assert(texts(out@) =~= before.push(copy@));
        i += 1;
        assert(texts(list@).take(i as int) =~= before.push(list@[i - 1]@));
    }
    assert(texts(list@).take(list.len() as int) == texts(list@));
    out
}

/// The plan for requests from other origins: the origins and headers that
/// the settings allow, the methods that they name, and credentials in every
/// case.
pub fn create_cors_config(settings: &Settings) -> (r: CorsPlan)
    ensures
        texts(r.allowed_origins@) == settings@.cors.allowed_origins,
        r.allowed_methods@ == methods_named(settings@.cors.allowed_methods),
        texts(r.allowed_headers@) == settings@.cors.allowed_headers,
        r.supports_credentials,
{
    let names = &settings.cors.allowed_methods;
    let mut methods: Vec<HttpMethod> = Vec::new();
    let mut i: usize = 0;
    assert(texts(names@).take(0) =~= Seq::<Seq<char>>::empty());
    while i < names.len()
        invariant
            i <= names.len(),
            methods@ == methods_named(texts(names@).take(i as int)),
        decreases names.len() - i,
    {
        assert(texts(names@).take(i + 1).drop_last() == texts(names@).take(i as int));
        assert(texts(names@).take(i + 1).last() == names@[i as int]@);
        match HttpMethod::parse(names[i].as_str()) {
            Some(method) => {
                methods.push(method);
            },
            None => {},
        }
        i += 1;
    }
    assert(texts(names@).take(names.len() as int) == texts(names@));
    CorsPlan {
        allowed_origins: copy_of(&settings.cors.allowed_origins),
        allowed_methods: methods,
        allowed_headers: copy_of(&settings.cors.allowed_headers),
        supports_credentials: true,
    }
}

} // verus!
