//! Where the store is and what authorizes a request to it.

use vstd::prelude::*;
use crate::infra::request::header_texts;
use crate::infra::request::Header;
use crate::infra::request::Method;
use crate::infra::request::Payload;
use crate::infra::request::Request;
use crate::infra::request::RequestView;
use crate::text::trim_end;
use crate::text::trimmed_end;

verus! {

/// The store's base address and the key that every request presents.
#[derive(Debug, Clone, PartialEq, Eq)]
pub struct Supabase {
    pub url: String,
    pub anon_key: String,
}

/// The setting that is missing from the configuration.
#[derive(Debug, Clone, Copy, PartialEq, Eq)]
pub enum MissingSetting {
    /// The base address of the store.
    Url,
    /// The key that authorizes requests.
    AnonKey,
}

/// The address of a REST path below the base address: the base without
/// slashes at its end, the REST prefix, and the path.
pub open spec fn endpoint_text(base: Seq<char>, path: Seq<char>) -> Seq<char> {
    trimmed_end(base, '/') + "/rest/v1/"@ + path
}

/// The two header lines that authorize a request: the key itself, and the
/// key as a bearer token.
pub open spec fn authorization_texts(key: Seq<char>) -> Seq<(Seq<char>, Seq<char>)> {
    seq![("apikey"@, key), ("Authorization"@, "Bearer "@ + key)]
}

/// The header line that announces a JSON body.
pub open spec fn json_content_text() -> (Seq<char>, Seq<char>) {
    ("Content-Type"@, "application/json"@)
}

/// The header line that tells the store to merge a row that conflicts with
/// an existing one into it, in place of rejecting it.
pub open spec fn merge_duplicates_text() -> (Seq<char>, Seq<char>) {
    ("Prefer"@, "resolution=merge-duplicates"@)
}

/// The header lines of a request: the authorization, and the announcement
/// of a JSON body if the request carries one.
pub open spec fn request_headers(key: Seq<char>, body: Payload) -> Seq<(Seq<char>, Seq<char>)> {
    if body is Empty {
        authorization_texts(key)
    } else {
        authorization_texts(key).push(json_content_text())
    }
}

/// The request with this method and body for a REST path.
pub open spec fn request_to(store: Supabase, method: Method, path: Seq<char>, body: Payload) -> RequestView {
    RequestView {
        method,
        url: endpoint_text(store.url@, path),
        headers: request_headers(store.anon_key@, body),
        body,
    }
}

impl Supabase {
    /// The store that the two settings describe. Both are required; the base
    /// address is looked at first.
    pub fn from_settings(url: Option<String>, anon_key: Option<String>) -> (r: Result<
        Supabase,
        MissingSetting,
    >)
        ensures
            r == match (url, anon_key) {
                (None, _) => Err::<Supabase, MissingSetting>(MissingSetting::Url),
                (Some(_), None) => Err::<Supabase, MissingSetting>(MissingSetting::AnonKey),
                (Some(url), Some(anon_key)) => Ok::<Supabase, MissingSetting>(
                    Supabase { url, anon_key },
                ),
            },
    {
        match url {
            None => Err(MissingSetting::Url),
            Some(url) => match anon_key {
                None => Err(MissingSetting::AnonKey),
                Some(anon_key) => Ok(Supabase { url, anon_key }),
            },
        }
    }

    /// The address of a REST path, such as `employees?select=*`.
    pub fn endpoint(&self, path: &str) -> (r: String)
        ensures
            r@ == endpoint_text(self.url@, path@),
    {
        let base = trim_end(self.url.as_str(), '/');
        let mut address = String::from_str(base);
        address.append("/rest/v1/");
        address.append(path);
        address
    }

    /// The header lines that authorize a request.
    pub fn authorization(&self) -> (r: Vec<Header>)
        ensures
            header_texts(r@) == authorization_texts(self.anon_key@),
    {
        let mut bearer = String::from_str("Bearer ");
        bearer.append(self.anon_key.as_str());
        let mut headers: Vec<Header> = Vec::new();
        headers.push(Header { name: String::from_str("apikey"), value: self.anon_key.clone() });
        headers.push(Header { name: String::from_str("Authorization"), value: bearer });
        assert(header_texts(headers@) == authorization_texts(self.anon_key@));
        headers
    }

    /// The request with this method and body for a REST path, authorized
    /// with the store's key.
    pub fn request(&self, method: Method, path: &str, body: Payload) -> (r: Request)
        ensures
            r@ == request_to(*self, method, path@, body),
    {
        let url = self.endpoint(path);
        let mut headers = self.authorization();
        match &body {
            Payload::Empty => {},
            _ => {
                let ghost before = headers@;
                let line = json_content();
                headers.push(line);
                assert(header_texts(headers@) == header_texts(before).push(json_content_text()));
            },
        }
        Request { method, url, headers, body }
    }
}

/// The header line that announces a JSON body.
pub fn json_content() -> (r: Header)
    ensures
        (r.name@, r.value@) == json_content_text(),
{
    Header { name: String::from_str("Content-Type"), value: String::from_str("application/json") }
}

/// The header line that asks the store to merge on conflict.
pub fn merge_duplicates() -> (r: Header)
    ensures
        (r.name@, r.value@) == merge_duplicates_text(),
{
    Header {
        name: String::from_str("Prefer"),
        value: String::from_str("resolution=merge-duplicates"),
    }
}

} // verus!
