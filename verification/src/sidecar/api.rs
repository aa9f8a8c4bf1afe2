//! The HTTP interface of the content-search process: which request stands for
//! which operation. The host sends the request and reads the answer.

use vstd::prelude::*;
use vstd::string::*;
use crate::text::{natural_text, push_natural};

verus! {

/// The answer to an indexing request.
#[derive(Debug, Clone, Copy, PartialEq, Eq, Structural)]
pub struct IndexResponse {
    pub total: usize,
    pub new: usize,
    pub indexed: usize,
}

/// The answer to a health request.
#[derive(Debug, Clone, PartialEq, Eq)]
pub struct HealthResponse {
    pub status: String,
}

/// The HTTP method of a request.
#[derive(Debug, Clone, Copy, PartialEq, Eq, Structural)]
pub enum Method {
    Get,
    Post,
}

/// The body of a request; the host writes it as a JSON object with one
/// member for each field, under the field's name.
#[derive(Debug, Clone, PartialEq, Eq)]
pub enum RequestBody {
    Empty,
    SearchText { query: String, n_results: usize },
    SearchSimilar { reference_file_path: String, n_results: usize },
    IndexFiles { file_paths: Vec<String> },
    IndexDirectory { directory: String },
}

/// One request to the content-search process.
#[derive(Debug, Clone, PartialEq, Eq)]
pub struct SidecarRequest {
    pub method: Method,
    pub url: String,
    pub body: RequestBody,
}

/// The client of the content-search process on the local host.
#[derive(Debug, Clone, PartialEq, Eq)]
pub struct SidecarClient {
    base_url: String,
}

/// The base address of the process on `port`.
pub open spec fn base_url_text(port: u16) -> Seq<char> {
    "http://127.0.0.1:"@ + natural_text(port as nat)
}

impl SidecarClient {
    /// The base address of every request.
    pub closed spec fn base(&self) -> Seq<char> {
        self.base_url@
    }

    /// A client of the process that listens on `port`.
    pub fn new(port: u16) -> (client: SidecarClient)
        ensures
            client.base() == base_url_text(port),
    {
        let mut base_url = String::from_str("http://127.0.0.1:");
        push_natural(&mut base_url, port as u64);
        SidecarClient { base_url }
    }

    fn url(&self, path: &str) -> (url: String)
        ensures
            url@ == self.base() + path@,
    {
        let mut url = self.base_url.clone();
        url.append(path);
        url
    }

    /// Asks whether the process is up: it is, where the answer is a success status.
    pub fn health(&self) -> (request: SidecarRequest)
        ensures
            request.method == Method::Get,
            request.url@ == self.base() + "/health"@,
            request.body == RequestBody::Empty,
    {
        SidecarRequest { method: Method::Get, url: self.url("/health"), body: RequestBody::Empty }
    }

    /// Searches the index for samples that match a text.
    pub fn search_text(&self, query: &str, n_results: usize) -> (request: SidecarRequest)
        ensures
            request.method == Method::Post,
            request.url@ == self.base() + "/search/text"@,
            request.body matches RequestBody::SearchText { query: q, n_results: n } && q@ == query@
                && n == n_results,
    {
        SidecarRequest {
            method: Method::Post,
            url: self.url("/search/text"),
            body: RequestBody::SearchText { query: String::from_str(query), n_results },
        }
    }

    /// Searches the index for samples that sound like a reference file.
    pub fn search_similar(&self, file_path: &str, n_results: usize) -> (request: SidecarRequest)
        ensures
            request.method == Method::Post,
            request.url@ == self.base() + "/search/similar"@,
            request.body matches RequestBody::SearchSimilar { reference_file_path: p, n_results: n }
                && p@ == file_path@ && n == n_results,
    {
        SidecarRequest {
            method: Method::Post,
            url: self.url("/search/similar"),
            body: RequestBody::SearchSimilar {
                reference_file_path: String::from_str(file_path),
                n_results,
            },
        }
    }

    /// Adds files to the index.
    pub fn index_files(&self, paths: Vec<String>) -> (request: SidecarRequest)
        ensures
            request.method == Method::Post,
            request.url@ == self.base() + "/index"@,
            request.body == (RequestBody::IndexFiles { file_paths: paths }),
    {
        SidecarRequest {
            method: Method::Post,
            url: self.url("/index"),
            body: RequestBody::IndexFiles { file_paths: paths },
        }
    }

    /// Adds the files of a directory to the index.
    pub fn index_directory(&self, directory: &str) -> (request: SidecarRequest)
        ensures
            request.method == Method::Post,
            request.url@ == self.base() + "/index/directory"@,
            request.body matches RequestBody::IndexDirectory { directory: d } && d@ == directory@,
    {
        SidecarRequest {
            method: Method::Post,
            url: self.url("/index/directory"),
            body: RequestBody::IndexDirectory { directory: String::from_str(directory) },
        }
    }
}

} // verus!
