//! Stored records of finished uploads, the local database's location, and
//! the plugins that hold it.
use vstd::prelude::*;
use vstd::string::*;
use crate::store::{join_path, parse_url, parsed_path, url_parses, url_path_of};
use crate::text::{first_index_of, split_once_char, strip_leading_slash, without_leading_slash};

verus! {

/// A finished upload as stored: its public URL and content type.
#[derive(Debug, Clone, PartialEq, Eq)]
pub struct Upload {
    id: i64,
    url: String,
    created_at: String,
    mime_type: String,
}

/// The public URL of a stored upload does not parse.
#[derive(Debug, Clone, Copy, PartialEq, Eq)]
pub struct InvalidUploadUrl;

impl Upload {
    pub fn new(id: i64, url: String, created_at: String, mime_type: String) -> (r: Self)
        ensures
            r.spec_id() == id,
            r.spec_url() == url@,
            r.spec_created_at() == created_at@,
            r.spec_mime_type() == mime_type@,
    {
        Upload { id, url, created_at, mime_type }
    }

    pub closed spec fn spec_id(&self) -> i64 {
        self.id
    }

    pub closed spec fn spec_url(&self) -> Seq<char> {
        self.url@
    }

    pub closed spec fn spec_created_at(&self) -> Seq<char> {
        self.created_at@
    }

    pub closed spec fn spec_mime_type(&self) -> Seq<char> {
        self.mime_type@
    }

    pub fn id(&self) -> (r: i64)
        ensures
            r == self.spec_id(),
    {
        self.id
    }

    pub fn url_text(&self) -> (r: &str)
        ensures
            r@ == self.spec_url(),
    {
        self.url.as_str()
    }

    pub fn created_at(&self) -> (r: &str)
        ensures
            r@ == self.spec_created_at(),
    {
        self.created_at.as_str()
    }

    pub fn mime_type(&self) -> (r: &str)
        ensures
            r@ == self.spec_mime_type(),
    {
        self.mime_type.as_str()
    }

    /// The stored public URL, parsed.
    pub fn url(&self) -> (r: Result<url::Url, InvalidUploadUrl>)
        ensures
            r is Ok <==> url_parses(self.spec_url()),
    {
        match parse_url(self.url.as_str()) {
            Ok(u) => Ok(u),
            Err(_) => Err(InvalidUploadUrl),
        }
    }

    /// The object key of the upload: the path of its URL without the
    /// leading slash.
    pub fn object_key(&self) -> (r: Result<String, InvalidUploadUrl>)
        ensures
            r is Ok <==> url_parses(self.spec_url()),
            r matches Ok(k) ==> k@ == without_leading_slash(url_path_of(self.spec_url())),
    {
        match parsed_path(self.url.as_str()) {
            Some(path) => Ok(strip_leading_slash(path.as_str()).to_string()),
            None => Err(InvalidUploadUrl),
        }
    }
}

/// The connection string of the database file `connection_string` names
/// (the part after its first colon) under the directory `app_path`; `None`
/// when the connection string holds no colon.
pub fn path_mapper(app_path: &str, connection_string: &str) -> (r: Option<String>)
    ensures
        first_index_of(connection_string@, ':') is None <==> r is None,
        r matches Some(s) ==> exists|p: Seq<char>| s@ == "sqlite:"@ + p,
{
    match split_once_char(connection_string, ':') {
        Some((_, file)) => {
            let joined = join_path(app_path, file);
            let mut r = "sqlite:".to_string();
            r.append(joined.as_str());
            Some(r)
        },
        None => None,
    }
}

/// The largest byte of a sample, 0 for an empty one.
pub fn peak_level(samples: &[u8]) -> (r: u8)
    ensures
        forall|i: int| 0 <= i < samples@.len() ==> samples@[i] <= r,
        samples@.len() == 0 ==> r == 0,
        samples@.len() > 0 ==> exists|i: int| 0 <= i < samples@.len() && samples@[i] == r,
{
    let mut best: u8 = 0;
    let mut i: usize = 0;
    while i < samples.len()
        invariant
            i <= samples@.len(),
            forall|j: int| 0 <= j < i ==> samples@[j] <= best,
            i == 0 ==> best == 0,
            i > 0 ==> exists|j: int| 0 <= j < i && samples@[j] == best,
        decreases samples@.len() - i,
    {
        if samples[i] > best || i == 0 {
            best = samples[i];
        }
        i = i + 1;
    }
    best
}

/// Holds the database connection string until the plugin is built.
#[derive(Debug, Clone)]
pub struct DatabasePlugin {
    database_str: String,
}

impl DatabasePlugin {
    pub closed spec fn spec_database_str(&self) -> Seq<char> {
        self.database_str@
    }

    pub fn init(database_str: &str) -> (r: Self)
        ensures
            r.spec_database_str() == database_str@,
    {
        DatabasePlugin { database_str: database_str.to_string() }
    }

    pub fn database_str(&self) -> (r: &str)
        ensures
            r@ == self.spec_database_str(),
    {
        self.database_str.as_str()
    }
}

/// Holds the database connection string of the command plugin.
#[derive(Debug, Clone)]
pub struct Api {
    database_str: String,
}

impl Api {
    pub closed spec fn spec_database_str(&self) -> Seq<char> {
        self.database_str@
    }

    pub fn init(database_str: &str) -> (r: Self)
        ensures
            r.spec_database_str() == database_str@,
    {
        Api { database_str: database_str.to_string() }
    }

    pub fn database_str(&self) -> (r: &str)
        ensures
            r@ == self.spec_database_str(),
    {
        self.database_str.as_str()
    }
}

} // verus!
