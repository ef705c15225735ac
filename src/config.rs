//! Database connection settings, each with the default that applies where
//! it is not given.

use vstd::prelude::*;

verus! {

/// The setting `value`, or `default` where it is absent.
pub open spec fn or_default(value: Option<String>, default: Seq<char>) -> Seq<char> {
    match value {
        Some(s) => s@,
        None => default,
    }
}

/// Connection settings of the relational database, as loaded; every field
/// may be absent.
#[derive(Debug, Clone)]
pub struct DatabaseConfig {
    pub host: Option<String>,
    pub port: Option<u16>,
    pub username: Option<String>,
    pub password: Option<String>,
    pub database: Option<String>,
    pub schema: Option<String>,
}

impl DatabaseConfig {
    /// The host, `127.0.0.1` by default.
    pub fn host(&self) -> (r: &str)
        ensures
            r@ == or_default(self.host, "127.0.0.1"@),
    {
        match &self.host {
            Some(s) => s.as_str(),
            None => "127.0.0.1",
        }
    }

    /// The port, 5432 by default.
    pub fn port(&self) -> (r: u16)
        ensures
            r == match self.port {
                Some(p) => p,
                None => 5432,
            },
    {
        match self.port {
            Some(p) => p,
            None => 5432,
        }
    }

    /// The user name, `postgres` by default.
    pub fn username(&self) -> (r: &str)
        ensures
            r@ == or_default(self.username, "postgres"@),
    {
        match &self.username {
            Some(s) => s.as_str(),
            None => "postgres",
        }
    }

    /// The password, `postgres` by default.
    pub fn password(&self) -> (r: &str)
        ensures
            r@ == or_default(self.password, "postgres"@),
    {
        match &self.password {
            Some(s) => s.as_str(),
            None => "postgres",
        }
    }

    /// The database name, `axum` by default.
    pub fn database(&self) -> (r: &str)
        ensures
            r@ == or_default(self.database, "axum"@),
    {
        match &self.database {
            Some(s) => s.as_str(),
            None => "axum",
        }
    }

    /// The schema search path, `public` by default.
    pub fn schema(&self) -> (r: &str)
        ensures
            r@ == or_default(self.schema, "public"@),
    {
        match &self.schema {
            Some(s) => s.as_str(),
            None => "public",
        }
    }
}

} // verus!
