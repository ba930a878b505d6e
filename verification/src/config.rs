//! Explicit configuration value, built once at startup from the resolved
//! base directory and passed by reference into each component; there is no
//! hidden global.

use vstd::prelude::*;

verus! {

/// Mathematical value of the configuration.
pub ghost struct ConfigV {
    pub lokai_dir: Seq<char>,
    pub database_url: Seq<char>,
}

/// Where the client keeps its database, its logs and its model cache.
#[derive(Debug)]
pub struct Config {
    lokai_dir: String,
    database_url: String,
}

impl View for Config {
    type V = ConfigV;

    closed spec fn view(&self) -> ConfigV {
        ConfigV { lokai_dir: self.lokai_dir@, database_url: self.database_url@ }
    }
}

impl Config {
    /// Configuration rooted at an already resolved base directory; the
    /// database starts out beside it.
    pub fn new(lokai_dir: String) -> (r: Config)
        ensures
            r@.lokai_dir == lokai_dir@,
            r@.database_url == "sqlite://"@ + lokai_dir@ + "/db.sqlite"@,
    {
        let database_url = String::from_str("sqlite://").concat(lokai_dir.as_str()).concat(
            "/db.sqlite",
        );
        Config { lokai_dir, database_url }
    }

    /// The database connection string.
    pub fn database_url(&self) -> (r: &str)
        ensures
            r@ == self@.database_url,
    {
        self.database_url.as_str()
    }

    /// Where log files go.
    pub fn logs_dir(&self) -> (r: String)
        ensures
            r@ == self@.lokai_dir + "/logs"@,
    {
        self.lokai_dir.clone().concat("/logs")
    }

    /// Where downloaded model files are cached.
    pub fn kalosm_cache_dir(&self) -> (r: String)
        ensures
            r@ == self@.lokai_dir + "/kalosm_cache"@,
    {
        self.lokai_dir.clone().concat("/kalosm_cache")
    }

    /// Point the client at another database.
    pub fn update_database_url(&mut self, database_url: String)
        ensures
            final(self)@.database_url == database_url@,
            final(self)@.lokai_dir == old(self)@.lokai_dir,
    {
        self.database_url = database_url;
    }
}

} // verus!
