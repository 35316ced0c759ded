use vstd::prelude::*;

verus! {

/// The server's configuration.
#[derive(Debug, Clone, PartialEq, Eq)]
pub struct Config {
    /// Server's port.
    pub port: u16,
    /// Database file name, without path or extension.
    pub database_name: String,
}

impl Config {
    /// The address of the database that the configuration names.
    pub fn database_url(&self) -> (url: String)
        ensures
            url@ == "sqlite://database/"@ + self.database_name@ + ".db"@,
    {
        String::from_str("sqlite://database/").concat(self.database_name.as_str()).concat(".db")
    }
}

} // verus!
