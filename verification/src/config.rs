//! Configuration of a run: the access credential for the challenge service
//! and the connection parameters of the target database. All five values are
//! required; they are sourced once at startup and are immutable afterwards.
//! The library also fixes here the two service URLs and the database
//! connection string that the pipeline uses.

use vstd::prelude::*;
use vstd::string::StringExecFns;

verus! {

/// The fixed base endpoint of the challenge service.
pub const BASE_URL: &'static str = "https://hackattic.com/challenges/backup_restore";

/// The credentials and connection parameters of one run.
#[derive(Debug)]
pub struct Config {
    pub access_token: String,
    pub db_host: String,
    pub db_name: String,
    pub db_user: String,
    pub db_password: String,
}

/// A required setting that was absent, one variant per setting.
#[derive(Clone, Copy, Debug, PartialEq, Eq, Structural)]
pub enum ConfigError {
    MissingAccessToken,
    MissingDbHost,
    MissingDbName,
    MissingDbUser,
    MissingDbPassword,
}

/// The error that loading reports when one or more settings are absent: the
/// first absent one, in the fixed order of the settings.
pub open spec fn first_missing(
    token: Option<String>,
    host: Option<String>,
    name: Option<String>,
    user: Option<String>,
    password: Option<String>,
) -> ConfigError {
    if token is None {
        ConfigError::MissingAccessToken
    } else if host is None {
        ConfigError::MissingDbHost
    } else if name is None {
        ConfigError::MissingDbName
    } else if user is None {
        ConfigError::MissingDbUser
    } else {
        ConfigError::MissingDbPassword
    }
}

/// The URL of the fetch operation for a given access token.
pub open spec fn problem_url_spec(token: Seq<char>) -> Seq<char> {
    BASE_URL@ + "/problem?access_token="@ + token
}

/// The URL of the submit operation for a given access token.
pub open spec fn solve_url_spec(token: Seq<char>) -> Seq<char> {
    BASE_URL@ + "/solve?access_token="@ + token + "&playground=1"@
}

/// The connection string for the direct database connection.
pub open spec fn conn_string_spec(
    host: Seq<char>,
    name: Seq<char>,
    user: Seq<char>,
    password: Seq<char>,
) -> Seq<char> {
    "host="@ + host + " dbname="@ + name + " user="@ + user + " password="@ + password
}

impl Config {
    /// Builds the configuration from the five required settings, each absent
    /// or present. Succeeds exactly when all five are present; otherwise
    /// reports the first absent setting, so a run aborts before any network
    /// call is made.
    pub fn from_values(
        token: Option<String>,
        host: Option<String>,
        name: Option<String>,
        user: Option<String>,
        password: Option<String>,
    ) -> (r: Result<Config, ConfigError>)
        ensures
            r is Ok <==> (token is Some && host is Some && name is Some && user is Some
                && password is Some),
            r matches Ok(c) ==> {
                &&& c.access_token == token->Some_0
                &&& c.db_host == host->Some_0
                &&& c.db_name == name->Some_0
                &&& c.db_user == user->Some_0
                &&& c.db_password == password->Some_0
            },
            r matches Err(e) ==> e == first_missing(token, host, name, user, password),
    {
        let access_token = match token {
            Some(v) => v,
            None => {
                return Err(ConfigError::MissingAccessToken);
            },
        };
        let db_host = match host {
            Some(v) => v,
            None => {
                return Err(ConfigError::MissingDbHost);
            },
        };
        let db_name = match name {
            Some(v) => v,
            None => {
                return Err(ConfigError::MissingDbName);
            },
        };
        let db_user = match user {
            Some(v) => v,
            None => {
                return Err(ConfigError::MissingDbUser);
            },
        };
        let db_password = match password {
            Some(v) => v,
            None => {
                return Err(ConfigError::MissingDbPassword);
            },
        };
        Ok(Config { access_token, db_host, db_name, db_user, db_password })
    }

    /// The URL the fetch operation uses, parameterized with the token.
    pub fn problem_url(&self) -> (r: String)
        ensures
            r@ == problem_url_spec(self.access_token@),
    {
        let mut s = BASE_URL.to_owned();
        s.append("/problem?access_token=");
        s.append(self.access_token.as_str());
        s
    }

    /// The URL the submit operation uses, parameterized with the token.
    pub fn solve_url(&self) -> (r: String)
        ensures
            r@ == solve_url_spec(self.access_token@),
    {
        let mut s = BASE_URL.to_owned();
        s.append("/solve?access_token=");
        s.append(self.access_token.as_str());
        s.append("&playground=1");
        s
    }

    /// The connection string for the direct database connection, built from
    /// the four database settings.
    pub fn conn_string(&self) -> (r: String)
        ensures
            r@ == conn_string_spec(self.db_host@, self.db_name@, self.db_user@, self.db_password@),
    {
        let mut s = "host=".to_owned();
        s.append(self.db_host.as_str());
        s.append(" dbname=");
        s.append(self.db_name.as_str());
        s.append(" user=");
        s.append(self.db_user.as_str());
        s.append(" password=");
        s.append(self.db_password.as_str());
        s
    }
}

} // verus!
