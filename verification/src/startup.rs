//! Where the service finds its database.
use vstd::prelude::*;

use crate::text::{parse_u32, u32_parse_error, u32_value};

verus! {

/// The settings of the database connection, each where the environment has it.
#[derive(Debug, PartialEq, Eq)]
pub struct MysqlEnv {
    pub host: Option<String>,
    pub port: Option<String>,
    pub user: Option<String>,
    pub dbname: Option<String>,
    pub pass: Option<String>,
}

/// A setting, or its default.
pub open spec fn setting_or(setting: Option<String>, default: Seq<char>) -> Seq<char> {
    match setting {
        Some(s) => s@,
        None => default,
    }
}

/// The address of the database.
pub open spec fn database_address(env: MysqlEnv) -> Seq<char> {
    "mysql://"@ + setting_or(env.user, "isucari"@) + ":"@ + setting_or(env.pass, "isucari"@)
        + "@"@ + setting_or(env.host, "127.0.0.1"@) + ":"@ + setting_or(env.port, "3306"@) + "/"@
        + setting_or(env.dbname, "isucari"@)
}

fn or_default(setting: Option<String>, default: &str) -> (s: String)
    ensures
        s@ == setting_or(setting, default@),
{
    match setting {
        Some(s) => s,
        None => default.to_string(),
    }
}

/// What is wrong with the port: something exactly where it is set and its text is no
/// `u32`, and then why that text is none.
pub open spec fn wrong_port(env: MysqlEnv) -> Option<std::num::ParseIntError> {
    match env.port {
        Some(port) => match u32_value(port@) {
            Some(_) => None,
            None => Some(u32_parse_error(port@)),
        },
        None => None,
    }
}

impl MysqlEnv {
    /// What is wrong with the port. The address of the database holds its text all the
    /// same.
    pub fn port_error(&self) -> (error: Option<std::num::ParseIntError>)
        ensures
            error == wrong_port(*self),
    {
        match &self.port {
            Some(port) => match parse_u32(port.as_str()) {
                Ok(_) => None,
                Err(e) => Some(e),
            },
            None => None,
        }
    }

    /// The address of the database.
    pub fn dsn(self) -> (dsn: String)
        ensures
            dsn@ == database_address(self),
    {
        let mut dsn = "mysql://".to_string();
        dsn.append(or_default(self.user, "isucari").as_str());
        dsn.append(":");
        dsn.append(or_default(self.pass, "isucari").as_str());
        dsn.append("@");
        dsn.append(or_default(self.host, "127.0.0.1").as_str());
        dsn.append(":");
        dsn.append(or_default(self.port, "3306").as_str());
        dsn.append("/");
        dsn.append(or_default(self.dbname, "isucari").as_str());
        dsn
    }
}

} // verus!
