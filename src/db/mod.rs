//! Access to the analytical store: the connection descriptor, the connection
//! manager and its degradable holder, and the row schema binder.

pub mod clickhouse;
pub mod listing;
pub mod models;
pub mod row;
pub mod statements;

use vstd::prelude::*;

verus! {

/// Connection descriptor: endpoint, optional credential pair, database name.
#[derive(Clone, Debug)]
pub struct DbConfig {
    /// Endpoint URL of the store.
    pub url: String,
    /// Logical database to select.
    pub database: String,
    /// User name; used only together with a password.
    pub username: Option<String>,
    /// Password; used only together with a user name.
    pub password: Option<String>,
}

impl DbConfig {
    /// Both halves of the credential pair are present.
    pub open spec fn has_credentials(&self) -> bool {
        self.username is Some && self.password is Some
    }

    /// The credential pair to authenticate with. A partial pair (only one of
    /// the two present) means no authentication, not an error.
    pub fn credentials(&self) -> (r: Option<(String, String)>)
        ensures
            r is Some <==> self.has_credentials(),
            r matches Some(p) ==> p.0@ == self.username->Some_0@ && p.1@ == self.password->Some_0@,
    {
        match (&self.username, &self.password) {
            (Some(u), Some(p)) => Some((u.clone(), p.clone())),
            _ => None,
        }
    }
}

impl Default for DbConfig {
    /// A local store on the default HTTP port, database `default`, without
    /// credentials.
    fn default() -> (r: Self)
        ensures
            r.url@ == "http://localhost:8123"@,
            r.database@ == "default"@,
            r.username is None,
            r.password is None,
    {
        DbConfig {
            url: "http://localhost:8123".to_string(),
            database: "default".to_string(),
            username: None,
            password: None,
        }
    }
}

/// How the liveness probe of a new connection failed.
#[derive(Clone, Copy, Debug, PartialEq, Eq, Structural)]
pub enum ProbeFailure {
    /// The endpoint could not be reached or the transport failed.
    Network,
    /// The probe did not complete in time.
    TimedOut,
    /// The store answered with an error: rejected credentials or an unknown
    /// database.
    Rejected,
    /// Any other failure of the client.
    Other,
}

/// Why a connection could not be established.
#[derive(Clone, Debug)]
pub enum ConnectError {
    /// Network or protocol failure.
    Unreachable(String),
    /// The store rejected the credentials or the named database.
    AuthOrSchema(String),
}

/// Leading text of a probe failure message.
pub const PROBE_FAILED: &'static str = "测试ClickHouse连接失败: ";

/// The checks suggested after a probe failure: URL, credentials, database
/// name, network.
pub const PROBE_HINTS: &'static str = "\n请检查: 1) URL是否正确 2) 用户名和密码是否正确 3) 数据库名称是否存在 4) 网络连接是否正常";

/// The message that reports a probe failure with `detail`.
pub open spec fn probe_message(detail: Seq<char>) -> Seq<char> {
    PROBE_FAILED@ + detail + PROBE_HINTS@
}

impl ConnectError {
    /// The message carried by the error.
    pub open spec fn message_of(&self) -> Seq<char> {
        match self {
            ConnectError::Unreachable(m) => m@,
            ConnectError::AuthOrSchema(m) => m@,
        }
    }

    /// Classifies a failed liveness probe: an answer of the store is a
    /// credential or schema problem, anything else leaves the store
    /// unreachable. The message names the failure and the checks to make.
    pub fn from_probe(kind: ProbeFailure, detail: &str) -> (r: ConnectError)
        ensures
            r is AuthOrSchema <==> kind == ProbeFailure::Rejected,
            r.message_of() == probe_message(detail@),
    {
        let mut msg = PROBE_FAILED.to_string();
        msg.append(detail);
        msg.append(PROBE_HINTS);
        match kind {
            ProbeFailure::Rejected => ConnectError::AuthOrSchema(msg),
            _ => ConnectError::Unreachable(msg),
        }
    }

    /// The message carried by the error.
    pub fn message(&self) -> (r: &String)
        ensures
            r@ == self.message_of(),
    {
        match self {
            ConnectError::Unreachable(m) => m,
            ConnectError::AuthOrSchema(m) => m,
        }
    }
}

} // verus!
