//! The connection manager and the holder that may be without one.

use std::sync::Arc;
use vstd::prelude::*;

verus! {

/// The HTTP client of the `clickhouse` crate, carried as an opaque handle.
#[verifier::external_type_specification]
#[verifier::external_body]
pub struct ExClient(clickhouse::Client);

/// A live connection to the store: a client bound to an endpoint, whose
/// liveness probe succeeded, and the database it selected. It is shared
/// behind an `Arc` by every service.
pub struct ClickHouseClient {
    client: clickhouse::Client,
    database: String,
}

impl ClickHouseClient {
    /// Name of the selected database.
    pub closed spec fn database_name(&self) -> Seq<char> {
        self.database@
    }

    /// Wraps a client that passed its liveness probe.
    pub fn new(client: clickhouse::Client, database: String) -> (r: Self)
        ensures
            r.database_name() == database@,
    {
        ClickHouseClient { client, database }
    }

    /// The underlying client.
    pub fn inner(&self) -> &clickhouse::Client {
        &self.client
    }

    /// Name of the selected database.
    pub fn database(&self) -> (r: &str)
        ensures
            r@ == self.database_name(),
    {
        self.database.as_str()
    }
}

/// The degradable client holder: connected, or offline for the lifetime of
/// the process. All read paths fall back to fixed data when offline.
#[derive(Clone)]
pub enum ClientHolder {
    Connected(Arc<ClickHouseClient>),
    Offline,
}

impl ClientHolder {
    /// The holder for an optional connection.
    pub open spec fn of_slot(slot: Option<Arc<ClickHouseClient>>) -> ClientHolder {
        match slot {
            Some(c) => ClientHolder::Connected(c),
            None => ClientHolder::Offline,
        }
    }

    /// Holds the connection if there is one.
    pub fn from_slot(slot: Option<Arc<ClickHouseClient>>) -> (r: Self)
        ensures
            r == Self::of_slot(slot),
    {
        match slot {
            Some(c) => ClientHolder::Connected(c),
            None => ClientHolder::Offline,
        }
    }

    /// The state decided at startup from the connection attempt: connected
    /// on success, offline on any failure. Startup never aborts on it.
    pub fn from_connect_result<E>(attempt: Result<ClickHouseClient, E>) -> (r: Self)
        ensures
            r is Connected <==> attempt is Ok,
            attempt matches Ok(c) ==> r matches ClientHolder::Connected(held) && *held == c,
    {
        match attempt {
            Ok(c) => ClientHolder::Connected(Arc::new(c)),
            Err(_) => ClientHolder::Offline,
        }
    }

    /// The connection, if one is held.
    pub fn slot(&self) -> (r: Option<Arc<ClickHouseClient>>)
        ensures
            r is Some <==> self is Connected,
    {
        match self {
            ClientHolder::Connected(c) => Some(c.clone()),
            ClientHolder::Offline => None,
        }
    }

    /// Whether a connection is held.
    pub fn is_connected(&self) -> (r: bool)
        ensures
            r == (self is Connected),
    {
        match self {
            ClientHolder::Connected(_) => true,
            ClientHolder::Offline => false,
        }
    }

    /// Runs `f` on the connection and returns its result, or returns `None`
    /// when offline, which tells the caller to fall back.
    pub fn with_client<T, F: Fn(&ClickHouseClient) -> T>(&self, f: F) -> (r: Option<T>)
        requires
            self matches ClientHolder::Connected(c) ==> f.requires((&*c,)),
        ensures
            self is Offline ==> r is None,
            self matches ClientHolder::Connected(c) ==> r matches Some(v) && f.ensures((&*c,), v),
    {
        match self {
            ClientHolder::Connected(c) => Some(f(&**c)),
            ClientHolder::Offline => None,
        }
    }
}

} // verus!
