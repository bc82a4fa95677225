use vstd::prelude::*;

use clickhouse::Client;

verus! {

#[verifier::external_type_specification]
#[verifier::external_body]
pub struct ExClient(Client);

/// The HTTP endpoint a client is aimed at.
pub uninterp spec fn client_url(c: Client) -> Seq<char>;

/// The database a client names, if any.
pub uninterp spec fn client_database(c: Client) -> Option<Seq<char>>;

/// The user a client authenticates as, if any.
pub uninterp spec fn client_user(c: Client) -> Option<Seq<char>>;

/// The password a client authenticates with, if any.
pub uninterp spec fn client_password(c: Client) -> Option<Seq<char>>;

/// Specifies `Client::clone` (derived by the crate): another handle with the
/// same endpoint, database, user and password. Nothing else about the copy
/// is stated.
pub assume_specification[ <Client as Clone>::clone ](client: &Client) -> (r: Client)
    ensures
        client_url(r) == client_url(*client),
        client_database(r) == client_database(*client),
        client_user(r) == client_user(*client),
        client_password(r) == client_password(*client),
;

/// Calls `Client::default`: a client with an empty endpoint and no
/// database, user or password. Nothing else about the client is stated.
#[verifier::external_body]
fn client_default() -> (r: Client)
    ensures
        client_url(r) == Seq::<char>::empty(),
        client_database(r).is_none(),
        client_user(r).is_none(),
        client_password(r).is_none(),
{
    Client::default()
}

/// Calls `Client::with_url`: the client with its endpoint set to `url` and
/// its database, user and password unchanged.
#[verifier::external_body]
fn client_with_url(client: Client, url: &str) -> (r: Client)
    ensures
        client_url(r) == url@,
        client_database(r) == client_database(client),
        client_user(r) == client_user(client),
        client_password(r) == client_password(client),
{
    client.with_url(url)
}

/// Calls `Client::with_database`: the client with its database set to
/// `database` and its endpoint, user and password unchanged.
#[verifier::external_body]
fn client_with_database(client: Client, database: &str) -> (r: Client)
    ensures
        client_url(r) == client_url(client),
        client_database(r) == Some(database@),
        client_user(r) == client_user(client),
        client_password(r) == client_password(client),
{
    client.with_database(database)
}

/// Calls `Client::with_user`: the client with its user set to `user` and
/// its endpoint, database and password unchanged.
#[verifier::external_body]
fn client_with_user(client: Client, user: &str) -> (r: Client)
    ensures
        client_url(r) == client_url(client),
        client_database(r) == client_database(client),
        client_user(r) == Some(user@),
        client_password(r) == client_password(client),
{
    client.with_user(user)
}

/// Calls `Client::with_password`: the client with its password set to
/// `password` and its endpoint, database and user unchanged.
#[verifier::external_body]
fn client_with_password(client: Client, password: &str) -> (r: Client)
    ensures
        client_url(r) == client_url(client),
        client_database(r) == client_database(client),
        client_user(r) == client_user(client),
        client_password(r) == Some(password@),
{
    client.with_password(password)
}

/// The analytics store: a configured client and the database it writes to.
#[derive(Clone)]
pub struct ClickHouseStore {
    client: Client,
    database: String,
}

impl ClickHouseStore {
    /// The database the store writes to.
    pub closed spec fn database_name(&self) -> Seq<char> {
        self.database@
    }

    /// The client the store was configured with.
    pub closed spec fn configured_client(&self) -> Client {
        self.client
    }

    /// A store reaching the server at `url`, writing to `database` as `user`.
    pub fn new(url: &str, database: &str, user: &str, password: &str) -> (s: Self)
        ensures
            s.database_name() == database@,
            client_url(s.configured_client()) == url@,
            client_database(s.configured_client()) == Some(database@),
            client_user(s.configured_client()) == Some(user@),
            client_password(s.configured_client()) == Some(password@),
    {
        let client = client_with_password(
            client_with_user(client_with_database(client_with_url(client_default(), url), database), user),
            password,
        );
        ClickHouseStore { client, database: String::from_str(database) }
    }

    /// The configured client, for issuing queries and inserts.
    pub fn client(&self) -> (c: &Client)
        ensures
            *c == self.configured_client(),
    {
        &self.client
    }
}

} // verus!
