//! The witness client's configuration: the endpoints a client talks to,
//! and the construction-time rule that makes an unusable client
//! unrepresentable. The HTTP calls themselves live outside the library.

use vstd::prelude::*;
use vstd::string::StringExecFns;

verus! {

/// `url::Url` carried opaquely: the library holds endpoint URLs but
/// never looks inside them.
#[verifier::external_type_specification]
#[verifier::external_body]
pub struct ExUrl(url::Url);

/// Failures of the client, tagged with the operation that produced them.
#[derive(Debug)]
pub enum ClientError {
    /// The client has no reachable credential endpoint.
    Config(String),
    /// The jwt witness operation failed.
    JWT(String),
    /// The statement operation failed.
    Statement(String),
    /// The ld witness operation failed.
    Ld(String),
}

/// The witness service's endpoints: the statement endpoint is mandatory,
/// and at least one of the credential endpoints must be present for a
/// client to be constructible.
pub struct Endpoints {
    pub jwt: Option<url::Url>,
    pub ld: Option<url::Url>,
    pub statement: url::Url,
}

/// A configured witness client. Values exist only through [`Client::new`],
/// so every client has at least one credential endpoint.
pub struct Client {
    pub endpoints: Endpoints,
}

impl Client {
    /// Builds a client; fails with a configuration error exactly when
    /// neither the jwt nor the ld endpoint is set.
    pub fn new(endpoints: Endpoints) -> (r: Result<Client, ClientError>)
        ensures
            r is Ok <==> (endpoints.jwt is Some || endpoints.ld is Some),
            r matches Ok(c) ==> c.endpoints == endpoints,
            r matches Err(e) ==> e is Config,
    {
        if endpoints.jwt.is_none() && endpoints.ld.is_none() {
            return Err(ClientError::Config(String::from_str("No witness url found")));
        }
        Ok(Client { endpoints })
    }

    /// The statement endpoint; always present.
    pub fn statement_endpoint(&self) -> (r: &url::Url)
        ensures
            *r == self.endpoints.statement,
    {
        &self.endpoints.statement
    }

    /// The jwt endpoint, or the typed jwt error when it was never
    /// configured — in which case the operation must fail without
    /// issuing a request.
    pub fn jwt_endpoint(&self) -> (r: Result<&url::Url, ClientError>)
        ensures
            r is Ok <==> self.endpoints.jwt is Some,
            r matches Ok(u) ==> self.endpoints.jwt == Some(*u),
            r matches Err(e) ==> e is JWT,
    {
        match &self.endpoints.jwt {
            Some(u) => Ok(u),
            None => Err(ClientError::JWT(String::from_str("No configured JWT endpoint"))),
        }
    }

    /// The ld endpoint, or the typed ld error when it was never
    /// configured — in which case the operation must fail without
    /// issuing a request.
    pub fn ld_endpoint(&self) -> (r: Result<&url::Url, ClientError>)
        ensures
            r is Ok <==> self.endpoints.ld is Some,
            r matches Ok(u) ==> self.endpoints.ld == Some(*u),
            r matches Err(e) ==> e is Ld,
    {
        match &self.endpoints.ld {
            Some(u) => Ok(u),
            None => Err(ClientError::Ld(String::from_str("No configured LD endpoint"))),
        }
    }
}

} // verus!
