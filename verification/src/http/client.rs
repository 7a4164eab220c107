//! The account-level handle: the first thing a caller builds. All its
//! operations are controller-scoped; per-index handles are derived from it
//! with [`Client::index`].

use vstd::prelude::*;
use vstd::string::*;

use crate::error::Error;
use crate::http::models::ClientInfo;
use crate::http::models::CreateCollectionRequest;
use crate::http::models::IndexCreateRequest;
use crate::http::must_plan;
use crate::http::path_segment;
use crate::http::pinecone_request;
use crate::http::plan_well_formed;
use crate::http::AcceptType;
use crate::http::Connection;
use crate::http::Credentials;
use crate::http::Index;
use crate::http::Method;
use crate::http::Payload;
use crate::http::RequestPlan;

verus! {

/// A handle to talk with Pinecone under one account. It is created
/// unvalidated, together with the whoami request that validates it; the
/// account information that request returns is applied with
/// [`Client::apply_info_response`] and is copied into every index handle
/// derived afterwards.
#[derive(Debug)]
pub struct Client {
    /// The credentials every request of this handle carries.
    pub creds: Credentials,
    /// The account information returned by the validation call; empty until
    /// one is applied.
    pub info: ClientInfo,
}

impl Connection for Client {
    open spec fn credentials_spec(&self) -> Credentials {
        self.creds
    }

    fn credentials(&self) -> (c: &Credentials) {
        &self.creds
    }
}

impl Client {
    /// A fresh handle for the given credentials, paired with the plan of the
    /// whoami call that validates them. The handle's account information is
    /// empty until the whoami outcome is applied.
    pub fn new(api_key: String, environment: String) -> (r: (Client, RequestPlan))
        ensures
            r.0.creds == (Credentials { api_key, environment }),
            r.0.info.project_name@ == Seq::<char>::empty(),
            r.0.info.user_label@ == Seq::<char>::empty(),
            r.0.info.user_name@ == Seq::<char>::empty(),
            plan_well_formed(
                r.1,
                r.0.creds,
                Method::Get,
                AcceptType::Json,
                200,
                None,
                "/actions/whoami"@,
                None,
            ),
    {
        let c = Client {
            creds: Credentials { api_key, environment },
            info: ClientInfo {
                project_name: String::new(),
                user_label: String::new(),
                user_name: String::new(),
            },
        };
        let plan = must_plan(
            pinecone_request(&c, Method::Get, AcceptType::Json, 200, None, "/actions/whoami", None),
        );
        (c, plan)
    }

    /// Applies the outcome of the whoami call: a success stores the account
    /// information and validates the handle; a failure leaves the handle
    /// exactly as it was and hands the failure back.
    pub fn apply_info_response(&mut self, r: Result<ClientInfo, Error>) -> (res: Result<
        (),
        Error,
    >)
        ensures
            r matches Ok(i) ==> *final(self) == (Client { info: i, ..*old(self) }) && res == Ok::<
                (),
                Error,
            >(()),
            r matches Err(e) ==> *final(self) == *old(self) && res == Err::<(), Error>(e),
    {
        match r {
            Ok(i) => {
                self.info = i;
                Ok(())
            },
            Err(e) => Err(e),
        }
    }

    /// The account information applied by the validation call.
    pub fn info(&self) -> (r: &ClientInfo)
        ensures
            *r == self.info,
    {
        &self.info
    }

    /// Plans the listing of all indexes of this account.
    pub fn list_indexes(&self) -> (plan: RequestPlan)
        ensures
            plan_well_formed(
                plan,
                self.creds,
                Method::Get,
                AcceptType::Json,
                200,
                None,
                "/databases"@,
                None,
            ),
    {
        must_plan(
            pinecone_request(self, Method::Get, AcceptType::Json, 200, None, "/databases", None),
        )
    }

    /// Plans the listing of all collections of this account.
    pub fn list_collections(&self) -> (plan: RequestPlan)
        ensures
            plan_well_formed(
                plan,
                self.creds,
                Method::Get,
                AcceptType::Json,
                200,
                None,
                "/collections"@,
                None,
            ),
    {
        must_plan(
            pinecone_request(self, Method::Get, AcceptType::Json, 200, None, "/collections", None),
        )
    }

    /// Plans the creation of a collection out of an existing index,
    /// confirmed by a plain-text message on status 201.
    pub fn create_collection(&self, name: String, source_index: String) -> (plan: RequestPlan)
        ensures
            plan_well_formed(
                plan,
                self.creds,
                Method::Post,
                AcceptType::Text,
                201,
                None,
                "/collections"@,
                Some(
                    Payload::CreateCollection(
                        (CreateCollectionRequest { name, source: source_index }),
                    ),
                ),
            ),
    {
        let request = CreateCollectionRequest { name, source: source_index };
        must_plan(
            pinecone_request(
                self,
                Method::Post,
                AcceptType::Text,
                201,
                None,
                "/collections",
                Some(Payload::CreateCollection(request)),
            ),
        )
    }

    /// Plans the describe of a collection; errors when the collection does
    /// not exist.
    pub fn describe_collection(&self, name: &str) -> (plan: RequestPlan)
        ensures
            plan_well_formed(
                plan,
                self.creds,
                Method::Get,
                AcceptType::Json,
                200,
                None,
                "/collections/"@ + name@,
                None,
            ),
    {
        let path = path_segment("/collections/", name);
        must_plan(
            pinecone_request(self, Method::Get, AcceptType::Json, 200, None, path.as_str(), None),
        )
    }

    /// Plans the deletion of a collection, confirmed by a plain-text message
    /// on status 202.
    pub fn delete_collection(&self, name: &str) -> (plan: RequestPlan)
        ensures
            plan_well_formed(
                plan,
                self.creds,
                Method::Delete,
                AcceptType::Text,
                202,
                None,
                "/collections/"@ + name@,
                None,
            ),
    {
        let path = path_segment("/collections/", name);
        must_plan(
            pinecone_request(self, Method::Delete, AcceptType::Text, 202, None, path.as_str(), None),
        )
    }

    /// Plans the creation of an index, confirmed by a plain-text message on
    /// status 201. The service replies with status 409 when the name already
    /// exists.
    pub fn create_index(&self, data: IndexCreateRequest) -> (plan: RequestPlan)
        ensures
            plan_well_formed(
                plan,
                self.creds,
                Method::Post,
                AcceptType::Text,
                201,
                None,
                "/databases"@,
                Some(Payload::CreateIndex(data)),
            ),
    {
        must_plan(
            pinecone_request(
                self,
                Method::Post,
                AcceptType::Text,
                201,
                None,
                "/databases",
                Some(Payload::CreateIndex(data)),
            ),
        )
    }

    /// Creates an unresolved handle on the named index, carrying this
    /// handle's credentials and account information. The index is not
    /// validated; a describe on the handle validates it.
    pub fn index(&self, name: String) -> (idx: Index)
        ensures
            idx.name == name,
            idx.creds == self.creds,
            idx.client_info == self.info,
            idx.description is None,
            idx.stats is None,
    {
        Index::new(self, name, &self.info)
    }
}

} // verus!
