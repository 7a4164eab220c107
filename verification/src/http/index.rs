//! The per-index handle and its host resolver.
//!
//! Control-plane calls on an index (describe, delete, configure) go to the
//! stable controller endpoint. Data-plane calls (upsert, update, query,
//! fetch, stats) need the host the service assigned to the index, which is
//! only learned from a describe call. The handle starts unresolved, plans a
//! describe on the first data-plane operation, caches the description that
//! comes back, and answers every later operation from that cache until a
//! fresh describe overwrites it. A failed describe changes nothing.

use vstd::prelude::*;
use vstd::string::*;

use crate::error::Error;
use crate::http::models::fetch_url_spec;
use crate::http::models::ClientInfo;
use crate::http::models::ConfigureIndexRequest;
use crate::http::models::FetchRequest;
use crate::http::models::IndexDescription;
use crate::http::models::IndexStats;
use crate::http::must_plan;
use crate::http::path_segment;
use crate::http::pinecone_request;
use crate::http::plan_well_formed;
use crate::http::AcceptType;
use crate::http::Connection;
use crate::http::Credentials;
use crate::http::Method;
use crate::http::Payload;
use crate::http::RequestPlan;

verus! {

/// A handle on one index. It holds everything a request against the index
/// needs — the index name, the credentials, the account information — plus
/// the two caches: the last description applied (which carries the resolved
/// host) and the last stats applied.
#[derive(Debug)]
pub struct Index {
    /// Name of the index.
    pub name: String,
    /// Credentials, copied from the handle the index was created by.
    pub creds: Credentials,
    /// Account information, copied from the account handle.
    pub client_info: ClientInfo,
    /// The cached description: `None` until a describe response is applied.
    pub description: Option<IndexDescription>,
    /// The cached stats: `None` until a stats response is applied.
    pub stats: Option<IndexStats>,
}

impl Connection for Index {
    open spec fn credentials_spec(&self) -> Credentials {
        self.creds
    }

    fn credentials(&self) -> (c: &Credentials) {
        &self.creds
    }
}

/// Whether a cached-or-fetch describe on this handle must go to the network:
/// exactly when no description is cached.
pub open spec fn plans_fetch(idx: Index) -> bool {
    idx.description is None
}

/// The resolved data-plane base of a handle: the scheme plus the host its
/// cached description carries. `None` while the handle is unresolved, and
/// also when the cached description reports no host (an index still
/// provisioning).
pub open spec fn data_base(idx: Index) -> Option<Seq<char>> {
    match idx.description {
        Some(d) => match d.status.host {
            Some(h) => Some("https://"@ + h@),
            None => None,
        },
        None => None,
    }
}

/// The handle after a describe outcome is applied: a success overwrites the
/// cached description and touches nothing else; a failure changes nothing.
pub open spec fn apply_describe_spec(idx: Index, r: Result<IndexDescription, Error>) -> Index {
    match r {
        Ok(d) => Index { description: Some(d), ..idx },
        Err(_) => idx,
    }
}

/// One data-plane operation. The bodies of the vector-carrying operations
/// are opaque to this layer and travel as the JSON text the caller encoded.
#[derive(Debug, Clone, PartialEq)]
pub enum DataOp {
    /// Upload vectors; the body is the encoded upsert request.
    Upsert {
        /// JSON-encoded body of the upsert.
        body: String,
    },
    /// Update one vector; the body is the encoded update request.
    Update {
        /// JSON-encoded body of the update.
        body: String,
    },
    /// Search with a query vector; the body is the encoded query request.
    Query {
        /// JSON-encoded body of the query.
        body: String,
    },
    /// Look vectors up by id; the ids and namespace travel in the URL.
    Fetch {
        /// The ids and namespace to fetch.
        request: FetchRequest,
    },
    /// Read the index's stats.
    DescribeStats,
}

/// The verb of each data-plane operation.
pub open spec fn op_method_spec(op: DataOp) -> Method {
    match op {
        DataOp::Upsert { .. } => Method::Post,
        DataOp::Update { .. } => Method::Post,
        DataOp::Query { .. } => Method::Post,
        DataOp::Fetch { .. } => Method::Get,
        DataOp::DescribeStats => Method::Get,
    }
}

/// The full URL of each data-plane operation against a resolved base.
pub open spec fn op_url_spec(op: DataOp, base: Seq<char>) -> Seq<char> {
    match op {
        DataOp::Upsert { .. } => base + "/vectors/upsert"@,
        DataOp::Update { .. } => base + "/vectors/update"@,
        DataOp::Query { .. } => base + "/query"@,
        DataOp::Fetch { request } => fetch_url_spec(base, request.ids@, request.namespace),
        DataOp::DescribeStats => base + "/describe_index_stats"@,
    }
}

/// The body each data-plane operation attaches: the encoded payload for the
/// POST operations, none for the GET operations.
pub open spec fn op_body_spec(op: DataOp) -> Option<Payload> {
    match op {
        DataOp::Upsert { body } => Some(Payload::Raw(body)),
        DataOp::Update { body } => Some(Payload::Raw(body)),
        DataOp::Query { body } => Some(Payload::Raw(body)),
        DataOp::Fetch { .. } => None,
        DataOp::DescribeStats => None,
    }
}

/// The request envelope of a data-plane operation: its verb and URL, the
/// handle's API key, JSON encoding, success on status 200, and its body.
pub open spec fn data_plan_well_formed(
    plan: RequestPlan,
    idx: Index,
    op: DataOp,
    base: Seq<char>,
) -> bool {
    &&& plan.method == op_method_spec(op)
    &&& plan.url@ == op_url_spec(op, base)
    &&& plan.api_key@ == idx.creds.api_key@
    &&& plan.accept == AcceptType::Json
    &&& plan.content_type@ == "application/json"@
    &&& plan.success_code == 200
    &&& plan.body == op_body_spec(op)
}

/// The envelope of the controller-scoped describe of an index.
pub open spec fn describe_plan_well_formed(plan: RequestPlan, idx: Index) -> bool {
    plan_well_formed(
        plan,
        idx.creds,
        Method::Get,
        AcceptType::Json,
        200,
        None,
        "/databases/"@ + idx.name@,
        None,
    )
}

/// The answer of a cached-or-fetch describe: either the cache holds the
/// description already, or the describe plan to run.
#[derive(Debug)]
pub enum DescribeStep {
    /// A description is cached; no network call is needed. Read it with
    /// [`Index::description`].
    Cached,
    /// No description is cached: the describe request to issue. Apply its
    /// outcome with [`Index::apply_describe_response`].
    Fetch(RequestPlan),
}

/// The first step of a data-plane operation.
#[derive(Debug)]
pub enum DataPlaneStep {
    /// The host is resolved: the operation's request, ready to send.
    Send(RequestPlan),
    /// The handle is unresolved: the describe to issue first. Resume with
    /// [`Index::data_plane_resume`].
    NeedDescribe(RequestPlan),
}

/// What the first step of a data-plane operation must be, for every handle
/// state: the describe plan on an unresolved handle, the operation's own
/// request once a host is resolved, and the URL-unavailable failure when a
/// description is cached but carries no host.
pub open spec fn data_plane_step_spec(idx: Index, op: DataOp, r: Result<
    DataPlaneStep,
    Error,
>) -> bool {
    &&& plans_fetch(idx) ==> (r matches Ok(step) && step matches DataPlaneStep::NeedDescribe(plan)
        && describe_plan_well_formed(plan, idx))
    &&& (data_base(idx) matches Some(b) ==> (r matches Ok(step) && step
        matches DataPlaneStep::Send(plan) && data_plan_well_formed(plan, idx, op, b)))
    &&& !plans_fetch(idx) && data_base(idx) is None ==> r == Err::<DataPlaneStep, Error>(
        Error::URLNotAvailable,
    )
}

impl Index {
    /// A fresh, unresolved handle on the named index, carrying the creating
    /// handle's credentials and account information.
    pub(crate) fn new<C: Connection>(con: &C, name: String, client_info: &ClientInfo) -> (idx:
        Index)
        ensures
            idx.name == name,
            idx.creds == con.credentials_spec(),
            idx.client_info == *client_info,
            idx.description is None,
            idx.stats is None,
    {
        Index {
            name,
            creds: con.credentials().clone(),
            client_info: client_info.clone(),
            description: None,
            stats: None,
        }
    }

    /// Plans a fresh, controller-scoped describe of this index. Every plan
    /// returned stands for one network call, so an explicit describe always
    /// goes to the network; its outcome is applied with
    /// [`Index::apply_describe_response`], which overwrites whatever was
    /// cached.
    pub fn describe(&self) -> (plan: RequestPlan)
        ensures
            describe_plan_well_formed(plan, *self),
    {
        let path = path_segment("/databases/", self.name.as_str());
        must_plan(
            pinecone_request(self, Method::Get, AcceptType::Json, 200, None, path.as_str(), None),
        )
    }

    /// Applies the outcome of a describe call: a success overwrites the
    /// cached description — whether or not one was cached before — and a
    /// failure leaves the handle exactly as it was and hands the failure
    /// back unchanged.
    pub fn apply_describe_response(&mut self, r: Result<IndexDescription, Error>) -> (res: Result<
        (),
        Error,
    >)
        ensures
            *final(self) == apply_describe_spec(*old(self), r),
            r is Ok ==> res == Ok::<(), Error>(()),
            r matches Err(e) ==> res == Err::<(), Error>(e),
    {
        match r {
            Ok(d) => {
                self.description = Some(d);
                Ok(())
            },
            Err(e) => Err(e),
        }
    }

    /// The cached description, if one has been applied.
    pub fn description(&self) -> (r: Option<&IndexDescription>)
        ensures
            r is Some <==> self.description is Some,
            r matches Some(d) ==> self.description == Some(*d),
    {
        self.description.as_ref()
    }

    /// Cached-or-fetch describe: answers from the cache when a description
    /// is already held, and otherwise hands out the describe plan to run —
    /// so a resolved handle never plans a network call here.
    pub fn cached_then_normal_describe(&self) -> (step: DescribeStep)
        ensures
            !plans_fetch(*self) ==> step is Cached,
            plans_fetch(*self) ==> (step matches DescribeStep::Fetch(plan)
                && describe_plan_well_formed(plan, *self)),
    {
        if self.description.is_some() {
            DescribeStep::Cached
        } else {
            DescribeStep::Fetch(self.describe())
        }
    }

    /// The resolved data-plane base of the handle: scheme and host, read
    /// from the cached description. `None` while the handle is unresolved or
    /// while the description reports no host.
    pub fn url(&self) -> (r: Option<String>)
        ensures
            data_base(*self) matches Some(b) ==> (r matches Some(u) && u@ == b),
            data_base(*self) is None ==> r is None,
    {
        match &self.description {
            Some(d) => match &d.status.host {
                Some(h) => {
                    let mut u = String::from_str("https://");
                    u.append(h.as_str());
                    Some(u)
                },
                None => None,
            },
            None => None,
        }
    }

    /// Plans one data-plane operation against the resolved host, and fails
    /// with the URL-unavailable condition — before any request is planned —
    /// when no host is resolved.
    pub fn data_plane_request(&self, op: DataOp) -> (r: Result<RequestPlan, Error>)
        ensures
            data_base(*self) matches Some(b) ==> (r matches Ok(plan) && data_plan_well_formed(
                plan,
                *self,
                op,
                b,
            )),
            data_base(*self) is None ==> r == Err::<RequestPlan, Error>(Error::URLNotAvailable),
    {
        let base = match self.url() {
            Some(u) => u,
            None => {
                return Err(Error::URLNotAvailable);
            },
        };
        match op {
            DataOp::Upsert { body } => Ok(
                must_plan(
                    pinecone_request(
                        self,
                        Method::Post,
                        AcceptType::Json,
                        200,
                        Some(base),
                        "/vectors/upsert",
                        Some(Payload::Raw(body)),
                    ),
                ),
            ),
            DataOp::Update { body } => Ok(
                must_plan(
                    pinecone_request(
                        self,
                        Method::Post,
                        AcceptType::Json,
                        200,
                        Some(base),
                        "/vectors/update",
                        Some(Payload::Raw(body)),
                    ),
                ),
            ),
            DataOp::Query { body } => Ok(
                must_plan(
                    pinecone_request(
                        self,
                        Method::Post,
                        AcceptType::Json,
                        200,
                        Some(base),
                        "/query",
                        Some(Payload::Raw(body)),
                    ),
                ),
            ),
            DataOp::Fetch { request } => {
                let full = request.url(base);
                proof {
                    reveal_strlit("");
                }
                Ok(
                    must_plan(
                        pinecone_request(
                            self,
                            Method::Get,
                            AcceptType::Json,
                            200,
                            Some(full),
                            "",
                            None,
                        ),
                    ),
                )
            },
            DataOp::DescribeStats => Ok(
                must_plan(
                    pinecone_request(
                        self,
                        Method::Get,
                        AcceptType::Json,
                        200,
                        Some(base),
                        "/describe_index_stats",
                        None,
                    ),
                ),
            ),
        }
    }

    /// The first step of a data-plane operation: the operation's own request
    /// when the host is resolved, the describe plan when the handle is
    /// unresolved (resume with [`Index::data_plane_resume`]), and the
    /// URL-unavailable failure when the cached description carries no host.
    pub fn data_plane_step(&self, op: DataOp) -> (r: Result<DataPlaneStep, Error>)
        ensures
            data_plane_step_spec(*self, op, r),
    {
        match self.cached_then_normal_describe() {
            DescribeStep::Fetch(plan) => Ok(DataPlaneStep::NeedDescribe(plan)),
            DescribeStep::Cached => match self.data_plane_request(op) {
                Ok(plan) => Ok(DataPlaneStep::Send(plan)),
                Err(e) => Err(e),
            },
        }
    }

    /// Applies the describe outcome that a [`DataPlaneStep::NeedDescribe`]
    /// asked for, then finishes planning the operation. A failed describe
    /// leaves the handle exactly as it was — an unresolved handle stays
    /// unresolved — and the call fails with the describe's own failure, not
    /// with the URL-unavailable condition. A successful describe is cached,
    /// and the operation is planned against precisely the host it returned,
    /// or fails as URL-unavailable when it returned none.
    pub fn data_plane_resume(
        &mut self,
        describe_result: Result<IndexDescription, Error>,
        op: DataOp,
    ) -> (r: Result<RequestPlan, Error>)
        ensures
            *final(self) == apply_describe_spec(*old(self), describe_result),
            describe_result matches Err(e) ==> r == Err::<RequestPlan, Error>(e),
            describe_result is Ok ==> (match data_base(*final(self)) {
                Some(b) => r matches Ok(plan) && data_plan_well_formed(plan, *final(self), op, b),
                None => r == Err::<RequestPlan, Error>(Error::URLNotAvailable),
            }),
    {
        match self.apply_describe_response(describe_result) {
            Ok(()) => self.data_plane_request(op),
            Err(e) => Err(e),
        }
    }

    /// Upsert: uploads vectors. Takes the JSON-encoded upsert request (the
    /// namespace and the vectors); the payload is opaque to this layer.
    pub fn upsert(&self, vectors: String) -> (r: Result<DataPlaneStep, Error>)
        ensures
            data_plane_step_spec(*self, DataOp::Upsert { body: vectors }, r),
    {
        self.data_plane_step(DataOp::Upsert { body: vectors })
    }

    /// Update: rewrites one vector. Takes the JSON-encoded update request.
    pub fn update(&self, request: String) -> (r: Result<DataPlaneStep, Error>)
        ensures
            data_plane_step_spec(*self, DataOp::Update { body: request }, r),
    {
        self.data_plane_step(DataOp::Update { body: request })
    }

    /// Query: searches a namespace with a query vector. Takes the
    /// JSON-encoded query request.
    pub fn query(&self, request: String) -> (r: Result<DataPlaneStep, Error>)
        ensures
            data_plane_step_spec(*self, DataOp::Query { body: request }, r),
    {
        self.data_plane_step(DataOp::Query { body: request })
    }

    /// Fetch: looks vectors up by id; the ids and namespace travel in the
    /// URL's query string.
    pub fn fetch(&self, request: FetchRequest) -> (r: Result<DataPlaneStep, Error>)
        ensures
            data_plane_step_spec(*self, DataOp::Fetch { request }, r),
    {
        self.data_plane_step(DataOp::Fetch { request })
    }

    /// Plans a read of the index's stats; its outcome is applied with
    /// [`Index::apply_stats_response`].
    pub fn describe_stats(&self) -> (r: Result<DataPlaneStep, Error>)
        ensures
            data_plane_step_spec(*self, DataOp::DescribeStats, r),
    {
        self.data_plane_step(DataOp::DescribeStats)
    }

    /// Applies the outcome of a stats call: a success overwrites the cached
    /// stats and touches nothing else; a failure leaves the handle exactly
    /// as it was and hands the failure back.
    pub fn apply_stats_response(&mut self, r: Result<IndexStats, Error>) -> (res: Result<
        (),
        Error,
    >)
        ensures
            r matches Ok(s) ==> *final(self) == (Index { stats: Some(s), ..*old(self) }) && res
                == Ok::<(), Error>(()),
            r matches Err(e) ==> *final(self) == *old(self) && res == Err::<(), Error>(e),
    {
        match r {
            Ok(s) => {
                self.stats = Some(s);
                Ok(())
            },
            Err(e) => Err(e),
        }
    }

    /// The cached stats, if a stats response has been applied.
    pub fn stats(&self) -> (r: Option<&IndexStats>)
        ensures
            r is Some <==> self.stats is Some,
            r matches Some(s) ==> self.stats == Some(*s),
    {
        self.stats.as_ref()
    }

    /// Plans the deletion of this index: controller-scoped, confirmed by a
    /// plain-text message on status 202.
    pub fn delete(self) -> (plan: RequestPlan)
        ensures
            plan_well_formed(
                plan,
                self.creds,
                Method::Delete,
                AcceptType::Text,
                202,
                None,
                "/databases/"@ + self.name@,
                None,
            ),
    {
        let path = path_segment("/databases/", self.name.as_str());
        must_plan(
            pinecone_request(&self, Method::Delete, AcceptType::Text, 202, None, path.as_str(), None),
        )
    }

    /// Plans a configuration change of this index (replicas and pod type):
    /// controller-scoped, confirmed by a plain-text message on status 202.
    pub fn configure(&self, replicas: usize, pod_type: String) -> (plan: RequestPlan)
        ensures
            plan_well_formed(
                plan,
                self.creds,
                Method::Patch,
                AcceptType::Text,
                202,
                None,
                "/databases/"@ + self.name@,
                Some(Payload::ConfigureIndex((ConfigureIndexRequest { replicas, pod_type }))),
            ),
    {
        let p = ConfigureIndexRequest { replicas, pod_type };
        let path = path_segment("/databases/", self.name.as_str());
        must_plan(
            pinecone_request(
                self,
                Method::Patch,
                AcceptType::Text,
                202,
                None,
                path.as_str(),
                Some(Payload::ConfigureIndex(p)),
            ),
        )
    }
}

/// Cached-or-fetch describe issues at most one network call. On an
/// unresolved handle the first call must fetch; once its outcome is applied,
/// the handle is resolved and holds exactly the description that was
/// applied, so a second cached-or-fetch describe fetches nothing and answers
/// from the cache.
pub proof fn lemma_cached_describe_fetches_once(idx: Index, d: IndexDescription)
    requires
        plans_fetch(idx),
    ensures
        !plans_fetch(apply_describe_spec(idx, Ok(d))),
        apply_describe_spec(idx, Ok(d)).description == Some(d),
{
}

/// An applied describe success overwrites whatever description was cached
/// before — even on an already resolved handle — and touches nothing else.
pub proof fn lemma_explicit_describe_overwrites(idx: Index, d: IndexDescription)
    ensures
        apply_describe_spec(idx, Ok(d)).description == Some(d),
        apply_describe_spec(idx, Ok(d)).name == idx.name,
        apply_describe_spec(idx, Ok(d)).creds == idx.creds,
        apply_describe_spec(idx, Ok(d)).client_info == idx.client_info,
        apply_describe_spec(idx, Ok(d)).stats == idx.stats,
{
}

/// A data-plane call on an unresolved handle performs exactly one implicit
/// describe: the handle plans a fetch before the call, and once a
/// description carrying a host is applied the handle is resolved — no
/// further describe is planned — and its data-plane base is precisely the
/// host that describe returned.
pub proof fn lemma_implicit_describe_resolves_base(idx: Index, d: IndexDescription, h: String)
    requires
        plans_fetch(idx),
        d.status.host == Some(h),
    ensures
        !plans_fetch(apply_describe_spec(idx, Ok(d))),
        data_base(apply_describe_spec(idx, Ok(d))) == Some("https://"@ + h@),
{
}

/// A failed describe mutates nothing: the handle after the failure is
/// applied is the handle as it was — an unresolved handle stays unresolved —
/// whatever the failure was.
pub proof fn lemma_failed_describe_preserves_handle(idx: Index, e: Error)
    ensures
        apply_describe_spec(idx, Err(e)) == idx,
{
}

} // verus!
