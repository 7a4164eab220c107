//! The data types sent to and received from Pinecone, as this layer reads
//! them. Values this layer never inspects (vector payloads, metadata, the
//! entries of an error's `details` list) are carried as raw JSON text or are
//! left to the unverified driver entirely.

use std::collections::HashMap;

use vstd::prelude::*;
use vstd::string::*;

verus! {

/// The distance metric used for similarity search.
#[derive(Debug, Clone, Copy, PartialEq, Eq, Structural)]
pub enum Metric {
    /// Euclidean distance.
    EUCLIDEAN,
    /// Cosine similarity.
    COSINE,
    /// Dot product similarity.
    DOTPRODUCT,
}

/// The lowercase name under which each metric travels on the wire.
pub open spec fn metric_name(m: Metric) -> Seq<char> {
    match m {
        Metric::EUCLIDEAN => "euclidean"@,
        Metric::COSINE => "cosine"@,
        Metric::DOTPRODUCT => "dotproduct"@,
    }
}

impl Metric {
    /// Renders the metric as its wire name.
    pub fn to_string(&self) -> (r: String)
        ensures
            r@ == metric_name(*self),
    {
        match self {
            Metric::EUCLIDEAN => String::from_str("euclidean"),
            Metric::COSINE => String::from_str("cosine"),
            Metric::DOTPRODUCT => String::from_str("dotproduct"),
        }
    }
}

/// Returned under the whoami request, detailing the client's account; used
/// for future requests as well as client validation.
#[derive(Debug, PartialEq)]
pub struct ClientInfo {
    /// Name of the client's project.
    pub project_name: String,
    /// Name of the client's user label.
    pub user_label: String,
    /// The client's username.
    pub user_name: String,
}

impl Clone for ClientInfo {
    /// A copy that the contracts know to be equal to the original.
    fn clone(&self) -> (res: Self)
        ensures
            res == *self,
    {
        ClientInfo {
            project_name: self.project_name.clone(),
            user_label: self.user_label.clone(),
            user_name: self.user_name.clone(),
        }
    }
}

/// Request sent to create a collection out of an existing index.
#[derive(Debug, Clone, PartialEq)]
pub struct CreateCollectionRequest {
    /// Name of the new collection.
    pub name: String,
    /// Name of the index the collection is made from.
    pub source: String,
}

/// The structured error body the service sends on most non-success statuses.
#[derive(Debug, Clone, PartialEq)]
pub struct PineconeErrorResponse {
    /// Error code.
    pub code: usize,
    /// Error message.
    pub message: String,
    /// Details for the error. The schema of each entry is left open by the
    /// service; each is carried as the raw JSON text of one entry.
    pub details: Vec<String>,
}

/// Request sent to Pinecone for the creation of an index.
#[derive(Debug, Clone, PartialEq)]
pub struct IndexCreateRequest {
    /// Index name.
    pub name: String,
    /// The dimension for the vectors stored within the index.
    pub dimension: usize,
    /// The metric for the index, one of the names listed in [`Metric`].
    pub metric: String,
}

/// Details about an individual namespace, found in [`IndexStats`].
#[derive(Debug, Clone, PartialEq)]
pub struct Namespace {
    /// The number of vectors in the namespace.
    pub vector_count: usize,
}

/// Request sent to change the settings of an index.
#[derive(Debug, Clone, PartialEq)]
pub struct ConfigureIndexRequest {
    /// The desired number of replicas for the index.
    pub replicas: usize,
    /// The new pod type for the index.
    pub pod_type: String,
}

/// The stats of an index; different information than [`IndexDescription`].
#[derive(Debug, Clone, PartialEq)]
pub struct IndexStats {
    /// The namespaces of the index, by name.
    pub namespaces: HashMap<String, Namespace>,
    /// Dimension of vectors within the index.
    pub dimension: usize,
    /// Index fullness.
    pub index_fullness: u32,
    /// Total number of vectors within the index.
    pub total_vector_count: u32,
}

/// Description of a collection.
#[derive(Debug, Clone, PartialEq)]
pub struct CollectionDescription {
    /// Collection name.
    pub name: String,
    /// Collection size.
    pub size: usize,
    /// Status of the collection.
    pub status: String,
}

/// Response from an upsert request sending data to an index.
#[derive(Debug, Clone, PartialEq)]
pub struct UpsertResponse {
    /// Number of vectors upserted.
    pub upserted_count: usize,
}

/// Full description of an index, as returned by a describe call.
#[derive(Debug, Clone, PartialEq)]
pub struct IndexDescription {
    /// Configuration of the index.
    pub database: IndexDatabaseDescription,
    /// Current status of the index, including its assigned host.
    pub status: IndexStatusDescription,
}

/// The configuration part of an index description.
#[derive(Debug, Clone, PartialEq)]
pub struct IndexDatabaseDescription {
    /// Index name.
    pub name: String,
    /// Vector dimension.
    pub dimension: usize,
    /// The similarity metric.
    pub metric: Metric,
    /// Number of replicas.
    pub replicas: usize,
    /// Number of shards.
    pub shards: usize,
    /// Number of pods.
    pub pods: usize,
    /// Pod type of the index.
    pub pod_type: String,
}

/// Configuration details of an index.
#[derive(Debug, Clone, PartialEq)]
pub struct DescribeIndexConfig {
    /// k bits.
    pub k_bits: usize,
    /// Hybrid.
    pub hybrid: bool,
}

/// The status part of an index description.
#[derive(Debug, Clone, PartialEq)]
pub struct IndexStatusDescription {
    /// Operations the index is waiting on, carried as raw JSON text.
    pub waiting: Vec<String>,
    /// Crash reports, carried as raw JSON text.
    pub crashed: Vec<String>,
    /// The host assigned to the index, once the service has assigned one. An
    /// index that is still provisioning reports no host.
    pub host: Option<String>,
    /// The port of the index.
    pub port: usize,
    /// The index's state.
    pub state: DescribeStatusState,
    /// Whether the index is ready.
    pub ready: bool,
}

/// Current status of an index. A newly created index starts out
/// initializing, and no data-plane operation can run on it until it is ready.
#[derive(Debug, Clone, Copy, PartialEq, Eq, Structural)]
pub enum DescribeStatusState {
    /// Initializing.
    Initializing,
    /// Scaling up.
    ScalingUp,
    /// Scaling down.
    ScalingDown,
    /// Terminating.
    Terminating,
    /// Ready.
    Ready,
    /// Initialization failed.
    InitializationFailed,
}

/// The name under which each index state travels on the wire.
pub open spec fn state_name(s: DescribeStatusState) -> Seq<char> {
    match s {
        DescribeStatusState::Initializing => "Initializing"@,
        DescribeStatusState::ScalingUp => "ScalingUp"@,
        DescribeStatusState::ScalingDown => "ScalingDown"@,
        DescribeStatusState::Terminating => "Terminating"@,
        DescribeStatusState::Ready => "Ready"@,
        DescribeStatusState::InitializationFailed => "InitializationFailed"@,
    }
}

impl DescribeStatusState {
    /// Renders the state as its wire name.
    pub fn to_string(&self) -> (r: String)
        ensures
            r@ == state_name(*self),
    {
        match self {
            DescribeStatusState::Initializing => String::from_str("Initializing"),
            DescribeStatusState::ScalingUp => String::from_str("ScalingUp"),
            DescribeStatusState::ScalingDown => String::from_str("ScalingDown"),
            DescribeStatusState::Terminating => String::from_str("Terminating"),
            DescribeStatusState::Ready => String::from_str("Ready"),
            DescribeStatusState::InitializationFailed => String::from_str("InitializationFailed"),
        }
    }
}

/// Parameters of an operation that looks up vectors by id.
#[derive(Debug, Clone, PartialEq)]
pub struct FetchRequest {
    /// Ids to look up, in the order they are to appear in the query string.
    pub ids: Vec<String>,
    /// Namespace to look the vectors up in.
    pub namespace: Option<String>,
}

/// The query fragment carrying a sequence of ids: one `ids=<id>&` for each
/// id, in order, duplicates kept.
pub open spec fn ids_query(ids: Seq<String>) -> Seq<char>
    decreases ids.len(),
{
    if ids.len() == 0 {
        Seq::<char>::empty()
    } else {
        ids_query(ids.drop_last()) + "ids="@ + ids.last()@ + "&"@
    }
}

/// The full fetch URL for a base, a sequence of ids and an optional
/// namespace: the ids fragment, then `namespace=<ns>` when a namespace is
/// given, otherwise the trailing separator (the `&` of the last id, or the
/// `?` itself when there are no ids) is removed.
pub open spec fn fetch_url_spec(base: Seq<char>, ids: Seq<String>, namespace: Option<String>) -> Seq<char> {
    let q = base + "/vectors/fetch?"@ + ids_query(ids);
    match namespace {
        Some(ns) => q + "namespace="@ + ns@,
        None => q.take(q.len() as int - 1),
    }
}

impl FetchRequest {
    /// Builds the URL of the fetch operation against the given base, which
    /// already carries the scheme and host.
    pub fn url(self, base: String) -> (r: String)
        ensures
            r@ == fetch_url_spec(base@, self.ids@, self.namespace),
    {
        let ghost base_view = base@;
        let mut url = base;
        url.append("/vectors/fetch?");
        let mut i: usize = 0;
        while i < self.ids.len()
            invariant
                i <= self.ids@.len(),
                url@ == base_view + "/vectors/fetch?"@ + ids_query(self.ids@.take(i as int)),
            decreases self.ids@.len() - i,
        {
            url.append("ids=");
            url.append(self.ids[i].as_str());
            url.append("&");
            proof {
                let s = self.ids@.take(i as int + 1);
                assert(s.drop_last() =~= self.ids@.take(i as int));
                assert(s.last() == self.ids@[i as int]);
                assert(url@ =~= base_view + "/vectors/fetch?"@ + ids_query(s));
            }
            i = i + 1;
        }
        proof {
            assert(self.ids@.take(self.ids@.len() as int) =~= self.ids@);
        }
        match self.namespace {
            Some(ns) => {
                url.append("namespace=");
                url.append(ns.as_str());
                url
            },
            None => {
                proof {
                    reveal_strlit("/vectors/fetch?");
                    assert(url@.len() >= 1);
                }
                let n = url.as_str().unicode_len();
                let trimmed = url.as_str().substring_char(0, n - 1);
                String::from_str(trimmed)
            },
        }
    }
}

} // verus!
