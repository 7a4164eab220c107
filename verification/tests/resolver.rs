//! The host resolver on the index handle: lazy discovery, caching,
//! overwrite on explicit refresh, and the failure policy.

use pinenut::error::ReqwestFailure;
use pinenut::http::DataPlaneStep;
use pinenut::http::DescribeStep;
use pinenut::http::Method;
use pinenut::http::Payload;
use pinenut::models::DescribeStatusState;
use pinenut::models::IndexDatabaseDescription;
use pinenut::models::IndexDescription;
use pinenut::models::IndexStats;
use pinenut::models::IndexStatusDescription;
use pinenut::models::Metric;
use pinenut::Client;
use pinenut::Error;
use pinenut::Index;

fn index() -> Index {
    let (client, _whoami) = Client::new("secret-key".to_string(), "us-west1-gcp".to_string());
    client.index("myindex".to_string())
}

fn description(host: Option<&str>) -> IndexDescription {
    IndexDescription {
        database: IndexDatabaseDescription {
            name: "myindex".to_string(),
            dimension: 32,
            metric: Metric::COSINE,
            replicas: 1,
            shards: 1,
            pods: 1,
            pod_type: "s1.x1".to_string(),
        },
        status: IndexStatusDescription {
            waiting: vec![],
            crashed: vec![],
            host: host.map(|h| h.to_string()),
            port: 443,
            state: DescribeStatusState::Ready,
            ready: true,
        },
    }
}

#[test]
fn cached_or_fetch_describe_fetches_exactly_once() {
    let mut idx = index();
    let first = idx.cached_then_normal_describe();
    let plan = match first {
        DescribeStep::Fetch(plan) => plan,
        DescribeStep::Cached => panic!("an unresolved handle must plan a fetch"),
    };
    assert_eq!(plan.url, "https://controller.us-west1-gcp.pinecone.io/databases/myindex");
    assert_eq!(plan.method, Method::Get);

    let d = description(Some("myindex-proj.svc.us-west1-gcp.pinecone.io"));
    idx.apply_describe_response(Ok(d.clone())).expect("a describe success is applied");

    let second = idx.cached_then_normal_describe();
    assert!(matches!(second, DescribeStep::Cached), "the second call must not plan a fetch");
    assert_eq!(idx.description(), Some(&d));
}

#[test]
fn explicit_describe_always_plans_a_call_and_overwrites() {
    let mut idx = index();
    let first = description(Some("first-host"));
    idx.apply_describe_response(Ok(first)).unwrap();

    // Even on a resolved handle, an explicit describe hands out a network plan.
    let plan = idx.describe();
    assert_eq!(plan.url, "https://controller.us-west1-gcp.pinecone.io/databases/myindex");

    let second = description(Some("second-host"));
    idx.apply_describe_response(Ok(second.clone())).unwrap();
    assert_eq!(idx.description(), Some(&second));
    assert_eq!(idx.url(), Some("https://second-host".to_string()));
}

#[test]
fn upsert_on_unresolved_handle_describes_then_sends_to_the_described_host() {
    let mut idx = index();
    let step = idx.upsert("{\"namespace\":\"ns\",\"vectors\":[]}".to_string());
    let describe_plan = match step {
        Ok(DataPlaneStep::NeedDescribe(plan)) => plan,
        other => panic!("an unresolved handle must describe first, got {:?}", other),
    };
    assert_eq!(describe_plan.url, "https://controller.us-west1-gcp.pinecone.io/databases/myindex");

    let d = description(Some("myhost"));
    let op = idx
        .data_plane_resume(Ok(d), pinenut::http::DataOp::Upsert {
            body: "{\"namespace\":\"ns\",\"vectors\":[]}".to_string(),
        })
        .expect("a described host lets the operation through");
    assert_eq!(op.url, "https://myhost/vectors/upsert");
    assert_eq!(op.method, Method::Post);
    assert_eq!(
        op.body,
        Some(Payload::Raw("{\"namespace\":\"ns\",\"vectors\":[]}".to_string()))
    );

    // The description is now cached: the same operation sends directly.
    let again = idx.upsert("{}".to_string()).unwrap();
    assert!(matches!(again, DataPlaneStep::Send(_)));
}

#[test]
fn failed_describe_surfaces_its_own_error_and_leaves_the_handle_unresolved() {
    let mut idx = index();
    let transport = Error::ReqwestError(ReqwestFailure { message: "connection refused".to_string() });
    let r = idx.data_plane_resume(
        Err(transport.clone()),
        pinenut::http::DataOp::Upsert { body: "{}".to_string() },
    );
    match r {
        Err(e) => assert_eq!(e, transport, "the describe failure itself is surfaced"),
        Ok(_) => panic!("the operation cannot proceed without a host"),
    }
    assert!(idx.description().is_none(), "a failed describe mutates nothing");
    assert!(matches!(idx.cached_then_normal_describe(), DescribeStep::Fetch(_)));
}

#[test]
fn described_host_missing_is_url_not_available() {
    let mut idx = index();
    let r = idx.data_plane_resume(
        Ok(description(None)),
        pinenut::http::DataOp::Query { body: "{}".to_string() },
    );
    assert!(matches!(r, Err(Error::URLNotAvailable)));
    // The description itself was a success and is cached...
    assert!(idx.description().is_some());
    assert_eq!(idx.url(), None);
    // ...so a later operation fails the same way without planning a describe.
    let step = idx.query("{}".to_string());
    assert!(matches!(step, Err(Error::URLNotAvailable)));
}

#[test]
fn data_plane_envelopes() {
    let mut idx = index();
    idx.apply_describe_response(Ok(description(Some("h")))).unwrap();

    let upsert = match idx.upsert("u".to_string()).unwrap() {
        DataPlaneStep::Send(plan) => plan,
        other => panic!("resolved handle must send, got {:?}", other),
    };
    assert_eq!(upsert.url, "https://h/vectors/upsert");
    assert_eq!(upsert.method, Method::Post);
    assert_eq!(upsert.success_code, 200);

    let update = match idx.update("v".to_string()).unwrap() {
        DataPlaneStep::Send(plan) => plan,
        other => panic!("resolved handle must send, got {:?}", other),
    };
    assert_eq!(update.url, "https://h/vectors/update");
    assert_eq!(update.body, Some(Payload::Raw("v".to_string())));

    let query = match idx.query("q".to_string()).unwrap() {
        DataPlaneStep::Send(plan) => plan,
        other => panic!("resolved handle must send, got {:?}", other),
    };
    assert_eq!(query.url, "https://h/query");

    let fetch_request = pinenut::models::FetchRequest {
        ids: vec!["A".to_string(), "B".to_string()],
        namespace: Some("ns1".to_string()),
    };
    let fetch = match idx.fetch(fetch_request).unwrap() {
        DataPlaneStep::Send(plan) => plan,
        other => panic!("resolved handle must send, got {:?}", other),
    };
    assert_eq!(fetch.url, "https://h/vectors/fetch?ids=A&ids=B&namespace=ns1");
    assert_eq!(fetch.method, Method::Get);
    assert_eq!(fetch.body, None);

    let stats = match idx.describe_stats().unwrap() {
        DataPlaneStep::Send(plan) => plan,
        other => panic!("resolved handle must send, got {:?}", other),
    };
    assert_eq!(stats.url, "https://h/describe_index_stats");
    assert_eq!(stats.method, Method::Get);
}

#[test]
fn stats_are_cached_on_success_only() {
    let mut idx = index();
    assert!(idx.stats().is_none());
    let failed = idx.apply_stats_response(Err(Error::URLNotAvailable));
    assert!(matches!(failed, Err(Error::URLNotAvailable)));
    assert!(idx.stats().is_none());

    let stats = IndexStats {
        namespaces: std::collections::HashMap::new(),
        dimension: 32,
        index_fullness: 0,
        total_vector_count: 11,
    };
    idx.apply_stats_response(Ok(stats.clone())).unwrap();
    assert_eq!(idx.stats(), Some(&stats));
}

#[test]
fn index_control_plane_envelopes() {
    let idx = index();
    let configure = idx.configure(2, "p1.x2".to_string());
    assert_eq!(configure.url, "https://controller.us-west1-gcp.pinecone.io/databases/myindex");
    assert_eq!(configure.method, Method::Patch);
    assert_eq!(configure.success_code, 202);
    match configure.body {
        Some(Payload::ConfigureIndex(req)) => {
            assert_eq!(req.replicas, 2);
            assert_eq!(req.pod_type, "p1.x2");
        },
        other => panic!("expected the typed configure body, got {:?}", other),
    }

    let delete = index().delete();
    assert_eq!(delete.url, "https://controller.us-west1-gcp.pinecone.io/databases/myindex");
    assert_eq!(delete.method, Method::Delete);
    assert_eq!(delete.success_code, 202);
    assert_eq!(delete.body, None);
}
