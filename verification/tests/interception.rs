use casbin_gate::identity::CasbinVals;
use casbin_gate::interception::Interception;
use casbin_gate::interception::Phase;
use casbin_gate::query::PolicyQuery;
use casbin_gate::verdict::classify;
use casbin_gate::verdict::Disposition;
use casbin_gate::verdict::Verdict;
use casbin_gate::verdict::STATUS_BAD_GATEWAY;
use casbin_gate::verdict::STATUS_FORBIDDEN;
use casbin_gate::verdict::STATUS_UNAUTHORIZED;

#[test]
fn begin_snapshots_path_and_action() {
    let s = Interception::begin("/health".to_string(), "GET".to_string());
    assert_eq!(s.path, "/health");
    assert_eq!(s.action, "GET");
    assert!(matches!(s.phase, Phase::Received));
    assert!(!s.lock_held);
}

#[test]
fn missing_identity_answers_401() {
    let mut s = Interception::begin("/health".to_string(), "GET".to_string());
    s.resolve_identity(&None);
    assert!(matches!(
        s.phase,
        Phase::Settled(Disposition::Respond(STATUS_UNAUTHORIZED))
    ));
    assert!(!s.lock_held);
    assert_eq!(s.downstream_calls, 0);
}

#[test]
fn empty_subject_answers_401() {
    let mut s = Interception::begin("/data/1".to_string(), "GET".to_string());
    let vals = CasbinVals {
        subject: String::new(),
        domain: None,
    };
    s.resolve_identity(&Some(vals));
    assert!(matches!(
        s.phase,
        Phase::Settled(Disposition::Respond(STATUS_UNAUTHORIZED))
    ));
    assert!(!s.lock_held);
    assert_eq!(s.downstream_calls, 0);
}

#[test]
fn allow_forwards_downstream() {
    let mut s = Interception::begin("/data".to_string(), "POST".to_string());
    let vals = CasbinVals {
        subject: "alice".to_string(),
        domain: None,
    };
    s.resolve_identity(&Some(vals));
    let query = match &s.phase {
        Phase::Queried(q) => q,
        _ => panic!("expected a pending query"),
    };
    let args = query.to_args();
    assert_eq!(args, vec!["alice", "/data", "POST"]);
    s.lock_acquired();
    assert!(s.lock_held);
    s.settle(&Verdict::Allow);
    assert!(matches!(s.phase, Phase::Settled(Disposition::Forward)));
    assert!(!s.lock_held);
    assert_eq!(s.downstream_calls, 0);
    s.forward_downstream();
    assert_eq!(s.downstream_calls, 1);
}

#[test]
fn deny_answers_403() {
    let mut s = Interception::begin("/data/1".to_string(), "DELETE".to_string());
    let vals = CasbinVals {
        subject: "bob".to_string(),
        domain: Some("tenantA".to_string()),
    };
    s.resolve_identity(&Some(vals));
    let query = match &s.phase {
        Phase::Queried(q) => q,
        _ => panic!("expected a pending query"),
    };
    let args = query.to_args();
    assert_eq!(args, vec!["bob", "tenantA", "/data/1", "DELETE"]);
    s.lock_acquired();
    s.settle(&Verdict::Deny);
    assert!(matches!(
        s.phase,
        Phase::Settled(Disposition::Respond(STATUS_FORBIDDEN))
    ));
    assert!(!s.lock_held);
    assert_eq!(s.downstream_calls, 0);
}

#[test]
fn failure_answers_502_with_diagnostic() {
    let mut s = Interception::begin("/x".to_string(), "GET".to_string());
    let vals = CasbinVals {
        subject: "carol".to_string(),
        domain: None,
    };
    s.resolve_identity(&Some(vals));
    assert!(matches!(s.phase, Phase::Queried(_)));
    s.lock_acquired();
    let verdict = classify(Err("adapter unreachable".to_string()));
    match &verdict {
        Verdict::Failure(msg) => assert_eq!(msg, "adapter unreachable"),
        _ => panic!("an error outcome must classify as a failure"),
    }
    s.settle(&verdict);
    assert!(matches!(
        s.phase,
        Phase::Settled(Disposition::Respond(STATUS_BAD_GATEWAY))
    ));
    assert!(!s.lock_held);
    assert_eq!(s.downstream_calls, 0);
}

#[test]
fn lock_released_before_any_settlement() {
    for verdict in [
        Verdict::Allow,
        Verdict::Deny,
        Verdict::Failure("boom".to_string()),
    ] {
        let mut s = Interception::begin("/p".to_string(), "PUT".to_string());
        let vals = CasbinVals {
            subject: "dave".to_string(),
            domain: None,
        };
        s.resolve_identity(&Some(vals));
        s.lock_acquired();
        assert!(s.lock_held);
        s.settle(&verdict);
        assert!(matches!(s.phase, Phase::Settled(_)));
        assert!(!s.lock_held);
    }
}

#[test]
fn query_shape_with_domain() {
    let q = PolicyQuery {
        subject: "bob".to_string(),
        domain: Some("tenantA".to_string()),
        path: "/data/1".to_string(),
        action: "DELETE".to_string(),
    };
    let args = q.to_args();
    assert_eq!(args.len(), 4);
    assert_eq!(args[0], "bob");
    assert_eq!(args[1], "tenantA");
    assert_eq!(args[args.len() - 2], "/data/1");
    assert_eq!(args[args.len() - 1], "DELETE");
}

#[test]
fn query_shape_without_domain() {
    let q = PolicyQuery {
        subject: "alice".to_string(),
        domain: None,
        path: "/data".to_string(),
        action: "POST".to_string(),
    };
    let args = q.to_args();
    assert_eq!(args.len(), 3);
    assert_eq!(args[0], "alice");
    assert_eq!(args[args.len() - 2], "/data");
    assert_eq!(args[args.len() - 1], "POST");
}

#[test]
fn classify_covers_every_outcome() {
    assert!(matches!(classify(Ok(true)), Verdict::Allow));
    assert!(matches!(classify(Ok(false)), Verdict::Deny));
    assert!(matches!(
        classify(Err("e".to_string())),
        Verdict::Failure(_)
    ));
}

#[test]
fn disposition_mapping_is_exact() {
    assert!(matches!(Verdict::Allow.disposition(), Disposition::Forward));
    assert!(matches!(
        Verdict::Deny.disposition(),
        Disposition::Respond(STATUS_FORBIDDEN)
    ));
    assert!(matches!(
        Verdict::Failure("x".to_string()).disposition(),
        Disposition::Respond(STATUS_BAD_GATEWAY)
    ));
}
