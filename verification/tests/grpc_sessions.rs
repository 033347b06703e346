use muxr_core::grpc::helpers::ProtoBackend;
use muxr_core::grpc::sessions::{
    client_count, create_session_backend, kill_session_target, merge_session_lists,
    plan_create_session, rename_session_target, BackendListing, ClientCount, ListedSession,
};
use muxr_core::multiplexer::routing::{make_id, BackendKind, RoutingError};

fn listed(name: &str, age: u64) -> BackendListing {
    BackendListing::Listed(vec![ListedSession {
        name: name.to_string(),
        age_secs: age,
        resurrectable: false,
    }])
}

#[test]
fn list_sessions_skips_erroring_backend_returns_other() {
    let results = vec![
        (BackendKind::Zellij, BackendListing::Unreachable),
        (BackendKind::Herdr, listed("my-session", 100)),
    ];
    let sessions = merge_session_lists(&results, &vec![]);
    assert_eq!(sessions.len(), 1, "only the reachable backend's session");
    assert_eq!(sessions[0].name, "my-session");
    assert_eq!(sessions[0].id, "herdr:my-session");
}

#[test]
fn list_sessions_tolerates_panicking_backend() {
    let results = vec![
        (BackendKind::Zellij, BackendListing::Panicked),
        (BackendKind::Herdr, listed("live-session", 0)),
    ];
    let sessions = merge_session_lists(&results, &vec![]);
    assert_eq!(sessions.len(), 1, "non-panicking backend's session survives");
    assert_eq!(sessions[0].name, "live-session");
}

#[test]
fn list_sessions_both_backends_ok_returns_all() {
    let results = vec![
        (BackendKind::Zellij, listed("zellij-session", 0)),
        (BackendKind::Herdr, listed("herdr-session", 0)),
    ];
    let sessions = merge_session_lists(&results, &vec![]);
    assert_eq!(sessions.len(), 2, "sessions from both backends merged");
    let ids: Vec<&str> = sessions.iter().map(|s| s.id.as_str()).collect();
    assert!(ids.contains(&"zellij:zellij-session"));
    assert!(ids.contains(&"herdr:herdr-session"));
}

#[test]
fn list_sessions_all_erroring_returns_empty() {
    let results = vec![
        (BackendKind::Zellij, BackendListing::Unreachable),
        (BackendKind::Herdr, BackendListing::TimedOut),
    ];
    assert!(merge_session_lists(&results, &vec![]).is_empty(), "no reachable backends → empty list");
}

#[test]
fn merged_sessions_carry_backend_and_client_counts() {
    let counts = vec![
        ClientCount { session: "zellij:dev".to_string(), count: 2 },
        ClientCount { session: "herdr:dev".to_string(), count: 5 },
    ];
    let results = vec![
        (BackendKind::Zellij, listed("dev", 7)),
        (BackendKind::Herdr, listed("dev", 0)),
    ];
    let sessions = merge_session_lists(&results, &counts);
    assert_eq!(sessions[0].connected_clients, 2);
    assert_eq!(sessions[0].backend, ProtoBackend::Zellij);
    assert_eq!(sessions[0].age_secs, 7);
    assert_eq!(sessions[1].connected_clients, 5);
    assert_eq!(sessions[1].backend, ProtoBackend::Herdr);
    assert_eq!(client_count(&counts, "zellij:other"), 0);
}

#[test]
fn create_session_backend_choice() {
    let both = vec![BackendKind::Zellij, BackendKind::Herdr];
    let one = vec![BackendKind::Zellij];
    assert_eq!(create_session_backend(2, &both), Ok(BackendKind::Herdr));
    assert_eq!(create_session_backend(0, &one), Ok(BackendKind::Zellij));
    assert_eq!(
        create_session_backend(0, &both),
        Err(RoutingError::InvalidArgument(
            "CreateSession: this server runs multiple backends — specify which backend to create the session on".to_string()
        ))
    );
    assert_eq!(
        create_session_backend(-3, &one),
        Err(RoutingError::InvalidArgument("CreateSession: unknown backend tag -3".to_string()))
    );
    assert!(matches!(create_session_backend(2, &one), Err(RoutingError::NotFound(_))));
}

#[test]
fn create_session_plan_validates_name_and_layout() {
    let one = vec![BackendKind::Zellij];
    let plan = plan_create_session(0, &one, "dev", "").unwrap();
    assert_eq!(plan.kind, BackendKind::Zellij);
    assert_eq!(plan.name, "dev");
    assert_eq!(plan.layout, None);
    let plan = plan_create_session(1, &one, "dev", "compact").unwrap();
    assert_eq!(plan.layout.as_deref(), Some("compact"));
    assert!(matches!(
        plan_create_session(1, &one, "../x", ""),
        Err(RoutingError::InvalidArgument(_))
    ));
    assert_eq!(
        plan_create_session(1, &one, "dev", "../evil"),
        Err(RoutingError::InvalidArgument(
            "invalid layout \"../evil\": only a bare layout name [A-Za-z0-9_-] is allowed (absolute paths, '/', and '..' are rejected)".to_string()
        ))
    );
}

#[test]
fn kill_and_rename_targets() {
    let both = vec![BackendKind::Zellij, BackendKind::Herdr];
    assert_eq!(
        kill_session_target(&both, "herdr:herdr"),
        Err(RoutingError::InvalidArgument(
            "the herdr session cannot be killed — manage its workspaces via CloseSpace".to_string()
        ))
    );
    assert_eq!(
        kill_session_target(&both, "zellij:dev"),
        Ok((BackendKind::Zellij, "dev".to_string()))
    );
    assert_eq!(
        rename_session_target(&both, "zellij:dev", "bad name"),
        Err(RoutingError::InvalidArgument(
            "invalid session name \"bad name\": only [A-Za-z0-9_-] characters are allowed".to_string()
        ))
    );
    assert_eq!(
        rename_session_target(&both, "zellij:dev", "new"),
        Ok((BackendKind::Zellij, "dev".to_string()))
    );
}

#[test]
fn client_count_is_isolated_per_backend_qualified_id() {
    let zellij_dev = make_id(BackendKind::Zellij, "dev");
    let herdr_dev = make_id(BackendKind::Herdr, "dev");
    assert_ne!(zellij_dev, herdr_dev);

    let counts = vec![ClientCount { session: zellij_dev.clone(), count: 1 }];
    assert_eq!(client_count(&counts, &zellij_dev), 1);
    assert_eq!(
        client_count(&counts, &herdr_dev),
        0,
        "the herdr:dev bucket must be unaffected by a zellij:dev attach"
    );

    let counts = vec![
        ClientCount { session: zellij_dev.clone(), count: 1 },
        ClientCount { session: herdr_dev.clone(), count: 2 },
    ];
    assert_eq!(client_count(&counts, &herdr_dev), 2);
    assert_eq!(
        client_count(&counts, &zellij_dev),
        1,
        "the zellij:dev bucket must be unaffected by herdr:dev attaches"
    );
}
