use opcode::services::cli::{
    assemble_project, decode_project_path, sort_projects, CliService, ProjectScan, SessionScan,
};
use opcode::models::project::Project;

fn scan(dir: &str, times: &[Option<u64>], created: u64) -> ProjectScan {
    ProjectScan {
        dir_name: dir.to_string(),
        sessions: times
            .iter()
            .enumerate()
            .map(|(i, t)| SessionScan { stem: format!("s{}", i), created: *t })
            .collect(),
        created_at: created,
    }
}

fn bare(most_recent: Option<u64>, created: u64) -> Project {
    Project {
        id: String::new(),
        path: String::new(),
        sessions: vec![],
        created_at: created,
        most_recent_session: most_recent,
    }
}

#[test]
fn directory_names_decode_to_paths() {
    // The standard base64 alphabet, decoding to text.
    assert_eq!(decode_project_path(&"L3RtcC9kZW1v".to_string()), "/tmp/demo");
    // Not base64 at all: the name stands for itself.
    assert_eq!(decode_project_path(&"not base64!!".to_string()), "not base64!!");
    // Base64, but not text: the name stands for itself.
    assert_eq!(decode_project_path(&"//79".to_string()), "//79");
}

#[test]
fn assembling_aggregates_sessions() {
    let p = assemble_project(&scan(
        "L3RtcC9kZW1v",
        &[Some(100), None, Some(300), Some(200)],
        50,
    ));
    assert_eq!(p.id, "L3RtcC9kZW1v");
    assert_eq!(p.path, "/tmp/demo");
    assert_eq!(p.sessions, vec!["s0", "s1", "s2", "s3"]);
    assert_eq!(p.created_at, 50);
    assert_eq!(p.most_recent_session, Some(300));
}

#[test]
fn assembling_without_timestamps_has_no_most_recent() {
    let p = assemble_project(&scan("abc", &[None, None], 7));
    assert_eq!(p.most_recent_session, None);
    assert_eq!(p.sessions.len(), 2);
}

#[test]
fn listing_orders_most_recent_first() {
    let sorted = sort_projects(vec![
        bare(Some(5), 0),
        bare(None, 10),
        bare(Some(9), 0),
        bare(None, 20),
    ]);
    let keys: Vec<(Option<u64>, u64)> = sorted
        .iter()
        .map(|p| (p.most_recent_session, p.created_at))
        .collect();
    assert_eq!(
        keys,
        vec![(Some(9), 0), (Some(5), 0), (None, 20), (None, 10)]
    );
}

#[test]
fn full_listing_is_assembled_and_ordered() {
    let svc: CliService<()> = CliService::with_binary("/opt/tool/ccagent".to_string(), ());
    let listing = svc.get_projects(vec![
        scan("old", &[Some(10)], 1),
        scan("new", &[Some(90), Some(40)], 2),
        scan("idle", &[], 3),
    ]);
    let ids: Vec<&str> = listing.iter().map(|p| p.id.as_str()).collect();
    assert_eq!(ids, vec!["new", "old", "idle"]);
    assert_eq!(listing[0].most_recent_session, Some(90));
}
