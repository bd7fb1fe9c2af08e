use niri_burst::engine::{ClusterState, Outcome, WindowEvent};

fn ev(id: u64, column_position: Option<(usize, usize)>) -> WindowEvent {
    WindowEvent { id, column_position }
}

#[test]
fn immediate_duplicate_collapses_without_mutation() {
    let mut st = ClusterState::new();
    st.process_event(ev(7, None), 1_000);
    let ts_before = st.last_timestamp;
    let cluster_before = st.cluster.clone();
    let recent_before: Vec<u64> = st.recent_ids.iter().copied().collect();

    let out = st.process_event(ev(7, None), 1_200);
    assert!(matches!(out, Outcome::DuplicateLast));
    assert_eq!(st.last_timestamp, ts_before);
    assert_eq!(st.cluster, cluster_before);
    let recent_after: Vec<u64> = st.recent_ids.iter().copied().collect();
    assert_eq!(recent_after, recent_before);
    assert_eq!(st.last_id, Some(7));
}

#[test]
fn recent_duplicate_keeps_burst_timer() {
    let mut st = ClusterState::new();
    st.process_event(ev(1, None), 1_000);
    st.process_event(ev(2, None), 1_100);
    assert_eq!(st.last_timestamp, Some(1_100));

    let out = st.process_event(ev(1, None), 5_000);
    assert!(matches!(out, Outcome::RecentDuplicate));
    assert_eq!(st.last_timestamp, Some(1_100));
    assert_eq!(st.cluster, vec![1, 2]);
    assert_eq!(st.last_column_id, None);
    assert_eq!(st.last_id, Some(1));
}

#[test]
fn burst_of_three_dispatches_second_and_third_only() {
    let mut st = ClusterState::new();
    let o1 = st.process_event(ev(10, None), 1_000);
    let o2 = st.process_event(ev(11, None), 1_100);
    let o3 = st.process_event(ev(12, None), 1_200);

    assert!(matches!(o1, Outcome::Boundary(None)));
    assert!(matches!(o2, Outcome::Joined));
    assert!(matches!(o3, Outcome::Joined));
    assert_eq!(st.cluster, vec![10, 11, 12]);
}

#[test]
fn gap_over_threshold_separates_clusters_without_dispatch() {
    let mut st = ClusterState::new();
    let o1 = st.process_event(ev(1, None), 1_000);
    assert!(matches!(o1, Outcome::Boundary(None)));
    assert_eq!(st.cluster, vec![1]);

    let o2 = st.process_event(ev(2, None), 1_501);
    assert!(matches!(o2, Outcome::Boundary(None)));
    assert_eq!(st.cluster, vec![2]);
}

#[test]
fn gap_equal_to_threshold_continues_burst() {
    let mut st = ClusterState::new();
    st.process_event(ev(1, None), 1_000);
    let out = st.process_event(ev(2, None), 1_500);
    assert!(matches!(out, Outcome::Joined));
    assert_eq!(st.cluster, vec![1, 2]);
}

#[test]
fn same_column_within_threshold_is_skipped() {
    let mut st = ClusterState::new();
    st.process_event(ev(1, Some((3, 1))), 1_000);
    assert_eq!(st.last_column_id, Some(3));

    let out = st.process_event(ev(2, Some((3, 2))), 1_100);
    assert!(matches!(out, Outcome::SameColumn));
    assert_eq!(st.cluster, vec![1]);
}

#[test]
fn missing_column_never_matches_burst_column() {
    let mut st = ClusterState::new();
    st.process_event(ev(1, Some((3, 1))), 1_000);
    let out = st.process_event(ev(2, None), 1_100);
    assert!(matches!(out, Outcome::Joined));
    assert_eq!(st.cluster, vec![1, 2]);
}

#[test]
fn report_fires_exactly_for_multi_member_cluster() {
    let mut st = ClusterState::new();
    st.process_event(ev(1, None), 1_000);
    st.process_event(ev(2, None), 1_100);
    let out = st.process_event(ev(3, None), 2_000);
    match out {
        Outcome::Boundary(Some(report)) => assert_eq!(report, vec![1, 2]),
        other => panic!("expected a reported boundary, got {:?}", other),
    }
    assert_eq!(st.cluster, vec![3]);
}

#[test]
fn report_never_fires_for_single_member_cluster() {
    let mut st = ClusterState::new();
    st.process_event(ev(1, None), 1_000);
    let out = st.process_event(ev(2, None), 2_000);
    assert!(matches!(out, Outcome::Boundary(None)));
}

#[test]
fn recent_history_evicts_oldest_past_capacity() {
    let mut st = ClusterState::new();
    for i in 1..=26u64 {
        st.process_event(ev(i, None), 100_000 + u128::from(i) * 1_000);
    }
    assert_eq!(st.recent_ids.len(), 25);
    assert!(!st.recent_ids.contains(&1));
    assert!(st.recent_ids.contains(&2));

    // An id still in the history is discarded.
    let out = st.process_event(ev(10, None), 300_000);
    assert!(matches!(out, Outcome::RecentDuplicate));
    assert_eq!(st.last_timestamp, Some(126_000));

    // The evicted id is accepted again.
    let out = st.process_event(ev(1, None), 301_000);
    assert!(matches!(out, Outcome::Boundary(_)));
    assert_eq!(st.cluster, vec![1]);
}

#[test]
fn already_in_cluster_is_not_dispatched_again() {
    let mut st = ClusterState::new();
    st.process_event(ev(1, None), 1_000);
    st.process_event(ev(2, None), 1_100);
    // Force 2 and 1 out of the immediate/recent filters to reach the
    // membership check: use fresh ids around them, then replay id 1 after it
    // leaves the recent history but while the burst stays open. With capacity
    // 25 this needs many distinct ids within the threshold.
    for i in 3..=27u64 {
        let out = st.process_event(ev(i, None), 1_100 + u128::from(i));
        assert!(matches!(out, Outcome::Joined));
    }
    // Id 1 has been evicted from the recent history but is still a member of
    // the open cluster: the defensive membership check refuses a new dispatch.
    let out = st.process_event(ev(1, None), 1_200);
    assert!(matches!(out, Outcome::AlreadyInCluster));
    let members: Vec<u64> = (1..=27u64).collect();
    assert_eq!(st.cluster, members);
}

#[test]
fn end_to_end_scenario() {
    let t0: u128 = 10_000;
    let mut st = ClusterState::new();
    let mut dispatched: Vec<u64> = Vec::new();
    let mut reports: Vec<Vec<u64>> = Vec::new();

    let events = [
        (1u64, t0),
        (2u64, t0 + 50),
        (2u64, t0 + 60),
        (3u64, t0 + 800),
    ];
    for (id, ts) in events {
        match st.process_event(ev(id, None), ts) {
            Outcome::Joined => dispatched.push(id),
            Outcome::Boundary(Some(report)) => reports.push(report),
            _ => {}
        }
    }

    assert_eq!(st.cluster, vec![3]);
    assert_eq!(dispatched, vec![2]);
    assert_eq!(reports, vec![vec![1, 2]]);
}
