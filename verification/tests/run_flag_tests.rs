use topos::resume_point::ResumePoint;
use topos::sync_flag::SyncFlag;

#[test]
fn only_one_run_at_a_time() {
    let mut g = SyncFlag::new();
    assert!(!g.is_running());
    let reply = g.on_demand_reply();
    assert_eq!((reply.status, reply.message.as_str()), (202, "Sync task initiated in background."));
    assert!(g.try_begin());
    assert!(g.is_running());
    assert!(!g.try_begin());
    let reply = g.on_demand_reply();
    assert_eq!((reply.status, reply.message.as_str()), (200, "Task already running. Please wait."));
    g.finish();
    assert!(!g.is_running());
    assert!(g.try_begin());
}

#[test]
fn resume_point_reads_and_records() {
    let mut r = ResumePoint::new();
    assert_eq!(r.id, None);
    assert_eq!(r.get_id(Some("42".to_string())), Some(42));
    assert_eq!(r.get_id(Some("x".to_string())), None);
    assert_eq!(r.get_id(None), None);
    assert_eq!(r.get_id(Some(4294967295u32.to_string())), Some(4294967295));
    r.set_id(7);
    assert_eq!(r.id, Some(7));
    r.delete(0);
    assert_eq!(r.id, Some(7));
    r.delete(1);
    assert_eq!(r.id, None);
}
