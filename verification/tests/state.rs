use shared_journal::shared::EpochObserver;
use shared_journal::shared::EpochSnapshot;
use shared_journal::timestamp::Timestamp;
use shared_journal::watermark::Watermark;
use shared_journal::EpochState;
use shared_journal::Role;
use shared_journal::WriteBatch;

fn snap(epoch: u64, role: Role, leader: Option<&str>) -> EpochSnapshot {
    EpochSnapshot { epoch, role, leader: leader.map(String::from) }
}

#[test]
fn snapshot_reports_its_fields() {
    let s = snap(1, Role::Follower, Some("A"));
    assert_eq!(s.epoch(), 1);
    assert_eq!(s.role(), Role::Follower);
    assert_eq!(s.leader(), Some(String::from("A")));
    let t = snap(2, Role::Leader, None);
    assert_eq!(t.leader(), None);
}

#[test]
fn leadership_transition_permits_appends() {
    // The feed shows {epoch:1, Follower, leader:"A"} and later
    // {epoch:2, Leader, leader:"self"}: appends are forbidden under epoch 1
    // and permitted once the epoch-2 snapshot supersedes it.
    let mut o = EpochObserver::new();
    assert!(!o.may_append());
    assert!(o.observe(&snap(1, Role::Follower, Some("A"))));
    assert!(!o.may_append());
    assert!(o.observe(&snap(2, Role::Leader, Some("self"))));
    assert!(o.may_append());
}

#[test]
fn stale_epochs_are_never_accepted() {
    let mut o = EpochObserver::new();
    assert!(o.observe(&snap(5, Role::Leader, None)));
    // a lower epoch than one already accepted never supersedes
    assert!(!o.observe(&snap(4, Role::Leader, None)));
    assert!(!o.observe(&snap(4, Role::Follower, None)));
    assert_eq!(o.epoch, 5);
    assert!(o.may_append());
}

#[test]
fn same_epoch_supersedes_only_on_role_change() {
    let mut o = EpochObserver::new();
    assert!(o.observe(&snap(3, Role::Leader, None)));
    // an identical observation is not a transition
    assert!(!o.observe(&snap(3, Role::Leader, None)));
    // the same epoch with a changed role is
    assert!(o.observe(&snap(3, Role::Follower, None)));
    assert!(!o.may_append());
}

#[test]
fn observed_epochs_never_go_down() {
    let mut o = EpochObserver::new();
    let feed = [(1u64, Role::Follower), (3, Role::Leader), (2, Role::Leader), (3, Role::Follower)];
    let mut accepted: Vec<u64> = Vec::new();
    for (epoch, role) in feed {
        if o.observe(&snap(epoch, role, None)) {
            accepted.push(epoch);
        }
    }
    assert_eq!(accepted, vec![1, 3, 3]);
    for w in accepted.windows(2) {
        assert!(w[0] <= w[1]);
    }
}

#[test]
fn watermark_starts_empty_and_advances() {
    let mut w = Watermark::new();
    assert_eq!(w.released(), None);
    w.advance(Timestamp::new(5));
    assert_eq!(w.released(), Some(Timestamp::new(5)));
    w.advance(Timestamp::new(9));
    assert_eq!(w.released(), Some(Timestamp::new(9)));
}

#[test]
fn release_is_idempotent_and_never_moves_back() {
    let mut w = Watermark::new();
    w.advance(Timestamp::new(5));
    // the same and lower positions are accepted without moving the watermark
    w.advance(Timestamp::new(5));
    assert_eq!(w.released(), Some(Timestamp::new(5)));
    w.advance(Timestamp::new(2));
    assert_eq!(w.released(), Some(Timestamp::new(5)));
    w.advance(Timestamp::new(0));
    assert_eq!(w.released(), Some(Timestamp::new(5)));
}

#[test]
fn write_batch_records_mutations_in_order() {
    let mut wb = WriteBatch::new();
    assert_eq!(wb.len(), 0);
    wb.put(b"k1", b"v1");
    assert_eq!(wb.len(), 1);
    wb.delete(b"k2");
    assert_eq!(wb.len(), 2);
}

#[test]
fn write_batch_calls_chain() {
    let mut wb = WriteBatch::new();
    wb.put(b"a", b"1").delete(b"b").put(b"c", b"2");
    assert_eq!(wb.len(), 3);
}
