use bbc_em::pacing::{keep_stepping, target_cycles};

#[test]
fn host_steps_until_caught_up_or_out_of_frame_time() {
    assert_eq!(target_cycles(1_000_000), 2000);
    assert!(keep_stepping(10, 2000, 0));
    assert!(!keep_stepping(2000, 2000, 0));
    assert!(!keep_stepping(10, 2000, 2_000_000));
}
