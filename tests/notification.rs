use std::sync::Arc;

use crit_incr::node::{BinderError, DeliveryState, Node, NodeInner, UserSliceWriter};
use crit_incr::seq_file::SeqFile;
use crit_incr::wrapper::{push_crit_incr, CritIncrWrapper, NodeWrapper, Thread};

fn sample_node() -> Node {
    Node { debug_id: 7, ptr: 0x1, cookie: 0x2 }
}

fn payload(ptr: u64, cookie: u64) -> Vec<u8> {
    let mut v = ptr.to_le_bytes().to_vec();
    v.extend_from_slice(&cookie.to_le_bytes());
    v
}

fn both(inner: &NodeInner) -> (bool, bool) {
    (inner.delivery_state.has_pushed_wrapper, inner.delivery_state.has_strong_zero2one)
}

#[test]
fn fresh_cycle_delivers_once_and_clears_flags() {
    let node = sample_node();
    let mut inner = NodeInner::new(&node);
    assert_eq!(both(&inner), (false, false));
    let holder = CritIncrWrapper::new().expect("reservation");
    let work = push_crit_incr(&mut inner, holder, Arc::new(node));
    assert_eq!(both(&inner), (true, true));
    assert!(inner.delivery_state.is_ready_for_delivery());
    let mut writer = UserSliceWriter::new(64);
    let r = work.do_work(&Thread { id: 3 }, &mut inner, &mut writer);
    assert_eq!(r, Ok(true));
    assert_eq!(both(&inner), (false, false));
    assert!(!inner.delivery_state.is_ready_for_delivery());
    assert_eq!(writer.data, payload(1, 2));
    assert_eq!(writer.capacity, 64);
}

#[test]
fn second_cycle_behaves_like_the_first() {
    let node = Node { debug_id: 11, ptr: 0xabcd, cookie: 0x1234_5678_9abc_def0 };
    let shared = Arc::new(node);
    let mut inner = NodeInner::new(&node);
    let mut writer = UserSliceWriter::new(64);
    for round in 1..=2usize {
        let holder = CritIncrWrapper::new().expect("reservation");
        let work = push_crit_incr(&mut inner, holder, Arc::clone(&shared));
        assert_eq!(both(&inner), (true, true));
        assert_eq!(work.do_work(&Thread { id: round }, &mut inner, &mut writer), Ok(true));
        assert_eq!(both(&inner), (false, false));
        assert_eq!(writer.data.len(), 16 * round);
    }
    let mut expected = payload(0xabcd, 0x1234_5678_9abc_def0);
    expected.extend(payload(0xabcd, 0x1234_5678_9abc_def0));
    assert_eq!(writer.data, expected);
}

#[test]
fn delivery_guard_needs_both_flags() {
    let cases = [(false, false, false), (true, false, false), (false, true, false), (true, true, true)];
    for (pushed, zero2one, ready) in cases {
        let s = DeliveryState { has_pushed_wrapper: pushed, has_strong_zero2one: zero2one };
        assert_eq!(s.is_ready_for_delivery(), ready);
    }
    let mut s = DeliveryState { has_pushed_wrapper: true, has_strong_zero2one: true };
    s.take_pending();
    assert_eq!(s, DeliveryState::new());
}

#[test]
fn sync_wakeup_is_false_and_cancel_leaves_flags() {
    let node = sample_node();
    let mut inner = NodeInner::new(&node);
    let work = push_crit_incr(&mut inner, CritIncrWrapper::new().unwrap(), Arc::new(node));
    assert!(!work.should_sync_wakeup());
    assert!(!work.wrapper().should_sync_wakeup());
    work.wrapper().on_thread_selected(&Thread { id: 1 });
    let before = inner;
    work.cancel();
    assert_eq!(inner, before);
    assert_eq!(both(&inner), (true, true));
}

#[test]
fn debug_print_pads_both_fields() {
    let node = sample_node();
    let mut inner = NodeInner::new(&node);
    let work = push_crit_incr(&mut inner, CritIncrWrapper::new().unwrap(), Arc::new(node));
    let mut m = SeqFile::new();
    assert_eq!(work.debug_print(&mut m, "  ", "    "), Ok(()));
    assert_eq!(
        String::from_utf8(m.buf).unwrap(),
        "  node work 7: u0000000000000001c0000000000000002\n"
    );
}

#[test]
fn debug_print_appends_wide_values() {
    let node = Node { debug_id: 1234567890, ptr: u64::MAX, cookie: 0xdead_beef };
    let mut inner = NodeInner::new(&node);
    let work = push_crit_incr(&mut inner, CritIncrWrapper::new().unwrap(), Arc::new(node));
    let mut m = SeqFile::new();
    m.buf.extend_from_slice(b"head\n");
    work.debug_print(&mut m, "", "").unwrap();
    let zero = Node { debug_id: 0, ptr: 0, cookie: 0xa };
    let mut zero_inner = NodeInner::new(&zero);
    let w = push_crit_incr(&mut zero_inner, CritIncrWrapper::new().unwrap(), Arc::new(zero));
    w.into_wrapper().debug_print(&mut m, "> ", "").unwrap();
    assert_eq!(
        String::from_utf8(m.buf).unwrap(),
        "head\nnode work 1234567890: uffffffffffffffffc00000000deadbeef\n\
         > node work 0: u0000000000000000c000000000000000a\n"
    );
}

#[test]
fn failed_reservation_is_an_error_and_touches_nothing() {
    let node = sample_node();
    let inner = NodeInner::new(&node);
    let before = inner;
    let failure = Vec::<u8>::new().try_reserve(usize::MAX).unwrap_err();
    let slot: Vec<NodeWrapper> = Vec::new();
    let r = CritIncrWrapper::from_reservation(slot, Err(failure));
    assert!(matches!(r, Err(BinderError::AllocError)));
    assert_eq!(inner, before);
    let slot: Vec<NodeWrapper> = Vec::new();
    assert!(CritIncrWrapper::from_reservation(slot, Ok(())).is_ok());
}

#[test]
fn full_buffer_faults_after_clearing_flags() {
    let node = sample_node();
    let mut inner = NodeInner::new(&node);
    let work = push_crit_incr(&mut inner, CritIncrWrapper::new().unwrap(), Arc::new(node));
    let mut writer = UserSliceWriter::new(20);
    writer.data.extend_from_slice(&[9, 9, 9, 9, 9]);
    assert_eq!(work.do_work(&Thread { id: 0 }, &mut inner, &mut writer), Err(BinderError::Fault));
    assert_eq!(writer.data, vec![9, 9, 9, 9, 9]);
    assert_eq!(both(&inner), (false, false));
}

#[test]
fn pair_write_is_little_endian_and_all_or_nothing() {
    let mut writer = UserSliceWriter::new(16);
    assert_eq!(writer.write_u64_pair(0x0102_0304_0506_0708, 0xff), Ok(()));
    assert_eq!(
        writer.data,
        vec![8, 7, 6, 5, 4, 3, 2, 1, 0xff, 0, 0, 0, 0, 0, 0, 0]
    );
    assert_eq!(writer.write_u64_pair(1, 1), Err(BinderError::Fault));
    assert_eq!(writer.data.len(), 16);
}
