use couchbase_lite::native::Runtime;
use couchbase_lite::slice::{as_slice, bytes_as_slice, to_str, to_string, FLSlice, FLSliceResult};
use couchbase_lite::{dump_instances, instance_count, release, retain, Handle, ListenerToken, Timestamp};

#[test]
fn text_round_trips_through_view() {
    for s in ["", "hello", "grüße, 世界"] {
        let v = as_slice(s);
        assert!(v.is_present());
        assert_eq!(v.size(), s.len() as u64);
        assert_eq!(v.as_str(), Some(s));
        assert_eq!(v.to_string(), Some(s.to_string()));
    }
}

#[test]
fn bytes_round_trip_through_view() {
    let data: Vec<u8> = vec![0, 1, 2, 255, 128];
    let v = bytes_as_slice(&data);
    assert_eq!(v.as_byte_array(), Some(&data[..]));
    assert_eq!(v.to_vec(), Some(data.clone()));
}

#[test]
fn null_view_is_absent_whatever_its_size() {
    for size in [0u64, 7, u64::MAX] {
        let v = FLSlice::null(size);
        assert!(!v.is_present());
        assert_eq!(v.size(), size);
        assert_eq!(v.as_byte_array(), None);
        assert_eq!(v.as_str(), None);
        assert_eq!(v.to_string(), None);
        assert_eq!(v.to_vec(), None);
    }
}

#[test]
fn empty_view_differs_from_null() {
    let empty: [u8; 0] = [];
    let v = bytes_as_slice(&empty);
    assert!(v.is_present());
    assert_eq!(v.to_vec(), Some(Vec::new()));
    assert_eq!(v.as_str(), Some(""));
}

#[test]
fn invalid_utf8_has_no_text() {
    let bad: Vec<u8> = vec![b'a', 0xff, b'b'];
    let v = bytes_as_slice(&bad);
    assert_eq!(v.as_str(), None);
    assert_eq!(v.to_string(), None);
    assert_eq!(v.to_vec(), Some(bad.clone()));
}

#[test]
fn map_applies_only_to_present_views() {
    let v = as_slice("abcd");
    assert_eq!(v.map(|s: &FLSlice| s.size() * 2), Some(8));
    assert!(!(!&v));
    let n = FLSlice::null(3);
    assert!(!&n);
    assert_eq!(n.map(|s: &FLSlice| s.size() * 2), None);
}

#[test]
fn consumed_text_result_is_released_once() {
    let mut rt = Runtime::new();
    let r = FLSliceResult::new(&mut rt, Some("owned text".as_bytes().to_vec()));
    let id = r.buffer_id();
    assert_eq!(rt.buffer_releases(id), 0);
    assert_eq!(r.as_slice().as_str(), Some("owned text"));
    assert_eq!(r.to_string(&mut rt), Some("owned text".to_string()));
    assert_eq!(rt.buffer_releases(id), 1);
}

#[test]
fn consumed_byte_result_is_released_once() {
    let mut rt = Runtime::new();
    let first = FLSliceResult::new(&mut rt, Some(vec![9, 8, 7]));
    let second = FLSliceResult::new(&mut rt, None);
    let (a, b) = (first.buffer_id(), second.buffer_id());
    assert_ne!(a, b);
    assert_eq!(first.to_vec(&mut rt), Some(vec![9, 8, 7]));
    assert_eq!(rt.buffer_releases(a), 1);
    assert_eq!(rt.buffer_releases(b), 0);
    assert_eq!(second.to_vec(&mut rt), None);
    assert_eq!(rt.buffer_releases(b), 1);
}

#[test]
fn explicit_release_counts_once() {
    let mut rt = Runtime::new();
    let r = FLSliceResult::new(&mut rt, Some(vec![1]));
    let id = r.buffer_id();
    r.release(&mut rt);
    assert_eq!(rt.buffer_releases(id), 1);
}

#[test]
fn invalid_text_result_is_still_released() {
    let mut rt = Runtime::new();
    let r = FLSliceResult::new(&mut rt, Some(vec![0xc3]));
    let id = r.buffer_id();
    assert_eq!(r.to_string(&mut rt), None);
    assert_eq!(rt.buffer_releases(id), 1);
}

#[test]
fn c_string_stops_at_nul() {
    assert_eq!(to_str(b"abc\0def"), "abc");
    assert_eq!(to_string(b"abc\0def\0"), "abc");
    assert_eq!(to_str(b"\0abc"), "");
    assert_eq!(to_str(b"no terminator"), "no terminator");
}

#[test]
fn c_string_replaces_invalid_utf8() {
    assert_eq!(to_str(b"a\xffb\0"), "a\u{FFFD}b");
    assert_eq!(to_string(b"\xc3\xa9t\xc3\xa9\0"), "été");
}

#[test]
fn retain_then_release_keeps_instance_count() {
    let mut rt = Runtime::new();
    let h = Handle::create(&mut rt);
    assert_eq!(instance_count(&rt), 1);
    let extra = retain(&mut rt, &h);
    assert_eq!(extra.id(), h.id());
    assert_eq!(rt.ref_count(h.id()), 2);
    release(&mut rt, extra);
    assert_eq!(rt.ref_count(h.id()), 1);
    assert_eq!(instance_count(&rt), 1);
    release(&mut rt, h);
    assert_eq!(instance_count(&rt), 0);
}

#[test]
fn create_and_drop_moves_instance_count_by_one() {
    let mut rt = Runtime::new();
    let keep = Handle::create(&mut rt);
    let base = instance_count(&rt);
    let h = Handle::create(&mut rt);
    assert_eq!(instance_count(&rt), base + 1);
    release(&mut rt, h);
    assert_eq!(instance_count(&rt), base);
    release(&mut rt, keep);
    assert_eq!(instance_count(&rt), 0);
}

#[test]
fn clones_release_independently() {
    let mut rt = Runtime::new();
    let base = instance_count(&rt);
    let h = Handle::create(&mut rt);
    let clone = retain(&mut rt, &h);
    assert_eq!(instance_count(&rt), base + 1);
    release(&mut rt, h);
    assert_eq!(instance_count(&rt), base + 1);
    release(&mut rt, clone);
    assert_eq!(instance_count(&rt), base);
}

#[test]
fn dropped_listener_is_not_called_again() {
    let mut rt = Runtime::new();
    let token = ListenerToken::register(&mut rt, 4);
    let other = ListenerToken::register(&mut rt, 5);
    let id = token.id();
    rt.notify(4);
    rt.notify(4);
    assert_eq!(rt.listener_calls(id), 2);
    assert_eq!(rt.listener_calls(other.id()), 0);
    token.drop(&mut rt);
    rt.notify(4);
    assert_eq!(rt.listener_calls(id), 2);
    rt.notify(5);
    assert_eq!(rt.listener_calls(other.id()), 1);
}

#[test]
fn dump_lists_live_objects() {
    let mut rt = Runtime::new();
    assert_eq!(dump_instances(&rt), Vec::<usize>::new());
    let a = Handle::create(&mut rt);
    let b = Handle::create(&mut rt);
    let c = Handle::create(&mut rt);
    release(&mut rt, b);
    assert_eq!(dump_instances(&rt), vec![a.id(), c.id()]);
    release(&mut rt, a);
    release(&mut rt, c);
    assert!(dump_instances(&rt).is_empty());
}

#[test]
fn timestamp_keeps_millis() {
    assert_eq!(Timestamp::new(1_600_000_000_000).millis(), 1_600_000_000_000);
    assert_eq!(Timestamp::new(-5).millis(), -5);
}
