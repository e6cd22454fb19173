use shred_zdn::args::{Protocol, Source};
use shred_zdn::async_utils::{after_failure, RetryStep};
use shred_zdn::net::{endpoint_kind, starts_with, EndpointKind};
use shred_zdn::normalize::{
    canonical_len, canonical_slice, normalize, Invalid, Verdict, LEGACY_CODE_TAG, LEGACY_DATA_TAG,
    SIGNATURE_BYTES,
};
use shred_zdn::processor::{Disposition, Processor};
use shred_zdn::receiver::{listeners, receive};
use shred_zdn::sniffer::{payload_offset, strip_header, Sniffer};
use shred_zdn::stats::Stats;
use shred_zdn::utils::{current_ns, diff_time, last_n_chars, subsecond_nanos, WallTime};
use shred_zdn::window::DedupWindow;
use shred_zdn::zdn_ping::{
    contains_str, latency_field, latency_order, nearest_region, regions_by_latency, second_field,
};

fn datagram(tag: u8, tail: usize) -> Vec<u8> {
    let mut d = vec![7u8; SIGNATURE_BYTES];
    d.push(tag);
    for i in 0..tail {
        d.push((i % 251) as u8);
    }
    d
}

#[test]
fn canonical_len_table() {
    for low in 0..16u8 {
        assert_eq!(canonical_len(0x40 | low), Some(1228));
        assert_eq!(canonical_len(0x60 | low), Some(1228));
        assert_eq!(canonical_len(0x70 | low), Some(1164));
        assert_eq!(canonical_len(0x80 | low), Some(1203));
        assert_eq!(canonical_len(0x90 | low), Some(1203));
        assert_eq!(canonical_len(0xB0 | low), Some(1139));
    }
    for nibble in [0x0u8, 0x1, 0x2, 0x3, 0x5, 0xA, 0xC, 0xD, 0xE, 0xF] {
        for low in 0..16u8 {
            assert_eq!(canonical_len((nibble << 4) | low), None);
        }
    }
}

#[test]
fn legacy_tags_are_invalid() {
    assert_eq!(LEGACY_DATA_TAG, 0xA5);
    assert_eq!(LEGACY_CODE_TAG, 0x5A);
    assert_eq!(canonical_len(LEGACY_DATA_TAG), None);
    assert_eq!(canonical_len(LEGACY_CODE_TAG), None);
    let d = datagram(LEGACY_CODE_TAG, 2000);
    assert_eq!(normalize(&d), Verdict::Invalid(Invalid::LegacyTag));
    let d = datagram(LEGACY_DATA_TAG, 2000);
    assert_eq!(normalize(&d), Verdict::Invalid(Invalid::LegacyTag));
}

#[test]
fn signature_length_matches_solana() {
    assert_eq!(SIGNATURE_BYTES, solana_sdk::signature::SIGNATURE_BYTES);
}

#[test]
fn normalize_verdicts() {
    assert_eq!(normalize(&datagram(0x41, 2000)), Verdict::Valid { len: 1228 });
    assert_eq!(normalize(&datagram(0x75, 1099)), Verdict::Valid { len: 1164 });
    assert_eq!(normalize(&datagram(0x75, 1098)), Verdict::Invalid(Invalid::TooShort));
    assert_eq!(normalize(&datagram(0xB2, 1074)), Verdict::Valid { len: 1139 });
    assert_eq!(normalize(&datagram(0x20, 2000)), Verdict::Invalid(Invalid::UnknownVariant));
    assert_eq!(normalize(&vec![0u8; SIGNATURE_BYTES]), Verdict::Invalid(Invalid::MissingTag));
    assert_eq!(normalize(&[]), Verdict::Invalid(Invalid::MissingTag));
}

#[test]
fn canonical_slice_is_prefix() {
    let d = datagram(0x41, 2000);
    let s = canonical_slice(&d, 1228);
    assert_eq!(s, &d[..1228]);
}

#[test]
fn window_observe_and_contains() {
    let mut w = DedupWindow::new();
    assert!(!w.contains(42));
    assert!(w.observe(42, Source::Zdn));
    assert!(w.contains(42));
    assert!(!w.observe(42, Source::Reference));
    assert!(w.contains(42));
}

#[test]
fn window_two_rotations_age_out() {
    let mut w = DedupWindow::new();
    w.observe(9, Source::Zdn);
    w.rotate();
    assert!(w.contains(9));
    w.rotate();
    assert!(!w.contains(9));
    assert!(w.observe(9, Source::Zdn));
}

#[test]
fn processor_handles_hash_once() {
    let mut p = Processor::new();
    assert_eq!(p.handle(Source::Zdn, 5), Disposition::Forward);
    assert_eq!(p.handle(Source::Zdn, 5), Disposition::Duplicate);
    assert_eq!(p.handle(Source::Reference, 6), Disposition::FirstSeen);
    assert_eq!(p.handle(Source::Zdn, 6), Disposition::Duplicate);
    p.rotate();
    p.rotate();
    assert_eq!(p.handle(Source::Zdn, 5), Disposition::Forward);
}

#[test]
fn receiver_datagram_forwarded_whole() {
    let stats = Stats::new();
    let hasher = ahash::RandomState::new();
    let d = datagram(0x41, 2000);
    assert_eq!(d.len(), 2065);
    let got = receive(&stats, &hasher, Source::Zdn, &d).expect("accepted");
    assert_eq!(got.source, Source::Zdn);
    assert_eq!(got.bytes, d);
    assert_eq!(got.hash, hasher.hash_one(&d[..1228]));
    let mut p = Processor::new();
    let out = p.process(&stats, got.source, got.bytes, got.hash).expect("forwarded");
    assert_eq!(out, d);
    let s = stats.take();
    assert_eq!(s.zdn_packets, 1);
    assert_eq!(s.zdn_firsts, 1);
    assert_eq!(s.forwarded, 1);
    assert_eq!(s.zdn_invalids, 0);
    assert_eq!(s.reference_packets, 0);
}

#[test]
fn receiver_same_datagram_twice() {
    let stats = Stats::new();
    let hasher = ahash::RandomState::new();
    let d = datagram(0x41, 2000);
    let mut p = Processor::new();
    let a = receive(&stats, &hasher, Source::Zdn, &d).expect("accepted");
    assert!(p.process(&stats, a.source, a.bytes, a.hash).is_some());
    let b = receive(&stats, &hasher, Source::Zdn, &d).expect("accepted");
    assert!(p.process(&stats, b.source, b.bytes, b.hash).is_none());
    let s = stats.take();
    assert_eq!(s.zdn_packets, 2);
    assert_eq!(s.zdn_firsts, 1);
    assert_eq!(s.forwarded, 1);
}

#[test]
fn receiver_counts_invalid_and_skips_empty() {
    let stats = Stats::new();
    let hasher = ahash::RandomState::new();
    assert!(receive(&stats, &hasher, Source::Reference, &datagram(LEGACY_CODE_TAG, 2000)).is_none());
    assert!(receive(&stats, &hasher, Source::Reference, &datagram(0x41, 10)).is_none());
    assert!(receive(&stats, &hasher, Source::Reference, &[1u8; 30]).is_none());
    assert!(receive(&stats, &hasher, Source::Reference, &[]).is_none());
    let s = stats.take();
    assert_eq!(s.reference_packets, 3);
    assert_eq!(s.reference_invalids, 3);
    assert_eq!(s.zdn_packets, 0);
}

#[test]
fn reference_source_not_forwarded() {
    let stats = Stats::new();
    let mut p = Processor::new();
    assert!(p.process(&stats, Source::Reference, vec![1, 2, 3], 77).is_none());
    assert!(p.process(&stats, Source::Zdn, vec![1, 2, 3], 77).is_none());
    let s = stats.take();
    assert_eq!(s.reference_firsts, 1);
    assert_eq!(s.zdn_firsts, 0);
    assert_eq!(s.forwarded, 0);
}

#[test]
fn stats_report_resets() {
    let stats = Stats::new();
    stats.add_packet(Source::Zdn);
    stats.add_packet(Source::Zdn);
    stats.add_invalid(Source::Reference);
    stats.add_forwarded();
    stats.add_nanos(1_234_567);
    let first = stats.take();
    stats.add_packet(Source::Zdn);
    let second = stats.take();
    assert_eq!(first.zdn_packets + second.zdn_packets, 3);
    assert_eq!(first.reference_invalids + second.reference_invalids, 1);
    assert_eq!(first.forwarded + second.forwarded, 1);
    assert_eq!(first.nanos, 1_234_567);
    assert_eq!(first.centimillis(), 123);
    let third = stats.take();
    assert_eq!(third.zdn_packets, 0);
    assert_eq!(third.forwarded, 0);
    assert_eq!(third.nanos, 0);
}

#[test]
fn stats_report_line() {
    let stats = Stats::new();
    stats.add_packet(Source::Zdn);
    stats.add_first(Source::Zdn);
    stats.add_forwarded();
    stats.add_nanos(2_500_000);
    let line = stats.report();
    assert_eq!(
        line,
        "zdn-packet 1, reference-packet 0, zdn-invalid 0, reference-invalid 0, \
         zdn-first 1, reference-first 0, forwarded 1, ms 2.50"
    );
    let again = stats.report();
    assert!(again.starts_with("zdn-packet 0,"));
    assert!(again.ends_with("ms 0.00"));
}

#[test]
fn capture_offsets() {
    assert_eq!(payload_offset(1), 42);
    assert_eq!(payload_offset(0), 32);
    assert_eq!(payload_offset(228), 32);
}

#[test]
fn short_capture_frame_dropped() {
    let frame = vec![3u8; 42];
    assert!(strip_header(&frame, 42).is_none());
    assert!(strip_header(&frame[..10], 42).is_none());
    let frame = vec![3u8; 50];
    assert_eq!(strip_header(&frame, 42), Some(&frame[42..]));
    let mut s = Sniffer::new(ahash::RandomState::new());
    assert_eq!(s.take_sent_back(), 0);
}

#[test]
fn sniffer_forwards_novel_shred_each_capture() {
    let mut s = Sniffer::new(ahash::RandomState::new());
    let payload = vec![9u8; 100];
    assert_eq!(s.decide_capture(11, payload.clone()), Some(payload.clone()));
    assert_eq!(s.decide_capture(11, payload.clone()), Some(payload.clone()));
    assert_eq!(s.take_sent_back(), 2);
    assert_eq!(s.take_sent_back(), 0);
}

#[test]
fn sniffer_relay_copy_suppresses_capture() {
    let mut s = Sniffer::new(ahash::RandomState::new());
    s.record_relay_hash(11);
    assert_eq!(s.decide_capture(11, vec![1, 2]), None);
    let bytes = vec![5u8; 80];
    s.on_relay_copy(&bytes);
    assert_eq!(s.on_shred(&bytes, vec![1, 2]), None);
    assert_eq!(s.on_shred(&[6u8; 80], vec![1, 2]), Some(vec![1, 2]));
    assert_eq!(s.take_sent_back(), 1);
    s.rotate();
    s.rotate();
    assert_eq!(s.decide_capture(11, vec![3]), Some(vec![3]));
}

#[test]
fn sniffer_empty_relay_copy_ignored() {
    let mut s = Sniffer::new(ahash::RandomState::new());
    s.on_relay_copy(&[]);
    assert_eq!(s.on_shred(&[], vec![4]), Some(vec![4]));
}

#[test]
fn listener_ports() {
    assert_eq!(listeners(8001, None), vec![(Source::Zdn, 8001)]);
    assert_eq!(
        listeners(8001, Some(9001)),
        vec![(Source::Zdn, 8001), (Source::Reference, 9001)]
    );
}

#[test]
fn protocol_keywords() {
    assert_eq!(Protocol::Udp.keyword(), "udp");
    assert_eq!(Protocol::Tcp.keyword(), "tcp");
    assert_eq!(Source::Zdn.index(), 0);
    assert_eq!(Source::Reference.index(), 1);
}

#[test]
fn last_chars() {
    assert_eq!(last_n_chars("abcdef", 3), "def");
    assert_eq!(last_n_chars("abc", 10), "abc");
    assert_eq!(last_n_chars("abc", 0), "");
    assert_eq!(last_n_chars("", 2), "");
    assert_eq!(last_n_chars("añb", 3), "ñb");
    assert_eq!(last_n_chars("añb", 1), "b");
    assert_eq!(last_n_chars("añb", 4), "añb");
}

#[test]
fn time_helpers() {
    let a = WallTime { nanos: 1_000_000 };
    let b = WallTime { nanos: 3_500_999 };
    assert_eq!(diff_time(a, b), 2500);
    assert_eq!(diff_time(b, a), -2500);
    assert_eq!(diff_time(a, a), 0);
    assert_eq!(diff_time(WallTime { nanos: -1500 }, WallTime { nanos: 0 }), 1);
    assert_eq!(subsecond_nanos(5_123_456_789), 123_456_789);
    assert!(current_ns().map_or(true, |n| n < 1_000_000_000));
}

#[test]
fn region_ranking() {
    let results = vec![
        ("tokyo".to_string(), 80u128),
        ("frankfurt".to_string(), 20),
        ("ny".to_string(), 50),
        ("amsterdam".to_string(), 20),
    ];
    assert_eq!(latency_order(&results), vec![1, 3, 2, 0]);
    assert_eq!(regions_by_latency(&results), vec!["frankfurt", "amsterdam", "ny", "tokyo"]);
    assert_eq!(nearest_region(&results), Some("frankfurt".to_string()));
    assert_eq!(nearest_region(&Vec::new()), None);
    assert!(regions_by_latency(&Vec::new()).is_empty());
}

#[test]
fn retry_steps() {
    assert_eq!(after_failure(0, 3, 2), RetryStep::Retry { delay: Some(0), next: 1 });
    assert_eq!(after_failure(2, 3, 2), RetryStep::Retry { delay: Some(1), next: 3 });
    assert_eq!(after_failure(1, 3, 0), RetryStep::Retry { delay: None, next: 2 });
    assert_eq!(after_failure(3, 3, 2), RetryStep::GiveUp);
    assert_eq!(after_failure(0, 0, 2), RetryStep::GiveUp);
}

#[test]
fn endpoint_kinds() {
    assert_eq!(endpoint_kind("https://relay.example:443"), EndpointKind::Https);
    assert_eq!(endpoint_kind("http://127.0.0.1:9000"), EndpointKind::Http);
    assert_eq!(endpoint_kind("/tmp/relay.sock"), EndpointKind::UnixSocket);
    assert_eq!(endpoint_kind("http:/x"), EndpointKind::UnixSocket);
    assert_eq!(endpoint_kind(""), EndpointKind::UnixSocket);
    assert!(starts_with("abc", ""));
    assert!(starts_with("abc", "abc"));
    assert!(!starts_with("ab", "abc"));
    assert!(!starts_with("abd", "abc"));
}

#[test]
fn ping_summary_fields() {
    assert_eq!(
        latency_field("rtt min/avg/max/mdev = 23.456/56.789/90.123/12.345 ms"),
        Some("56.789")
    );
    assert_eq!(
        latency_field("round-trip min/avg/max/stddev = 1.1/2.2/3.3/0.4 ms"),
        Some("2.2")
    );
    assert_eq!(latency_field("rtt min/avg = 1.5/2.25 "), Some("2.25"));
    assert_eq!(latency_field("rtt = 1.5"), None);
    assert_eq!(latency_field("rtt without summary"), None);
    assert_eq!(latency_field("64 bytes from 1.2.3.4: icmp_seq=1 ttl=57 time=1/2 ms"), None);
    assert_eq!(latency_field("rtt a = 1/2/3 = 4/5"), Some("2"));
    assert_eq!(latency_field(""), None);
}

#[test]
fn text_helpers() {
    assert!(contains_str("the rtt line", "rtt"));
    assert!(contains_str("abc", ""));
    assert!(!contains_str("rt", "rtt"));
    assert!(!contains_str("r t t", "rtt"));
    assert_eq!(second_field("a=b=c", '='), Some("b"));
    assert_eq!(second_field("a=", '='), Some(""));
    assert_eq!(second_field("abc", '='), None);
    assert_eq!(second_field("x/yz", '/'), Some("yz"));
}

#[test]
fn ping_summary_unicode_white_space() {
    assert_eq!(latency_field("rtt a =\u{a0}1/2\u{3000}"), Some("2"));
    assert_eq!(latency_field("rtt a =\t1/2 \n"), Some("2"));
}

#[test]
fn report_line_digits() {
    let stats = Stats::new();
    for _ in 0..1234 {
        stats.add_packet(Source::Reference);
    }
    stats.add_nanos(10_004_999);
    assert_eq!(
        stats.report(),
        "zdn-packet 0, reference-packet 1234, zdn-invalid 0, reference-invalid 0, \
         zdn-first 0, reference-first 0, forwarded 0, ms 10.00"
    );
    stats.add_nanos(5_000);
    assert!(stats.report().ends_with("ms 0.01"));
}
