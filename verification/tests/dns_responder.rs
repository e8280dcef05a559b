use captive_portal::addr::PortalAddr;
use captive_portal::dns::SimpleDns;

fn portal() -> PortalAddr {
    PortalAddr { o0: 192, o1: 168, o2: 42, o3: 1 }
}

/// A plausible single-question query: a 12-byte header followed by a
/// question for `example.com`, type A, class IN.
fn sample_query() -> Vec<u8> {
    let mut q = vec![0x1a, 0x2b, 0x01, 0x00, 0x00, 0x01, 0x00, 0x00, 0x00, 0x00, 0x00, 0x00];
    q.extend_from_slice(&[7]);
    q.extend_from_slice(b"example");
    q.extend_from_slice(&[3]);
    q.extend_from_slice(b"com");
    q.extend_from_slice(&[0, 0x00, 0x01, 0x00, 0x01]);
    q
}

#[test]
fn answers_small_query_with_marked_header_and_footer() {
    let dns = SimpleDns::new(portal());
    let query = sample_query();
    let out = dns.respond(&query).expect("small query must be answered");
    assert_eq!(out.len(), query.len() + 16);
    // The mirrored query, with bytes 2-3 OR'd with 0x8080 and byte 7 set.
    for i in 0..query.len() {
        let expect = match i {
            2 | 3 => query[i] | 0x80,
            7 => 0x01,
            _ => query[i],
        };
        assert_eq!(out[i], expect, "byte {} of the mirrored query", i);
    }
    // The fixed answer record.
    let footer = &out[query.len()..];
    assert_eq!(
        footer,
        &[0xc0, 0x0c, 0x00, 0x01, 0x00, 0x01, 0x00, 0x00, 0x00, 0x0a, 0x00, 0x04, 192, 168, 42, 1]
    );
}

#[test]
fn footer_always_ends_in_the_portal_octets() {
    let addr = PortalAddr { o0: 10, o1: 0, o2: 255, o3: 7 };
    let dns = SimpleDns::new(addr);
    let out = dns.respond(&sample_query()).unwrap();
    assert_eq!(&out[out.len() - 4..], &[10, 0, 255, 7]);
}

#[test]
fn empty_datagram_gets_bare_answer_record() {
    let dns = SimpleDns::new(portal());
    let out = dns.respond(&Vec::new()).unwrap();
    assert_eq!(
        out,
        vec![0xc0, 0x0c, 0x00, 0x01, 0x00, 0x01, 0x00, 0x00, 0x00, 0x0a, 0x00, 0x04, 192, 168, 42, 1]
    );
}

#[test]
fn oversized_query_is_dropped() {
    let dns = SimpleDns::new(portal());
    let query = vec![0u8; 101];
    assert!(dns.respond(&query).is_none());
}

#[test]
fn boundary_length_query_is_still_answered() {
    let dns = SimpleDns::new(portal());
    let query = vec![0u8; 100];
    let out = dns.respond(&query).expect("100 bytes is within the bound");
    assert_eq!(out.len(), 116);
}

#[test]
fn same_query_twice_gives_identical_responses() {
    let dns = SimpleDns::new(portal());
    let query = sample_query();
    let first = dns.respond(&query).unwrap();
    let second = dns.respond(&query).unwrap();
    assert_eq!(first, second);
}

#[test]
fn different_queries_share_a_bit_identical_footer() {
    let dns = SimpleDns::new(portal());
    let q1 = sample_query();
    let mut q2 = sample_query();
    q2[0] = 0xff;
    q2.push(0x99);
    let r1 = dns.respond(&q1).unwrap();
    let r2 = dns.respond(&q2).unwrap();
    assert_eq!(&r1[r1.len() - 16..], &r2[r2.len() - 16..]);
    // Each response mirrors its own query up to the header marks.
    assert_eq!(r1[0], q1[0]);
    assert_eq!(r2[0], 0xff);
}
