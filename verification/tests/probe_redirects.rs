use captive_portal::addr::{decimal_string, PortalAddr};
use captive_portal::captive::CaptivePortal;
use captive_portal::portal::{handle_request, HttpMethod};

fn portal() -> PortalAddr {
    PortalAddr { o0: 192, o1: 168, o2: 42, o3: 1 }
}

#[test]
fn every_probe_path_redirects_to_the_portal_root() {
    let addr = portal();
    for path in CaptivePortal::probe_paths() {
        let mut memo = String::new();
        let reply = handle_request(addr, HttpMethod::Get, &path, &Vec::new(), &mut memo)
            .unwrap_or_else(|| panic!("probe path {} must be served", path));
        assert_eq!(reply.status, 302, "probe path {}", path);
        assert_eq!(
            reply.location.as_deref(),
            Some("http://192.168.42.1"),
            "probe path {}",
            path
        );
        assert_eq!(memo, "", "a probe must not touch the memo");
    }
}

#[test]
fn the_probe_table_is_exactly_the_known_paths() {
    let paths = CaptivePortal::probe_paths();
    assert_eq!(
        paths,
        vec![
            "/check_network_status.txt",
            "/connectivity-check.html",
            "/fwlink",
            "/gen_204",
            "/generate_204",
            "/hotspot-detect.html",
            "/library/test/success.html",
            "/ncsi.txt",
        ]
    );
}

#[test]
fn path_membership_matches_the_table() {
    for path in CaptivePortal::probe_paths() {
        assert!(CaptivePortal::path_is_probe(&path));
    }
    assert!(!CaptivePortal::path_is_probe(&String::from("/")));
    assert!(!CaptivePortal::path_is_probe(&String::from("/generate_20")));
    assert!(!CaptivePortal::path_is_probe(&String::from("/generate_204x")));
}

#[test]
fn redirect_location_is_http_and_the_dotted_address() {
    assert_eq!(CaptivePortal::redirect_location(portal()), "http://192.168.42.1");
    let other = PortalAddr { o0: 10, o1: 0, o2: 0, o3: 254 };
    assert_eq!(CaptivePortal::redirect_location(other), "http://10.0.0.254");
}

#[test]
fn octets_render_in_shortest_decimal() {
    assert_eq!(decimal_string(0), "0");
    assert_eq!(decimal_string(7), "7");
    assert_eq!(decimal_string(10), "10");
    assert_eq!(decimal_string(42), "42");
    assert_eq!(decimal_string(100), "100");
    assert_eq!(decimal_string(255), "255");
}

#[test]
fn non_probe_get_paths_are_not_served() {
    let mut memo = String::new();
    let r = handle_request(
        portal(),
        HttpMethod::Get,
        &String::from("/missing"),
        &Vec::new(),
        &mut memo,
    );
    assert!(r.is_none());
}

#[test]
fn post_is_only_served_on_the_root() {
    let mut memo = String::new();
    let r = handle_request(
        portal(),
        HttpMethod::Post,
        &String::from("/generate_204"),
        &b"memo=x".to_vec(),
        &mut memo,
    );
    assert!(r.is_none());
    assert_eq!(memo, "");
}
