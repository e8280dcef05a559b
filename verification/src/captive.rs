use crate::addr::address_string;
use crate::addr::dotted_decimal;
use crate::addr::PortalAddr;
use vstd::prelude::*;
use vstd::string::StringExecFns;

verus! {

/// One HTTP response of the portal, ready for a transport to send:
/// a status code, the `Location` and `Content-Type` headers where the
/// handler sets them, and the body text.
pub struct HttpReply {
    pub status: u16,
    pub location: Option<String>,
    pub content_type: Option<String>,
    pub body: String,
}

/// Where every probe is redirected: `http://` followed by the portal
/// address in dotted decimal.
pub open spec fn portal_location(a: PortalAddr) -> Seq<char> {
    "http://"@ + dotted_decimal(a)
}

/// The fixed table of connectivity-probe paths: the paths client
/// operating systems request to see whether a network reaches the
/// internet. Each must answer with a redirect to the portal root, so
/// that the client surfaces the portal page.
pub open spec fn is_probe_path(p: Seq<char>) -> bool {
    ||| p == "/check_network_status.txt"@
    ||| p == "/connectivity-check.html"@
    ||| p == "/fwlink"@
    ||| p == "/gen_204"@
    ||| p == "/generate_204"@
    ||| p == "/hotspot-detect.html"@
    ||| p == "/library/test/success.html"@
    ||| p == "/ncsi.txt"@
}

/// True exactly when the path and the literal are the same string.
pub fn matches_lit(path: &String, lit: &str) -> (r: bool)
    ensures
        r == (path@ == lit@),
{
    let l = String::from_str(lit);
    path.eq(&l)
}

/// The captive-probe redirect table.
pub struct CaptivePortal;

impl CaptivePortal {
    /// The probe paths, in a fixed order: every listed path is in the
    /// table, and every path of the table is listed.
    pub fn probe_paths() -> (r: Vec<String>)
        ensures
            r@.len() == 8,
            r@[0]@ == "/check_network_status.txt"@,
            r@[1]@ == "/connectivity-check.html"@,
            r@[2]@ == "/fwlink"@,
            r@[3]@ == "/gen_204"@,
            r@[4]@ == "/generate_204"@,
            r@[5]@ == "/hotspot-detect.html"@,
            r@[6]@ == "/library/test/success.html"@,
            r@[7]@ == "/ncsi.txt"@,
            forall|i: int| 0 <= i < r@.len() ==> is_probe_path(#[trigger] r@[i]@),
            forall|p: Seq<char>|
                is_probe_path(p) ==> exists|i: int| 0 <= i < r@.len() && #[trigger] r@[i]@ == p,
    {
        let mut v: Vec<String> = Vec::new();
        v.push(String::from_str("/check_network_status.txt"));
        v.push(String::from_str("/connectivity-check.html"));
        v.push(String::from_str("/fwlink"));
        v.push(String::from_str("/gen_204"));
        v.push(String::from_str("/generate_204"));
        v.push(String::from_str("/hotspot-detect.html"));
        v.push(String::from_str("/library/test/success.html"));
        v.push(String::from_str("/ncsi.txt"));
        proof {
            assert forall|p: Seq<char>| is_probe_path(p) implies exists|i: int|
                0 <= i < v@.len() && #[trigger] v@[i]@ == p by {
                if p == "/check_network_status.txt"@ {
                    assert(v@[0]@ == p);
                } else if p == "/connectivity-check.html"@ {
                    assert(v@[1]@ == p);
                } else if p == "/fwlink"@ {
                    assert(v@[2]@ == p);
                } else if p == "/gen_204"@ {
                    assert(v@[3]@ == p);
                } else if p == "/generate_204"@ {
                    assert(v@[4]@ == p);
                } else if p == "/hotspot-detect.html"@ {
                    assert(v@[5]@ == p);
                } else if p == "/library/test/success.html"@ {
                    assert(v@[6]@ == p);
                } else {
                    assert(v@[7]@ == p);
                }
            }
        }
        v
    }

    /// True exactly when the path is in the probe table.
    pub fn path_is_probe(path: &String) -> (r: bool)
        ensures
            r == is_probe_path(path@),
    {
        matches_lit(path, "/check_network_status.txt") || matches_lit(
            path,
            "/connectivity-check.html",
        ) || matches_lit(path, "/fwlink") || matches_lit(path, "/gen_204") || matches_lit(
            path,
            "/generate_204",
        ) || matches_lit(path, "/hotspot-detect.html") || matches_lit(
            path,
            "/library/test/success.html",
        ) || matches_lit(path, "/ncsi.txt")
    }

    /// The redirect target of every probe handler.
    pub fn redirect_location(addr: PortalAddr) -> (r: String)
        ensures
            r@ == portal_location(addr),
    {
        let mut s = String::from_str("http://");
        let a = address_string(addr);
        s.append(a.as_str());
        s
    }

    /// The response every probe path is answered with, whatever the
    /// path: a redirect to the portal root, reading nothing and
    /// changing nothing.
    pub fn probe_redirect(addr: PortalAddr) -> (r: HttpReply)
        ensures
            r.status == 302,
            r.location matches Some(l) && l@ == portal_location(addr),
            r.content_type is None,
            r.body@ == Seq::<char>::empty(),
    {
        HttpReply {
            status: 302,
            location: Some(Self::redirect_location(addr)),
            content_type: None,
            body: String::new(),
        }
    }
}

} // verus!
