use crate::addr::PortalAddr;
use crate::captive::is_probe_path;
use crate::captive::matches_lit;
use crate::captive::portal_location;
use crate::captive::CaptivePortal;
use crate::captive::HttpReply;
use crate::memo::memo_after_post;
use crate::memo::update_memo;
use vstd::prelude::*;
use vstd::string::StringExecFns;

verus! {

/// The part of the memo page before the current memo value.
pub open spec fn page_prefix() -> Seq<char> {
    "<!DOCTYPE html><html><head><meta charset=\"utf-8\"><title>Memo</title><link rel=\"stylesheet\" href=\"/styles.css\"></head><body><h1>Memo</h1><form method=\"post\" action=\"/\"><textarea name=\"memo\">"@
}

/// The part of the memo page after the current memo value.
pub open spec fn page_suffix() -> Seq<char> {
    "</textarea><button type=\"submit\">Save</button></form></body></html>"@
}

/// The rendered memo page: the template with the memo value in the
/// middle.
pub open spec fn rendered_page(memo: Seq<char>) -> Seq<char> {
    page_prefix() + memo + page_suffix()
}

/// The fixed stylesheet.
pub open spec fn stylesheet_text() -> Seq<char> {
    "body{font-family:sans-serif;margin:2em auto;max-width:40em}textarea{width:100%;height:8em}"@
}

/// Renders the page with the current memo value substituted in.
pub fn render_page(memo: &String) -> (r: String)
    ensures
        r@ == rendered_page(memo@),
{
    let mut page = String::from_str(
        "<!DOCTYPE html><html><head><meta charset=\"utf-8\"><title>Memo</title><link rel=\"stylesheet\" href=\"/styles.css\"></head><body><h1>Memo</h1><form method=\"post\" action=\"/\"><textarea name=\"memo\">",
    );
    page.append(memo.as_str());
    page.append("</textarea><button type=\"submit\">Save</button></form></body></html>");
    page
}

/// The stylesheet asset.
pub fn stylesheet() -> (r: String)
    ensures
        r@ == stylesheet_text(),
{
    String::from_str(
        "body{font-family:sans-serif;margin:2em auto;max-width:40em}textarea{width:100%;height:8em}",
    )
}

/// The root page handler: the rendered page under status 200, reading
/// the memo and changing nothing.
pub fn root_page_reply(memo: &String) -> (r: HttpReply)
    ensures
        r.status == 200,
        r.location is None,
        r.body@ == rendered_page(memo@),
{
    HttpReply {
        status: 200,
        location: None,
        content_type: None,
        body: render_page(memo),
    }
}

/// The stylesheet handler: the fixed asset under status 200 with its
/// content type.
pub fn stylesheet_reply() -> (r: HttpReply)
    ensures
        r.status == 200,
        r.location is None,
        r.content_type matches Some(c) && c@ == "text/css; charset=utf-8"@,
        r.body@ == stylesheet_text(),
{
    HttpReply {
        status: 200,
        location: None,
        content_type: Some(String::from_str("text/css; charset=utf-8")),
        body: stylesheet(),
    }
}

/// The memo submission handler: applies the body to the memo — a whole
/// write on a well-formed submission, no change on a malformed one —
/// and answers with a redirect to the root either way.
pub fn memo_post_reply(body: &Vec<u8>, memo: &mut String) -> (r: HttpReply)
    ensures
        final(memo)@ == memo_after_post(body@, old(memo)@),
        r.status == 302,
        r.location matches Some(l) && l@ == "/"@,
        r.body@ == Seq::<char>::empty(),
{
    update_memo(body, memo);
    HttpReply {
        status: 302,
        location: Some(String::from_str("/")),
        content_type: None,
        body: String::new(),
    }
}

/// An HTTP request method the portal distinguishes.
#[derive(Clone, Copy, PartialEq, Eq, Structural, Debug)]
pub enum HttpMethod {
    Get,
    Post,
}

/// The portal's whole routing table, as one decision: which reply a
/// request gets, and what happens to the memo. `None` stands for a path
/// the portal does not serve; only a POST to the root ever changes the
/// memo.
pub fn handle_request(
    addr: PortalAddr,
    method: HttpMethod,
    path: &String,
    body: &Vec<u8>,
    memo: &mut String,
) -> (r: Option<HttpReply>)
    ensures
        method == HttpMethod::Get && path@ == "/"@ ==> (r matches Some(rep) && rep.status == 200
            && rep.location is None && rep.body@ == rendered_page(old(memo)@)),
        method == HttpMethod::Get && path@ == "/styles.css"@ ==> (r matches Some(rep)
            && rep.status == 200 && (rep.content_type matches Some(c) && c@
            == "text/css; charset=utf-8"@) && rep.body@ == stylesheet_text()),
        method == HttpMethod::Get && is_probe_path(path@) ==> (r matches Some(rep) && rep.status
            == 302 && (rep.location matches Some(l) && l@ == portal_location(addr))),
        method == HttpMethod::Post && path@ == "/"@ ==> (r matches Some(rep) && rep.status == 302
            && (rep.location matches Some(l) && l@ == "/"@) && final(memo)@ == memo_after_post(
            body@,
            old(memo)@,
        )),
        !(method == HttpMethod::Post && path@ == "/"@) ==> *final(memo) == *old(memo),
        r is None <==> !(method == HttpMethod::Get && (path@ == "/"@ || path@ == "/styles.css"@
            || is_probe_path(path@)) || method == HttpMethod::Post && path@ == "/"@),
{
    // The served paths are pairwise distinct strings; their literals must
    // be revealed for the routing cases not to overlap.
    proof {
        reveal_strlit("/");
        reveal_strlit("/styles.css");
        reveal_strlit("/check_network_status.txt");
        reveal_strlit("/connectivity-check.html");
        reveal_strlit("/fwlink");
        reveal_strlit("/gen_204");
        reveal_strlit("/generate_204");
        reveal_strlit("/hotspot-detect.html");
        reveal_strlit("/library/test/success.html");
        reveal_strlit("/ncsi.txt");
        assert("/"@.len() == 1);
        assert("/styles.css"@.len() == 11);
        assert("/"@ != "/styles.css"@);
    }
    match method {
        HttpMethod::Get => {
            if matches_lit(path, "/") {
                Some(root_page_reply(memo))
            } else if matches_lit(path, "/styles.css") {
                Some(stylesheet_reply())
            } else if CaptivePortal::path_is_probe(path) {
                Some(CaptivePortal::probe_redirect(addr))
            } else {
                None
            }
        },
        HttpMethod::Post => {
            if matches_lit(path, "/") {
                Some(memo_post_reply(body, memo))
            } else {
                None
            }
        },
    }
}

} // verus!
