use crate::addr::PortalAddr;
use vstd::prelude::*;

verus! {

/// Largest datagram the responder will answer. Legitimate single-question
/// queries from constrained clients are small; anything longer is dropped
/// so that appending the fixed answer record can never overrun a buffer.
pub const MAX_QUERY_LEN: usize = 100;

/// The fixed 16-byte answer record appended to every query: a
/// name-compression pointer to offset 12 (the start of the question),
/// type A, class IN, a 10-second TTL, RDLENGTH 4, and the portal's
/// address as RDATA.
pub open spec fn answer_template(a: PortalAddr) -> Seq<u8> {
    seq![
        0xc0u8,
        0x0cu8,
        0x00u8,
        0x01u8,
        0x00u8,
        0x01u8,
        0x00u8,
        0x00u8,
        0x00u8,
        0x0au8,
        0x00u8,
        0x04u8,
    ] + a.octets()
}

/// The query bytes with the header marked as a response: the QR and RA
/// flag bits set (bytes 2 and 3 OR'd with 0x80) and the answer count set
/// to one (byte 7). Positions past the end of the datagram are untouched;
/// a datagram shorter than a full header simply has fewer bytes to mark.
pub open spec fn mark_as_response(q: Seq<u8>) -> Seq<u8> {
    q.map(
        |i: int, b: u8|
            if i == 2 || i == 3 {
                b | 0x80
            } else if i == 7 {
                1u8
            } else {
                b
            },
    )
}

/// The full response to an accepted query: the marked query followed by
/// the answer template.
pub open spec fn response_bytes(q: Seq<u8>, a: PortalAddr) -> Seq<u8> {
    mark_as_response(q) + answer_template(a)
}

/// A DNS responder that answers every query with the portal's own
/// address. It never parses the question: the answer record points back
/// at the query's own question section, so one precomputed footer fits
/// every name a client may ask for.
pub struct SimpleDns {
    addr: PortalAddr,
    footer: Vec<u8>,
}

impl SimpleDns {
    /// The address every answer resolves to.
    pub closed spec fn spec_addr(self) -> PortalAddr {
        self.addr
    }

    /// The precomputed footer always holds the answer template for the
    /// configured address.
    pub closed spec fn wf(self) -> bool {
        self.footer@ == answer_template(self.addr)
    }

    /// Builds a responder for the given portal address, precomputing the
    /// answer record with the address embedded as RDATA.
    pub fn new(addr: PortalAddr) -> (r: SimpleDns)
        ensures
            r.wf(),
            r.spec_addr() == addr,
    {
        let mut footer: Vec<u8> = Vec::new();
        footer.push(0xc0);
        footer.push(0x0c);
        footer.push(0x00);
        footer.push(0x01);
        footer.push(0x00);
        footer.push(0x01);
        footer.push(0x00);
        footer.push(0x00);
        footer.push(0x00);
        footer.push(0x0a);
        footer.push(0x00);
        footer.push(0x04);
        footer.push(addr.o0);
        footer.push(addr.o1);
        footer.push(addr.o2);
        footer.push(addr.o3);
        proof {
            assert(footer@ =~= answer_template(addr));
        }
        SimpleDns { addr, footer }
    }

    /// Synthesizes the answer to one received datagram. An oversized
    /// datagram yields `None` and must be dropped (the caller logs a
    /// warning); any other datagram yields the mirrored query with its
    /// header marked and the answer record appended.
    pub fn respond(&self, query: &Vec<u8>) -> (r: Option<Vec<u8>>)
        requires
            self.wf(),
        ensures
            query@.len() > MAX_QUERY_LEN ==> r is None,
            query@.len() <= MAX_QUERY_LEN ==> (r matches Some(out) && out@ == response_bytes(
                query@,
                self.spec_addr(),
            )),
    {
        if query.len() > MAX_QUERY_LEN {
            return None;
        }
        let mut out: Vec<u8> = Vec::new();
        let mut i: usize = 0;
        while i < query.len()
            invariant
                i <= query.len(),
                out@ =~= mark_as_response(query@).take(i as int),
            decreases query.len() - i,
        {
            let b = query[i];
            let t = if i == 2 || i == 3 {
                b | 0x80
            } else if i == 7 {
                1
            } else {
                b
            };
            out.push(t);
            proof {
                assert(out@ =~= mark_as_response(query@).take(i + 1 as int));
            }
            i = i + 1;
        }
        let mut j: usize = 0;
        while j < self.footer.len()
            invariant
                j <= self.footer.len(),
                out@ =~= mark_as_response(query@) + self.footer@.take(j as int),
            decreases self.footer.len() - j,
        {
            out.push(self.footer[j]);
            proof {
                assert(out@ =~= mark_as_response(query@) + self.footer@.take(j + 1 as int));
            }
            j = j + 1;
        }
        proof {
            assert(out@ =~= response_bytes(query@, self.spec_addr()));
        }
        Some(out)
    }
}

/// The answer template is sixteen bytes, and its last four are exactly
/// the portal address's octets, whatever the address.
pub proof fn lemma_template_carries_address(a: PortalAddr)
    ensures
        answer_template(a).len() == 16,
        answer_template(a).skip(12) == a.octets(),
{
    assert(answer_template(a).skip(12) =~= a.octets());
}

/// Two accepted queries, equal or not, are answered with bit-identical
/// footers: each response mirrors its own query's bytes, and past them
/// the appended sixteen bytes are the same in both. Issuing the same
/// query twice therefore yields the same response twice.
pub proof fn lemma_footer_identical(a: PortalAddr, q1: Seq<u8>, q2: Seq<u8>)
    ensures
        response_bytes(q1, a).len() == q1.len() + 16,
        response_bytes(q1, a).take(q1.len() as int) == mark_as_response(q1),
        response_bytes(q1, a).skip(q1.len() as int) == response_bytes(q2, a).skip(
            q2.len() as int,
        ),
{
    lemma_template_carries_address(a);
    assert(response_bytes(q1, a).take(q1.len() as int) =~= mark_as_response(q1));
    assert(response_bytes(q1, a).skip(q1.len() as int) =~= answer_template(a));
    assert(response_bytes(q2, a).skip(q2.len() as int) =~= answer_template(a));
}

} // verus!
