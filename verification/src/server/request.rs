//! The parsed request produced once per accepted connection.

use crate::server::http::{Method, Version};
use vstd::prelude::*;

verus! {

/// A parsed request: method, URI and version from the request line,
/// and the header lines in the order they were received. Header names
/// are case-sensitive as received.
#[derive(Debug)]
pub struct Request {
    pub method: Method,
    pub uri: String,
    pub version: Version,
    pub headers: Vec<(String, String)>,
}

/// The characters of a sequence of header pairs.
pub open spec fn spec_headers_view(h: Seq<(String, String)>) -> Seq<(Seq<char>, Seq<char>)> {
    Seq::new(h.len(), |i: int| (h[i].0@, h[i].1@))
}

/// The mapping the headers denote: each name bound to the value of its
/// last occurrence (a later line for the same name wins).
pub open spec fn spec_header_map(h: Seq<(Seq<char>, Seq<char>)>) -> Map<Seq<char>, Seq<char>>
    decreases h.len(),
{
    if h.len() == 0 {
        Map::empty()
    } else {
        spec_header_map(h.drop_last()).insert(h.last().0, h.last().1)
    }
}

impl Request {
    /// The header lines as character sequences, in received order.
    pub open spec fn headers_seq(&self) -> Seq<(Seq<char>, Seq<char>)> {
        spec_headers_view(self.headers@)
    }

    /// The header mapping, last occurrence of a name winning.
    pub open spec fn header_map(&self) -> Map<Seq<char>, Seq<char>> {
        spec_header_map(self.headers_seq())
    }

    /// Records one header line; an earlier binding of the same name is
    /// superseded in the mapping.
    pub fn insert_header(&mut self, name: String, value: String)
        ensures
            final(self).method == old(self).method,
            final(self).uri == old(self).uri,
            final(self).version == old(self).version,
            final(self).headers@ == old(self).headers@.push((name, value)),
            final(self).header_map() == old(self).header_map().insert(name@, value@),
    {
        self.headers.push((name, value));
        proof {
            assert(self.headers_seq().drop_last() =~= old(self).headers_seq());
            assert(self.header_map() =~= old(self).header_map().insert(name@, value@));
        }
    }
}

} // verus!
