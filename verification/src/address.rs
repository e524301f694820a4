//! Where the registry answers, and how much can be added to that.

use vstd::prelude::*;

verus! {

/// Where to ask for something.
#[derive(Debug)]
pub struct Address {
    pub url: url::Url,
}

/// Where the parts of an address end, in bytes from its start.
#[derive(Debug, Copy, Clone, PartialEq, Eq, Structural)]
pub struct Ends {
    /// The end of the path.
    pub path: usize,
    /// The end of the query, or of the path where there is no query.
    pub query: usize,
    /// The end of the address. It lies behind that of the query where there is a fragment.
    pub whole: usize,
}

impl Ends {
    /// A query of so many bytes can be put in place of the one that the address has: the places
    /// of the query and of the fragment behind it still fit into 32 bits.
    pub open spec fn takes_query(self, length: nat) -> bool {
        &&& self.path <= u32::MAX
        &&& self.query < self.whole ==> self.query < u32::MAX && self.path + 1 + length <= u32::MAX
    }

    /// A pair can be added to the query of the address, which has no fragment: the place of the
    /// query fits into 32 bits.
    pub open spec fn takes_pair(self) -> bool {
        &&& self.path <= u32::MAX
        &&& self.query == self.whole
    }

    /// Whether a query of so many bytes can be put in.
    pub fn can_take_query(&self, length: usize) -> (r: bool)
        ensures
            r == self.takes_query(length as nat),
    {
        let limit: u128 = 0xffff_ffff;
        let fits = self.path as u128 <= limit;
        let fragment_fits = (self.query as u128) < limit && self.path as u128 + 1 + length as u128
            <= limit;
        fits && (self.query >= self.whole || fragment_fits)
    }

    /// Whether a pair can be added.
    pub fn can_take_pair(&self) -> (r: bool)
        ensures
            r == self.takes_pair(),
    {
        self.path as u128 <= 0xffff_ffff && self.query == self.whole
    }
}

} // verus!
