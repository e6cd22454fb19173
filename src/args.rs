use vstd::prelude::*;

verus! {

/// Transport protocol of the local validator's traffic that is captured.
#[derive(Debug, Clone, Copy, PartialEq, Eq, Structural)]
pub enum Protocol {
    Udp,
    Tcp,
}

impl Protocol {
    /// Keyword of the protocol in a capture filter expression.
    pub fn keyword(&self) -> (r: &'static str)
        ensures
            *self == Protocol::Udp ==> r@ == "udp"@,
            *self == Protocol::Tcp ==> r@ == "tcp"@,
    {
        match self {
            Protocol::Udp => "udp",
            Protocol::Tcp => "tcp",
        }
    }
}

/// Logical origin of a packet: the primary relay, or the optional reference
/// stream that is counted but never forwarded.
#[derive(Debug, Clone, Copy, PartialEq, Eq, Structural)]
pub enum Source {
    Zdn,
    Reference,
}

/// Number of `Source` variants.
pub const SOURCE_COUNT: usize = 2;

impl Source {
    /// Position of the source in per-source tables.
    pub open spec fn ord(self) -> nat {
        match self {
            Source::Zdn => 0,
            Source::Reference => 1,
        }
    }

    pub fn index(&self) -> (r: usize)
        ensures
            r == self.ord(),
            r < SOURCE_COUNT,
    {
        match self {
            Source::Zdn => 0,
            Source::Reference => 1,
        }
    }
}

} // verus!
