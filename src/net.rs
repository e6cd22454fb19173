use vstd::prelude::*;
use vstd::string::StrSliceExecFns;

verus! {

/// How a connection to the directory service is made.
#[derive(Debug, Clone, Copy, PartialEq, Eq, Structural)]
pub enum EndpointKind {
    /// Plain HTTP/2 over TCP.
    Http,
    /// HTTP/2 over TCP with TLS.
    Https,
    /// The entry is the path of a Unix domain socket.
    UnixSocket,
}

/// `p` is a prefix of `s`.
pub open spec fn has_prefix(s: Seq<char>, p: Seq<char>) -> bool {
    p.len() <= s.len() && s.subrange(0, p.len() as int) == p
}

/// Whether `s` starts with `p`, character by character.
pub fn starts_with(s: &str, p: &str) -> (r: bool)
    ensures
        r == has_prefix(s@, p@),
{
    let n = p.unicode_len();
    let m = s.unicode_len();
    if n > m {
        return false;
    }
    let mut i: usize = 0;
    while i < n
        invariant
            i <= n,
            n == p@.len(),
            n <= m,
            m == s@.len(),
            forall|j: int| 0 <= j < i ==> s@[j] == p@[j],
        decreases n - i,
    {
        if s.get_char(i) != p.get_char(i) {
            assert(s@.subrange(0, n as int)[i as int] != p@[i as int]);
            return false;
        }
        i = i + 1;
    }
    assert(s@.subrange(0, n as int) =~= p@);
    true
}

/// The kind of endpoint that a directory-service entry names: a URL with the
/// `https://` or `http://` scheme, or else a Unix socket path.
pub fn endpoint_kind(entry: &str) -> (r: EndpointKind)
    ensures
        r == if has_prefix(entry@, "https://"@) {
            EndpointKind::Https
        } else if has_prefix(entry@, "http://"@) {
            EndpointKind::Http
        } else {
            EndpointKind::UnixSocket
        },
{
    if starts_with(entry, "https://") {
        EndpointKind::Https
    } else if starts_with(entry, "http://") {
        EndpointKind::Http
    } else {
        EndpointKind::UnixSocket
    }
}

} // verus!
