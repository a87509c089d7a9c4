//! Request routing and response framing for a tiny HTTP server.

use vstd::prelude::*;
use vstd::string::StringSliceAdditionalSpecFns;

verus! {

/// What to answer to a request.
#[derive(Clone, Copy, Debug, PartialEq, Eq)]
pub struct Route {
    /// The status line of the response, without its line break.
    pub status_line: &'static str,
    /// The file whose contents make up the body.
    pub filename: &'static str,
    /// How many seconds to wait before answering.
    pub delay_secs: u64,
}

/// The route of a request: the front page for a request line that asks for
/// `/`, the front page after a pause of five seconds for one that asks for
/// `/sleep`, and the error page for everything else.
pub open spec fn route_of(request: Seq<u8>) -> Route {
    if "GET / HTTP/1.1\r\n".spec_bytes().is_prefix_of(request) {
        Route { status_line: "HTTP/1.1 200 OK", filename: "hello.html", delay_secs: 0 }
    } else if "GET /sleep HTTP/1.1\r\n".spec_bytes().is_prefix_of(request) {
        Route { status_line: "HTTP/1.1 200 OK", filename: "hello.html", delay_secs: 5 }
    } else {
        Route { status_line: "HTTP/1.1 404 NOT FOUND", filename: "404.html", delay_secs: 0 }
    }
}

/// The decimal digits of `n` in ASCII, most significant first.
pub open spec fn decimal(n: nat) -> Seq<u8>
    decreases n,
{
    if n < 10 {
        seq![(48 + n) as u8]
    } else {
        decimal(n / 10).push((48 + n % 10) as u8)
    }
}

/// A response as it goes over the wire: the status line, the length of the
/// body in bytes, an empty line, and the body.
pub open spec fn response_of(status_line: &str, contents: &str) -> Seq<u8> {
    status_line.spec_bytes() + "\r\nContent-Length: ".spec_bytes() + decimal(
        contents.len() as nat,
    ) + "\r\n\r\n".spec_bytes() + contents.spec_bytes()
}

/// Whether `buffer` begins with `prefix`.
pub fn starts_with(buffer: &[u8], prefix: &[u8]) -> (hit: bool)
    ensures
        hit == prefix@.is_prefix_of(buffer@),
{
    if prefix.len() > buffer.len() {
        return false;
    }
    let mut at: usize = 0;
    while at < prefix.len()
        invariant
            at <= prefix@.len() <= buffer@.len(),
            forall|i: int| 0 <= i < at ==> prefix@[i] == buffer@[i],
        decreases prefix@.len() - at,
    {
        if prefix[at] != buffer[at] {
            assert(buffer@.subrange(0, prefix@.len() as int)[at as int] != prefix@[at as int]);
            return false;
        }
        at = at + 1;
    }
    assert(buffer@.subrange(0, prefix@.len() as int) =~= prefix@);
    true
}

/// Decides what to answer to the request that begins with `request`.
pub fn route(request: &[u8]) -> (route: Route)
    ensures
        route == route_of(request@),
{
    if starts_with(request, "GET / HTTP/1.1\r\n".as_bytes()) {
        Route { status_line: "HTTP/1.1 200 OK", filename: "hello.html", delay_secs: 0 }
    } else if starts_with(request, "GET /sleep HTTP/1.1\r\n".as_bytes()) {
        Route { status_line: "HTTP/1.1 200 OK", filename: "hello.html", delay_secs: 5 }
    } else {
        Route { status_line: "HTTP/1.1 404 NOT FOUND", filename: "404.html", delay_secs: 0 }
    }
}

/// Appends the decimal digits of `n` to `out`.
pub fn push_decimal(out: &mut Vec<u8>, n: usize)
    ensures
        final(out)@ == old(out)@ + decimal(n as nat),
    decreases n,
{
    if n >= 10 {
        push_decimal(out, n / 10);
    }
    let digit: u8 = (n % 10) as u8;
    out.push(48 + digit);
    proof {
        assert(final(out)@ =~= old(out)@ + decimal(n as nat));
    }
}

fn push_bytes(out: &mut Vec<u8>, bytes: &[u8])
    ensures
        final(out)@ == old(out)@ + bytes@,
{
    let mut at: usize = 0;
    while at < bytes.len()
        invariant
            at <= bytes@.len(),
            out@ == old(out)@ + bytes@.take(at as int),
        decreases bytes@.len() - at,
    {
        out.push(bytes[at]);
        at = at + 1;
        proof {
            assert(out@ =~= old(out)@ + bytes@.take(at as int));
        }
    }
    proof {
        assert(bytes@.take(at as int) =~= bytes@);
    }
}

/// Frames a response: the status line, the length of the body in bytes, an
/// empty line, and the body.
pub fn response(status_line: &str, contents: &str) -> (framed: Vec<u8>)
    ensures
        framed@ == response_of(status_line, contents),
{
    let mut framed = Vec::new();
    push_bytes(&mut framed, status_line.as_bytes());
    push_bytes(&mut framed, "\r\nContent-Length: ".as_bytes());
    push_decimal(&mut framed, contents.len());
    push_bytes(&mut framed, "\r\n\r\n".as_bytes());
    push_bytes(&mut framed, contents.as_bytes());
    proof {
        assert(framed@ =~= response_of(status_line, contents));
    }
    framed
}

} // verus!
