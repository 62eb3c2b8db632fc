use vstd::prelude::*;

use crate::time::TimeoutReason;

verus! {

/// Everything that can abort a call.
pub enum Error {
    /// A deadline was reached; the reason localises which one.
    Timeout(TimeoutReason),
    /// The peer closed the connection while input was awaited.
    Disconnected,
    /// One `Data` input offered more header bytes than the configured
    /// limit without completing the response head: `(offered, limit)`.
    LargeResponseHeader(usize, usize),
    /// A redirection response arrived but no follow-up request could be
    /// derived from it.
    RedirectFailed,
    /// The outgoing body ended before the announced request framing was
    /// complete, so the call cannot move on to the response.
    BodyStalled,
    /// The server declined the 100-continue negotiation; the wire
    /// library in use cannot receive the response that follows on that
    /// path, so the call is aborted rather than crashed.
    Expect100Rejected,
    /// A parse, framing or validation error of the wire library.
    Flow(hoot::Error),
}

impl Error {
    /// A short name for the error kind, for logs and messages.
    pub fn label(&self) -> (r: &'static str)
        ensures
            self is Timeout ==> r@ == "timeout"@,
            self is Disconnected ==> r@ == "disconnected"@,
            self is LargeResponseHeader ==> r@ == "large response header"@,
            self is RedirectFailed ==> r@ == "redirect failed"@,
            self is BodyStalled ==> r@ == "body stalled"@,
            self is Expect100Rejected ==> r@ == "expect-100 rejected"@,
            self is Flow ==> r@ == "flow"@,
    {
        proof {
            reveal_strlit("timeout");
            reveal_strlit("disconnected");
            reveal_strlit("large response header");
            reveal_strlit("redirect failed");
            reveal_strlit("body stalled");
            reveal_strlit("expect-100 rejected");
            reveal_strlit("flow");
        }
        match self {
            Error::Timeout(_) => "timeout",
            Error::Disconnected => "disconnected",
            Error::LargeResponseHeader(_, _) => "large response header",
            Error::RedirectFailed => "redirect failed",
            Error::BodyStalled => "body stalled",
            Error::Expect100Rejected => "expect-100 rejected",
            Error::Flow(_) => "flow",
        }
    }
}

} // verus!
