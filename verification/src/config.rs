use vstd::prelude::*;

verus! {

/// Whether `authorization` headers survive a redirect: never, or only
/// when the redirect stays on the same host (and no less secure a scheme).
#[derive(Clone, Copy, PartialEq, Eq, Structural, Debug)]
pub enum RedirectAuthHeaders {
    Never,
    SameHost,
}

/// Shared, read-only configuration for a call.
#[derive(Clone, Copy, PartialEq, Eq, Structural, Debug)]
pub struct AgentConfig {
    /// Most bytes the response status line and headers may occupy in a
    /// single `Data` input.
    pub max_response_header_size: usize,
    /// Most redirections followed before a response is handed back as
    /// final.
    pub max_redirects: u32,
    /// Policy for keeping `authorization` headers across redirects.
    pub redirect_auth_headers: RedirectAuthHeaders,
}

/// Optional per-phase timeouts and an optional global timeout, all in
/// milliseconds. An absent entry means only the global deadline applies.
#[derive(Clone, Copy, PartialEq, Eq, Structural, Debug)]
pub struct Timeouts {
    pub global: Option<u64>,
    pub resolve: Option<u64>,
    pub connect: Option<u64>,
    pub send_request: Option<u64>,
    pub send_body: Option<u64>,
    pub await_100: Option<u64>,
    pub recv_response: Option<u64>,
    pub recv_body: Option<u64>,
}

impl Timeouts {
    /// No deadline of any kind.
    pub fn unlimited() -> (r: Timeouts)
        ensures
            r.global is None,
            r.resolve is None,
            r.connect is None,
            r.send_request is None,
            r.send_body is None,
            r.await_100 is None,
            r.recv_response is None,
            r.recv_body is None,
    {
        Timeouts {
            global: None,
            resolve: None,
            connect: None,
            send_request: None,
            send_body: None,
            await_100: None,
            recv_response: None,
            recv_body: None,
        }
    }
}

} // verus!
