use vstd::prelude::*;

use super::heap::TunnelId;

verus! {

/// How far one direction of an exchange has come.
#[derive(Copy, Clone, Debug, PartialEq, Eq, Structural)]
pub enum HTTPStage {
    Pending,
    Headers,
    Body,
    BodyChunk,
    Fail,
    Done,
    ProxyHandshake,
    ProxyHeaders,
}

/// How far a request as a whole has come.
#[derive(Copy, Clone, Debug, PartialEq, Eq, Structural)]
pub enum Stage {
    Pending,
    Connect,
    Done,
    Fail,
}

/// Facts about the client that outlive one exchange.
#[derive(Copy, Clone, Debug, PartialEq, Eq, Structural)]
pub struct ClientFlags {
    pub did_have_handshaking_error: bool,
    pub reject_unauthorized: bool,
    pub proxy_tunneling: bool,
}

/// The state of the exchange that a client is in.
#[derive(Copy, Clone, Debug, PartialEq, Eq, Structural)]
pub struct InternalState {
    pub stage: Stage,
    pub request_stage: HTTPStage,
    pub response_stage: HTTPStage,
    pub request_sent_len: usize,
    /// The response whose headers have been read, by its handle.
    pub pending_response: Option<u64>,
    pub content_length: Option<usize>,
    /// Whether the body comes in chunks.
    pub chunked_encoding: bool,
    /// Where the chunk decoder stands.
    pub chunked_decoder_state: u8,
    pub is_redirect_pending: bool,
    pub received_last_chunk: bool,
}

/// What a tunnel sees of the client that uses it.
pub struct HTTPClient {
    /// Names the client among all clients.
    pub id: u64,
    /// A name that replaces the one in the URL, as bytes.
    pub hostname: Option<Vec<u8>>,
    /// The host of the URL, as bytes.
    pub url_hostname: Vec<u8>,
    pub state: InternalState,
    pub flags: ClientFlags,
    /// The tunnel that the client holds a reference to.
    pub proxy_tunnel: Option<TunnelId>,
}

impl InternalState {
    /// The decoder has read the last chunk and is at, or inside, the trailers.
    pub open spec fn in_trailers(&self) -> bool {
        self.chunked_decoder_state == 4 || self.chunked_decoder_state == 5
    }

    /// The response is still awaited and no redirect is about to replace it.
    pub open spec fn in_progress(&self) -> bool {
        self.stage != Stage::Done && self.stage != Stage::Fail && !self.is_redirect_pending
    }

    /// An end of the stream now ends the response: the last chunk has been seen,
    /// or the body has no announced length and runs to the end of the stream.
    pub open spec fn ends_at_eof(&self) -> bool {
        if self.chunked_encoding {
            self.in_trailers()
        } else {
            self.content_length is None && self.response_stage == HTTPStage::Body
        }
    }

    /// Whether closing the connection now completes the response rather than failing it.
    pub fn completes_on_close(&self) -> (r: bool)
        ensures
            r == (self.in_progress() && self.ends_at_eof()),
    {
        let in_progress = self.stage != Stage::Done && self.stage != Stage::Fail
            && !self.is_redirect_pending;
        if !in_progress {
            return false;
        }
        if self.chunked_encoding {
            match self.chunked_decoder_state {
                4 | 5 => true,
                _ => false,
            }
        } else {
            self.content_length.is_none() && self.response_stage == HTTPStage::Body
        }
    }
}

impl HTTPClient {
    /// The name that the server's certificate is held against.
    pub open spec fn server_name(&self) -> Seq<u8> {
        match self.hostname {
            Some(h) => h@,
            None => self.url_hostname@,
        }
    }

    /// The replacement name where there is one, else the host of the URL.
    pub fn effective_hostname(&self) -> (r: &[u8])
        ensures
            r@ == self.server_name(),
    {
        match &self.hostname {
            Some(h) => h.as_slice(),
            None => self.url_hostname.as_slice(),
        }
    }
}

} // verus!
