//! The middleware that wraps the route surface of every worker.

use vstd::prelude::*;
use vstd::string::StringExecFns;
use crate::session::SessionKey;

verus! {

/// The largest JSON request body a worker reads, in bytes. It is fixed:
/// collaboration payloads travel by another channel.
pub const JSON_BODY_LIMIT: usize = 4096;

/// The name of the session cookie.
pub const HEADER_TOKEN: &'static str = "token";

/// One layer of middleware round the routes.
#[derive(Clone, Copy, Debug, PartialEq, Eq, Structural)]
pub enum Layer {
    /// Associates a request with an authenticated identity, if it has one.
    Identity,
    /// Restores the session from its encrypted cookie and the session store.
    Session,
    /// Applies the cross-origin policy.
    Cors,
    /// Opens and closes the trace span of a request.
    Tracing,
}

/// The layers in the order in which they are wrapped round the routes. A
/// layer wrapped later lies further out and meets a request earlier, so
/// tracing sees the whole of every request and response, and the session is
/// restored before identity tracking reads it.
pub open spec fn wrap_order() -> Seq<Layer> {
    seq![Layer::Identity, Layer::Session, Layer::Cors, Layer::Tracing]
}

/// What one worker wraps round its routes.
pub struct WorkerApp {
    /// The layers, innermost first.
    pub layers: Vec<Layer>,
    /// The key of the session layer.
    pub session_key: SessionKey,
    /// The cookie that the session layer reads and writes.
    pub cookie_name: String,
    /// The largest JSON body accepted, in bytes.
    pub json_limit: usize,
}

impl WorkerApp {
    /// The worker has the fixed layers in their order, the given session
    /// key, the fixed cookie name and the fixed JSON limit.
    pub open spec fn composed_with(self, key: Seq<u8>) -> bool {
        &&& self.layers@ == wrap_order()
        &&& self.session_key@ == key
        &&& self.cookie_name@ == HEADER_TOKEN@
        &&& self.json_limit == JSON_BODY_LIMIT
    }
}

/// The middleware of one worker, for the session key of the process.
pub fn compose(key: &SessionKey) -> (r: WorkerApp)
    ensures
        r.composed_with(key@),
{
    let mut layers: Vec<Layer> = Vec::new();
    layers.push(Layer::Identity);
    layers.push(Layer::Session);
    layers.push(Layer::Cors);
    layers.push(Layer::Tracing);
    assert(layers@ =~= wrap_order());
    WorkerApp {
        layers,
        session_key: *key,
        cookie_name: String::from_str(HEADER_TOKEN),
        json_limit: JSON_BODY_LIMIT,
    }
}

} // verus!
