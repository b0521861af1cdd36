use vstd::prelude::*;

verus! {

/// Why a request could not be answered.
///
/// The two kinds are machine-distinguishable on purpose: a method that is
/// declared by the serving contract but not yet backed by logic answers
/// `Unsupported`, while a failed node call behind an implemented method
/// answers `Upstream`. Neither is ever turned into the other.
#[derive(Clone, Debug)]
pub enum RpcError {
    /// The method is contractually declared but not yet implemented. The
    /// method's name is carried so callers and logs can tell which
    /// capability is missing.
    Unsupported { method: String },
    /// The node call behind the method failed (transport, authentication,
    /// malformed response, or the node reporting an error); the underlying
    /// error's description is kept as opaque text.
    Upstream { message: String },
}

impl RpcError {
    /// The uniform answer of every stub method: an `Unsupported` error
    /// carrying the method's name, never a success value.
    pub fn unsupported<T>(method: &str) -> (r: Result<T, RpcError>)
        ensures
            r matches Err(e) && e matches RpcError::Unsupported { method: m } && m@ == method@,
    {
        Err(RpcError::Unsupported { method: method.to_owned() })
    }

    /// A failed node call, surfaced with the underlying description
    /// retained as text.
    pub fn upstream(message: String) -> (r: RpcError)
        ensures
            r matches RpcError::Upstream { message: m } && m == message,
    {
        RpcError::Upstream { message }
    }
}

} // verus!
