//! Why a frame could not be classified.

use vstd::prelude::*;

verus! {

/// The stage at which classification of a frame stopped.
#[derive(Debug, Clone, Copy, PartialEq, Eq, Structural)]
pub enum ClassifyError {
    /// The frame carries neither IPv4 nor IPv6, or not even a whole header
    /// of the one it names.
    UnsupportedNetworkProtocol,
    /// The network packet carries a transport protocol that is not
    /// recognized there, or not even a whole header of the one it names.
    UnsupportedTransportProtocol,
}

impl ClassifyError {
    /// A short description for logs.
    pub fn message(&self) -> (text: &'static str)
        ensures
            text@ == match *self {
                ClassifyError::UnsupportedNetworkProtocol => "Unsupported LayerOne protocol"@,
                ClassifyError::UnsupportedTransportProtocol => "Unsupported LayerTwo protocol"@,
            },
    {
        match self {
            ClassifyError::UnsupportedNetworkProtocol => "Unsupported LayerOne protocol",
            ClassifyError::UnsupportedTransportProtocol => "Unsupported LayerTwo protocol",
        }
    }
}

} // verus!
