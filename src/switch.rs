use vstd::prelude::*;

verus! {

/// The protocol that is currently active on a connection.
#[derive(PartialEq, Eq, Structural, Clone, Copy, Debug)]
pub enum SelectedProtocol {
    /// The HTTP/1.x protocol handler.
    H1,
}

/// Whether a protocol hands the connection over to another one.
#[derive(PartialEq, Eq, Structural, Clone, Copy, Debug)]
pub enum SwitchStatus {
    SwitchTo(SelectedProtocol),
    NoSwitch,
}

/// A protocol that may yield the connection to another protocol.
pub trait Switchable {
    /// The protocol's decision in its current state.
    spec fn switch_target(&self) -> SwitchStatus;

    /// Invoked just after the socket has been read, to give the protocol
    /// the chance to be switched.
    fn switch_protocol(&self) -> (r: SwitchStatus)
        ensures
            r == self.switch_target(),
    ;
}

} // verus!
