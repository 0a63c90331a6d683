//! Identifiers of the objects a window shows.
//!
//! Every server numbers its own objects, so an identifier means something only
//! together with the connection it came from.

use vstd::prelude::*;

verus! {

/// A server that this window is connected to.
#[derive(Clone, Copy, PartialEq, Eq, Structural, Debug, PartialOrd, Ord, Hash)]
pub struct ConnectionId {
    pub raw: u64,
}

/// A workspace of one server.
#[derive(Clone, Copy, PartialEq, Eq, Structural, Debug, PartialOrd, Ord, Hash)]
pub struct WorkspaceId {
    pub raw: u128,
}

/// A tab of a workspace.
#[derive(Clone, Copy, PartialEq, Eq, Structural, Debug, PartialOrd, Ord, Hash)]
pub struct TabId {
    pub raw: u128,
}

/// A pane of a tab.
#[derive(Clone, Copy, PartialEq, Eq, Structural, Debug, PartialOrd, Ord, Hash)]
pub struct PaneId {
    pub raw: u128,
}

/// A terminal shown in a pane.
#[derive(Clone, Copy, PartialEq, Eq, Structural, Debug, PartialOrd, Ord, Hash)]
pub struct TerminalId {
    pub raw: u128,
}

/// A handle for the channel over which one connection takes commands.
#[derive(Clone, Copy, PartialEq, Eq, Structural, Debug, PartialOrd, Ord, Hash)]
pub struct TransportId {
    pub raw: u64,
}

impl ConnectionId {
    pub fn new(raw: u64) -> (id: Self)
        ensures
            id.raw == raw,
    {
        ConnectionId { raw }
    }
}

impl WorkspaceId {
    pub fn new(raw: u128) -> (id: Self)
        ensures
            id.raw == raw,
    {
        WorkspaceId { raw }
    }
}

impl TabId {
    pub fn new(raw: u128) -> (id: Self)
        ensures
            id.raw == raw,
    {
        TabId { raw }
    }
}

impl PaneId {
    pub fn new(raw: u128) -> (id: Self)
        ensures
            id.raw == raw,
    {
        PaneId { raw }
    }
}

impl TerminalId {
    pub fn new(raw: u128) -> (id: Self)
        ensures
            id.raw == raw,
    {
        TerminalId { raw }
    }
}

impl TransportId {
    pub fn new(raw: u64) -> (id: Self)
        ensures
            id.raw == raw,
    {
        TransportId { raw }
    }
}

} // verus!
