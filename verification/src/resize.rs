//! Asking for the size that a window has room for.
//!
//! One terminal can be shown in several windows. Only the active window asks,
//! and it asks again only where something changed since it asked last.

use crate::ids::ConnectionId;
use crate::ids::PaneId;
use crate::ids::TerminalId;
use crate::terminal::TerminalSize;
use std::collections::BTreeMap;
use vstd::prelude::*;

verus! {

#[derive(Clone, Copy, PartialEq, Eq, Structural, Debug)]
pub struct TerminalResizeRequest {
    pub terminal_id: TerminalId,
    pub target: TerminalSize,
    /// The size that the terminal had when it was asked. Where it changed
    /// since, another window has asked for something else.
    pub observed_size: TerminalSize,
}

/// What a pane has to do about its size: the requests that are remembered
/// afterwards, and whether to ask.
pub open spec fn resize_decision(
    requests: Map<(u64, u128), TerminalResizeRequest>,
    key: (u64, u128),
    request: TerminalResizeRequest,
    window_active: bool,
) -> (Map<(u64, u128), TerminalResizeRequest>, bool) {
    if request.target == request.observed_size {
        (requests.remove(key), false)
    } else if !window_active || (requests.contains_key(key) && requests[key] == request) {
        (requests, false)
    } else {
        (requests.insert(key, request), true)
    }
}

pub fn terminal_resize_request_needed(
    requests: &mut BTreeMap<(u64, u128), TerminalResizeRequest>,
    connection_id: ConnectionId,
    pane_id: PaneId,
    terminal_id: TerminalId,
    current_size: TerminalSize,
    target: TerminalSize,
    window_active: bool,
) -> (needed: bool)
    ensures
        (final(requests)@, needed) == resize_decision(
            old(requests)@,
            (connection_id.raw, pane_id.raw),
            TerminalResizeRequest { terminal_id, target, observed_size: current_size },
            window_active,
        ),
{
    broadcast use vstd::laws_cmp::group_laws_cmp;

    let key: (u64, u128) = (connection_id.raw, pane_id.raw);
    if target == current_size {
        requests.remove(&key);
        return false;
    }
    if !window_active {
        return false;
    }
    let request = TerminalResizeRequest { terminal_id, target, observed_size: current_size };
    let known: bool = match requests.get(&key) {
        Some(previous) => *previous == request,
        None => false,
    };
    if known {
        false
    } else {
        requests.insert(key, request);
        true
    }
}

/// Asking twice for the same thing asks once; once the terminal has the size
/// nothing is remembered.
pub proof fn law_requests_are_not_repeated(
    requests: Map<(u64, u128), TerminalResizeRequest>,
    key: (u64, u128),
    request: TerminalResizeRequest,
    window_active: bool,
)
    ensures
        !resize_decision(
            resize_decision(requests, key, request, true).0,
            key,
            request,
            window_active,
        ).1,
        request.target == request.observed_size ==> !resize_decision(
            requests,
            key,
            request,
            window_active,
        ).0.contains_key(key),
{
}

/// A terminal that another window resized is asked for again, and so is one
/// that took the place of another in a pane.
pub proof fn law_changes_are_reasserted(
    requests: Map<(u64, u128), TerminalResizeRequest>,
    key: (u64, u128),
    asked: TerminalResizeRequest,
    request: TerminalResizeRequest,
)
    requires
        requests.contains_key(key),
        requests[key] == asked,
        asked != request,
        request.target != request.observed_size,
    ensures
        resize_decision(requests, key, request, true).1,
{
}

/// Panes of different connections never share a request, even where the
/// servers gave them the same number.
pub proof fn law_requests_are_scoped(
    requests: Map<(u64, u128), TerminalResizeRequest>,
    connection: u64,
    other: u64,
    pane: u128,
    other_pane: u128,
    request: TerminalResizeRequest,
    window_active: bool,
)
    requires
        connection != other || pane != other_pane,
    ensures
        ({
            let key = (connection, pane);
            let other_key = (other, other_pane);
            let after = resize_decision(requests, key, request, window_active).0;
            &&& after.contains_key(other_key) == requests.contains_key(other_key)
            &&& requests.contains_key(other_key) ==> after[other_key] == requests[other_key]
        }),
{
}

/// The active window asks for the size it has room for where the terminal has
/// another, and remembers what it asked. An inactive window never asks, and
/// neither does one whose terminal fits.
pub proof fn law_active_windows_ask_for_their_room(
    requests: Map<(u64, u128), TerminalResizeRequest>,
    key: (u64, u128),
    request: TerminalResizeRequest,
)
    ensures
        !resize_decision(requests, key, request, false).1,
        request.target == request.observed_size ==> !resize_decision(
            requests,
            key,
            request,
            true,
        ).1,
        request.target != request.observed_size && !requests.contains_key(key) ==> {
            let (after, asks) = resize_decision(requests, key, request, true);
            asks && after.contains_key(key) && after[key] == request
        },
        request.target != request.observed_size ==> resize_decision(
            requests,
            key,
            request,
            false,
        ).0 == requests,
{
}

/// Once a terminal fits, what was asked for it is forgotten, so that the same
/// size can be asked for again.
pub proof fn law_fitting_terminals_are_forgotten(
    requests: Map<(u64, u128), TerminalResizeRequest>,
    key: (u64, u128),
    other: (u64, u128),
    request: TerminalResizeRequest,
    window_active: bool,
)
    ensures
        request.target == request.observed_size ==> !resize_decision(
            requests,
            key,
            request,
            window_active,
        ).0.contains_key(key),
        other != key ==> {
            let after = resize_decision(requests, key, request, window_active).0;
            &&& after.contains_key(other) == requests.contains_key(other)
            &&& requests.contains_key(other) ==> after[other] == requests[other]
        },
{
}

} // verus!
