//! The command dispatcher: gates every invocation on the originating
//! channel, then maps the message to the one action to perform. Each
//! invocation is independent; nothing persists between them.

use vstd::prelude::*;

use crate::command::Command;
use crate::command::PowerCommand;
use crate::command::spec_parse_message;
use crate::command::parse_message;

verus! {

/// The one thing an inbound message asks for. `Ignore` performs no API
/// call and sends no reply.
#[derive(Clone, Copy, PartialEq, Eq, Structural, Debug)]
pub enum Action {
    Ignore,
    ReplyHelp,
    FetchStatus,
    SendPower(PowerCommand),
}

/// The action a command maps to.
pub open spec fn spec_action_of(c: Option<Command>) -> Action {
    match c {
        None => Action::Ignore,
        Some(Command::Status) => Action::FetchStatus,
        Some(Command::Power(p)) => Action::SendPower(p),
        Some(Command::Help) => Action::ReplyHelp,
    }
}

/// Decides what an inbound message asks for. A message from any channel
/// other than the configured target channel is ignored outright: no API
/// call is made and no reply is sent. On the target channel the message
/// is parsed, and a message that names no command is likewise ignored.
pub fn dispatch(origin_channel: u64, target_channel: u64, app_id: u64, content: &str) -> (a:
    Action)
    ensures
        origin_channel != target_channel ==> a == Action::Ignore,
        origin_channel == target_channel ==> a == spec_action_of(
            spec_parse_message(content@, app_id as int),
        ),
{
    if origin_channel != target_channel {
        return Action::Ignore;
    }
    match parse_message(content, app_id) {
        None => Action::Ignore,
        Some(Command::Status) => Action::FetchStatus,
        Some(Command::Power(p)) => Action::SendPower(p),
        Some(Command::Help) => Action::ReplyHelp,
    }
}

} // verus!
