//! Requests about effects. The routes are reserved; none of them asks
//! anything of the host yet.

use crate::osc::message::Message;
use crate::reaper::command::{Command, CommandView};
use vstd::prelude::*;

verus! {

/// Reads a request to add an effect: it asks for nothing.
pub fn handle_add_fx(msg: &Message) -> (command: Command)
    ensures
        command@ == CommandView::Ignore,
{
    Command::Ignore
}

/// Reads a request to remove an effect: it asks for nothing.
pub fn handle_remove_fx(msg: &Message) -> (command: Command)
    ensures
        command@ == CommandView::Ignore,
{
    Command::Ignore
}

/// Reads a request for an effect parameter: it asks for nothing.
pub fn handle_get_fx_param(msg: &Message) -> (command: Command)
    ensures
        command@ == CommandView::Ignore,
{
    Command::Ignore
}

/// Reads a request to set an effect parameter: it asks for nothing.
pub fn handle_set_fx_param(msg: &Message) -> (command: Command)
    ensures
        command@ == CommandView::Ignore,
{
    Command::Ignore
}

} // verus!
