//! What to do with an inbound chat message: the one decision that joins the
//! router and the formatter. Whoever runs the bot carries the action out.

use vstd::prelude::*;
use vstd::string::*;
use crate::command::{route, routed, Command, CommandView, Routed, RoutedView};
use crate::message::{ping, validation_message, MessageView, OutboundMessage};
use crate::platform::PlatformCode;

verus! {

/// What an inbound message calls for.
#[derive(Clone, Debug)]
pub enum Action {
    /// The message is no command: send nothing.
    Nothing,
    /// Send this message to the channel the command came from.
    Send(OutboundMessage),
    /// Fetch the player's statistics, then answer with what
    /// `get_apex_stats` makes of the fetch.
    Lookup { player: String, platform: PlatformCode },
}

/// `Action` as mathematical values.
pub ghost enum ActionView {
    Nothing,
    Send(MessageView),
    Lookup { player: Seq<char>, platform: PlatformCode },
}

impl View for Action {
    type V = ActionView;

    open spec fn view(&self) -> ActionView {
        match *self {
            Action::Nothing => ActionView::Nothing,
            Action::Send(message) => ActionView::Send(message@),
            Action::Lookup { player, platform } => ActionView::Lookup { player: player@, platform },
        }
    }
}

/// The action for a chat text from a requester: `pong` for a ping, a lookup
/// for a statistics query, the report of the fault for a command that was
/// turned down, and nothing for any other text.
pub open spec fn action_for(text: Seq<char>, requester: Seq<char>) -> ActionView {
    match routed(text) {
        RoutedView::Ignored => ActionView::Nothing,
        RoutedView::Accepted(CommandView::Ping) => ActionView::Send(MessageView::Plain("pong"@)),
        RoutedView::Accepted(CommandView::StatsQuery { player, platform }) => ActionView::Lookup {
            player,
            platform,
        },
        RoutedView::Rejected(error) => ActionView::Send(
            MessageView::Rich(validation_message(error, requester)),
        ),
    }
}

/// Decides what an inbound chat message calls for.
pub fn message(text: &str, requester: &str) -> (r: Action)
    ensures
        r@ == action_for(text@, requester@),
{
    match route(text) {
        Routed::Ignored => Action::Nothing,
        Routed::Accepted(Command::Ping) => Action::Send(ping()),
        Routed::Accepted(Command::StatsQuery { player, platform }) => Action::Lookup {
            player,
            platform,
        },
        Routed::Rejected(error) => Action::Send(error.as_message(requester)),
    }
}

/// A command that is turned down is always answered: a message goes out for
/// every text that the router rejects, and none for a text it ignores.
pub proof fn lemma_rejections_are_answered(text: Seq<char>, requester: Seq<char>)
    ensures
        routed(text) is Rejected ==> action_for(text, requester) is Send,
        routed(text) is Ignored <==> action_for(text, requester) is Nothing,
{
}

} // verus!
