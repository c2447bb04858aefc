//! The router: what an inbound chat text asks for, if anything.

use vstd::prelude::*;
use vstd::string::*;
use crate::platform::{lemma_platform_tokens, lowered, platform_named, PlatformCode};
use crate::text::{begins_with, pieces, same_text, split_on_spaces, texts};

verus! {

/// A recognised command.
#[derive(Clone, Debug)]
pub enum Command {
    Ping,
    StatsQuery { player: String, platform: PlatformCode },
}

/// Why a statistics command was turned down.
#[derive(Clone, Copy, Debug, PartialEq, Eq, Structural)]
pub enum ValidationError {
    /// The command did not come with exactly a player and a platform.
    WrongArgumentCount,
    /// The platform is none of the three that are known.
    UnknownPlatform,
}

/// What the router makes of a chat text.
#[derive(Clone, Debug)]
pub enum Routed {
    /// Not a command: nothing is sent.
    Ignored,
    Accepted(Command),
    Rejected(ValidationError),
}

/// `Command` as mathematical values.
pub ghost enum CommandView {
    Ping,
    StatsQuery { player: Seq<char>, platform: PlatformCode },
}

/// `Routed` as mathematical values.
pub ghost enum RoutedView {
    Ignored,
    Accepted(CommandView),
    Rejected(ValidationError),
}

impl View for Command {
    type V = CommandView;

    open spec fn view(&self) -> CommandView {
        match *self {
            Command::Ping => CommandView::Ping,
            Command::StatsQuery { player, platform } => CommandView::StatsQuery {
                player: player@,
                platform,
            },
        }
    }
}

impl View for Routed {
    type V = RoutedView;

    open spec fn view(&self) -> RoutedView {
        match *self {
            Routed::Ignored => RoutedView::Ignored,
            Routed::Accepted(command) => RoutedView::Accepted(command@),
            Routed::Rejected(error) => RoutedView::Rejected(error),
        }
    }
}

/// Whether a text is a statistics command: it begins with `!statsapex`.
pub open spec fn is_stats_command(text: Seq<char>) -> bool {
    "!statsapex"@.is_prefix_of(text)
}

/// What a chat text asks for. `!ping` alone is a ping. A text that begins
/// with `!statsapex` is a statistics query when its pieces between spaces are
/// three, the second being the player and the third naming a platform; with
/// another count of pieces, or an unknown platform, it is turned down. Any
/// other text is ignored.
pub open spec fn routed(text: Seq<char>) -> RoutedView {
    if text == "!ping"@ {
        RoutedView::Accepted(CommandView::Ping)
    } else if is_stats_command(text) {
        let args = pieces(text);
        if args.len() != 3 {
            RoutedView::Rejected(ValidationError::WrongArgumentCount)
        } else {
            match platform_named(args[2]) {
                Some(platform) => RoutedView::Accepted(
                    CommandView::StatsQuery { player: args[1], platform },
                ),
                None => RoutedView::Rejected(ValidationError::UnknownPlatform),
            }
        }
    } else {
        RoutedView::Ignored
    }
}

/// Routes an inbound chat text.
pub fn route(text: &str) -> (r: Routed)
    ensures
        r@ == routed(text@),
{
    if same_text(text, "!ping") {
        return Routed::Accepted(Command::Ping);
    }
    if !begins_with(text, "!statsapex") {
        return Routed::Ignored;
    }
    let args = split_on_spaces(text);
    if args.len() != 3 {
        return Routed::Rejected(ValidationError::WrongArgumentCount);
    }
    assert(texts(args@)[1] == args@[1]@);
    assert(texts(args@)[2] == args@[2]@);
    match PlatformCode::from_token(args[2].as_str()) {
        Some(platform) => Routed::Accepted(
            Command::StatsQuery { player: args[1].clone(), platform },
        ),
        None => Routed::Rejected(ValidationError::UnknownPlatform),
    }
}

/// A statistics command with a player and a platform token is accepted
/// whenever the token reads `pc`, `xbox` or `playstation` in some casing, and
/// exactly when the token names a platform; with any other token it is
/// turned down for its platform.
pub proof fn lemma_router_platforms(text: Seq<char>)
    requires
        is_stats_command(text),
        pieces(text).len() == 3,
    ensures
        (lowered(pieces(text)[2]) == "pc"@ || lowered(pieces(text)[2]) == "xbox"@ || lowered(
            pieces(text)[2],
        ) == "playstation"@) ==> routed(text) is Accepted,
        routed(text) is Accepted <==> platform_named(pieces(text)[2]) is Some,
        !(routed(text) is Accepted) ==> routed(text) == RoutedView::Rejected(
            ValidationError::UnknownPlatform,
        ),
        routed(text) is Accepted ==> routed(text)->Accepted_0 == (CommandView::StatsQuery {
            player: pieces(text)[1],
            platform: platform_named(pieces(text)[2])->Some_0,
        }),
{
    reveal_strlit("!ping");
    reveal_strlit("!statsapex");
    assert("!ping"@.len() == 5);
    assert("!statsapex"@.len() == 10);
    assert(text != "!ping"@) by {
        if text == "!ping"@ {
            assert(text[1] == 's');
        }
    }
    lemma_platform_tokens(pieces(text)[2]);
}

} // verus!
