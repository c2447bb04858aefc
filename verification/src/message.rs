//! The formatter: outbound chat messages for every outcome of a command.

use vstd::prelude::*;
use vstd::string::*;
use crate::command::ValidationError;
use crate::stats::{parse_json, parse_outcome, ParseError, PlayerStats, StatsView};
use crate::text::{decimal, decimal_text, optional_string, texts};

verus! {

/// The accent colour of a rich message.
#[derive(Clone, Copy, Debug, PartialEq, Eq, Structural)]
pub enum Colour {
    Teal,
    Red,
}

/// A labelled entry of a rich message.
#[derive(Clone, Debug)]
pub struct Field {
    pub name: String,
    pub value: String,
    pub inline: bool,
}

/// A decorated message. Whoever sends it stamps it with the time of sending.
#[derive(Clone, Debug)]
pub struct RichMessage {
    pub title: String,
    pub description: Option<String>,
    pub fields: Vec<Field>,
    pub author: Option<String>,
    pub footer: String,
    pub thumbnail: Option<String>,
    pub colour: Colour,
}

/// A message to send to the chat.
#[derive(Clone, Debug)]
pub enum OutboundMessage {
    Plain(String),
    Rich(RichMessage),
}

/// `Field` as mathematical values.
pub ghost struct FieldView {
    pub name: Seq<char>,
    pub value: Seq<char>,
    pub inline: bool,
}

/// `RichMessage` as mathematical values.
pub ghost struct RichView {
    pub title: Seq<char>,
    pub description: Option<Seq<char>>,
    pub fields: Seq<FieldView>,
    pub author: Option<Seq<char>>,
    pub footer: Seq<char>,
    pub thumbnail: Option<Seq<char>>,
    pub colour: Colour,
}

/// `OutboundMessage` as mathematical values.
pub ghost enum MessageView {
    Plain(Seq<char>),
    Rich(RichView),
}

impl View for Field {
    type V = FieldView;

    open spec fn view(&self) -> FieldView {
        FieldView { name: self.name@, value: self.value@, inline: self.inline }
    }
}

/// The entries of a list as mathematical values.
pub open spec fn field_views(list: Seq<Field>) -> Seq<FieldView> {
    Seq::new(list.len(), |i: int| list[i]@)
}

impl View for RichMessage {
    type V = RichView;

    open spec fn view(&self) -> RichView {
        RichView {
            title: self.title@,
            description: optional_string(self.description),
            fields: field_views(self.fields@),
            author: optional_string(self.author),
            footer: self.footer@,
            thumbnail: optional_string(self.thumbnail),
            colour: self.colour,
        }
    }
}

impl View for OutboundMessage {
    type V = MessageView;

    open spec fn view(&self) -> MessageView {
        match *self {
            OutboundMessage::Plain(text) => MessageView::Plain(text@),
            OutboundMessage::Rich(rich) => MessageView::Rich(rich@),
        }
    }
}

/// The messages of a list as mathematical values.
pub open spec fn message_views(list: Seq<OutboundMessage>) -> Seq<MessageView> {
    Seq::new(list.len(), |i: int| list[i]@)
}

/// An entry that takes a line of its own.
pub open spec fn entry(name: Seq<char>, value: Seq<char>) -> FieldView {
    FieldView { name, value, inline: false }
}

/// The red message that reports a failure to the requester.
pub open spec fn failure_message(description: Seq<char>, requester: Seq<char>) -> RichView {
    RichView {
        title: "Error getting Apex Legends Statistics"@,
        description: Some(description),
        fields: Seq::empty(),
        author: None,
        footer: "Apex legends statistics requested by "@ + requester + "."@,
        thumbnail: None,
        colour: Colour::Red,
    }
}

/// The message that shows a found player: every field of the record as a
/// labelled entry, the requester as author, the rank image as thumbnail.
pub open spec fn found_message(stats: StatsView, requester: Seq<char>) -> RichView {
    RichView {
        title: stats.name,
        description: None,
        fields: seq![
            entry("Level"@, decimal(stats.level as int)),
            entry("Rank"@, stats.rank),
            entry("Global Ladder Position"@, stats.global_ladder_position),
            entry(stats.platform + " ladder position"@, stats.platform_ladder_position),
            entry("Career Kills"@, decimal(stats.career_kills as int)),
            entry("Career Wins"@, decimal(stats.career_wins as int)),
            entry("Career Revives"@, decimal(stats.career_revives as int)),
        ],
        author: Some("@"@ + requester),
        footer: "Apex legends statistics for player \""@ + stats.name + "\", requested by "@
            + requester + "."@,
        thumbnail: Some(stats.rank_image),
        colour: Colour::Teal,
    }
}

/// The message for a record: a level of zero says that the player was not
/// found, and nothing else of the record is then shown.
pub open spec fn stats_message(stats: StatsView, requester: Seq<char>) -> RichView {
    if stats.level == 0 {
        failure_message("Player was not found"@, requester)
    } else {
        found_message(stats, requester)
    }
}

/// What a turned-down command is answered with.
pub open spec fn validation_message(error: ValidationError, requester: Seq<char>) -> RichView {
    match error {
        ValidationError::WrongArgumentCount => failure_message(
            "Missing command arguments, usage: !statsapex <player> <platform>"@,
            requester,
        ),
        ValidationError::UnknownPlatform => failure_message(
            "Incorrect platform specified, available platforms are `pc`, `xbox` or `playstation`"@,
            requester,
        ),
    }
}

/// The longest payload that is sent as one message, in characters.
pub const PAGE_THRESHOLD: usize = 1500;

/// The number of messages that a longer payload is sent as.
pub const PAGE_COUNT: usize = 5;

/// The messages that a plain payload is sent as. Up to the threshold it goes
/// out whole. A longer one goes out as five pages in order, each a fifth of
/// the payload's length (rounded down) and each starting where the one
/// before ended; pages are cut between characters. Where the length is no
/// multiple of five, the up to four characters after the fifth page are on
/// no page.
pub open spec fn pages(payload: Seq<char>) -> Seq<Seq<char>> {
    if payload.len() <= PAGE_THRESHOLD {
        seq![payload]
    } else {
        let size = payload.len() as int / PAGE_COUNT as int;
        Seq::new(PAGE_COUNT as nat, |i: int| payload.subrange(i * size, (i + 1) * size))
    }
}

/// Cuts a plain payload into the messages it is sent as.
pub fn paginate(payload: &str) -> (r: Vec<String>)
    ensures
        texts(r@) == pages(payload@),
{
    let n = payload.unicode_len();
    let mut out: Vec<String> = Vec::new();
    if n <= PAGE_THRESHOLD {
        out.push(payload.to_owned());
        assert(texts(out@) =~= pages(payload@));
        return out;
    }
    let size: usize = n / PAGE_COUNT;
    let mut i: usize = 0;
    while i < PAGE_COUNT
        invariant
            n == payload@.len(),
            size == n / 5,
            i <= 5,
            out@.len() == i,
            forall|j: int|
                0 <= j < i ==> (#[trigger] out@[j])@ == payload@.subrange(
                    j * size,
                    (j + 1) * size,
                ),
        decreases 5 - i,
    {
        assert(i * size + size == (i + 1) * size && (i + 1) * size <= 5 * size) by (nonlinear_arith)
            requires
                i < 5,
        ;
        let from: usize = i * size;
        let to: usize = from + size;
        let page = payload.substring_char(from, to);
        out.push(page.to_owned());
        i = i + 1;
    }
    assert(texts(out@) =~= pages(payload@));
    out
}

fn make_entry(name: &str, value: String) -> (r: Field)
    ensures
        r@ == entry(name@, value@),
{
    Field { name: name.to_owned(), value, inline: false }
}

fn requested_by(requester: &str) -> (r: String)
    ensures
        r@ == "Apex legends statistics requested by "@ + requester@ + "."@,
{
    let mut out = String::new();
    out.append("Apex legends statistics requested by ");
    out.append(requester);
    out.append(".");
    assert(out@ =~= "Apex legends statistics requested by "@ + requester@ + "."@);
    out
}

/// Builds the red message that reports a failure to the requester.
pub fn failure(description: &str, requester: &str) -> (r: RichMessage)
    ensures
        r@ == failure_message(description@, requester@),
{
    let r = RichMessage {
        title: "Error getting Apex Legends Statistics".to_owned(),
        description: Some(description.to_owned()),
        fields: Vec::new(),
        author: None,
        footer: requested_by(requester),
        thumbnail: None,
        colour: Colour::Red,
    };
    assert(r@.fields =~= Seq::<FieldView>::empty());
    r
}

impl ValidationError {
    /// The message that tells the requester why the command was turned down.
    pub fn as_message(self, requester: &str) -> (r: OutboundMessage)
        ensures
            r@ == MessageView::Rich(validation_message(self, requester@)),
    {
        match self {
            ValidationError::WrongArgumentCount => OutboundMessage::Rich(
                failure(
                    "Missing command arguments, usage: !statsapex <player> <platform>",
                    requester,
                ),
            ),
            ValidationError::UnknownPlatform => OutboundMessage::Rich(
                failure(
                    "Incorrect platform specified, available platforms are `pc`, `xbox` or `playstation`",
                    requester,
                ),
            ),
        }
    }
}

impl PlayerStats {
    fn found(&self, requester: &str) -> (r: RichMessage)
        ensures
            r@ == found_message(self@, requester@),
    {
        let mut fields: Vec<Field> = Vec::new();
        fields.push(make_entry("Level", decimal_text(self.level)));
        fields.push(make_entry("Rank", self.rank.clone()));
        fields.push(make_entry("Global Ladder Position", self.global_ladder_position.clone()));
        let mut label = self.platform.clone();
        label.append(" ladder position");
        fields.push(make_entry(label.as_str(), self.platform_ladder_position.clone()));
        fields.push(make_entry("Career Kills", decimal_text(self.career_kills)));
        fields.push(make_entry("Career Wins", decimal_text(self.career_wins)));
        fields.push(make_entry("Career Revives", decimal_text(self.career_revives)));
        let mut author = String::new();
        author.append("@");
        author.append(requester);
        let mut footer = String::new();
        footer.append("Apex legends statistics for player \"");
        footer.append(self.name.as_str());
        footer.append("\", requested by ");
        footer.append(requester);
        footer.append(".");
        let r = RichMessage {
            title: self.name.clone(),
            description: None,
            fields,
            author: Some(author),
            footer,
            thumbnail: Some(self.rank_image.clone()),
            colour: Colour::Teal,
        };
        proof {
            let want = found_message(self@, requester@);
            assert(r@.fields =~= want.fields);
            assert(r@.author->Some_0 =~= want.author->Some_0);
            assert(r@.footer =~= want.footer);
        }
        r
    }

    /// Renders the record for the requester: the player's statistics, or the
    /// notice that the player was not found where the level is zero.
    pub fn as_message(&self, requester: &str) -> (r: OutboundMessage)
        ensures
            r@ == MessageView::Rich(stats_message(self@, requester@)),
            self.level == 0 ==> r@ == MessageView::Rich(
                failure_message("Player was not found"@, requester@),
            ),
    {
        if self.level == 0 {
            OutboundMessage::Rich(failure("Player was not found", requester))
        } else {
            OutboundMessage::Rich(self.found(requester))
        }
    }
}

/// The reply to a ping.
pub fn ping() -> (r: OutboundMessage)
    ensures
        r@ == MessageView::Plain("pong"@),
{
    OutboundMessage::Plain("pong".to_owned())
}

/// How a lookup ended.
#[derive(Clone, Debug)]
pub enum LookupResult {
    /// The service answered and its answer was read.
    Stats(PlayerStats),
    /// The service answered with something that is not JSON.
    ParseFailure(ParseError),
    /// The service could not be reached or answered with a failure status.
    TransportFailure,
}

/// `LookupResult` as mathematical values.
pub ghost enum LookupView {
    Stats(StatsView),
    ParseFailure(Seq<char>),
    TransportFailure,
}

impl View for LookupResult {
    type V = LookupView;

    open spec fn view(&self) -> LookupView {
        match *self {
            LookupResult::Stats(stats) => LookupView::Stats(stats@),
            LookupResult::ParseFailure(error) => LookupView::ParseFailure(error.detail@),
            LookupResult::TransportFailure => LookupView::TransportFailure,
        }
    }
}

/// The plain text that reports a body that could not be read.
pub open spec fn parse_failure_text(detail: Seq<char>) -> Seq<char> {
    "Could not process stats: "@ + detail
}

/// The messages that answer a lookup. A record gives one rich message. A
/// body that could not be read gives the plain report of it, paginated. A
/// transport failure gives nothing: it is not shown to the chat.
pub open spec fn replies(result: LookupView, requester: Seq<char>) -> Seq<MessageView> {
    match result {
        LookupView::Stats(stats) => seq![MessageView::Rich(stats_message(stats, requester))],
        LookupView::ParseFailure(detail) => {
            let parts = pages(parse_failure_text(detail));
            Seq::new(parts.len(), |i: int| MessageView::Plain(parts[i]))
        },
        LookupView::TransportFailure => Seq::empty(),
    }
}

/// Formats the outcome of a lookup as the messages to send, in order.
pub fn format_result(result: &LookupResult, requester: &str) -> (r: Vec<OutboundMessage>)
    ensures
        message_views(r@) == replies(result@, requester@),
{
    let mut out: Vec<OutboundMessage> = Vec::new();
    match result {
        LookupResult::Stats(stats) => {
            out.push(stats.as_message(requester));
            assert(message_views(out@) =~= replies(result@, requester@));
        },
        LookupResult::ParseFailure(error) => {
            let mut report = String::new();
            report.append("Could not process stats: ");
            report.append(error.detail.as_str());
            assert(report@ =~= parse_failure_text(error.detail@));
            let parts = paginate(report.as_str());
            let count = parts.len();
            let ghost wanted = pages(report@);
            let mut i: usize = 0;
            while i < count
                invariant
                    count == parts@.len(),
                    texts(parts@) == wanted,
                    i <= count,
                    out@.len() == i,
                    forall|j: int|
                        0 <= j < i ==> (#[trigger] out@[j])@ == MessageView::Plain(wanted[j]),
                decreases count - i,
            {
                assert(texts(parts@)[i as int] == parts@[i as int]@);
                out.push(OutboundMessage::Plain(parts[i].clone()));
                i = i + 1;
            }
            assert(wanted.len() == count);
            assert(message_views(out@) =~= replies(result@, requester@));
        },
        LookupResult::TransportFailure => {
            assert(message_views(out@) =~= replies(result@, requester@));
        },
    }
    out
}

/// A lookup that failed before any answer could be read.
#[derive(Clone, Debug)]
pub struct TransportError {
    pub detail: String,
}

/// How a fetch and the parse after it end, as mathematical values.
pub open spec fn lookup_outcome(fetched: Result<String, TransportError>) -> LookupView {
    match fetched {
        Ok(body) => match parse_outcome(body@) {
            Ok(stats) => LookupView::Stats(stats),
            Err(detail) => LookupView::ParseFailure(detail),
        },
        Err(_) => LookupView::TransportFailure,
    }
}

/// Answers a statistics query once its fetch has ended: parses the body and
/// formats what came of it. After a transport failure nothing is sent.
pub fn get_apex_stats(fetched: &Result<String, TransportError>, requester: &str) -> (r: Vec<
    OutboundMessage,
>)
    ensures
        message_views(r@) == replies(lookup_outcome(*fetched), requester@),
{
    let result = match fetched {
        Ok(body) => match parse_json(body.as_str()) {
            Ok(stats) => LookupResult::Stats(stats),
            Err(error) => LookupResult::ParseFailure(error),
        },
        Err(_) => LookupResult::TransportFailure,
    };
    format_result(&result, requester)
}

/// A record of level zero is answered with the notice that the player was
/// not found, never with the report of a failed parse.
pub proof fn lemma_level_zero_is_not_found(stats: StatsView, requester: Seq<char>)
    requires
        stats.level == 0,
    ensures
        replies(LookupView::Stats(stats), requester) == seq![
            MessageView::Rich(failure_message("Player was not found"@, requester)),
        ],
{
}

/// The message for a found player carries each field of the record as it
/// stands: the name as title, the rank image as thumbnail, and the level,
/// rank, ladder positions and career counts as the values of its entries.
pub proof fn lemma_rendering_keeps_fields(stats: StatsView, requester: Seq<char>)
    requires
        stats.level != 0,
    ensures
        stats_message(stats, requester).title == stats.name,
        stats_message(stats, requester).thumbnail == Some(stats.rank_image),
        stats_message(stats, requester).fields.len() == 7,
        stats_message(stats, requester).fields[0].value == decimal(stats.level as int),
        stats_message(stats, requester).fields[1].value == stats.rank,
        stats_message(stats, requester).fields[2].value == stats.global_ladder_position,
        stats_message(stats, requester).fields[3].name == stats.platform + " ladder position"@,
        stats_message(stats, requester).fields[3].value == stats.platform_ladder_position,
        stats_message(stats, requester).fields[4].value == decimal(stats.career_kills as int),
        stats_message(stats, requester).fields[5].value == decimal(stats.career_wins as int),
        stats_message(stats, requester).fields[6].value == decimal(stats.career_revives as int),
{
}

/// A payload over the threshold goes out as five pages of equal length that
/// follow one another in the payload; a shorter one goes out whole.
pub proof fn lemma_pages_shape(payload: Seq<char>)
    ensures
        payload.len() <= 1500 ==> pages(payload) == seq![payload],
        payload.len() > 1500 ==> pages(payload).len() == 5,
        payload.len() > 1500 ==> forall|i: int|
            0 <= i < 5 ==> (#[trigger] pages(payload)[i]).len() == payload.len() / 5,
        payload.len() > 1500 && payload.len() % 5 == 0 ==> pages(payload)[0] + pages(payload)[1]
            + pages(payload)[2] + pages(payload)[3] + pages(payload)[4] == payload,
{
    if payload.len() > 1500 {
        let size = payload.len() as int / 5;
        assert forall|i: int| 0 <= i < 5 implies (#[trigger] pages(payload)[i]).len() == size by {
            assert((i + 1) * size - i * size == size && 0 <= i * size && (i + 1) * size <= 5
                * size) by (nonlinear_arith)
                requires
                    0 <= i < 5,
                    size >= 0,
            ;
        }
        if payload.len() % 5 == 0 {
            assert(pages(payload)[0] + pages(payload)[1] + pages(payload)[2] + pages(payload)[3]
                + pages(payload)[4] =~= payload);
        }
    }
}

} // verus!
