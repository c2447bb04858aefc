//! The parser: from the statistics service's JSON answer to a `PlayerStats`
//! record. A field that is missing, or is not of the kind expected, takes its
//! default (zero, the empty text); only a body that is not JSON is an error.

use vstd::prelude::*;
use vstd::string::*;
use crate::json::{
    decimal_of, describe_failure, failure_detail, get_decimal, get_integer, get_member, get_text,
    integer_of, member, optional_value, parsed, read_document, text_of,
};
use crate::text::{append_decimal, decimal, digit_char, digits};

verus! {

/// The normalised result of a lookup. A `level` of zero means that the player
/// was not found; the other fields then carry nothing worth showing.
#[derive(Clone, Debug)]
pub struct PlayerStats {
    pub name: String,
    pub level: i64,
    pub rank: String,
    pub rank_image: String,
    pub global_ladder_position: String,
    pub platform: String,
    pub platform_ladder_position: String,
    pub career_kills: i64,
    pub career_wins: i64,
    pub career_revives: i64,
}

/// `PlayerStats` as mathematical values.
pub ghost struct StatsView {
    pub name: Seq<char>,
    pub level: i64,
    pub rank: Seq<char>,
    pub rank_image: Seq<char>,
    pub global_ladder_position: Seq<char>,
    pub platform: Seq<char>,
    pub platform_ladder_position: Seq<char>,
    pub career_kills: i64,
    pub career_wins: i64,
    pub career_revives: i64,
}

impl View for PlayerStats {
    type V = StatsView;

    open spec fn view(&self) -> StatsView {
        StatsView {
            name: self.name@,
            level: self.level,
            rank: self.rank@,
            rank_image: self.rank_image@,
            global_ladder_position: self.global_ladder_position@,
            platform: self.platform@,
            platform_ladder_position: self.platform_ladder_position@,
            career_kills: self.career_kills,
            career_wins: self.career_wins,
            career_revives: self.career_revives,
        }
    }
}

/// The fields read from the service's answer, defaults already in place. A
/// percentile is held as its decimal numeral (`49.9`, `50`).
#[derive(Clone, Debug)]
pub struct ApiFields {
    pub name: String,
    pub tag: String,
    pub level: i64,
    pub platform: String,
    pub rank_name: String,
    pub rank_div: i64,
    pub rank_score: i64,
    pub rank_image: String,
    pub global_position: i64,
    pub global_percentile: String,
    pub platform_position: i64,
    pub platform_percentile: String,
    pub career_kills: i64,
    pub career_wins: i64,
    pub career_revives: i64,
}

/// `ApiFields` as mathematical values.
pub ghost struct FieldsView {
    pub name: Seq<char>,
    pub tag: Seq<char>,
    pub level: i64,
    pub platform: Seq<char>,
    pub rank_name: Seq<char>,
    pub rank_div: i64,
    pub rank_score: i64,
    pub rank_image: Seq<char>,
    pub global_position: i64,
    pub global_percentile: Seq<char>,
    pub platform_position: i64,
    pub platform_percentile: Seq<char>,
    pub career_kills: i64,
    pub career_wins: i64,
    pub career_revives: i64,
}

impl View for ApiFields {
    type V = FieldsView;

    open spec fn view(&self) -> FieldsView {
        FieldsView {
            name: self.name@,
            tag: self.tag@,
            level: self.level,
            platform: self.platform@,
            rank_name: self.rank_name@,
            rank_div: self.rank_div,
            rank_score: self.rank_score,
            rank_image: self.rank_image@,
            global_position: self.global_position,
            global_percentile: self.global_percentile@,
            platform_position: self.platform_position,
            platform_percentile: self.platform_percentile@,
            career_kills: self.career_kills,
            career_wins: self.career_wins,
            career_revives: self.career_revives,
        }
    }
}

/// A body that could not be read as JSON, with the reader's account of why.
#[derive(Clone, Debug)]
pub struct ParseError {
    pub detail: String,
}

/// The display name: `[tag]name`, or the bare name where there is no tag.
pub open spec fn composed_name(tag: Seq<char>, name: Seq<char>) -> Seq<char> {
    if tag.len() == 0 {
        name
    } else {
        "["@ + tag + "]"@ + name
    }
}

/// The rank label: rank name, division and score.
pub open spec fn rank_label(rank_name: Seq<char>, division: i64, score: i64) -> Seq<char> {
    rank_name + " "@ + decimal(division as int) + ", "@ + decimal(score as int) + " RP"@
}

pub open spec fn is_digit(c: char) -> bool {
    '0' <= c && c <= '9'
}

pub open spec fn digit_value(c: char) -> nat {
    (c as int - '0' as int) as nat
}

/// The number that the leading digits of `s` spell when they follow digits
/// that already spelled `before`.
pub open spec fn leading_number(s: Seq<char>, before: nat) -> nat
    decreases s.len(),
{
    if s.len() == 0 || !is_digit(s[0]) {
        before
    } else {
        leading_number(s.drop_first(), before * 10 + digit_value(s[0]))
    }
}

/// Whether a decimal numeral denotes a number below fifty: it is negative, or
/// its whole part is below fifty. A text that starts with neither a sign nor
/// a digit is not below fifty.
pub open spec fn below_fifty(numeral: Seq<char>) -> bool {
    numeral.len() > 0 && (numeral[0] == '-' || (is_digit(numeral[0]) && leading_number(
        numeral,
        0,
    ) < 50))
}

/// The percentile bucket: `top p%` for a percentile below fifty, `bottom p%`
/// from fifty on.
pub open spec fn bucket_label(percentile: Seq<char>) -> Seq<char> {
    if below_fifty(percentile) {
        "top "@ + percentile + "%"@
    } else {
        "bottom "@ + percentile + "%"@
    }
}

/// A ladder position: the position, then its percentile bucket in brackets.
pub open spec fn ladder_label(position: i64, percentile: Seq<char>) -> Seq<char> {
    decimal(position as int) + " ("@ + bucket_label(percentile) + ")"@
}

/// The record that a set of fields normalises to.
pub open spec fn normalized(fields: FieldsView) -> StatsView {
    StatsView {
        name: composed_name(fields.tag, fields.name),
        level: fields.level,
        rank: rank_label(fields.rank_name, fields.rank_div, fields.rank_score),
        rank_image: fields.rank_image,
        global_ladder_position: ladder_label(fields.global_position, fields.global_percentile),
        platform: fields.platform,
        platform_ladder_position: ladder_label(
            fields.platform_position,
            fields.platform_percentile,
        ),
        career_kills: fields.career_kills,
        career_wins: fields.career_wins,
        career_revives: fields.career_revives,
    }
}

proof fn lemma_leading_number_grows(s: Seq<char>, before: nat)
    ensures
        leading_number(s, before) >= before,
    decreases s.len(),
{
    if s.len() > 0 && is_digit(s[0]) {
        lemma_leading_number_grows(s.drop_first(), before * 10 + digit_value(s[0]));
    }
}

proof fn lemma_digits_shape(n: nat)
    ensures
        digits(n).len() > 0,
        is_digit(digits(n)[0]),
    decreases n,
{
    if n >= 10 {
        lemma_digits_shape(n / 10);
    }
}

proof fn lemma_leading_number_of_digits(n: nat, rest: Seq<char>)
    ensures
        leading_number(digits(n) + rest, 0) == leading_number(rest, n),
    decreases n,
{
    let last = digit_char(n % 10);
    let tail = seq![last] + rest;
    assert(is_digit(last) && digit_value(last) == n % 10);
    assert(tail.drop_first() =~= rest);
    if n < 10 {
        assert(digits(n) + rest =~= tail);
    } else {
        lemma_leading_number_of_digits(n / 10, tail);
        assert(digits(n) + rest =~= digits(n / 10) + tail);
    }
}

/// The threshold in numbers: a numeral made of the digits of `whole` and
/// then a fraction (or nothing) is below fifty exactly when `whole` is, so
/// that its bucket reads `top` below fifty and `bottom` from fifty on. A
/// numeral with a minus sign is always below fifty.
pub proof fn lemma_bucket_threshold(whole: nat, fraction: Seq<char>)
    requires
        fraction.len() == 0 || !is_digit(fraction[0]),
    ensures
        below_fifty(digits(whole) + fraction) <==> whole < 50,
        whole < 50 ==> bucket_label(digits(whole) + fraction) == "top "@ + (digits(whole)
            + fraction) + "%"@,
        whole >= 50 ==> bucket_label(digits(whole) + fraction) == "bottom "@ + (digits(whole)
            + fraction) + "%"@,
        below_fifty(seq!['-'] + digits(whole) + fraction),
{
    lemma_digits_shape(whole);
    lemma_leading_number_of_digits(whole, fraction);
    assert((digits(whole) + fraction)[0] == digits(whole)[0]);
    assert((seq!['-'] + digits(whole) + fraction)[0] == '-');
}

/// Decides whether a decimal numeral denotes a number below fifty.
pub fn is_below_fifty(numeral: &str) -> (r: bool)
    ensures
        r == below_fifty(numeral@),
{
    let n = numeral.unicode_len();
    if n == 0 {
        return false;
    }
    let first = numeral.get_char(0);
    if first == '-' {
        return true;
    }
    if !('0' <= first && first <= '9') {
        return false;
    }
    let mut i: usize = 0;
    let mut acc: u32 = 0;
    assert(numeral@.subrange(0, n as int) =~= numeral@);
    while i < n
        invariant
            n == numeral@.len(),
            n > 0,
            numeral@[0] != '-',
            is_digit(numeral@[0]),
            i <= n,
            acc < 50,
            leading_number(numeral@, 0) == leading_number(
                numeral@.subrange(i as int, n as int),
                acc as nat,
            ),
        decreases n - i,
    {
        let c = numeral.get_char(i);
        let ghost rest = numeral@.subrange(i as int, n as int);
        assert(rest[0] == c);
        if !('0' <= c && c <= '9') {
            assert(leading_number(rest, acc as nat) == acc);
            return true;
        }
        let d: u32 = c as u32 - '0' as u32;
        let next: u32 = acc * 10 + d;
        proof {
            assert(rest.drop_first() =~= numeral@.subrange(i + 1, n as int));
            assert(next as nat == acc as nat * 10 + digit_value(c));
            lemma_leading_number_grows(rest.drop_first(), next as nat);
        }
        if next >= 50 {
            return false;
        }
        acc = next;
        i = i + 1;
    }
    assert(leading_number(numeral@.subrange(n as int, n as int), acc as nat) == acc);
    true
}

/// Composes the display name from tag and handle.
pub fn compose_name(tag: &str, name: &str) -> (r: String)
    ensures
        r@ == composed_name(tag@, name@),
{
    let mut out = String::new();
    if tag.unicode_len() != 0 {
        out.append("[");
        out.append(tag);
        out.append("]");
    }
    out.append(name);
    assert(out@ =~= composed_name(tag@, name@));
    out
}

/// Renders the rank label.
pub fn render_rank(rank_name: &str, division: i64, score: i64) -> (r: String)
    ensures
        r@ == rank_label(rank_name@, division, score),
{
    let mut out = String::new();
    out.append(rank_name);
    out.append(" ");
    append_decimal(&mut out, division);
    out.append(", ");
    append_decimal(&mut out, score);
    out.append(" RP");
    assert(out@ =~= rank_label(rank_name@, division, score));
    out
}

/// Renders a percentile bucket from the percentile's decimal numeral.
pub fn render_bucket(percentile: &str) -> (r: String)
    ensures
        r@ == bucket_label(percentile@),
{
    let mut out = String::new();
    if is_below_fifty(percentile) {
        out.append("top ");
    } else {
        out.append("bottom ");
    }
    out.append(percentile);
    out.append("%");
    assert(out@ =~= bucket_label(percentile@));
    out
}

/// Renders a ladder position with its percentile bucket.
pub fn render_ladder(position: i64, percentile: &str) -> (r: String)
    ensures
        r@ == ladder_label(position, percentile@),
{
    let mut out = String::new();
    append_decimal(&mut out, position);
    out.append(" (");
    let bucket = render_bucket(percentile);
    out.append(bucket.as_str());
    out.append(")");
    assert(out@ =~= ladder_label(position, percentile@));
    out
}

impl PlayerStats {
    /// Normalises a set of fields into the record.
    pub fn from_fields(fields: &ApiFields) -> (r: PlayerStats)
        ensures
            r@ == normalized(fields@),
    {
        PlayerStats {
            name: compose_name(fields.tag.as_str(), fields.name.as_str()),
            level: fields.level,
            rank: render_rank(fields.rank_name.as_str(), fields.rank_div, fields.rank_score),
            rank_image: fields.rank_image.clone(),
            global_ladder_position: render_ladder(
                fields.global_position,
                fields.global_percentile.as_str(),
            ),
            platform: fields.platform.clone(),
            platform_ladder_position: render_ladder(
                fields.platform_position,
                fields.platform_percentile.as_str(),
            ),
            career_kills: fields.career_kills,
            career_wins: fields.career_wins,
            career_revives: fields.career_revives,
        }
    }
}

/// The member under `key` of a value that may itself be missing.
pub open spec fn member_under(parent: Option<serde_json::Value>, key: Seq<char>) -> Option<
    serde_json::Value,
> {
    match parent {
        Some(p) => member(p, key),
        None => None,
    }
}

/// The string under `key`, or the empty text where there is none.
pub open spec fn text_under(parent: Option<serde_json::Value>, key: Seq<char>) -> Seq<char> {
    match member_under(parent, key) {
        Some(m) => match text_of(m) {
            Some(t) => t,
            None => Seq::empty(),
        },
        None => Seq::empty(),
    }
}

/// The integer under `key`, or zero where there is none.
pub open spec fn integer_under(parent: Option<serde_json::Value>, key: Seq<char>) -> i64 {
    match member_under(parent, key) {
        Some(m) => match integer_of(m) {
            Some(n) => n,
            None => 0,
        },
        None => 0,
    }
}

/// The numeral of the number under `key`, or that of zero where there is
/// none.
pub open spec fn decimal_under(parent: Option<serde_json::Value>, key: Seq<char>) -> Seq<char> {
    match member_under(parent, key) {
        Some(m) => match decimal_of(m) {
            Some(t) => t,
            None => "0"@,
        },
        None => "0"@,
    }
}

/// The fields of a JSON document, each read from its place in the tree.
pub open spec fn fields_of(doc: serde_json::Value) -> FieldsView {
    let global = member(doc, "global"@);
    let ranked = member_under(global, "rank"@);
    let total = member(doc, "total"@);
    FieldsView {
        name: text_under(global, "name"@),
        tag: text_under(global, "tag"@),
        level: integer_under(global, "level"@),
        platform: text_under(global, "platform"@),
        rank_name: text_under(ranked, "rankName"@),
        rank_div: integer_under(ranked, "rankDiv"@),
        rank_score: integer_under(ranked, "rankScore"@),
        rank_image: text_under(ranked, "rankImg"@),
        global_position: integer_under(ranked, "ALStopIntGlobal"@),
        global_percentile: decimal_under(ranked, "ALStopPercentGlobal"@),
        platform_position: integer_under(ranked, "ALStopInt"@),
        platform_percentile: decimal_under(ranked, "ALStopPercent"@),
        career_kills: integer_under(member_under(total, "career_kills"@), "value"@),
        career_wins: integer_under(member_under(total, "career_wins"@), "value"@),
        career_revives: integer_under(member_under(total, "career_revives"@), "value"@),
    }
}

/// What parsing a body comes to: the record, or the reader's account of the
/// fault.
pub open spec fn parse_outcome(body: Seq<char>) -> Result<StatsView, Seq<char>> {
    match parsed(body) {
        Ok(doc) => Ok(normalized(fields_of(doc))),
        Err(e) => Err(failure_detail(e)),
    }
}

/// The outcome of `parse_json` as mathematical values.
pub open spec fn outcome_view(r: Result<PlayerStats, ParseError>) -> Result<
    StatsView,
    Seq<char>,
> {
    match r {
        Ok(stats) => Ok(stats@),
        Err(e) => Err(e.detail@),
    }
}

fn child<'a>(parent: Option<&'a serde_json::Value>, key: &str) -> (r: Option<
    &'a serde_json::Value,
>)
    ensures
        optional_value(r) == member_under(optional_value(parent), key@),
{
    match parent {
        Some(p) => get_member(p, key),
        None => None,
    }
}

fn text_field(parent: Option<&serde_json::Value>, key: &str) -> (r: String)
    ensures
        r@ == text_under(optional_value(parent), key@),
{
    match child(parent, key) {
        Some(m) => match get_text(m) {
            Some(t) => t.to_owned(),
            None => String::new(),
        },
        None => String::new(),
    }
}

fn integer_field(parent: Option<&serde_json::Value>, key: &str) -> (r: i64)
    ensures
        r == integer_under(optional_value(parent), key@),
{
    match child(parent, key) {
        Some(m) => match get_integer(m) {
            Some(n) => n,
            None => 0,
        },
        None => 0,
    }
}

fn decimal_field(parent: Option<&serde_json::Value>, key: &str) -> (r: String)
    ensures
        r@ == decimal_under(optional_value(parent), key@),
{
    match child(parent, key) {
        Some(m) => match get_decimal(m) {
            Some(t) => t,
            None => "0".to_owned(),
        },
        None => "0".to_owned(),
    }
}

/// Reads the fields out of a JSON document, with the default for each one
/// that is missing.
pub fn read_fields(doc: &serde_json::Value) -> (r: ApiFields)
    ensures
        r@ == fields_of(*doc),
{
    let global = get_member(doc, "global");
    let ranked = child(global, "rank");
    let total = get_member(doc, "total");
    ApiFields {
        name: text_field(global, "name"),
        tag: text_field(global, "tag"),
        level: integer_field(global, "level"),
        platform: text_field(global, "platform"),
        rank_name: text_field(ranked, "rankName"),
        rank_div: integer_field(ranked, "rankDiv"),
        rank_score: integer_field(ranked, "rankScore"),
        rank_image: text_field(ranked, "rankImg"),
        global_position: integer_field(ranked, "ALStopIntGlobal"),
        global_percentile: decimal_field(ranked, "ALStopPercentGlobal"),
        platform_position: integer_field(ranked, "ALStopInt"),
        platform_percentile: decimal_field(ranked, "ALStopPercent"),
        career_kills: integer_field(child(total, "career_kills"), "value"),
        career_wins: integer_field(child(total, "career_wins"), "value"),
        career_revives: integer_field(child(total, "career_revives"), "value"),
    }
}

/// Parses the service's answer. A body that is JSON always gives a record,
/// with defaults for what it lacks; any other body gives the reader's error.
pub fn parse_json(json: &str) -> (r: Result<PlayerStats, ParseError>)
    ensures
        outcome_view(r) == parse_outcome(json@),
{
    match read_document(json) {
        Ok(doc) => {
            let fields = read_fields(&doc);
            Ok(PlayerStats::from_fields(&fields))
        },
        Err(e) => Err(ParseError { detail: describe_failure(&e) }),
    }
}

/// A body that is JSON but has no `total.career_kills.value` still parses,
/// and the record's career kills are zero.
pub proof fn lemma_missing_kills_default(body: Seq<char>)
    requires
        parsed(body) is Ok,
        member_under(
            member_under(member(parsed(body)->Ok_0, "total"@), "career_kills"@),
            "value"@,
        ) is None,
    ensures
        parse_outcome(body) is Ok,
        parse_outcome(body)->Ok_0.career_kills == 0,
{
}

/// Whatever a JSON body lacks, it parses: the outcome is an error only for a
/// body that the reader rejects.
pub proof fn lemma_json_always_parses(body: Seq<char>)
    ensures
        parse_outcome(body) is Ok <==> parsed(body) is Ok,
{
}

} // verus!
