//! The request that a lookup sends to the statistics service.

use vstd::prelude::*;
use vstd::string::*;
use vstd::utf8::{encode_utf8, is_ascii_chars, is_ascii_chars_encode_utf8};
use crate::platform::PlatformCode;
use crate::text::digit_char;

verus! {

/// The characters that stand for themselves in a query value: Latin letters,
/// digits, and `-`, `_`, `.`, `~`.
pub open spec fn is_unreserved(c: char) -> bool {
    ('a' <= c && c <= 'z') || ('A' <= c && c <= 'Z') || ('0' <= c && c <= '9') || c == '-' || c
        == '_' || c == '.' || c == '~'
}

/// The hexadecimal digit for a value below sixteen, in capitals.
pub open spec fn hex_digit(d: nat) -> char {
    if d < 10 {
        digit_char(d)
    } else if d == 10 {
        'A'
    } else if d == 11 {
        'B'
    } else if d == 12 {
        'C'
    } else if d == 13 {
        'D'
    } else if d == 14 {
        'E'
    } else {
        'F'
    }
}

/// Bytes written as `%XX` each, `XX` being the byte in hexadecimal.
pub open spec fn percent_encoded(bytes: Seq<u8>) -> Seq<char>
    decreases bytes.len(),
{
    if bytes.len() == 0 {
        Seq::empty()
    } else {
        percent_encoded(bytes.drop_last()) + seq![
            '%',
            hex_digit((bytes.last() / 16) as nat),
            hex_digit((bytes.last() % 16) as nat),
        ]
    }
}

/// One character of a query value: itself where it is unreserved, else the
/// bytes of its UTF-8 encoding as `%XX` each.
pub open spec fn escaped(c: char) -> Seq<char> {
    if is_unreserved(c) {
        seq![c]
    } else {
        percent_encoded(encode_utf8(seq![c]))
    }
}

/// A text as the value of a query parameter: each character escaped.
pub open spec fn query_value(s: Seq<char>) -> Seq<char>
    decreases s.len(),
{
    if s.len() == 0 {
        Seq::empty()
    } else {
        query_value(s.drop_last()) + escaped(s.last())
    }
}

/// The address of a lookup: the service's bridge endpoint with exactly three
/// query parameters, in this order: the key, the player and the platform's
/// code. Key and player go in as query values, so that nothing in them can
/// end a parameter or begin another.
pub open spec fn lookup_url(api_key: Seq<char>, player: Seq<char>, platform: PlatformCode) -> Seq<
    char,
> {
    "https://api.mozambiquehe.re/bridge?auth="@ + query_value(api_key) + "&player="@ + query_value(
        player,
    ) + "&platform="@ + platform.code()
}

fn hex_text(d: u8) -> (r: &'static str)
    requires
        d < 16,
    ensures
        r@ == seq![hex_digit(d as nat)],
{
    proof {
        reveal_strlit("0");
        reveal_strlit("1");
        reveal_strlit("2");
        reveal_strlit("3");
        reveal_strlit("4");
        reveal_strlit("5");
        reveal_strlit("6");
        reveal_strlit("7");
        reveal_strlit("8");
        reveal_strlit("9");
        reveal_strlit("A");
        reveal_strlit("B");
        reveal_strlit("C");
        reveal_strlit("D");
        reveal_strlit("E");
        reveal_strlit("F");
    }
    let r = if d == 0 {
        "0"
    } else if d == 1 {
        "1"
    } else if d == 2 {
        "2"
    } else if d == 3 {
        "3"
    } else if d == 4 {
        "4"
    } else if d == 5 {
        "5"
    } else if d == 6 {
        "6"
    } else if d == 7 {
        "7"
    } else if d == 8 {
        "8"
    } else if d == 9 {
        "9"
    } else if d == 10 {
        "A"
    } else if d == 11 {
        "B"
    } else if d == 12 {
        "C"
    } else if d == 13 {
        "D"
    } else if d == 14 {
        "E"
    } else {
        "F"
    };
    assert(r@ =~= seq![hex_digit(d as nat)]);
    r
}

fn append_percent_encoded(out: &mut String, bytes: &[u8])
    ensures
        final(out)@ == old(out)@ + percent_encoded(bytes@),
{
    let ghost start = out@;
    let n = bytes.len();
    let mut j: usize = 0;
    assert(out@ =~= start + percent_encoded(bytes@.subrange(0, 0)));
    while j < n
        invariant
            n == bytes@.len(),
            j <= n,
            out@ == start + percent_encoded(bytes@.subrange(0, j as int)),
        decreases n - j,
    {
        let b: u8 = bytes[j];
        let ghost before = out@;
        out.append("%");
        out.append(hex_text(b / 16));
        out.append(hex_text(b % 16));
        proof {
            reveal_strlit("%");
            let upto = bytes@.subrange(0, j + 1);
            assert(upto.drop_last() =~= bytes@.subrange(0, j as int));
            assert(upto.last() == b);
            assert(out@ =~= before + seq![
                '%',
                hex_digit((b / 16) as nat),
                hex_digit((b % 16) as nat),
            ]);
            assert(out@ =~= start + percent_encoded(upto));
        }
        j = j + 1;
    }
    assert(bytes@.subrange(0, n as int) =~= bytes@);
}

fn unreserved(c: char) -> (r: bool)
    ensures
        r == is_unreserved(c),
{
    ('a' <= c && c <= 'z') || ('A' <= c && c <= 'Z') || ('0' <= c && c <= '9') || c == '-' || c
        == '_' || c == '.' || c == '~'
}

/// Appends a text to `out` as the value of a query parameter.
pub fn append_query_value(out: &mut String, value: &str)
    ensures
        final(out)@ == old(out)@ + query_value(value@),
{
    let ghost start = out@;
    let n = value.unicode_len();
    let mut i: usize = 0;
    assert(out@ =~= start + query_value(value@.subrange(0, 0)));
    while i < n
        invariant
            n == value@.len(),
            i <= n,
            out@ == start + query_value(value@.subrange(0, i as int)),
        decreases n - i,
    {
        let c = value.get_char(i);
        let one = value.substring_char(i, i + 1);
        let ghost before = out@;
        proof {
            let upto = value@.subrange(0, i + 1);
            assert(upto.drop_last() =~= value@.subrange(0, i as int));
            assert(upto.last() == c);
            assert(one@ =~= seq![c]);
        }
        if unreserved(c) {
            out.append(one);
        } else {
            append_percent_encoded(out, one.as_bytes());
        }
        assert(out@ =~= start + query_value(value@.subrange(0, i + 1)));
        i = i + 1;
    }
    assert(value@.subrange(0, n as int) =~= value@);
}

/// Builds the address that a lookup is fetched from.
pub fn request_url(api_key: &str, player: &str, platform: PlatformCode) -> (r: String)
    ensures
        r@ == lookup_url(api_key@, player@, platform),
{
    let mut out = String::new();
    out.append("https://api.mozambiquehe.re/bridge?auth=");
    append_query_value(&mut out, api_key);
    out.append("&player=");
    append_query_value(&mut out, player);
    out.append("&platform=");
    out.append(platform.api_code());
    assert(out@ =~= lookup_url(api_key@, player@, platform));
    out
}

proof fn lemma_percent_encoded_is_inert(bytes: Seq<u8>)
    ensures
        forall|i: int|
            0 <= i < percent_encoded(bytes).len() ==> is_unreserved(
                #[trigger] percent_encoded(bytes)[i],
            ) || percent_encoded(bytes)[i] == '%',
    decreases bytes.len(),
{
    if bytes.len() > 0 {
        lemma_percent_encoded_is_inert(bytes.drop_last());
        let b = bytes.last();
        let head = percent_encoded(bytes.drop_last());
        let tail = seq!['%', hex_digit((b / 16) as nat), hex_digit((b % 16) as nat)];
        assert(is_unreserved(tail[1]));
        assert(is_unreserved(tail[2]));
        assert forall|i: int| 0 <= i < percent_encoded(bytes).len() implies is_unreserved(
            #[trigger] percent_encoded(bytes)[i],
        ) || percent_encoded(bytes)[i] == '%' by {
            if i < head.len() {
                assert(percent_encoded(bytes)[i] == head[i]);
            } else {
                assert(percent_encoded(bytes)[i] == tail[i - head.len()]);
            }
        }
    }
}

/// A query value holds unreserved characters and `%` alone. So it holds none
/// of the characters that shape a query (`&`, `=`, `#`, `?`, `+`, `/`, the
/// space): whatever the key or the player is, it stays inside its own
/// parameter.
pub proof fn lemma_query_value_is_inert(s: Seq<char>)
    ensures
        forall|i: int|
            0 <= i < query_value(s).len() ==> is_unreserved(#[trigger] query_value(s)[i])
                || query_value(s)[i] == '%',
        forall|i: int|
            0 <= i < query_value(s).len() ==> (#[trigger] query_value(s)[i]) != '&'
                && query_value(s)[i] != '=' && query_value(s)[i] != '#' && query_value(s)[i]
                != '?' && query_value(s)[i] != '+' && query_value(s)[i] != '/' && query_value(
                s,
            )[i] != ' ',
    decreases s.len(),
{
    if s.len() > 0 {
        lemma_query_value_is_inert(s.drop_last());
        lemma_percent_encoded_is_inert(encode_utf8(seq![s.last()]));
        let head = query_value(s.drop_last());
        let tail = escaped(s.last());
        assert forall|i: int| 0 <= i < query_value(s).len() implies is_unreserved(
            #[trigger] query_value(s)[i],
        ) || query_value(s)[i] == '%' by {
            if i < head.len() {
                assert(query_value(s)[i] == head[i]);
            } else {
                assert(query_value(s)[i] == tail[i - head.len()]);
            }
        }
    }
}

/// How often a character occurs in a text.
pub open spec fn occurrences(s: Seq<char>, c: char) -> nat
    decreases s.len(),
{
    if s.len() == 0 {
        0
    } else {
        occurrences(s.drop_last(), c) + if s.last() == c {
            1nat
        } else {
            0nat
        }
    }
}

proof fn lemma_occurrences_concat(a: Seq<char>, b: Seq<char>, c: char)
    ensures
        occurrences(a + b, c) == occurrences(a, c) + occurrences(b, c),
    decreases b.len(),
{
    if b.len() == 0 {
        assert(a + b =~= a);
    } else {
        lemma_occurrences_concat(a, b.drop_last(), c);
        assert((a + b).drop_last() =~= a + b.drop_last());
    }
}

proof fn lemma_occurrences_none(s: Seq<char>, c: char)
    requires
        forall|i: int| 0 <= i < s.len() ==> s[i] != c,
    ensures
        occurrences(s, c) == 0,
    decreases s.len(),
{
    if s.len() > 0 {
        lemma_occurrences_none(s.drop_last(), c);
    }
}

proof fn lemma_fixed_parts()
    ensures
        "https://api.mozambiquehe.re/bridge?auth="@ == "https://api.mozambiquehe.re/bridge"@
            + seq!['?'] + "auth"@ + seq!['='],
        "&player="@ == seq!['&'] + "player"@ + seq!['='],
        "&platform="@ == seq!['&'] + "platform"@ + seq!['='],
        forall|c: char|
            c == '&' || c == '=' || c == '?' || c == '#' ==> occurrences(
                "https://api.mozambiquehe.re/bridge"@,
                c,
            ) == 0 && occurrences("auth"@, c) == 0 && occurrences("player"@, c) == 0
                && occurrences("platform"@, c) == 0 && occurrences("PC"@, c) == 0 && occurrences(
                "X1"@,
                c,
            ) == 0 && occurrences("PS4"@, c) == 0,
{
    reveal_strlit("https://api.mozambiquehe.re/bridge?auth=");
    reveal_strlit("https://api.mozambiquehe.re/bridge");
    reveal_strlit("auth");
    reveal_strlit("&player=");
    reveal_strlit("player");
    reveal_strlit("&platform=");
    reveal_strlit("platform");
    reveal_strlit("PC");
    reveal_strlit("X1");
    reveal_strlit("PS4");
    assert("https://api.mozambiquehe.re/bridge?auth="@ =~= "https://api.mozambiquehe.re/bridge"@
        + seq!['?'] + "auth"@ + seq!['=']);
    assert("&player="@ =~= seq!['&'] + "player"@ + seq!['=']);
    assert("&platform="@ =~= seq!['&'] + "platform"@ + seq!['=']);
    assert forall|c: char| c == '&' || c == '=' || c == '?' || c == '#' implies occurrences(
        "https://api.mozambiquehe.re/bridge"@,
        c,
    ) == 0 && occurrences("auth"@, c) == 0 && occurrences("player"@, c) == 0 && occurrences(
        "platform"@,
        c,
    ) == 0 && occurrences("PC"@, c) == 0 && occurrences("X1"@, c) == 0 && occurrences("PS4"@, c)
        == 0 by {
        lemma_occurrences_none("https://api.mozambiquehe.re/bridge"@, c);
        lemma_occurrences_none("auth"@, c);
        lemma_occurrences_none("player"@, c);
        lemma_occurrences_none("platform"@, c);
        lemma_occurrences_none("PC"@, c);
        lemma_occurrences_none("X1"@, c);
        lemma_occurrences_none("PS4"@, c);
    }
}

proof fn lemma_occurrences_in_url(
    api_key: Seq<char>,
    player: Seq<char>,
    platform: PlatformCode,
    c: char,
)
    requires
        c == '&' || c == '=' || c == '?' || c == '#',
    ensures
        occurrences(lookup_url(api_key, player, platform), c) == occurrences(seq!['?'], c) + 3
            * occurrences(seq!['='], c) + 2 * occurrences(seq!['&'], c),
{
    lemma_fixed_parts();
    lemma_query_value_is_inert(api_key);
    lemma_query_value_is_inert(player);
    lemma_occurrences_none(query_value(api_key), c);
    lemma_occurrences_none(query_value(player), c);
    let host = "https://api.mozambiquehe.re/bridge"@;
    let a1 = host + seq!['?'];
    let a2 = a1 + "auth"@;
    let a3 = a2 + seq!['='];
    let a4 = a3 + query_value(api_key);
    let b1 = seq!['&'] + "player"@;
    let b2 = b1 + seq!['='];
    let a5 = a4 + b2;
    let a6 = a5 + query_value(player);
    let c1 = seq!['&'] + "platform"@;
    let c2 = c1 + seq!['='];
    let a7 = a6 + c2;
    let a8 = a7 + platform.code();
    assert(a8 == lookup_url(api_key, player, platform));
    lemma_occurrences_concat(host, seq!['?'], c);
    lemma_occurrences_concat(a1, "auth"@, c);
    lemma_occurrences_concat(a2, seq!['='], c);
    lemma_occurrences_concat(a3, query_value(api_key), c);
    lemma_occurrences_concat(seq!['&'], "player"@, c);
    lemma_occurrences_concat(b1, seq!['='], c);
    lemma_occurrences_concat(a4, b2, c);
    lemma_occurrences_concat(a5, query_value(player), c);
    lemma_occurrences_concat(seq!['&'], "platform"@, c);
    lemma_occurrences_concat(c1, seq!['='], c);
    lemma_occurrences_concat(a6, c2, c);
    lemma_occurrences_concat(a7, platform.code(), c);
}

/// The address has exactly three query parameters, whatever the key and the
/// player hold: one `?` opens the query, two `&` part its three parameters,
/// each has its one `=`, and no `#` cuts the query short.
pub proof fn lemma_three_parameters(api_key: Seq<char>, player: Seq<char>, platform: PlatformCode)
    ensures
        occurrences(lookup_url(api_key, player, platform), '?') == 1,
        occurrences(lookup_url(api_key, player, platform), '&') == 2,
        occurrences(lookup_url(api_key, player, platform), '=') == 3,
        occurrences(lookup_url(api_key, player, platform), '#') == 0,
{
    lemma_occurrences_in_url(api_key, player, platform, '?');
    lemma_occurrences_in_url(api_key, player, platform, '&');
    lemma_occurrences_in_url(api_key, player, platform, '=');
    lemma_occurrences_in_url(api_key, player, platform, '#');
    reveal_with_fuel(occurrences, 2);
    assert(seq!['?'].drop_last().len() == 0);
    assert(seq!['='].drop_last().len() == 0);
    assert(seq!['&'].drop_last().len() == 0);
}

/// A character of the ASCII range that is not unreserved is escaped as one
/// `%XX`, `XX` being its code in hexadecimal.
pub proof fn lemma_escaped_ascii(c: char)
    requires
        (c as u32) < 128,
        !is_unreserved(c),
    ensures
        escaped(c) == seq![
            '%',
            hex_digit((c as u8 / 16) as nat),
            hex_digit((c as u8 % 16) as nat),
        ],
{
    let one = seq![c];
    assert(is_ascii_chars(one));
    is_ascii_chars_encode_utf8(one);
    let bytes = encode_utf8(one);
    assert(bytes =~= seq![c as u8]);
    assert(bytes.drop_last() =~= Seq::<u8>::empty());
    reveal_with_fuel(percent_encoded, 2);
    assert(percent_encoded(bytes) =~= seq![
        '%',
        hex_digit((c as u8 / 16) as nat),
        hex_digit((c as u8 % 16) as nat),
    ]);
}

/// The value of a hexadecimal digit.
pub open spec fn hex_value(c: char) -> nat {
    if '0' <= c && c <= '9' {
        (c as int - '0' as int) as nat
    } else if 'A' <= c && c <= 'F' {
        (c as int - 'A' as int + 10) as nat
    } else {
        0
    }
}

/// The bytes that a query value stands for, read from its end: a `%` two
/// places before the end marks one byte written in hexadecimal; any other
/// last character stands for itself.
pub open spec fn percent_decoded(q: Seq<char>) -> Seq<u8>
    decreases q.len(),
{
    if q.len() == 0 {
        Seq::empty()
    } else if q.len() >= 3 && q[q.len() - 3] == '%' {
        percent_decoded(q.subrange(0, q.len() - 3)).push(
            (hex_value(q[q.len() - 2]) * 16 + hex_value(q[q.len() - 1])) as u8,
        )
    } else {
        percent_decoded(q.drop_last()).push(q.last() as u8)
    }
}

proof fn lemma_encode_utf8_concat(a: Seq<char>, b: Seq<char>)
    ensures
        encode_utf8(a + b) == encode_utf8(a) + encode_utf8(b),
    decreases a.len(),
{
    if a.len() == 0 {
        assert(a + b =~= b);
        assert(encode_utf8(a) + encode_utf8(b) =~= encode_utf8(b));
    } else {
        lemma_encode_utf8_concat(a.drop_first(), b);
        assert((a + b).drop_first() =~= a.drop_first() + b);
        assert(encode_utf8(a + b) =~= encode_utf8(a) + encode_utf8(b));
    }
}

proof fn lemma_percent_encoded_decodes(q: Seq<char>, bytes: Seq<u8>)
    ensures
        percent_decoded(q + percent_encoded(bytes)) == percent_decoded(q) + bytes,
    decreases bytes.len(),
{
    if bytes.len() == 0 {
        assert(q + percent_encoded(bytes) =~= q);
        assert(percent_decoded(q) + bytes =~= percent_decoded(q));
    } else {
        let b = bytes.last();
        let init = bytes.drop_last();
        let h1 = hex_digit((b / 16) as nat);
        let h2 = hex_digit((b % 16) as nat);
        let whole = q + percent_encoded(bytes);
        let head = q + percent_encoded(init);
        lemma_percent_encoded_decodes(q, init);
        assert(whole =~= head + seq!['%', h1, h2]);
        assert(whole.subrange(0, whole.len() - 3) =~= head);
        assert(hex_value(h1) == b / 16 && hex_value(h2) == b % 16);
        assert((hex_value(h1) * 16 + hex_value(h2)) as u8 == b);
        assert(percent_decoded(whole) == percent_decoded(head).push(b));
        assert((percent_decoded(q) + init).push(b) =~= percent_decoded(q) + bytes);
    }
}

proof fn lemma_query_value_end(s: Seq<char>)
    ensures
        query_value(s).len() >= 1 ==> query_value(s)[query_value(s).len() - 1] != '%',
        query_value(s).len() >= 2 ==> query_value(s)[query_value(s).len() - 2] != '%',
    decreases s.len(),
{
    if s.len() > 0 {
        let c = s.last();
        let head = query_value(s.drop_last());
        lemma_query_value_end(s.drop_last());
        if is_unreserved(c) {
            assert(query_value(s) =~= head.push(c));
        } else {
            let bytes = encode_utf8(seq![c]);
            if bytes.len() > 0 {
                let b = bytes.last();
                let h1 = hex_digit((b / 16) as nat);
                let h2 = hex_digit((b % 16) as nat);
                assert(query_value(s) =~= (head + percent_encoded(bytes.drop_last())) + seq![
                    '%',
                    h1,
                    h2,
                ]);
                assert(h1 != '%' && h2 != '%');
            } else {
                assert(query_value(s) =~= head);
            }
        }
    }
}

/// Decoding a query value gives back the UTF-8 bytes of the text it was made
/// from: the service reads the key and the player exactly as they were
/// given.
pub proof fn lemma_query_value_decodes(s: Seq<char>)
    ensures
        percent_decoded(query_value(s)) == encode_utf8(s),
    decreases s.len(),
{
    if s.len() > 0 {
        let c = s.last();
        let init = s.drop_last();
        let head = query_value(init);
        lemma_query_value_decodes(init);
        lemma_encode_utf8_concat(init, seq![c]);
        assert(init + seq![c] =~= s);
        if is_unreserved(c) {
            lemma_query_value_end(init);
            let whole = head.push(c);
            assert(query_value(s) =~= whole);
            assert(whole.drop_last() =~= head);
            assert(is_ascii_chars(seq![c]));
            is_ascii_chars_encode_utf8(seq![c]);
            assert(encode_utf8(seq![c]) =~= seq![c as u8]);
            assert(percent_decoded(whole) == percent_decoded(head).push(c as u8));
            assert(percent_decoded(head).push(c as u8) =~= encode_utf8(init) + seq![c as u8]);
        } else {
            lemma_percent_encoded_decodes(head, encode_utf8(seq![c]));
        }
    }
}

/// An unreserved text is its own query value.
pub proof fn lemma_query_value_of_unreserved(s: Seq<char>)
    requires
        forall|i: int| 0 <= i < s.len() ==> is_unreserved(#[trigger] s[i]),
    ensures
        query_value(s) == s,
    decreases s.len(),
{
    if s.len() > 0 {
        lemma_query_value_of_unreserved(s.drop_last());
        assert(s.drop_last().push(s.last()) =~= s);
        assert(query_value(s) =~= s);
    }
}

} // verus!
