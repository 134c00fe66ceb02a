//! The Finnhub trade feed: the endpoint, the subscription messages, and the
//! protocol a feed connection follows, written as a state machine that the
//! caller drives with what the websocket did.

use vstd::prelude::*;
use vstd::string::*;

verus! {

/// The kind of Finnhub stream a feed reads.
#[derive(PartialEq, Eq, Structural, Clone, Copy, Debug)]
pub enum FinnhubStream {
    TextData,
    BinaryUpdates,
}

/// The name of the environment variable that holds the feed's base URL.
pub open spec fn finnhub_url_variable() -> Seq<char> {
    "FINNHUB_URL"@
}

impl FinnhubStream {
    /// The environment variable that holds the base URL of this stream; both
    /// kinds of stream are served from the same endpoint.
    pub fn url_variable(&self) -> (name: &'static str)
        ensures
            name@ == finnhub_url_variable(),
    {
        match self {
            FinnhubStream::TextData => "FINNHUB_URL",
            FinnhubStream::BinaryUpdates => "FINNHUB_URL",
        }
    }
}

/// The Finnhub websocket client.
pub struct WsFinnhub;

impl WsFinnhub {
    /// The URL a feed connects to: the configured base URL followed by the
    /// account's API key (the base URL ends in `?token=`).
    pub fn endpoint(base_url: &str, api_key: &str) -> (url: String)
        ensures
            url@ == base_url@ + api_key@,
    {
        let mut url = String::from_str(base_url);
        url.append(api_key);
        url
    }
}

/// Uppercase as the standard library's `str::to_uppercase` defines it (the
/// Unicode case mapping).
pub uninterp spec fn unicode_uppercase(text: Seq<char>) -> Seq<char>;

/// A text of ASCII characters only.
pub open spec fn is_ascii_text(text: Seq<char>) -> bool {
    forall|i: int| 0 <= i < text.len() ==> (#[trigger] text[i] as u32) < 0x80
}

/// The capital of an ASCII lower-case letter; any other character as it is.
pub open spec fn ascii_uppercase_char(c: char) -> char {
    if 'a' <= c && c <= 'z' {
        ((c as u32) - 0x20) as char
    } else {
        c
    }
}

/// A text with each ASCII lower-case letter replaced by its capital.
pub open spec fn ascii_uppercase(text: Seq<char>) -> Seq<char> {
    text.map_values(|c: char| ascii_uppercase_char(c))
}

/// Calls `str::to_uppercase`. Claimed: the result is the Unicode uppercase
/// of the argument, a function of the argument alone; on ASCII text the
/// Unicode mapping sends each lower-case letter to its capital and leaves
/// every other ASCII character as it is (no ASCII character has a special
/// or multi-character upper case).
#[verifier::external_body]
fn to_uppercase(text: &str) -> (upper: String)
    ensures
        upper@ == unicode_uppercase(text@),
        is_ascii_text(text@) ==> upper@ == ascii_uppercase(text@),
{
    text.to_uppercase()
}

/// Uppercases every ticker symbol of a list, keeping the order.
pub fn stock_list_to_uppercase(lower_stock: &Vec<String>) -> (upper: Vec<String>)
    ensures
        upper@.len() == lower_stock@.len(),
        forall|i: int|
            0 <= i < lower_stock@.len() ==> #[trigger] upper@[i]@ == unicode_uppercase(
                lower_stock@[i]@,
            ),
        forall|i: int|
            0 <= i < lower_stock@.len() && is_ascii_text(lower_stock@[i]@) ==> #[trigger] upper@[i]@
                == ascii_uppercase(lower_stock@[i]@),
{
    let mut upper: Vec<String> = Vec::new();
    let mut i: usize = 0;
    while i < lower_stock.len()
        invariant
            i <= lower_stock@.len(),
            upper@.len() == i,
            forall|j: int|
                0 <= j < i ==> #[trigger] upper@[j]@ == unicode_uppercase(lower_stock@[j]@),
            forall|j: int|
                0 <= j < i && is_ascii_text(lower_stock@[j]@) ==> #[trigger] upper@[j]@
                    == ascii_uppercase(lower_stock@[j]@),
        decreases lower_stock@.len() - i,
    {
        upper.push(to_uppercase(lower_stock[i].as_str()));
        i = i + 1;
    }
    upper
}

/// A hexadecimal digit, in lower case.
pub open spec fn hex_digit(n: u32) -> char {
    seq!['0', '1', '2', '3', '4', '5', '6', '7', '8', '9', 'a', 'b', 'c', 'd', 'e', 'f'][n as int]
}

/// How `serde_json` writes one character inside a JSON string: quote and
/// backslash after a backslash, the five C escapes for backspace, tab, line
/// feed, form feed and carriage return, `\u00xx` for the other control
/// characters below 0x20, and every other character as it is.
pub open spec fn json_escape_char(c: char) -> Seq<char> {
    if c == '"' {
        seq!['\\', '"']
    } else if c == '\\' {
        seq!['\\', '\\']
    } else if (c as u32) == 0x08 {
        seq!['\\', 'b']
    } else if (c as u32) == 0x09 {
        seq!['\\', 't']
    } else if (c as u32) == 0x0a {
        seq!['\\', 'n']
    } else if (c as u32) == 0x0c {
        seq!['\\', 'f']
    } else if (c as u32) == 0x0d {
        seq!['\\', 'r']
    } else if (c as u32) < 0x20 {
        seq!['\\', 'u', '0', '0', hex_digit((c as u32) / 16), hex_digit((c as u32) % 16)]
    } else {
        seq![c]
    }
}

/// The escaped characters of a text, in order.
pub open spec fn json_escaped(text: Seq<char>) -> Seq<char>
    decreases text.len(),
{
    if text.len() == 0 {
        seq![]
    } else {
        json_escaped(text.drop_last()) + json_escape_char(text.last())
    }
}

/// The JSON string literal that `serde_json` writes for a text: the escaped
/// text between double quotes.
pub open spec fn json_string_literal(text: Seq<char>) -> Seq<char> {
    seq!['"'] + json_escaped(text) + seq!['"']
}

/// A text that JSON carries verbatim: no quote, backslash or control character.
pub open spec fn json_verbatim(text: Seq<char>) -> bool {
    forall|i: int|
        0 <= i < text.len() ==> #[trigger] text[i] != '"' && text[i] != '\\' && (text[i] as u32)
            >= 0x20
}

/// A text without quote, backslash or control character is written as it is.
pub proof fn lemma_verbatim_text_is_not_escaped(text: Seq<char>)
    requires
        json_verbatim(text),
    ensures
        json_escaped(text) == text,
    decreases text.len(),
{
    if text.len() > 0 {
        let shorter = text.drop_last();
        assert(json_verbatim(shorter)) by {
            assert forall|i: int| 0 <= i < shorter.len() implies #[trigger] shorter[i] != '"'
                && shorter[i] != '\\' && (shorter[i] as u32) >= 0x20 by {
                assert(shorter[i] == text[i]);
            }
        }
        lemma_verbatim_text_is_not_escaped(shorter);
        assert(text[text.len() - 1] == text.last());
        assert(shorter.push(text.last()) =~= text);
    }
}

/// `a` sorts before `b`: character by character, by code point, a proper
/// prefix first. This is the order of `String` (byte-wise on UTF-8, which
/// keeps code point order), and so of the keys of a `serde_json::Map`.
pub open spec fn text_less(a: Seq<char>, b: Seq<char>) -> bool
    decreases a.len(),
{
    if a.len() == 0 {
        b.len() > 0
    } else if b.len() == 0 {
        false
    } else if a[0] != b[0] {
        (a[0] as u32) < (b[0] as u32)
    } else {
        text_less(a.drop_first(), b.drop_first())
    }
}

/// One entry of a compact JSON object with a string value.
pub open spec fn json_entry(key: Seq<char>, value: Seq<char>) -> Seq<char> {
    json_string_literal(key) + seq![':'] + json_string_literal(value)
}

/// The compact JSON text of an object with two string entries under two
/// different keys, the entries in key order.
pub open spec fn json_object_of_two(
    first_key: Seq<char>,
    first_value: Seq<char>,
    second_key: Seq<char>,
    second_value: Seq<char>,
) -> Seq<char> {
    if text_less(first_key, second_key) {
        seq!['{'] + json_entry(first_key, first_value) + seq![','] + json_entry(
            second_key,
            second_value,
        ) + seq!['}']
    } else {
        seq!['{'] + json_entry(second_key, second_value) + seq![','] + json_entry(
            first_key,
            first_value,
        ) + seq!['}']
    }
}

/// Inserts two string entries into a `serde_json::Map`, wraps it in
/// `serde_json::Value::Object`, and writes it with `to_string`. Claimed: for
/// two different keys the text is `json_object_of_two`. The map is a
/// `BTreeMap` (no crate of this build enables serde_json's `preserve_order`),
/// so it holds its entries in key order; the compact formatter writes `{`,
/// the entries as `key:value` separated by `,`, and `}`, each key and value
/// as `json_string_literal` states. Writing into memory does not fail.
#[verifier::external_body]
fn json_object_text(
    first_key: &str,
    first_value: &str,
    second_key: &str,
    second_value: &str,
) -> (text: String)
    ensures
        first_key@ != second_key@ ==> text@ == json_object_of_two(
            first_key@,
            first_value@,
            second_key@,
            second_value@,
        ),
{
    let mut object = serde_json::Map::new();
    object.insert(first_key.to_string(), serde_json::Value::String(first_value.to_string()));
    object.insert(second_key.to_string(), serde_json::Value::String(second_value.to_string()));
    serde_json::Value::Object(object).to_string()
}

/// The text that opens a subscription message, up to the symbol.
pub open spec fn subscribe_prefix() -> Seq<char> {
    json_string_literal(seq!['s', 'y', 'm', 'b', 'o', 'l']) + seq![':']
}

/// The text that closes a subscription message, after the symbol.
pub open spec fn subscribe_suffix() -> Seq<char> {
    seq![','] + json_entry(seq!['t', 'y', 'p', 'e'], seq!['s', 'u', 'b', 's', 'c', 'r', 'i', 'b', 'e'])
}

/// The subscription message for one symbol, `{"symbol":"TSLA","type":"subscribe"}`:
/// the compact JSON text of the object with the string fields `type` and
/// `symbol`, written by serde_json with its keys in sorted order.
pub open spec fn subscribe_message_text(symbol: Seq<char>) -> Seq<char> {
    seq!['{'] + subscribe_prefix() + json_string_literal(symbol) + subscribe_suffix() + seq!['}']
}

/// Builds the message that subscribes the feed to one symbol's trades.
pub fn subscribe_message(symbol: &str) -> (message: String)
    ensures
        message@ == subscribe_message_text(symbol@),
        json_verbatim(symbol@) ==> message@ == seq!['{'] + subscribe_prefix() + seq!['"'] + symbol@
            + seq!['"'] + subscribe_suffix() + seq!['}'],
{
    let message = json_object_text("type", "subscribe", "symbol", symbol);
    proof {
        reveal_strlit("type");
        reveal_strlit("subscribe");
        reveal_strlit("symbol");
        let type_key = seq!['t', 'y', 'p', 'e'];
        let symbol_key = seq!['s', 'y', 'm', 'b', 'o', 'l'];
        assert("type"@ =~= type_key);
        assert("symbol"@ =~= symbol_key);
        assert("subscribe"@ =~= seq!['s', 'u', 'b', 's', 'c', 'r', 'i', 'b', 'e']);
        assert(type_key[0] != symbol_key[0]);
        assert(!text_less(type_key, symbol_key));
        assert(message@ =~= subscribe_message_text(symbol@));
        if json_verbatim(symbol@) {
            lemma_verbatim_text_is_not_escaped(symbol@);
        }
    }
    message
}

} // verus!
