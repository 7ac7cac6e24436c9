//! Reading a JSON document with the `rustc_serialize` parser.
//!
//! The parser and the values it builds are not verified here. This module
//! states what the rest of the library relies on when it calls them, and
//! looks every document over first: the parser does not come back from all
//! of them.

use rustc_serialize::json::{Json, ParserError};
use vstd::prelude::*;
use vstd::utf8::*;

verus! {

/// `rustc_serialize::json::Json`, a parsed JSON value. Nothing is known of
/// what one holds but what [`find`] and [`as_string`] tell.
#[verifier::external_type_specification]
#[verifier::external_body]
pub struct ExJson(rustc_serialize::json::Json);

/// `rustc_serialize::json::ParserError`, the parser's complaint. It is only
/// ever told apart from success.
#[verifier::external_type_specification]
#[verifier::external_body]
pub struct ExParserError(rustc_serialize::json::ParserError);

/// The members of the document that `Json::from_str` builds from `text`, or
/// `None` where it reports an error. A member that is a JSON string maps to
/// `Some` of that string, any other member to `None`; a document that is not
/// an object has no members.
pub uninterp spec fn document_members(text: Seq<char>) -> Option<Map<Seq<char>, Option<Seq<char>>>>;

/// The members of a parsed value, in the sense of [`document_members`].
pub uninterp spec fn members(value: Json) -> Map<Seq<char>, Option<Seq<char>>>;

/// The string that a parsed value holds, if it is a JSON string.
pub uninterp spec fn string_value(value: Json) -> Option<Seq<char>>;

/// How far the parser may descend into nested arrays and objects. The parser
/// calls itself once per level, so a document has to be held to a depth that
/// any thread's stack can take.
pub const MAX_NESTING: usize = 128;

/// How long a document may be, in bytes. The parser keeps the keys of the
/// objects it is in at 16-bit offsets, which a longer document could exceed.
pub const MAX_DOCUMENT_BYTES: usize = 65535;

/// How many digits the exponent of a number may have. The parser adds them up
/// in a machine word without looking for overflow.
pub const MAX_EXPONENT_DIGITS: usize = 9;

/// Where a scan stands with respect to the exponent of a number.
pub enum Exponent {
    /// Not in one.
    Outside,
    /// Right behind the `e` or `E` that opens one.
    Opened,
    /// Behind its sign or this many of its digits.
    Digits(nat),
}

/// Where a scan of a document stands.
pub struct Scan {
    /// How many brackets are open.
    pub depth: nat,
    /// How many were open at most.
    pub deepest: nat,
    /// Whether the scan is inside a string.
    pub in_string: bool,
    /// Whether it is right behind a backslash in a string.
    pub escaped: bool,
    /// Whether the last byte outside strings, white space aside, was a comma.
    pub after_comma: bool,
    /// Where the scan stands in the exponent of a number.
    pub exponent: Exponent,
    /// Whether a closing brace followed a comma, or an exponent ran to more
    /// than [`MAX_EXPONENT_DIGITS`] digits.
    pub hazard: bool,
}

/// Whether the parser skips `byte` between tokens.
pub open spec fn is_white_space(byte: u8) -> bool {
    byte == 0x20 || byte == 0x0a || byte == 0x09 || byte == 0x0d
}

/// The exponent state after one more byte outside strings.
pub open spec fn exponent_after(exponent: Exponent, byte: u8) -> Exponent {
    if byte == 0x65 || byte == 0x45 {
        Exponent::Opened
    } else if (byte == 0x2b || byte == 0x2d) && exponent is Opened {
        Exponent::Digits(0)
    } else if 0x30 <= byte <= 0x39 {
        match exponent {
            Exponent::Outside => Exponent::Outside,
            Exponent::Opened => Exponent::Digits(1),
            Exponent::Digits(n) => Exponent::Digits(n + 1),
        }
    } else {
        Exponent::Outside
    }
}

/// Whether an exponent has grown too long.
pub open spec fn too_long(exponent: Exponent) -> bool {
    exponent matches Exponent::Digits(n) && n > MAX_EXPONENT_DIGITS
}

/// The scan after one more byte. A string runs from a quote to the next
/// quote that no backslash escapes, and nothing inside one counts. The bytes
/// of interest are ASCII, which no multi-byte UTF-8 sequence contains, so a
/// scan of the bytes sees what a scan of the characters would.
pub open spec fn scan_byte(scan: Scan, byte: u8) -> Scan {
    if scan.in_string {
        if scan.escaped {
            Scan { escaped: false, ..scan }
        } else if byte == 0x5c {
            Scan { escaped: true, ..scan }
        } else if byte == 0x22 {
            Scan { in_string: false, ..scan }
        } else {
            scan
        }
    } else {
        let opens = byte == 0x5b || byte == 0x7b;
        let closes = byte == 0x5d || byte == 0x7d;
        let depth = if opens {
            scan.depth + 1
        } else if closes && scan.depth > 0 {
            (scan.depth - 1) as nat
        } else {
            scan.depth
        };
        let exponent = exponent_after(scan.exponent, byte);
        Scan {
            depth,
            deepest: if depth > scan.deepest {
                depth
            } else {
                scan.deepest
            },
            in_string: byte == 0x22,
            escaped: false,
            after_comma: byte == 0x2c || (is_white_space(byte) && scan.after_comma),
            exponent,
            hazard: scan.hazard || (byte == 0x7d && scan.after_comma) || too_long(exponent),
        }
    }
}

/// The scan before the first byte.
pub open spec fn scan_start() -> Scan {
    Scan {
        depth: 0,
        deepest: 0,
        in_string: false,
        escaped: false,
        after_comma: false,
        exponent: Exponent::Outside,
        hazard: false,
    }
}

/// The scan of a whole document.
pub open spec fn scan_of(bytes: Seq<u8>) -> Scan
    decreases bytes.len(),
{
    if bytes.len() == 0 {
        scan_start()
    } else {
        scan_byte(scan_of(bytes.drop_last()), bytes.last())
    }
}

/// The greatest number of brackets that are open at once anywhere in the
/// document, strings left aside.
pub open spec fn nesting_depth(bytes: Seq<u8>) -> nat {
    scan_of(bytes).deepest
}

/// Whether the document holds, outside its strings, a comma right before a
/// closing brace or an exponent of more than [`MAX_EXPONENT_DIGITS`] digits.
/// The parser does not survive either.
pub open spec fn has_hazard(bytes: Seq<u8>) -> bool {
    scan_of(bytes).hazard
}

/// What stands in the way of handing a document to the parser.
#[derive(Clone, Copy, PartialEq, Eq, Debug, Structural)]
pub enum Obstacle {
    /// It is longer than [`MAX_DOCUMENT_BYTES`].
    TooLong,
    /// It is nested deeper than [`MAX_NESTING`].
    TooDeep,
    /// It holds one of the two things that the parser does not survive.
    Hazard,
}

/// The first obstacle in the way of a document, if there is one.
pub open spec fn obstacle(bytes: Seq<u8>) -> Option<Obstacle> {
    if bytes.len() > MAX_DOCUMENT_BYTES {
        Some(Obstacle::TooLong)
    } else if nesting_depth(bytes) > MAX_NESTING {
        Some(Obstacle::TooDeep)
    } else if has_hazard(bytes) {
        Some(Obstacle::Hazard)
    } else {
        None
    }
}

/// Looks a document over before it goes to the parser.
pub fn find_obstacle(bytes: &[u8]) -> (found: Option<Obstacle>)
    ensures
        found == obstacle(bytes@),
{
    if bytes.len() > MAX_DOCUMENT_BYTES {
        return Some(Obstacle::TooLong);
    }
    let mut depth: usize = 0;
    let mut deepest: usize = 0;
    let mut in_string: bool = false;
    let mut escaped: bool = false;
    let mut after_comma: bool = false;
    let mut opened: bool = false;
    let mut counting: bool = false;
    let mut digits: usize = 0;
    let mut hazard: bool = false;
    let mut i: usize = 0;
    while i < bytes.len()
        invariant
            i <= bytes.len(),
            depth <= i,
            deepest <= i,
            digits <= i,
            !(opened && counting),
            scan_of(bytes@.take(i as int)) == (Scan {
                depth: depth as nat,
                deepest: deepest as nat,
                in_string,
                escaped,
                after_comma,
                exponent: if opened {
                    Exponent::Opened
                } else if counting {
                    Exponent::Digits(digits as nat)
                } else {
                    Exponent::Outside
                },
                hazard,
            }),
        decreases bytes.len() - i,
    {
        proof {
            assert(bytes@.take(i as int + 1).drop_last() =~= bytes@.take(i as int));
        }
        let byte: u8 = bytes[i];
        if in_string {
            if escaped {
                escaped = false;
            } else if byte == 0x5c {
                escaped = true;
            } else if byte == 0x22 {
                in_string = false;
            }
        } else {
            if byte == 0x5b || byte == 0x7b {
                depth = depth + 1;
            } else if (byte == 0x5d || byte == 0x7d) && depth > 0 {
                depth = depth - 1;
            }
            if depth > deepest {
                deepest = depth;
            }
            if byte == 0x7d && after_comma {
                hazard = true;
            }
            if byte == 0x65 || byte == 0x45 {
                opened = true;
                counting = false;
            } else if (byte == 0x2b || byte == 0x2d) && opened {
                opened = false;
                counting = true;
                digits = 0;
            } else if 0x30 <= byte && byte <= 0x39 {
                if opened {
                    opened = false;
                    counting = true;
                    digits = 1;
                } else if counting {
                    digits = digits + 1;
                }
            } else {
                opened = false;
                counting = false;
            }
            if counting && digits > MAX_EXPONENT_DIGITS {
                hazard = true;
            }
            in_string = byte == 0x22;
            escaped = false;
            after_comma = byte == 0x2c || ((byte == 0x20 || byte == 0x0a || byte == 0x09 || byte
                == 0x0d) && after_comma);
        }
        i = i + 1;
    }
    proof {
        assert(bytes@.take(i as int) =~= bytes@);
    }
    if deepest > MAX_NESTING {
        Some(Obstacle::TooDeep)
    } else if hazard {
        Some(Obstacle::Hazard)
    } else {
        None
    }
}

/// `Json::from_str`: builds the value that `text` denotes. The contract only
/// ties the outcome to [`document_members`]: the same text always gives the
/// same members, or always an error. The parser does not return on every
/// text: it recurses once per open bracket, loses track of keys beyond
/// 16-bit offsets, overflows on long exponents and gives up for good on a
/// comma before a closing brace. Hence the demand that nothing stands in the
/// way.
#[verifier::external_body]
pub(crate) fn parse(text: &str) -> (parsed: Result<Json, ParserError>)
    requires
        obstacle(encode_utf8(text@)) is None,
    ensures
        match parsed {
            Ok(value) => document_members(text@) == Some(members(value)),
            Err(_) => document_members(text@) is None,
        },
{
    Json::from_str(text)
}

/// `Json::find`: the member of an object under `key`. It returns a value
/// exactly if `value` is an object that has the key, and then the member
/// itself.
#[verifier::external_body]
pub(crate) fn find<'a>(value: &'a Json, key: &str) -> (found: Option<&'a Json>)
    ensures
        match found {
            Some(member) => members(*value).contains_key(key@) && members(*value)[key@]
                == string_value(*member),
            None => !members(*value).contains_key(key@),
        },
{
    value.find(key)
}

/// `Json::as_string`: the text of a value that is a JSON string, and `None`
/// for every other value.
#[verifier::external_body]
pub(crate) fn as_string<'a>(value: &'a Json) -> (text: Option<&'a str>)
    ensures
        match text {
            Some(s) => string_value(*value) == Some(s@),
            None => string_value(*value) is None,
        },
{
    value.as_string()
}

/// The text member of `value` under `key`: present only where the member
/// exists and is a JSON string.
pub(crate) fn text_member(value: &Json, key: &str) -> (text: Option<String>)
    ensures
        match text {
            Some(s) => members(*value).contains_key(key@) && members(*value)[key@] == Some(s@),
            None => !members(*value).contains_key(key@) || members(*value)[key@] is None,
        },
{
    match find(value, key) {
        Some(member) => match as_string(member) {
            Some(s) => Some(s.to_owned()),
            None => None,
        },
        None => None,
    }
}

} // verus!
