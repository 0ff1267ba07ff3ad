//! The device identifier: made once, then kept.
//!
//! The identifier is sent with every question to the feed. The caller keeps it
//! in a file; this module decides between reusing what the file holds and
//! making a new identifier, and says whether the file has to be written.

use vstd::prelude::*;

verus! {

/// The file in the application's data directory that keeps the identifier.
pub const UUID_FILE_NAME: &'static str = "device_uuid.txt";

/// The characters with the Unicode property White_Space.
pub open spec fn is_whitespace(c: char) -> bool {
    let code = c as u32;
    ||| 0x0009 <= code <= 0x000D
    ||| code == 0x0020
    ||| code == 0x0085
    ||| code == 0x00A0
    ||| code == 0x1680
    ||| 0x2000 <= code <= 0x200A
    ||| code == 0x2028
    ||| code == 0x2029
    ||| code == 0x202F
    ||| code == 0x205F
    ||| code == 0x3000
}

/// `trimmed` is `text` without its leading and trailing whitespace: a piece
/// of `text` with nothing but whitespace before and after it, which neither
/// begins nor ends with whitespace.
pub open spec fn trims_to(text: Seq<char>, trimmed: Seq<char>) -> bool {
    exists|from: int, to: int|
        {
            &&& 0 <= from <= to <= text.len()
            &&& #[trigger] text.subrange(from, to) == trimmed
            &&& forall|i: int| 0 <= i < from ==> is_whitespace(text[i])
            &&& forall|i: int| to <= i < text.len() ==> is_whitespace(text[i])
            &&& from < to ==> !is_whitespace(text[from]) && !is_whitespace(text[to - 1])
        }
}

/// A digit of lower-case hexadecimal.
pub open spec fn is_lower_hex(c: char) -> bool {
    let code = c as u32;
    ||| 0x30 <= code <= 0x39
    ||| 0x61 <= code <= 0x66
}

/// The hyphenated lower-case text of a random (version 4) UUID: 36
/// characters in groups of 8, 4, 4, 4 and 12 hexadecimal digits, the third
/// group beginning with `4` and the fourth with `8`, `9`, `a` or `b`.
pub open spec fn is_uuid_text(text: Seq<char>) -> bool {
    &&& text.len() == 36
    &&& forall|i: int|
        0 <= i < 36 ==> if i == 8 || i == 13 || i == 18 || i == 23 {
            text[i] == '-'
        } else {
            is_lower_hex(#[trigger] text[i])
        }
    &&& text[14] == '4'
    &&& text[19] == '8' || text[19] == '9' || text[19] == 'a' || text[19] == 'b'
}

/// `str::trim` of the standard library returns the slice of its argument
/// that is left when leading and trailing whitespace, in the sense of the
/// Unicode property White_Space, is taken away.
pub assume_specification[ str::trim ](text: &str) -> (trimmed: &str)
    ensures
        trims_to(text@, trimmed@),
;

/// `Uuid::new_v4` of the crate uuid draws 128 random bits from the operating
/// system and sets the version and variant fields to those of a random UUID;
/// the `Display` form of a `Uuid`, taken here with `to_string`, is the
/// hyphenated lower-case one. The contract says what holds of every such
/// text. Which identifier comes is left open. The call panics where the
/// operating system gives no random bytes.
#[verifier::external_body]
fn new_uuid_text() -> (text: String)
    ensures
        is_uuid_text(text@),
{
    uuid::Uuid::new_v4().to_string()
}

/// The identifier to use, and whether it is new and has to be written down.
#[derive(Debug, PartialEq, Eq)]
pub struct DeviceIdentifier {
    pub value: String,
    pub created: bool,
}

impl DeviceIdentifier {
    /// The identifier that the file holds: its text without the whitespace
    /// around it. Nothing is to be written.
    pub fn kept(text: &str) -> (identifier: DeviceIdentifier)
        ensures
            !identifier.created,
            trims_to(text@, identifier.value@),
    {
        DeviceIdentifier { value: String::from_str(text.trim()), created: false }
    }

    /// A new identifier with the text `value`, to be written to the file.
    pub fn made(value: String) -> (identifier: DeviceIdentifier)
        ensures
            identifier.created,
            identifier.value@ == value@,
    {
        DeviceIdentifier { value, created: true }
    }
}

/// Settles the device identifier from what the identifier file holds:
/// `Some` with the file's text if the file exists, `None` if it does not.
/// An existing identifier is reused as it stands, less the whitespace around
/// it, and never replaced; only without a file is a new one made.
pub fn get_or_create_uuid(stored: Option<&str>) -> (identifier: DeviceIdentifier)
    ensures
        identifier.created == (stored is None),
        match stored {
            Some(text) => trims_to(text@, identifier.value@),
            None => is_uuid_text(identifier.value@),
        },
{
    match stored {
        Some(text) => DeviceIdentifier::kept(text),
        None => DeviceIdentifier::made(new_uuid_text()),
    }
}

/// A text has one trimmed form only.
pub proof fn lemma_trim_is_unique(text: Seq<char>, a: Seq<char>, b: Seq<char>)
    requires
        trims_to(text, a),
        trims_to(text, b),
    ensures
        a == b,
{
    let (fa, ta) = choose|from: int, to: int|
        {
            &&& 0 <= from <= to <= text.len()
            &&& #[trigger] text.subrange(from, to) == a
            &&& forall|i: int| 0 <= i < from ==> is_whitespace(text[i])
            &&& forall|i: int| to <= i < text.len() ==> is_whitespace(text[i])
            &&& from < to ==> !is_whitespace(text[from]) && !is_whitespace(text[to - 1])
        };
    let (fb, tb) = choose|from: int, to: int|
        {
            &&& 0 <= from <= to <= text.len()
            &&& #[trigger] text.subrange(from, to) == b
            &&& forall|i: int| 0 <= i < from ==> is_whitespace(text[i])
            &&& forall|i: int| to <= i < text.len() ==> is_whitespace(text[i])
            &&& from < to ==> !is_whitespace(text[from]) && !is_whitespace(text[to - 1])
        };
    if fa < ta && fb < tb {
        // The first and the last character that is no whitespace are the same
        // for both.
        assert(fa == fb) by {
            if fa < fb {
                assert(is_whitespace(text[fa]));
            }
            if fb < fa {
                assert(is_whitespace(text[fb]));
            }
        }
        assert(ta == tb) by {
            if ta < tb {
                assert(is_whitespace(text[tb - 1]));
            }
            if tb < ta {
                assert(is_whitespace(text[ta - 1]));
            }
        }
    } else if fa < ta {
        // `b` is empty, so all of `text` is whitespace.
        assert(false) by {
            if fa < fb {
                assert(is_whitespace(text[fa]));
            } else {
                assert(tb <= fa);
                assert(is_whitespace(text[fa]));
            }
        }
    } else if fb < tb {
        assert(false) by {
            if fb < fa {
                assert(is_whitespace(text[fb]));
            } else {
                assert(ta <= fb);
                assert(is_whitespace(text[fb]));
            }
        }
    } else {
        assert(a =~= b);
    }
}

/// A new identifier that was written to the file comes back unchanged when
/// the file is read again: it holds no whitespace to trim.
pub proof fn lemma_new_identifier_is_kept(text: Seq<char>)
    requires
        is_uuid_text(text),
    ensures
        trims_to(text, text),
{
    assert(is_lower_hex(text[0]));
    assert(is_lower_hex(text[35]));
    assert(text.subrange(0, 36) =~= text);
}

} // verus!
