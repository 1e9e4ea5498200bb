//! Reading a yes/no answer typed at a prompt.

use vstd::prelude::*;
use crate::text::{lowercase, lowered, trim_text, trimmed};

verus! {

/// An answer as compared: trimmed, then lowercased.
pub open spec fn normalized(s: Seq<char>) -> Seq<char> {
    lowered(trimmed(s))
}

pub open spec fn is_yes_word(w: Seq<char>) -> bool {
    w == "y"@ || w == "yes"@ || w == "д"@ || w == "да"@
}

pub open spec fn is_no_word(w: Seq<char>) -> bool {
    w == "n"@ || w == "no"@ || w == "н"@ || w == "нет"@
}

/// The message that rejects the answer `s`.
pub open spec fn rejection(s: Seq<char>) -> Seq<char> {
    "Некорректный ответ. Ожидается 'да', 'нет', получено: "@ + trimmed(s)
}

/// Reading of a single answer: `Some(true)` for yes, `Some(false)` for no,
/// `None` for anything else.
pub open spec fn reading(s: Seq<char>) -> Option<bool> {
    if is_yes_word(normalized(s)) {
        Some(true)
    } else if is_no_word(normalized(s)) {
        Some(false)
    } else {
        None
    }
}

/// Reading of `answer`, where an empty answer stands for `default`.
pub open spec fn yes_or_no_spec(answer: Seq<char>, default: Seq<char>) -> Result<bool, Seq<char>> {
    match reading(answer) {
        Some(b) => Ok(b),
        None => if normalized(answer).len() == 0 {
            match reading(default) {
                Some(b) => Ok(b),
                None => Err(rejection(default)),
            }
        } else {
            Err(rejection(answer))
        },
    }
}

/// Reading of an answer already trimmed and lowercased: `Some(true)` for a
/// yes word, `Some(false)` for a no word, `None` otherwise.
pub fn word_reading(word: &str) -> (r: Option<bool>)
    ensures
        r == (if is_yes_word(word@) {
            Some(true)
        } else if is_no_word(word@) {
            Some(false)
        } else {
            None
        }),
{
    let w = String::from_str(word);
    let yes = w == String::from_str("y") || w == String::from_str("yes") || w == String::from_str(
        "д",
    ) || w == String::from_str("да");
    let no = w == String::from_str("n") || w == String::from_str("no") || w == String::from_str(
        "н",
    ) || w == String::from_str("нет");
    if yes {
        Some(true)
    } else if no {
        Some(false)
    } else {
        None
    }
}

fn read_one(s: &str) -> (r: (Option<bool>, bool))
    ensures
        r.0 == reading(s@),
        r.1 == (normalized(s@).len() == 0),
{
    let w = lowercase(trim_text(s));
    (word_reading(w.as_str()), w.as_str().is_empty())
}

fn rejection_text(s: &str) -> (r: String)
    ensures
        r@ == rejection(s@),
{
    String::from_str("Некорректный ответ. Ожидается 'да', 'нет', получено: ").concat(trim_text(s))
}

/// Reads a yes/no answer: `y`, `yes`, `д`, `да` mean yes and `n`, `no`, `н`,
/// `нет` mean no, in any case and with surrounding white space; an empty
/// answer stands for `default`. Anything else is rejected with a message
/// quoting it.
pub fn yes_or_no(answer: &str, default: &str) -> (r: Result<bool, String>)
    ensures
        match yes_or_no_spec(answer@, default@) {
            Ok(b) => r == Ok::<bool, String>(b),
            Err(m) => r matches Err(e) && e@ == m,
        },
{
    let (reading, empty) = read_one(answer);
    match reading {
        Some(b) => Ok(b),
        None => {
            if empty {
                let (fallback, _) = read_one(default);
                match fallback {
                    Some(b) => Ok(b),
                    None => Err(rejection_text(default)),
                }
            } else {
                Err(rejection_text(answer))
            }
        },
    }
}

} // verus!
