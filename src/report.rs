use vstd::prelude::*;

use crate::channel::{save_error_text, LookupError, SaveError};
use crate::command::{catalog, command_help, command_name, commands, matching, matching_commands, CommandKind};
use crate::text::{pad_text, padded};

verus! {

pub open spec fn unknown_text(token: Seq<char>) -> Seq<char> {
    "Unknown command: "@ + token
}

pub fn unknown_message(token: &str) -> (r: String)
    ensures
        r@ == unknown_text(token@),
{
    let mut r = String::from_str("Unknown command: ");
    r.append(token);
    r
}

/// Command names joined by ", ", in the given order.
pub open spec fn joined_names(ks: Seq<CommandKind>) -> Seq<char>
    decreases ks.len(),
{
    if ks.len() == 0 {
        Seq::empty()
    } else if ks.len() == 1 {
        command_name(ks[0])
    } else {
        joined_names(ks.drop_last()) + ", "@ + command_name(ks.last())
    }
}

pub open spec fn ambiguous_text(token: Seq<char>) -> Seq<char> {
    "Ambiguous command, could be: "@ + joined_names(matching(token))
}

/// The report for an ambiguous abbreviation: every command it abbreviates,
/// in catalog order.
pub fn ambiguous_message(token: &str) -> (r: String)
    ensures
        r@ == ambiguous_text(token@),
{
    let m = matching_commands(token);
    let mut r = String::from_str("Ambiguous command, could be: ");
    let ghost head = r@;
    let mut i: usize = 0;
    while i < m.len()
        invariant
            i <= m@.len(),
            m@ == matching(token@),
            head == "Ambiguous command, could be: "@,
            r@ == head + joined_names(m@.subrange(0, i as int)),
        decreases m@.len() - i,
    {
        if i > 0 {
            r.append(", ");
        }
        r.append(m[i].name());
        assert(m@.subrange(0, i + 1).drop_last() =~= m@.subrange(0, i as int));
        assert(r@ =~= head + joined_names(m@.subrange(0, i + 1)));
        i = i + 1;
    }
    assert(m@.subrange(0, m@.len() as int) =~= m@);
    r
}

/// The usage report of a command. Only `find`, `match`, `insert` and
/// `delete` restrict their arguments; the others accept any and never get one.
pub open spec fn usage_text(k: CommandKind) -> Seq<char> {
    match k {
        CommandKind::Find => "find: arguments needed"@,
        CommandKind::Match => "match: arguments needed"@,
        CommandKind::Insert => "insert takes two arguments: code and word"@,
        CommandKind::Delete => "delete takes two arguments: code and word"@,
        _ => command_name(k) + ": unexpected arguments"@,
    }
}

/// What to tell the user when a command's arguments do not fit.
pub fn usage_message(k: CommandKind) -> (r: String)
    ensures
        r@ == usage_text(k),
{
    match k {
        CommandKind::Find => String::from_str("find: arguments needed"),
        CommandKind::Match => String::from_str("match: arguments needed"),
        CommandKind::Insert => String::from_str("insert takes two arguments: code and word"),
        CommandKind::Delete => String::from_str("delete takes two arguments: code and word"),
        _ => {
            let mut r = String::from_str(k.name());
            r.append(": unexpected arguments");
            r
        },
    }
}

/// One line of help: the name padded to ten columns, a space, the help text.
pub open spec fn help_line(k: CommandKind) -> Seq<char> {
    padded(command_name(k), 10) + " "@ + command_help(k)
}

/// The help listing, one line per command in catalog order.
pub fn help_lines() -> (r: Vec<String>)
    ensures
        r@.len() == catalog().len(),
        forall|i: int| 0 <= i < r@.len() ==> #[trigger] r@[i]@ == help_line(catalog()[i]),
{
    let cat = commands();
    let mut r: Vec<String> = Vec::new();
    let mut i: usize = 0;
    while i < cat.len()
        invariant
            cat@ == catalog(),
            i <= cat@.len(),
            r@.len() == i,
            forall|j: int| 0 <= j < i ==> #[trigger] r@[j]@ == help_line(catalog()[j]),
        decreases cat@.len() - i,
    {
        let k = cat[i];
        let mut line = pad_text(k.name(), 10);
        line.append(" ");
        line.append(k.help());
        r.push(line);
        i = i + 1;
    }
    r
}

/// The report of one reverse lookup: the code and the word; that the word is
/// absent when the code is empty; or the engine's error.
pub open spec fn find_text(word: Seq<char>, r: Result<String, LookupError>) -> Seq<char> {
    match r {
        Ok(code) => if code@.len() > 0 {
            code@ + " "@ + word
        } else {
            word + " not found in main dict"@
        },
        Err(e) => "Error: "@ + e.message@,
    }
}

pub fn find_report(word: &str, r: &Result<String, LookupError>) -> (out: String)
    ensures
        out@ == find_text(word@, *r),
{
    match r {
        Ok(code) => {
            if code.unicode_len() > 0 {
                let mut out = code.clone();
                out.append(" ");
                out.append(word);
                out
            } else {
                let mut out = String::from_str(word);
                out.append(" not found in main dict");
                out
            }
        },
        Err(e) => {
            let mut out = String::from_str("Error: ");
            out.append(e.message.as_str());
            out
        },
    }
}

pub open spec fn save_failure_text(e: SaveError) -> Seq<char> {
    "save failed: "@ + save_error_text(e)
}

pub fn save_report(e: &SaveError) -> (out: String)
    ensures
        out@ == save_failure_text(*e),
{
    let mut out = String::from_str("save failed: ");
    let m = e.message();
    out.append(m.as_str());
    out
}

} // verus!
