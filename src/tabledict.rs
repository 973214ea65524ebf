use vstd::prelude::*;

use crate::text::{decimal, decimal_text};

verus! {

/// Search semantics of a `match` request.
#[derive(Clone, Copy, Debug, PartialEq, Eq, Structural)]
pub enum TableMatchMode {
    Exact,
    Prefix,
}

/// The numeric tag that stands for a match mode at the engine boundary.
pub open spec fn mode_tag(m: TableMatchMode) -> u32 {
    match m {
        TableMatchMode::Exact => 0,
        TableMatchMode::Prefix => 1,
    }
}

impl TableMatchMode {
    pub fn tag(&self) -> (r: u32)
        ensures
            r == mode_tag(*self),
    {
        match self {
            TableMatchMode::Exact => 0,
            TableMatchMode::Prefix => 1,
        }
    }
}

/// Provenance or category of a dictionary entry.
#[derive(Clone, Copy, Debug, PartialEq, Eq, Structural)]
pub enum PhraseFlag {
    NoFlag,
    Pinyin,
    Prompt,
    ConstructPhrase,
    User,
    Auto,
    Invalid,
}

/// The engine's numbering of phrase flags: the first one is 1, since 0 is
/// reserved.
pub open spec fn flag_tag(f: PhraseFlag) -> u32 {
    match f {
        PhraseFlag::NoFlag => 1,
        PhraseFlag::Pinyin => 2,
        PhraseFlag::Prompt => 3,
        PhraseFlag::ConstructPhrase => 4,
        PhraseFlag::User => 5,
        PhraseFlag::Auto => 6,
        PhraseFlag::Invalid => 7,
    }
}

/// The flag that a tag stands for, if any.
pub open spec fn flag_of_tag(t: u32) -> Option<PhraseFlag> {
    if t == 1 {
        Some(PhraseFlag::NoFlag)
    } else if t == 2 {
        Some(PhraseFlag::Pinyin)
    } else if t == 3 {
        Some(PhraseFlag::Prompt)
    } else if t == 4 {
        Some(PhraseFlag::ConstructPhrase)
    } else if t == 5 {
        Some(PhraseFlag::User)
    } else if t == 6 {
        Some(PhraseFlag::Auto)
    } else if t == 7 {
        Some(PhraseFlag::Invalid)
    } else {
        None
    }
}

impl PhraseFlag {
    pub fn tag(&self) -> (r: u32)
        ensures
            r == flag_tag(*self),
            1 <= r <= 7,
    {
        match self {
            PhraseFlag::NoFlag => 1,
            PhraseFlag::Pinyin => 2,
            PhraseFlag::Prompt => 3,
            PhraseFlag::ConstructPhrase => 4,
            PhraseFlag::User => 5,
            PhraseFlag::Auto => 6,
            PhraseFlag::Invalid => 7,
        }
    }

    pub fn from_tag(t: u32) -> (r: Option<PhraseFlag>)
        ensures
            r == flag_of_tag(t),
            r.is_some() <==> 1 <= t <= 7,
    {
        if t == 1 {
            Some(PhraseFlag::NoFlag)
        } else if t == 2 {
            Some(PhraseFlag::Pinyin)
        } else if t == 3 {
            Some(PhraseFlag::Prompt)
        } else if t == 4 {
            Some(PhraseFlag::ConstructPhrase)
        } else if t == 5 {
            Some(PhraseFlag::User)
        } else if t == 6 {
            Some(PhraseFlag::Auto)
        } else if t == 7 {
            Some(PhraseFlag::Invalid)
        } else {
            None
        }
    }
}

/// Every flag survives the trip through its numeric tag, and every tag that
/// stands for a flag is that flag's tag.
pub proof fn lemma_flag_tag_round_trip(f: PhraseFlag, t: u32)
    ensures
        flag_of_tag(flag_tag(f)) == Some(f),
        flag_of_tag(t) matches Some(g) ==> flag_tag(g) == t,
        flag_tag(f) != 0,
{
}


/// The name under which a flag is shown.
pub open spec fn flag_name(f: PhraseFlag) -> Seq<char> {
    match f {
        PhraseFlag::NoFlag => "None"@,
        PhraseFlag::Pinyin => "Pinyin"@,
        PhraseFlag::Prompt => "Prompt"@,
        PhraseFlag::ConstructPhrase => "ConstructPhrase"@,
        PhraseFlag::User => "User"@,
        PhraseFlag::Auto => "Auto"@,
        PhraseFlag::Invalid => "Invalid"@,
    }
}

impl PhraseFlag {
    pub fn name(&self) -> (r: &'static str)
        ensures
            r@ == flag_name(*self),
    {
        match self {
            PhraseFlag::NoFlag => "None",
            PhraseFlag::Pinyin => "Pinyin",
            PhraseFlag::Prompt => "Prompt",
            PhraseFlag::ConstructPhrase => "ConstructPhrase",
            PhraseFlag::User => "User",
            PhraseFlag::Auto => "Auto",
            PhraseFlag::Invalid => "Invalid",
        }
    }
}

/// One dictionary entry, owned by whoever received it: nothing in it refers
/// back to the engine.
#[derive(Clone, Debug)]
pub struct WordEntry {
    pub code: String,
    pub word: String,
    pub index: u32,
    pub flag: PhraseFlag,
}

/// How an entry is shown: code, word, index and flag, separated by spaces.
pub open spec fn entry_line(e: WordEntry) -> Seq<char> {
    e.code@ + " "@ + e.word@ + " "@ + decimal(e.index as nat) + " "@ + flag_name(e.flag)
}

impl WordEntry {
    /// The entry as one line of text.
    pub fn to_line(&self) -> (r: String)
        ensures
            r@ == entry_line(*self),
    {
        let mut r = self.code.clone();
        r.append(" ");
        r.append(self.word.as_str());
        r.append(" ");
        let idx = decimal_text(self.index as u64);
        r.append(idx.as_str());
        r.append(" ");
        r.append(self.flag.name());
        r
    }
}

/// The text that a byte buffer holds, invalid sequences replaced.
pub uninterp spec fn utf8_text(b: Seq<u8>) -> Seq<char>;

/// Relies on `String::from_utf8_lossy`: the text depends on the bytes alone,
/// no bytes give no text, and the result is a fresh owned copy.
#[verifier::external_body]
fn owned_text(b: &[u8]) -> (r: String)
    ensures
        r@ == utf8_text(b@),
        b@.len() == 0 ==> r@.len() == 0,
{
    String::from_utf8_lossy(b).into_owned()
}

/// The flag that an entry reported with tag `t` carries: a tag that names no
/// flag counts as `Invalid`.
pub open spec fn reported_flag(t: u32) -> PhraseFlag {
    match flag_of_tag(t) {
        Some(f) => f,
        None => PhraseFlag::Invalid,
    }
}

/// Copies one match that the engine reports into an owned entry appended to
/// `acc`. The views `code` and `word` are only read during this call; the
/// entries already in `acc` stay as they were.
pub fn record_match(acc: &mut Vec<WordEntry>, code: &[u8], word: &[u8], index: u32, flag: u32)
    ensures
        final(acc)@.len() == old(acc)@.len() + 1,
        final(acc)@.subrange(0, old(acc)@.len() as int) == old(acc)@,
        final(acc)@.last().code@ == utf8_text(code@),
        final(acc)@.last().word@ == utf8_text(word@),
        final(acc)@.last().index == index,
        final(acc)@.last().flag == reported_flag(flag),
{
    let f = match PhraseFlag::from_tag(flag) {
        Some(f) => f,
        None => PhraseFlag::Invalid,
    };
    let e = WordEntry { code: owned_text(code), word: owned_text(word), index, flag: f };
    acc.push(e);
    assert(acc@.subrange(0, old(acc)@.len() as int) =~= old(acc)@);
}

/// Appends the text of a buffer that the engine hands back to `sink`.
pub fn append_reported_text(sink: &mut String, b: &[u8])
    ensures
        final(sink)@ == old(sink)@ + utf8_text(b@),
{
    let t = owned_text(b);
    sink.append(t.as_str());
}

} // verus!
