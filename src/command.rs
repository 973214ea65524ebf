use vstd::prelude::*;

verus! {

/// The commands of the shell, in catalog order.
#[derive(Clone, Copy, Debug, PartialEq, Eq, Structural)]
pub enum CommandKind {
    Find,
    Match,
    Insert,
    Delete,
    Save,
    Stats,
    Help,
    Quit,
}

/// The command catalog, in the order that help and ambiguity reports use.
pub open spec fn catalog() -> Seq<CommandKind> {
    seq![
        CommandKind::Find,
        CommandKind::Match,
        CommandKind::Insert,
        CommandKind::Delete,
        CommandKind::Save,
        CommandKind::Stats,
        CommandKind::Help,
        CommandKind::Quit,
    ]
}

pub open spec fn command_name(k: CommandKind) -> Seq<char> {
    match k {
        CommandKind::Find => "find"@,
        CommandKind::Match => "match"@,
        CommandKind::Insert => "insert"@,
        CommandKind::Delete => "delete"@,
        CommandKind::Save => "save"@,
        CommandKind::Stats => "stats"@,
        CommandKind::Help => "help"@,
        CommandKind::Quit => "quit"@,
    }
}

pub open spec fn command_help(k: CommandKind) -> Seq<char> {
    match k {
        CommandKind::Find => "show code for word; only one is shown"@,
        CommandKind::Match => "show entries that match each code"@,
        CommandKind::Insert => "insert a pair of (code, word)"@,
        CommandKind::Delete => "delete a pair of (code, word)"@,
        CommandKind::Save => "save the user dict"@,
        CommandKind::Stats => "show statistics on the tabledict"@,
        CommandKind::Help => "show help"@,
        CommandKind::Quit => "quit this program"@,
    }
}

impl CommandKind {
    pub fn name(&self) -> (r: &'static str)
        ensures
            r@ == command_name(*self),
    {
        match self {
            CommandKind::Find => "find",
            CommandKind::Match => "match",
            CommandKind::Insert => "insert",
            CommandKind::Delete => "delete",
            CommandKind::Save => "save",
            CommandKind::Stats => "stats",
            CommandKind::Help => "help",
            CommandKind::Quit => "quit",
        }
    }

    pub fn help(&self) -> (r: &'static str)
        ensures
            r@ == command_help(*self),
    {
        match self {
            CommandKind::Find => "show code for word; only one is shown",
            CommandKind::Match => "show entries that match each code",
            CommandKind::Insert => "insert a pair of (code, word)",
            CommandKind::Delete => "delete a pair of (code, word)",
            CommandKind::Save => "save the user dict",
            CommandKind::Stats => "show statistics on the tabledict",
            CommandKind::Help => "show help",
            CommandKind::Quit => "quit this program",
        }
    }
}

/// The catalog as a vector.
pub fn commands() -> (r: Vec<CommandKind>)
    ensures
        r@ == catalog(),
{
    let r = vec![
        CommandKind::Find,
        CommandKind::Match,
        CommandKind::Insert,
        CommandKind::Delete,
        CommandKind::Save,
        CommandKind::Stats,
        CommandKind::Help,
        CommandKind::Quit,
    ];
    assert(r@ =~= catalog());
    r
}

/// `t` is a leading part of `s` (case-sensitive).
pub open spec fn is_prefix(t: Seq<char>, s: Seq<char>) -> bool {
    t.len() <= s.len() && s.subrange(0, t.len() as int) == t
}

/// The commands among `cands` whose name starts with `token`, in order.
pub open spec fn matches_among(token: Seq<char>, cands: Seq<CommandKind>) -> Seq<CommandKind>
    decreases cands.len(),
{
    if cands.len() == 0 {
        Seq::empty()
    } else {
        let prev = matches_among(token, cands.drop_last());
        if is_prefix(token, command_name(cands.last())) {
            prev.push(cands.last())
        } else {
            prev
        }
    }
}

/// The catalog commands that `token` abbreviates, in catalog order.
pub open spec fn matching(token: Seq<char>) -> Seq<CommandKind> {
    matches_among(token, catalog())
}

/// Whether `name` starts with `token`.
pub fn starts_with(name: &str, token: &str) -> (r: bool)
    ensures
        r == is_prefix(token@, name@),
{
    let tn = token.unicode_len();
    let nn = name.unicode_len();
    if tn > nn {
        return false;
    }
    let mut i: usize = 0;
    while i < tn
        invariant
            tn == token@.len(),
            nn == name@.len(),
            tn <= nn,
            i <= tn,
            name@.subrange(0, i as int) == token@.subrange(0, i as int),
        decreases tn - i,
    {
        if name.get_char(i) != token.get_char(i) {
            assert(name@.subrange(0, tn as int)[i as int] != token@[i as int]);
            return false;
        }
        assert(name@.subrange(0, i + 1) =~= token@.subrange(0, i + 1));
        i = i + 1;
    }
    assert(token@.subrange(0, tn as int) =~= token@);
    true
}

/// The catalog commands that `token` abbreviates, in catalog order.
pub fn matching_commands(token: &str) -> (r: Vec<CommandKind>)
    ensures
        r@ == matching(token@),
{
    let cat = commands();
    let mut r: Vec<CommandKind> = Vec::new();
    let mut i: usize = 0;
    while i < cat.len()
        invariant
            cat@ == catalog(),
            i <= cat@.len(),
            r@ == matches_among(token@, cat@.subrange(0, i as int)),
        decreases cat@.len() - i,
    {
        let k = cat[i];
        assert(cat@.subrange(0, i + 1).drop_last() =~= cat@.subrange(0, i as int));
        if starts_with(k.name(), token) {
            r.push(k);
        }
        i = i + 1;
    }
    assert(cat@.subrange(0, cat@.len() as int) =~= cat@);
    r
}

/// What an abbreviation resolves to.
#[derive(Clone, Copy, Debug, PartialEq, Eq, Structural)]
pub enum Resolution {
    Unknown,
    Unique(CommandKind),
    Ambiguous,
}

pub open spec fn resolution_of(m: Seq<CommandKind>) -> Resolution {
    if m.len() == 0 {
        Resolution::Unknown
    } else if m.len() == 1 {
        Resolution::Unique(m[0])
    } else {
        Resolution::Ambiguous
    }
}

/// Resolves a typed abbreviation against the catalog.
pub fn resolve(token: &str) -> (r: Resolution)
    ensures
        r == resolution_of(matching(token@)),
{
    let m = matching_commands(token);
    if m.len() == 0 {
        Resolution::Unknown
    } else if m.len() == 1 {
        Resolution::Unique(m[0])
    } else {
        Resolution::Ambiguous
    }
}

} // verus!
