use vstd::prelude::*;

use crate::text::{decimal, decimal_text};

verus! {

/// Which backing dictionary an operation concerns.
#[derive(Clone, Copy, Debug, PartialEq, Eq, Structural)]
pub enum DictKind {
    Main,
    User,
}

pub open spec fn dict_label(k: DictKind) -> Seq<char> {
    match k {
        DictKind::Main => "main dict"@,
        DictKind::User => "user dict"@,
    }
}

impl DictKind {
    pub fn label(&self) -> (r: &'static str)
        ensures
            r@ == dict_label(*self),
    {
        match self {
            DictKind::Main => "main dict",
            DictKind::User => "user dict",
        }
    }
}

/// A file path that cannot be handed over NUL-terminated: it holds a NUL
/// byte at `position`.
#[derive(Clone, Copy, Debug, PartialEq, Eq, Structural)]
pub struct NulByte {
    pub position: usize,
}

/// A dictionary failed to load.
#[derive(Clone, Debug)]
pub enum LoadError {
    BadPath { which: DictKind, nul: NulByte },
    Engine { which: DictKind, message: String },
}

pub open spec fn load_error_text(e: LoadError) -> Seq<char> {
    match e {
        LoadError::BadPath { which, nul } => "failed to load "@ + dict_label(which)
            + ": path holds a NUL byte at position "@ + decimal(nul.position as nat),
        LoadError::Engine { which, message } => "failed to load "@ + dict_label(which) + ": "@
            + message@,
    }
}

impl LoadError {
    pub fn message(&self) -> (r: String)
        ensures
            r@ == load_error_text(*self),
    {
        let mut r = String::from_str("failed to load ");
        match self {
            LoadError::BadPath { which, nul } => {
                r.append(which.label());
                r.append(": path holds a NUL byte at position ");
                let p = decimal_text(nul.position as u64);
                r.append(p.as_str());
            },
            LoadError::Engine { which, message } => {
                r.append(which.label());
                r.append(": ");
                r.append(message.as_str());
            },
        }
        r
    }
}

/// A reverse lookup failed inside the engine.
#[derive(Clone, Debug)]
pub struct LookupError {
    pub message: String,
}

/// The user dictionary could not be saved.
#[derive(Clone, Debug)]
pub enum SaveError {
    /// No user dictionary path was given when the dictionary was loaded.
    NoUserDict,
    Engine { message: String },
}

pub open spec fn save_error_text(e: SaveError) -> Seq<char> {
    match e {
        SaveError::NoUserDict => "cannot save dict: user dict path not supplied on construction"@,
        SaveError::Engine { message } => message@,
    }
}

impl SaveError {
    pub fn message(&self) -> (r: String)
        ensures
            r@ == save_error_text(*self),
    {
        match self {
            SaveError::NoUserDict => String::from_str(
                "cannot save dict: user dict path not supplied on construction",
            ),
            SaveError::Engine { message } => message.clone(),
        }
    }
}

/// Whether `b` holds no NUL byte.
pub open spec fn nul_free(b: Seq<u8>) -> bool {
    forall|i: int| 0 <= i < b.len() ==> b[i] != 0
}

/// Encodes a file path for the boundary: its bytes followed by one NUL, or
/// the position of the first NUL byte it already holds.
pub fn encode_path(b: &[u8]) -> (r: Result<Vec<u8>, NulByte>)
    ensures
        r is Ok <==> nul_free(b@),
        r matches Ok(v) ==> v@ == b@.push(0),
        r matches Err(e) ==> e.position < b@.len() && b@[e.position as int] == 0 && nul_free(
            b@.subrange(0, e.position as int),
        ),
{
    let mut v: Vec<u8> = Vec::new();
    let mut i: usize = 0;
    while i < b.len()
        invariant
            i <= b@.len(),
            v@ == b@.subrange(0, i as int),
            nul_free(v@),
        decreases b@.len() - i,
    {
        if b[i] == 0 {
            return Err(NulByte { position: i });
        }
        v.push(b[i]);
        assert(v@ =~= b@.subrange(0, i + 1));
        i = i + 1;
    }
    assert(b@ =~= v@);
    v.push(0);
    Ok(v)
}

/// Reads the error sink after a dictionary load: empty means it loaded.
pub fn check_load(which: DictKind, sink: String) -> (r: Result<(), LoadError>)
    ensures
        r is Ok <==> sink@.len() == 0,
        r matches Err(e) ==> e == (LoadError::Engine { which, message: sink }),
{
    if sink.unicode_len() == 0 {
        Ok(())
    } else {
        Err(LoadError::Engine { which, message: sink })
    }
}

/// Reads the result and error sinks after a reverse lookup: an empty error
/// sink means success, with the result sink (possibly empty) as the code.
pub fn check_lookup(result: String, sink: String) -> (r: Result<String, LookupError>)
    ensures
        r is Ok <==> sink@.len() == 0,
        r matches Ok(code) ==> code == result,
        r matches Err(e) ==> e == (LookupError { message: sink }),
{
    if sink.unicode_len() == 0 {
        Ok(result)
    } else {
        Err(LookupError { message: sink })
    }
}

/// Reads the error sink after a save: empty means it was saved.
pub fn check_save(sink: String) -> (r: Result<(), SaveError>)
    ensures
        r is Ok <==> sink@.len() == 0,
        r matches Err(e) ==> e == (SaveError::Engine { message: sink }),
{
    if sink.unicode_len() == 0 {
        Ok(())
    } else {
        Err(SaveError::Engine { message: sink })
    }
}

/// The path a save writes to: the user dictionary path kept at load time.
/// Without one the save is refused here, before the engine is reached.
pub fn save_target(user_dict_path: &Option<Vec<u8>>) -> (r: Result<&Vec<u8>, SaveError>)
    ensures
        user_dict_path is None <==> r is Err,
        r matches Err(e) ==> e is NoUserDict,
        r matches Ok(p) ==> user_dict_path == Some(*p),
{
    match user_dict_path {
        Some(p) => Ok(p),
        None => Err(SaveError::NoUserDict),
    }
}

} // verus!
