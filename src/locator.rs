use vstd::prelude::*;

use crate::error::VexError;

verus! {

/// Characters a configuration name may not hold: they would let the
/// name's file escape the configuration directory, or no file could carry it.
pub open spec fn is_forbidden_char(c: char) -> bool {
    c == '/' || c == '\\' || c == '\0'
}

/// A name that maps to a file directly inside the configuration directory.
pub open spec fn valid_name(n: Seq<char>) -> bool {
    &&& n.len() > 0
    &&& n != seq!['.']
    &&& n != seq!['.', '.']
    &&& forall|i: int| 0 <= i < n.len() ==> !is_forbidden_char(#[trigger] n[i])
}

/// The suffix of every configuration file.
pub open spec fn json_suffix() -> Seq<char> {
    seq!['.', 'j', 's', 'o', 'n']
}

/// The file name that stores the configuration `n`.
pub open spec fn file_name_of(n: Seq<char>) -> Seq<char> {
    n + json_suffix()
}

/// The configuration name a directory entry stands for, if any.
pub open spec fn name_of_file(f: Seq<char>) -> Option<Seq<char>> {
    if f.len() >= 5 && f.subrange(f.len() - 5, f.len() as int) == json_suffix()
        && valid_name(f.subrange(0, f.len() - 5)) {
        Some(f.subrange(0, f.len() - 5))
    } else {
        None
    }
}

/// Checks that `name` can serve as a configuration name.
pub fn validate_name(name: &str) -> (r: Result<(), VexError>)
    ensures
        r is Ok <==> valid_name(name@),
        r is Err ==> r == Err::<(), VexError>(VexError::InvalidName),
{
    let n = name.unicode_len();
    if n == 0 {
        return Err(VexError::InvalidName);
    }
    let first = name.get_char(0);
    if n == 1 && first == '.' {
        assert(name@ =~= seq!['.']);
        return Err(VexError::InvalidName);
    }
    if n == 2 && first == '.' && name.get_char(1) == '.' {
        assert(name@ =~= seq!['.', '.']);
        return Err(VexError::InvalidName);
    }
    let mut i: usize = 0;
    while i < n
        invariant
            n == name@.len(),
            i <= n,
            forall|j: int| 0 <= j < i ==> !is_forbidden_char(#[trigger] name@[j]),
        decreases n - i,
    {
        let c = name.get_char(i);
        if c == '/' || c == '\\' || c == '\0' {
            return Err(VexError::InvalidName);
        }
        i = i + 1;
    }
    assert(name@ != seq!['.'] && name@ != seq!['.', '.']) by {
        if name@ == seq!['.'] {
            assert(name@[0] == '.');
        }
        if name@ == seq!['.', '.'] {
            assert(name@[0] == '.' && name@[1] == '.');
        }
    }
    Ok(())
}

/// The file name under which the configuration `name` is stored.
pub fn config_file_name(name: &str) -> (r: Result<String, VexError>)
    ensures
        r is Ok <==> valid_name(name@),
        r matches Ok(f) ==> f@ == file_name_of(name@),
        r is Err ==> r == Err::<String, VexError>(VexError::InvalidName),
{
    validate_name(name)?;
    let mut f = String::from_str(name);
    f.append(".json");
    proof {
        reveal_strlit(".json");
        assert(".json"@ =~= json_suffix());
    }
    Ok(f)
}

/// The path of the configuration `name` inside the directory `dir`.
pub fn config_file(dir: &str, name: &str) -> (r: Result<String, VexError>)
    ensures
        r is Ok <==> valid_name(name@),
        r matches Ok(p) ==> p@ == dir@ + seq!['/'] + file_name_of(name@),
        r is Err ==> r == Err::<String, VexError>(VexError::InvalidName),
{
    let f = config_file_name(name)?;
    let mut p = String::from_str(dir);
    p.append("/");
    p.append(f.as_str());
    proof {
        reveal_strlit("/");
        assert("/"@ =~= seq!['/']);
        assert(p@ =~= dir@ + seq!['/'] + file_name_of(name@));
    }
    Ok(p)
}

/// The configuration name that the directory entry `file` stores, if it is
/// a configuration file at all.
pub fn config_name_of_file(file: &str) -> (r: Option<String>)
    ensures
        r matches Some(n) ==> name_of_file(file@) == Some(n@),
        r is None ==> name_of_file(file@) is None,
{
    let len = file.unicode_len();
    if len < 5 {
        return None;
    }
    let b = len - 5;
    if !(file.get_char(b) == '.' && file.get_char(b + 1) == 'j' && file.get_char(b + 2) == 's'
        && file.get_char(b + 3) == 'o' && file.get_char(b + 4) == 'n') {
        assert(file@.subrange(b as int, len as int) != json_suffix()) by {
            if file@.subrange(b as int, len as int) == json_suffix() {
                let t = file@.subrange(b as int, len as int);
                assert(t[0] == '.' && t[1] == 'j' && t[2] == 's' && t[3] == 'o' && t[4] == 'n');
            }
        }
        return None;
    }
    assert(file@.subrange(b as int, len as int) =~= json_suffix());
    let stem = file.substring_char(0, b);
    match validate_name(stem) {
        Ok(()) => Some(String::from_str(stem)),
        Err(_) => None,
    }
}

/// Reading back the file name of a valid configuration name gives the name.
pub proof fn law_file_name_round_trip(n: Seq<char>)
    requires
        valid_name(n),
    ensures
        name_of_file(file_name_of(n)) == Some(n),
{
    let f = file_name_of(n);
    assert(f.subrange(f.len() - 5, f.len() as int) =~= json_suffix());
    assert(f.subrange(0, f.len() - 5) =~= n);
}

} // verus!
