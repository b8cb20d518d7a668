//! The flattened settings tree and the environment-override rule.
//!
//! A parsed settings file arrives as a list of entries, each a dotted
//! field path (`rpc_backoff.multiplier`) with a textual value. The
//! process environment arrives as a second list whose paths are raw
//! variable names. A variable named `<PREFIX>__<GROUP>__<FIELD>` selects
//! the field `group.field`, a double underscore separating nesting
//! levels; its value takes precedence over the file's.

use vstd::prelude::*;
use crate::chars::chars_eq;
use crate::chars::range_eq;
use crate::chars::to_chars;

verus! {

/// One settings entry: a field path (or, for the environment, a variable
/// name) and its textual value.
#[derive(Clone, Debug)]
pub struct Entry {
    pub path: String,
    pub value: String,
}

/// Lowercases one ASCII letter; every other character is kept.
pub open spec fn lower_char(c: char) -> char {
    if 'A' <= c && c <= 'Z' {
        ((c as u32) + 32) as char
    } else {
        c
    }
}

fn lower_x(c: char) -> (r: char)
    ensures
        r == lower_char(c),
{
    match c {
        'A' => 'a',
        'B' => 'b',
        'C' => 'c',
        'D' => 'd',
        'E' => 'e',
        'F' => 'f',
        'G' => 'g',
        'H' => 'h',
        'I' => 'i',
        'J' => 'j',
        'K' => 'k',
        'L' => 'l',
        'M' => 'm',
        'N' => 'n',
        'O' => 'o',
        'P' => 'p',
        'Q' => 'q',
        'R' => 'r',
        'S' => 's',
        'T' => 't',
        'U' => 'u',
        'V' => 'v',
        'W' => 'w',
        'X' => 'x',
        'Y' => 'y',
        'Z' => 'z',
        _ => c,
    }
}

/// The field path named by the part of a variable name after the prefix:
/// a double underscore becomes a dot, letters are lowercased, everything
/// else is kept.
pub open spec fn convert_env(s: Seq<char>) -> Seq<char>
    decreases s.len(),
{
    if s.len() == 0 {
        Seq::empty()
    } else if s.len() >= 2 && s[0] == '_' && s[1] == '_' {
        seq!['.'] + convert_env(s.subrange(2, s.len() as int))
    } else {
        seq![lower_char(s[0])] + convert_env(s.subrange(1, s.len() as int))
    }
}

/// The field path an environment variable overrides, if its name starts
/// with the prefix and a double underscore and more follows.
pub open spec fn env_path(prefix: Seq<char>, name: Seq<char>) -> Option<Seq<char>> {
    if name.len() > prefix.len() + 2 && name.subrange(0, prefix.len() as int) == prefix && name[
        prefix.len() as int
    ] == '_' && name[prefix.len() as int + 1] == '_' {
        Some(convert_env(name.subrange(prefix.len() as int + 2, name.len() as int)))
    } else {
        None
    }
}

/// Computes the field path an environment variable name overrides, or
/// `None` for a name outside the prefix convention.
pub fn map_env_name(prefix: &[char], name: &[char]) -> (r: Option<Vec<char>>)
    ensures
        match env_path(prefix@, name@) {
            Option::Some(p) => r matches Some(v) && v@ == p,
            Option::None => r is None,
        },
{
    if name.len() <= 2 || name.len() - 2 <= prefix.len() {
        return None;
    }
    if !range_eq(name, 0, prefix.len(), prefix) {
        return None;
    }
    if name[prefix.len()] != '_' || name[prefix.len() + 1] != '_' {
        return None;
    }
    let start = prefix.len() + 2;
    let mut out: Vec<char> = Vec::new();
    let mut i = start;
    while i < name.len()
        invariant
            start <= i <= name@.len(),
            convert_env(name@.subrange(start as int, name@.len() as int)) == out@ + convert_env(
                name@.subrange(i as int, name@.len() as int),
            ),
        decreases name@.len() - i,
    {
        let ghost pre = out@;
        let ghost rest = name@.subrange(i as int, name@.len() as int);
        if name[i] == '_' && i + 1 < name.len() && name[i + 1] == '_' {
            out.push('.');
            proof {
                assert(rest.subrange(2, rest.len() as int) =~= name@.subrange(
                    i as int + 2,
                    name@.len() as int,
                ));
                assert(pre + (seq!['.'] + convert_env(
                    name@.subrange(i as int + 2, name@.len() as int),
                )) =~= out@ + convert_env(name@.subrange(i as int + 2, name@.len() as int)));
            }
            i = i + 2;
        } else {
            let l = lower_x(name[i]);
            out.push(l);
            proof {
                assert(rest.subrange(1, rest.len() as int) =~= name@.subrange(
                    i as int + 1,
                    name@.len() as int,
                ));
                assert(pre + (seq![lower_char(rest[0])] + convert_env(
                    name@.subrange(i as int + 1, name@.len() as int),
                )) =~= out@ + convert_env(name@.subrange(i as int + 1, name@.len() as int)));
            }
            i = i + 1;
        }
    }
    proof {
        assert(name@.subrange(i as int, name@.len() as int) =~= Seq::<char>::empty());
        assert(out@ + Seq::<char>::empty() =~= out@);
        assert(name@.subrange(0, prefix@.len() as int) == prefix@);
    }
    Some(out)
}

/// The value of the first entry carrying the given path.
pub open spec fn find_value(entries: Seq<Entry>, path: Seq<char>) -> Option<Seq<char>>
    decreases entries.len(),
{
    if entries.len() == 0 {
        None
    } else if entries[0].path@ == path {
        Some(entries[0].value@)
    } else {
        find_value(entries.drop_first(), path)
    }
}

/// The value of the first environment entry whose name overrides the
/// given path under the prefix convention.
pub open spec fn find_env_value(env: Seq<Entry>, prefix: Seq<char>, path: Seq<char>) -> Option<
    Seq<char>,
>
    decreases env.len(),
{
    if env.len() == 0 {
        None
    } else if env_path(prefix, env[0].path@) == Some(path) {
        Some(env[0].value@)
    } else {
        find_env_value(env.drop_first(), prefix, path)
    }
}

/// The value a field path takes after the merge: the environment's when
/// any variable overrides the path, else the file's.
pub open spec fn effective_value(
    file: Seq<Entry>,
    env: Seq<Entry>,
    prefix: Seq<char>,
    path: Seq<char>,
) -> Option<Seq<char>> {
    match find_env_value(env, prefix, path) {
        Option::Some(v) => Some(v),
        Option::None => find_value(file, path),
    }
}

/// Law: when any environment variable overrides a field path, the merged
/// value is the environment's, whatever the file holds for that path.
pub proof fn lemma_env_takes_precedence(
    file: Seq<Entry>,
    env: Seq<Entry>,
    prefix: Seq<char>,
    path: Seq<char>,
)
    requires
        find_env_value(env, prefix, path) is Some,
    ensures
        effective_value(file, env, prefix, path) == find_env_value(env, prefix, path),
{
}

fn lookup(entries: &Vec<Entry>, path: &[char]) -> (r: Option<String>)
    ensures
        match find_value(entries@, path@) {
            Option::Some(v) => r matches Some(x) && x@ == v,
            Option::None => r is None,
        },
{
    let mut idx: usize = 0;
    proof {
        assert(entries@.subrange(0, entries@.len() as int) =~= entries@);
    }
    while idx < entries.len()
        invariant
            0 <= idx <= entries@.len(),
            find_value(entries@, path@) == find_value(
                entries@.subrange(idx as int, entries@.len() as int),
                path@,
            ),
        decreases entries@.len() - idx,
    {
        let ghost tail = entries@.subrange(idx as int, entries@.len() as int);
        let name = to_chars(entries[idx].path.as_str());
        if chars_eq(name.as_slice(), path) {
            return Some(entries[idx].value.clone());
        }
        proof {
            assert(tail.drop_first() =~= entries@.subrange(
                idx as int + 1,
                entries@.len() as int,
            ));
        }
        idx = idx + 1;
    }
    None
}

fn env_lookup(env: &Vec<Entry>, prefix: &[char], path: &[char]) -> (r: Option<String>)
    ensures
        match find_env_value(env@, prefix@, path@) {
            Option::Some(v) => r matches Some(x) && x@ == v,
            Option::None => r is None,
        },
{
    let mut idx: usize = 0;
    proof {
        assert(env@.subrange(0, env@.len() as int) =~= env@);
    }
    while idx < env.len()
        invariant
            0 <= idx <= env@.len(),
            find_env_value(env@, prefix@, path@) == find_env_value(
                env@.subrange(idx as int, env@.len() as int),
                prefix@,
                path@,
            ),
        decreases env@.len() - idx,
    {
        let ghost tail = env@.subrange(idx as int, env@.len() as int);
        let name = to_chars(env[idx].path.as_str());
        let hit = match map_env_name(prefix, name.as_slice()) {
            Some(mapped) => chars_eq(mapped.as_slice(), path),
            None => false,
        };
        if hit {
            return Some(env[idx].value.clone());
        }
        proof {
            assert(tail.drop_first() =~= env@.subrange(idx as int + 1, env@.len() as int));
        }
        idx = idx + 1;
    }
    None
}

/// Looks a field path up in the merged view of file and environment: an
/// environment override always takes precedence over the file's value.
pub fn effective(file: &Vec<Entry>, env: &Vec<Entry>, prefix: &[char], path: &[char]) -> (r:
    Option<String>)
    ensures
        match effective_value(file@, env@, prefix@, path@) {
            Option::Some(v) => r matches Some(x) && x@ == v,
            Option::None => r is None,
        },
{
    match env_lookup(env, prefix, path) {
        Some(v) => Some(v),
        None => lookup(file, path),
    }
}

} // verus!
