//! Reading the command line of a screenshot or audition run.
//!
//! A run is started as, for example,
//! `--screenshot shots/city.png --at 0,400,600 --frames 120 --quality ultra`:
//! flags are looked up by their first occurrence, and a flag's value is the
//! argument right after it.

use vstd::prelude::*;

use crate::text::same_text;

verus! {

/// The index of the first argument equal to `flag`, if any.
pub open spec fn first_index_of(args: Seq<Seq<char>>, flag: Seq<char>) -> Option<int> {
    if exists|i: int| 0 <= i < args.len() && args[i] == flag {
        let i = choose|i: int|
            0 <= i < args.len() && args[i] == flag && forall|j: int| 0 <= j < i ==> args[j] != flag;
        Some(i)
    } else {
        None
    }
}

/// What a flag is set to: the argument after its first occurrence.
pub open spec fn flag_value(args: Seq<Seq<char>>, flag: Seq<char>) -> Option<Seq<char>> {
    match first_index_of(args, flag) {
        Some(i) => if i + 1 < args.len() {
            Some(args[i + 1])
        } else {
            None
        },
        None => None,
    }
}

/// The arguments as sequences of characters.
pub open spec fn texts(args: Seq<String>) -> Seq<Seq<char>> {
    args.map_values(|a: String| a@)
}

proof fn lemma_first_index(args: Seq<Seq<char>>, flag: Seq<char>, i: int)
    requires
        0 <= i < args.len(),
        args[i] == flag,
        forall|j: int| 0 <= j < i ==> args[j] != flag,
    ensures
        first_index_of(args, flag) == Some(i),
{
    let k = choose|k: int|
        0 <= k < args.len() && args[k] == flag && forall|j: int| 0 <= j < k ==> args[j] != flag;
    assert(0 <= k < args.len() && args[k] == flag && forall|j: int| 0 <= j < k ==> args[j] != flag);
    if k < i {
        assert(args[k] != flag);
    }
    if i < k {
        assert(args[i] != flag);
    }
}

/// Where `flag` first appears among `args`.
pub fn position_of(args: &Vec<String>, flag: &str) -> (at: Option<usize>)
    ensures
        match at {
            Some(i) => i < args.len() && first_index_of(texts(args@), flag@) == Some(i as int),
            None => first_index_of(texts(args@), flag@) is None,
        },
{
    let ghost t = texts(args@);
    let mut i: usize = 0;
    while i < args.len()
        invariant
            t == texts(args@),
            i <= args.len(),
            forall|j: int| 0 <= j < i ==> t[j] != flag@,
        decreases args.len() - i,
    {
        if same_text(args[i].as_str(), flag) {
            proof {
                lemma_first_index(t, flag@, i as int);
            }
            return Some(i);
        }
        i = i + 1;
    }
    None
}

/// Whether `flag` was given at all.
pub fn has_flag(args: &Vec<String>, flag: &str) -> (given: bool)
    ensures
        given == first_index_of(texts(args@), flag@) is Some,
{
    position_of(args, flag).is_some()
}

/// The value given for `flag`, if it was given with one.
pub fn value_of(args: &Vec<String>, flag: &str) -> (value: Option<String>)
    ensures
        match value {
            Some(v) => flag_value(texts(args@), flag@) == Some(v@),
            None => flag_value(texts(args@), flag@) is None,
        },
{
    match position_of(args, flag) {
        Some(i) => {
            if i + 1 < args.len() {
                Some(args[i + 1].clone())
            } else {
                None
            }
        },
        None => None,
    }
}

/// True when the process was launched to take a screenshot.
pub fn is_capture_mode(args: &Vec<String>) -> (capture: bool)
    ensures
        capture == first_index_of(texts(args@), "--screenshot"@) is Some,
{
    has_flag(args, "--screenshot")
}

/// Where a screenshot run writes its picture: the argument after
/// `--screenshot`. Without one the run is an ordinary interactive one.
pub fn screenshot_path(args: &Vec<String>) -> (path: Option<String>)
    ensures
        match path {
            Some(p) => flag_value(texts(args@), "--screenshot"@) == Some(p@),
            None => flag_value(texts(args@), "--screenshot"@) is None,
        },
{
    value_of(args, "--screenshot")
}

/// The directory an audition run writes the sound bank into, if the run was
/// asked for one: the argument after `--audition`, or `shots/audio` when
/// the flag is last.
pub fn audition_directory(args: &Vec<String>) -> (dir: Option<String>)
    ensures
        match dir {
            Some(d) => first_index_of(texts(args@), "--audition"@) is Some && d@ == match flag_value(
                texts(args@),
                "--audition"@,
            ) {
                Some(v) => v,
                None => "shots/audio"@,
            },
            None => first_index_of(texts(args@), "--audition"@) is None,
        },
{
    if !has_flag(args, "--audition") {
        return None;
    }
    match value_of(args, "--audition") {
        Some(v) => Some(v),
        None => Some(String::from_str("shots/audio")),
    }
}

} // verus!
