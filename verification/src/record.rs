//! One fact about a person, and a way to build it from all four.

use vstd::prelude::*;

verus! {

pub enum Info<'a, T> {
    Name(&'a str),
    Age(usize),
    Sex(&'a str),
    Score(T),
}

/// Hands the four facts to `f` and returns what `f` makes of them.
pub fn argu_func<'a, T, F>(f: F, age: usize, name: &'a str, sex: &'a str, score: T) -> (info: Info<
    'a,
    T,
>) where F: Fn(usize, &'a str, &'a str, T) -> Info<'a, T>
    requires
        f.requires((age, name, sex, score)),
    ensures
        f.ensures((age, name, sex, score), info),
{
    f(age, name, sex, score)
}

} // verus!
