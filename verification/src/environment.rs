//! A snapshot of the process environment, and the typed reading of its
//! variables.

use vstd::prelude::*;
use vstd::string::*;
use crate::numbers::{parse_unsigned, parse_unsigned_text, Radix};
use crate::text::text_eq;

verus! {

/// The value that `entries` gives to `name`: that of the last entry under
/// that name.
pub open spec fn lookup_in(entries: Seq<(String, String)>, name: Seq<char>) -> Option<Seq<char>>
    decreases entries.len(),
{
    if entries.len() == 0 {
        None
    } else if entries.last().0@ == name {
        Some(entries.last().1@)
    } else {
        lookup_in(entries.drop_last(), name)
    }
}

/// What `text` says as a truth value: `true` or `false`, spelled so.
pub open spec fn parse_bool(text: Seq<char>) -> Option<bool> {
    if text == "true"@ {
        Some(true)
    } else if text == "false"@ {
        Some(false)
    } else {
        None
    }
}

/// What `text` says as a number of 64 bits, in radix 10.
pub open spec fn parse_u64(text: Seq<char>) -> Option<u64> {
    match parse_unsigned(text, 10, u64::MAX as int) {
        Some(v) => Some(v as u64),
        None => None,
    }
}

/// What `text` says as a size, in radix 10.
pub open spec fn parse_usize(text: Seq<char>) -> Option<usize> {
    match parse_unsigned(text, 10, usize::MAX as int) {
        Some(v) => Some(v as usize),
        None => None,
    }
}

/// Reads a truth value from `text`.
pub fn parse_bool_text(text: &str) -> (r: Option<bool>)
    ensures
        r == parse_bool(text@),
{
    if text_eq(text, "true") {
        Some(true)
    } else if text_eq(text, "false") {
        Some(false)
    } else {
        None
    }
}

/// Reads a number of 64 bits from `text`.
pub fn parse_u64_text(text: &str) -> (r: Option<u64>)
    ensures
        r == parse_u64(text@),
{
    match parse_unsigned_text(text, Radix::Decimal, u64::MAX as u128) {
        Some(v) => Some(v as u64),
        None => None,
    }
}

/// Reads a size from `text`.
pub fn parse_usize_text(text: &str) -> (r: Option<usize>)
    ensures
        r == parse_usize(text@),
{
    match parse_unsigned_text(text, Radix::Decimal, usize::MAX as u128) {
        Some(v) => Some(v as usize),
        None => None,
    }
}

/// The variables of the process environment as they stood when the snapshot
/// was taken.
#[derive(Debug, Clone, PartialEq, Eq)]
pub struct Environment {
    pub entries: Vec<(String, String)>,
}

impl Environment {
    /// The value of the variable `name`, if it is set.
    pub open spec fn lookup(self, name: Seq<char>) -> Option<Seq<char>> {
        lookup_in(self.entries@, name)
    }

    /// The variable `name` read as a truth value; unset or unreadable is `None`.
    pub open spec fn bool_var(self, name: Seq<char>) -> Option<bool> {
        match self.lookup(name) {
            Some(text) => parse_bool(text),
            None => None,
        }
    }

    /// The variable `name` read as a number of 64 bits.
    pub open spec fn u64_var(self, name: Seq<char>) -> Option<u64> {
        match self.lookup(name) {
            Some(text) => parse_u64(text),
            None => None,
        }
    }

    /// The variable `name` read as a size.
    pub open spec fn usize_var(self, name: Seq<char>) -> Option<usize> {
        match self.lookup(name) {
            Some(text) => parse_usize(text),
            None => None,
        }
    }

    /// An environment in which no variable is set.
    pub fn new() -> (env: Environment)
        ensures
            forall|name: Seq<char>| env.lookup(name) is None,
    {
        Environment { entries: Vec::new() }
    }

    /// Sets the variable `name` to `value`; every other variable stays.
    pub fn set(&mut self, name: &str, value: &str)
        ensures
            final(self).lookup(name@) == Some(value@),
            forall|other: Seq<char>|
                other != name@ ==> final(self).lookup(other) == old(self).lookup(other),
    {
        let ghost before = self.entries@;
        self.entries.push((name.to_owned(), value.to_owned()));
        proof {
            assert(self.entries@.drop_last() =~= before);
        }
    }

    /// The value of the variable `name`, if it is set.
    pub fn var(&self, name: &str) -> (r: Option<String>)
        ensures
            match r {
                Some(value) => self.lookup(name@) == Some(value@),
                None => self.lookup(name@) is None,
            },
    {
        let mut i: usize = self.entries.len();
        proof {
            assert(self.entries@.take(i as int) =~= self.entries@);
        }
        while i > 0
            invariant
                0 <= i <= self.entries.len(),
                self.lookup(name@) == lookup_in(self.entries@.take(i as int), name@),
            decreases i,
        {
            let ghost upto = self.entries@.take(i as int);
            proof {
                assert(upto.last() == self.entries@[i - 1]);
                assert(upto.drop_last() =~= self.entries@.take(i - 1));
            }
            if text_eq(self.entries[i - 1].0.as_str(), name) {
                return Some(self.entries[i - 1].1.clone());
            }
            i = i - 1;
        }
        None
    }

    /// The variable `name` read as a truth value.
    pub fn var_bool(&self, name: &str) -> (r: Option<bool>)
        ensures
            r == self.bool_var(name@),
    {
        match self.var(name) {
            Some(text) => parse_bool_text(text.as_str()),
            None => None,
        }
    }

    /// The variable `name` read as a number of 64 bits.
    pub fn var_u64(&self, name: &str) -> (r: Option<u64>)
        ensures
            r == self.u64_var(name@),
    {
        match self.var(name) {
            Some(text) => parse_u64_text(text.as_str()),
            None => None,
        }
    }

    /// The variable `name` read as a size.
    pub fn var_usize(&self, name: &str) -> (r: Option<usize>)
        ensures
            r == self.usize_var(name@),
    {
        match self.var(name) {
            Some(text) => parse_usize_text(text.as_str()),
            None => None,
        }
    }

    /// Resolves a truth value: explicit, then the variable `name`, then the
    /// default.
    pub fn resolve_bool(&self, explicit: Option<bool>, name: &str, default: bool) -> (r: bool)
        ensures
            r == resolve(explicit, self.bool_var(name@), default),
    {
        match explicit {
            Some(v) => v,
            None => match self.var_bool(name) {
                Some(v) => v,
                None => default,
            },
        }
    }

    /// Resolves a number: explicit, then the variable `name`, then the default.
    pub fn resolve_u64(&self, explicit: Option<u64>, name: &str, default: u64) -> (r: u64)
        ensures
            r == resolve(explicit, self.u64_var(name@), default),
    {
        match explicit {
            Some(v) => v,
            None => match self.var_u64(name) {
                Some(v) => v,
                None => default,
            },
        }
    }

    /// Resolves a number: explicit, then the variable `first`, then the
    /// variable `second`, then the default.
    pub fn resolve_u64_either(
        &self,
        explicit: Option<u64>,
        first: &str,
        second: &str,
        default: u64,
    ) -> (r: u64)
        ensures
            r == resolve(explicit, first_of(self.u64_var(first@), self.u64_var(second@)), default),
    {
        match explicit {
            Some(v) => v,
            None => match self.var_u64(first) {
                Some(v) => v,
                None => match self.var_u64(second) {
                    Some(v) => v,
                    None => default,
                },
            },
        }
    }

    /// Resolves a size: explicit, then the variable `name`, then the default.
    pub fn resolve_usize(&self, explicit: Option<usize>, name: &str, default: usize) -> (r: usize)
        ensures
            r == resolve(explicit, self.usize_var(name@), default),
    {
        match explicit {
            Some(v) => v,
            None => match self.var_usize(name) {
                Some(v) => v,
                None => default,
            },
        }
    }

    /// Resolves a text: explicit, then the variable `name`, then the default.
    pub fn resolve_text(&self, explicit: &Option<String>, name: &str, default: &str) -> (r: String)
        ensures
            r@ == resolve(text_of(*explicit), self.lookup(name@), default@),
    {
        match explicit {
            Some(v) => v.clone(),
            None => match self.var(name) {
                Some(v) => v,
                None => default.to_owned(),
            },
        }
    }

    /// Resolves a text: explicit, then the variable `first`, then the
    /// variable `second`, then the default.
    pub fn resolve_text_either(
        &self,
        explicit: &Option<String>,
        first: &str,
        second: &str,
        default: &str,
    ) -> (r: String)
        ensures
            r@ == resolve(
                text_of(*explicit),
                first_of(self.lookup(first@), self.lookup(second@)),
                default@,
            ),
    {
        match explicit {
            Some(v) => v.clone(),
            None => match self.var(first) {
                Some(v) => v,
                None => match self.var(second) {
                    Some(v) => v,
                    None => default.to_owned(),
                },
            },
        }
    }
}

/// The text of an optional string.
pub open spec fn text_of(value: Option<String>) -> Option<Seq<char>> {
    match value {
        Some(s) => Some(s@),
        None => None,
    }
}

/// A copy of an optional string.
pub fn copy_text(value: &Option<String>) -> (r: Option<String>)
    ensures
        text_of(r) == text_of(*value),
{
    match value {
        Some(s) => Some(s.clone()),
        None => None,
    }
}

/// The value of an option: the explicit one where there is one, else the one
/// from the environment where there is one, else the default.
pub open spec fn resolve<T>(explicit: Option<T>, from_env: Option<T>, default: T) -> T {
    match explicit {
        Some(v) => v,
        None => match from_env {
            Some(v) => v,
            None => default,
        },
    }
}

/// The first of two optional values that is there.
pub open spec fn first_of<T>(a: Option<T>, b: Option<T>) -> Option<T> {
    match a {
        Some(_) => a,
        None => b,
    }
}

/// An explicit value always wins over the environment, and the environment
/// always wins over the default.
pub proof fn lemma_resolve_precedence<T>(explicit: Option<T>, from_env: Option<T>, default: T)
    ensures
        explicit matches Some(v) ==> resolve(explicit, from_env, default) == v,
        explicit is None ==> (from_env matches Some(v) ==> resolve(explicit, from_env, default)
            == v),
        explicit is None && from_env is None ==> resolve(explicit, from_env, default) == default,
{
}

} // verus!
