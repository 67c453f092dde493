use vstd::prelude::*;
use vstd::string::{StrSliceExecFns, StringExecFns};

verus! {

/// The stack size of a wrapped `main` when the attribute gives none: 2048
/// bytes.
pub const DEFAULT_STACK_SIZE: usize = 0x800;

pub open spec fn is_digit(c: char) -> bool {
    '0' <= c && c <= '9'
}

pub open spec fn digit_value(c: char) -> int {
    c as int - '0' as int
}

/// The number that a string of decimal digits spells, most significant
/// first.
pub open spec fn decimal_value(s: Seq<char>) -> int
    decreases s.len(),
{
    if s.len() == 0 {
        0
    } else {
        decimal_value(s.drop_last()) * 10 + digit_value(s.last())
    }
}

pub open spec fn all_digits(s: Seq<char>) -> bool {
    forall|i: int| 0 <= i < s.len() ==> is_digit(#[trigger] s[i])
}

/// The digits of an unsigned number: one leading `+` is dropped.
pub open spec fn unsigned_digits(s: Seq<char>) -> Seq<char> {
    if s.len() > 0 && s[0] == '+' {
        s.drop_first()
    } else {
        s
    }
}

/// What a string parses to as a `usize`: after an optional `+`, one or more
/// decimal digits whose value fits.
pub open spec fn spec_parse_usize(s: Seq<char>) -> Option<usize> {
    let d = unsigned_digits(s);
    if d.len() > 0 && all_digits(d) && decimal_value(d) <= usize::MAX {
        Some(decimal_value(d) as usize)
    } else {
        None
    }
}

/// A string of digits spells a number no smaller than any of its prefixes
/// spells.
proof fn lemma_prefix_value_le(s: Seq<char>, k: int)
    requires
        all_digits(s),
        0 <= k <= s.len(),
    ensures
        0 <= decimal_value(s.subrange(0, k)) <= decimal_value(s),
    decreases s.len(),
{
    if s.len() == 0 {
        assert(s.subrange(0, k) =~= s);
    } else if k == s.len() {
        assert(s.subrange(0, k) =~= s);
        lemma_prefix_value_le(s.drop_last(), s.len() - 1);
        assert(s.drop_last().subrange(0, s.len() - 1) =~= s.drop_last());
    } else {
        lemma_prefix_value_le(s.drop_last(), k);
        assert(s.drop_last().subrange(0, k) =~= s.subrange(0, k));
        lemma_prefix_value_le(s.drop_last(), s.len() - 1);
        assert(s.drop_last().subrange(0, s.len() - 1) =~= s.drop_last());
        assert(is_digit(s[s.len() - 1]));
    }
}

/// Parses a decimal `usize`, as `str::parse::<usize>` does.
pub fn parse_usize(s: &str) -> (r: Option<usize>)
    ensures
        r == spec_parse_usize(s@),
{
    let n = s.unicode_len();
    let mut start: usize = 0;
    if n > 0 && s.get_char(0) == '+' {
        start = 1;
    }
    let ghost d = unsigned_digits(s@);
    assert(d =~= s@.subrange(start as int, n as int));
    if start == n {
        return None;
    }
    let mut i: usize = start;
    let mut v: usize = 0;
    while i < n
        invariant
            n == s@.len(),
            start < n,
            start <= i <= n,
            d == s@.subrange(start as int, n as int),
            d == unsigned_digits(s@),
            all_digits(d.subrange(0, i - start)),
            v as int == decimal_value(d.subrange(0, i - start)),
        decreases n - i,
    {
        let c = s.get_char(i);
        let ghost pre = d.subrange(0, i - start);
        let ghost next = d.subrange(0, i + 1 - start);
        assert(next.drop_last() =~= pre);
        if !('0' <= c && c <= '9') {
            assert(!is_digit(d[i - start]));
            return None;
        }
        let dv = (c as u32 - '0' as u32) as usize;
        assert(dv as int == digit_value(c));
        assert(all_digits(next));
        if v > (usize::MAX - dv) / 10 {
            proof {
                if all_digits(d) {
                    lemma_prefix_value_le(d, i + 1 - start);
                }
            }
            return None;
        }
        v = v * 10 + dv;
        i = i + 1;
    }
    assert(d.subrange(0, n - start) =~= d);
    Some(v)
}

/// Why the value of an environment variable could not be read at build time.
pub enum EnvVarError {
    /// The variable is not set.
    Missing(String),
    /// Its value is no `usize`.
    NotUsize(String),
}

impl EnvVarError {
    /// The message the build reports.
    pub fn message(&self) -> (m: String)
        ensures
            m@ == (match self {
                EnvVarError::Missing(name) => "Failed to find "@ + name@ + " in environment, is it set?"@,
                EnvVarError::NotUsize(name) => "Environment var "@ + name@ + " can't be parsed to usize"@,
            }),
    {
        match self {
            EnvVarError::Missing(name) => {
                let mut m = "Failed to find ".to_owned();
                m.append(name.as_str());
                m.append(" in environment, is it set?");
                m
            },
            EnvVarError::NotUsize(name) => {
                let mut m = "Environment var ".to_owned();
                m.append(name.as_str());
                m.append(" can't be parsed to usize");
                m
            },
        }
    }
}

/// The size that the environment variable `name` gives: its value, which
/// must be set and parse as a `usize`.
pub fn env_var_size(name: &str, value: Option<String>) -> (r: Result<usize, EnvVarError>)
    ensures
        match value {
            None => r matches Err(EnvVarError::Missing(n)) && n@ == name@,
            Some(v) => match spec_parse_usize(v@) {
                Some(size) => r == Ok::<usize, EnvVarError>(size),
                None => r matches Err(EnvVarError::NotUsize(n)) && n@ == name@,
            },
        },
{
    match value {
        None => Err(EnvVarError::Missing(name.to_owned())),
        Some(v) => match parse_usize(v.as_str()) {
            Some(size) => Ok(size),
            None => Err(EnvVarError::NotUsize(name.to_owned())),
        },
    }
}

/// The name of the function that returns the variable's value: `read_`,
/// then the variable's name.
pub fn reader_name(name: &str) -> (r: String)
    ensures
        r@ == "read_"@ + name@,
{
    let mut r = "read_".to_owned();
    r.append(name);
    r
}

/// The stack size of a wrapped `main`: the one the attribute gives, or 2048
/// bytes; a size that is not a multiple of 8 is refused.
pub fn main_stack_size(attr: Option<usize>) -> (r: Option<usize>)
    ensures
        r == (match attr {
            None => Some(DEFAULT_STACK_SIZE),
            Some(v) => if v % 8 == 0 {
                Some(v)
            } else {
                None::<usize>
            },
        }),
{
    match attr {
        None => Some(DEFAULT_STACK_SIZE),
        Some(v) => {
            if v % 8 == 0 {
                Some(v)
            } else {
                None
            }
        },
    }
}

} // verus!
