//! Plain models of the scalar message-bus values this protocol carries.
//!
//! Requests arrive with an option map (string keys to variant values) and
//! replies carry a result map of the same shape. Only scalar values flow
//! through this protocol's options and results; a floating-point value is
//! carried losslessly as its IEEE-754 bit pattern.

use vstd::prelude::*;

verus! {

/// A scalar message-bus value.
#[derive(Debug, Clone, PartialEq, Eq)]
pub enum VariantValue {
    Bool(bool),
    U32(u32),
    U64(u64),
    I32(i32),
    I64(i64),
    /// IEEE-754 bit pattern of a double-precision value.
    F64Bits(u64),
    Str(String),
    /// An owned OS file descriptor, by its raw number.
    Fd(i32),
}

/// First value stored under `key`, if any.
pub open spec fn spec_lookup(entries: Seq<(String, VariantValue)>, key: Seq<char>) -> Option<
    VariantValue,
>
    decreases entries.len(),
{
    if entries.len() == 0 {
        None
    } else if entries[0].0@ == key {
        Some(entries[0].1)
    } else {
        spec_lookup(entries.drop_first(), key)
    }
}

/// The `u32` stored under `key`, if the key is present and holds one.
pub open spec fn spec_get_u32(entries: Seq<(String, VariantValue)>, key: Seq<char>) -> Option<
    u32,
> {
    match spec_lookup(entries, key) {
        Some(VariantValue::U32(v)) => Some(v),
        _ => None,
    }
}

/// Looks up the first entry whose key equals `key`.
pub fn lookup<'a>(entries: &'a Vec<(String, VariantValue)>, key: &String) -> (r: Option<
    &'a VariantValue,
>)
    ensures
        match r {
            Some(v) => spec_lookup(entries@, key@) == Some(*v),
            None => spec_lookup(entries@, key@) is None,
        },
{
    let n = entries.len();
    assert(entries@.skip(0) =~= entries@);
    for i in 0..n
        invariant
            n == entries@.len(),
            spec_lookup(entries@, key@) == spec_lookup(entries@.skip(i as int), key@),
    {
        assert(entries@.skip(i as int).drop_first() =~= entries@.skip(i + 1));
        if entries[i].0 == *key {
            return Some(&entries[i].1);
        }
    }
    None
}

/// Reads the `u32` stored under `key`, as a request option is read.
pub fn get_u32(entries: &Vec<(String, VariantValue)>, key: &String) -> (r: Option<u32>)
    ensures
        r == spec_get_u32(entries@, key@),
{
    match lookup(entries, key) {
        Some(VariantValue::U32(v)) => Some(*v),
        _ => None,
    }
}

} // verus!
