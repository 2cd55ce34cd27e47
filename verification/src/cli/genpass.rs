//! Options of the `genpass` command.

use vstd::prelude::*;

verus! {

/// How long a password is to be and which classes of characters it draws
/// from.
#[derive(Debug, Clone, Copy, PartialEq, Eq, Structural)]
pub struct GenPassOpts {
    /// Number of characters asked for.
    pub length: usize,
    /// Whether `A` to `Z` may occur.
    pub uppercase: bool,
    /// Whether `a` to `z` may occur.
    pub lowercase: bool,
    /// Whether `0` to `9` may occur.
    pub numbers: bool,
    /// Whether punctuation may occur.
    pub symbols: bool,
}

impl GenPassOpts {
    /// The options used when none are given: twelve characters from all four
    /// classes.
    pub open spec fn default_opts() -> GenPassOpts {
        GenPassOpts { length: 12, uppercase: true, lowercase: true, numbers: true, symbols: true }
    }

    /// The options used when none are given.
    pub fn get_default_opts() -> (opts: Self)
        ensures
            opts == Self::default_opts(),
    {
        GenPassOpts { length: 12, uppercase: true, lowercase: true, numbers: true, symbols: true }
    }

    /// Number of classes switched on.
    pub open spec fn class_count(self) -> nat {
        (if self.lowercase { 1nat } else { 0nat }) + (if self.uppercase { 1nat } else { 0nat }) + (
        if self.numbers { 1nat } else { 0nat }) + (if self.symbols { 1nat } else { 0nat })
    }
}

} // verus!
