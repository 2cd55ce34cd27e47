//! Random passwords of printable characters.
//!
//! A password holds at least one character of every class that is switched
//! on, and no character of any other class. Which characters, and in which
//! order, is left to the random generator of the `rand` crate.

use vstd::prelude::*;
use rand::seq::IndexedRandom;
use rand::seq::SliceRandom;
use crate::cli::genpass::GenPassOpts;
use crate::strings::ascii_chars;
use crate::strings::lemma_ascii_is_utf8;
use crate::strings::string_from_utf8;

verus! {

/// Whether `b` is one of `a` to `z`.
pub open spec fn is_lowercase(b: u8) -> bool {
    97 <= b <= 122
}

/// Whether `b` is one of `A` to `Z`.
pub open spec fn is_uppercase(b: u8) -> bool {
    65 <= b <= 90
}

/// Whether `b` is one of `0` to `9`.
pub open spec fn is_number(b: u8) -> bool {
    48 <= b <= 57
}

/// The punctuation a password may hold: `!@#$%^&*().<>?_+-=/`.
pub open spec fn symbols() -> Seq<u8> {
    seq![33u8, 64, 35, 36, 37, 94, 38, 42, 40, 41, 46, 60, 62, 63, 95, 43, 45, 61, 47]
}

/// Whether `b` is one of the punctuation characters.
pub open spec fn is_symbol(b: u8) -> bool {
    symbols().contains(b)
}

/// Whether `b` belongs to a class that `opts` switches on.
pub open spec fn allowed(opts: GenPassOpts, b: u8) -> bool {
    ||| opts.lowercase && is_lowercase(b)
    ||| opts.uppercase && is_uppercase(b)
    ||| opts.numbers && is_number(b)
    ||| opts.symbols && is_symbol(b)
}

/// Number of characters of a password made for `opts`: the length asked
/// for, or one per class where that is more.
pub open spec fn password_len(opts: GenPassOpts) -> nat {
    if opts.length >= opts.class_count() {
        opts.length as nat
    } else {
        opts.class_count()
    }
}

/// Whether `password` is one that `opts` allows: of the right length, made
/// of allowed characters only, with every class that is switched on
/// represented.
pub open spec fn is_password_for(opts: GenPassOpts, password: Seq<u8>) -> bool {
    &&& password.len() == password_len(opts)
    &&& forall|i: int| 0 <= i < password.len() ==> allowed(opts, #[trigger] password[i])
    &&& opts.lowercase ==> exists|i: int|
        0 <= i < password.len() && is_lowercase(#[trigger] password[i])
    &&& opts.uppercase ==> exists|i: int|
        0 <= i < password.len() && is_uppercase(#[trigger] password[i])
    &&& opts.numbers ==> exists|i: int| 0 <= i < password.len() && is_number(#[trigger] password[i])
    &&& opts.symbols ==> exists|i: int| 0 <= i < password.len() && is_symbol(#[trigger] password[i])
}

/// Calls `IndexedRandom::choose` of `rand` on a slice that is not empty.
/// Whatever the generator does, the byte returned is one of the slice.
#[verifier::external_body]
fn pick(set: &[u8]) -> (b: u8)
    requires
        set@.len() > 0,
    ensures
        set@.contains(b),
{
    match set.choose(&mut rand::rng()) {
        Some(b) => *b,
        None => 0,
    }
}

/// Calls `SliceRandom::shuffle` of `rand`. Whatever the generator does, the
/// vector holds afterwards what it held before, each byte as often.
#[verifier::external_body]
fn shuffle(bytes: &mut Vec<u8>)
    ensures
        final(bytes)@.to_multiset() == old(bytes)@.to_multiset(),
{
    bytes.shuffle(&mut rand::rng());
}

/// The bytes from `first` to `last`, in order.
fn byte_range(first: u8, last: u8) -> (set: Vec<u8>)
    requires
        first <= last < 255,
    ensures
        set@.len() == last - first + 1,
        forall|b: u8| #[trigger] set@.contains(b) <==> first <= b <= last,
{
    let mut set: Vec<u8> = Vec::new();
    let mut b: u8 = first;
    while b <= last
        invariant
            first <= b <= last + 1,
            last < 255,
            set@.len() == b - first,
            forall|i: int| 0 <= i < set@.len() ==> set@[i] == first + i,
        decreases last + 1 - b,
    {
        set.push(b);
        b += 1;
    }
    assert forall|c: u8| first <= c <= last implies set@.contains(c) by {
        assert(set@[c - first] == c);
    }
    set
}

/// The punctuation characters.
fn symbol_set() -> (set: Vec<u8>)
    ensures
        set@ == symbols(),
{
    let set: Vec<u8> = vec![
        33u8, 64, 35, 36, 37, 94, 38, 42, 40, 41, 46, 60, 62, 63, 95, 43, 45, 61, 47,
    ];
    assert(set@ =~= symbols());
    set
}

/// Draws one byte of `set` for the password and adds the set to the
/// characters that fill the rest.
fn draw_from(set: &Vec<u8>, password: &mut Vec<u8>, charset: &mut Vec<u8>)
    requires
        set@.len() > 0,
    ensures
        final(password)@ == old(password)@.push(final(password)@.last()),
        final(password)@.len() == old(password)@.len() + 1,
        set@.contains(final(password)@.last()),
        final(charset)@.len() == old(charset)@.len() + set@.len(),
        forall|b: u8|
            #![trigger final(charset)@.contains(b)]
            final(charset)@.contains(b) <==> old(charset)@.contains(b) || set@.contains(b),
{
    let b = pick(set.as_slice());
    password.push(b);
    let mut i: usize = 0;
    while i < set.len()
        invariant
            i <= set@.len(),
            charset@ == old(charset)@ + set@.subrange(0, i as int),
        decreases set@.len() - i,
    {
        charset.push(set[i]);
        assert(charset@ =~= old(charset)@ + set@.subrange(0, i + 1));
        i += 1;
    }
    proof {
        assert(set@.subrange(0, set@.len() as int) =~= set@);
        lemma_concat_contains(old(charset)@, set@);
    }
}

/// A byte occurs in a concatenation exactly when it occurs in a part.
proof fn lemma_concat_contains(first: Seq<u8>, second: Seq<u8>)
    ensures
        forall|b: u8|
            #![trigger (first + second).contains(b)]
            (first + second).contains(b) <==> first.contains(b) || second.contains(b),
{
    let joined = first + second;
    assert forall|b: u8| joined.contains(b) implies first.contains(b) || second.contains(b) by {
        let i = choose|i: int| 0 <= i < joined.len() && joined[i] == b;
        if i < first.len() {
            assert(first[i] == b);
        } else {
            assert(second[i - first.len()] == b);
        }
    }
    assert forall|b: u8| first.contains(b) || second.contains(b) implies joined.contains(b) by {
        if first.contains(b) {
            let i = choose|i: int| 0 <= i < first.len() && first[i] == b;
            assert(joined[i] == b);
        } else {
            let i = choose|i: int| 0 <= i < second.len() && second[i] == b;
            assert(joined[first.len() + i] == b);
        }
    }
}

/// Reordering a password leaves it a password for the same options.
pub proof fn lemma_reordered_password(opts: GenPassOpts, before: Seq<u8>, after: Seq<u8>)
    requires
        is_password_for(opts, before),
        before.to_multiset() == after.to_multiset(),
    ensures
        is_password_for(opts, after),
{
    before.to_multiset_ensures();
    after.to_multiset_ensures();
    assert forall|b: u8| before.contains(b) <==> after.contains(b) by {
        assert(before.contains(b) <==> before.to_multiset().count(b) > 0);
        assert(after.contains(b) <==> after.to_multiset().count(b) > 0);
    }
    assert forall|i: int| 0 <= i < after.len() implies allowed(opts, #[trigger] after[i]) by {
        assert(after.contains(after[i]));
        let j = choose|j: int| 0 <= j < before.len() && before[j] == after[i];
        assert(allowed(opts, before[j]));
    }
    if opts.lowercase {
        let i = choose|i: int| 0 <= i < before.len() && is_lowercase(#[trigger] before[i]);
        assert(before.contains(before[i]));
        let j = choose|j: int| 0 <= j < after.len() && after[j] == before[i];
        assert(is_lowercase(after[j]));
    }
    if opts.uppercase {
        let i = choose|i: int| 0 <= i < before.len() && is_uppercase(#[trigger] before[i]);
        assert(before.contains(before[i]));
        let j = choose|j: int| 0 <= j < after.len() && after[j] == before[i];
        assert(is_uppercase(after[j]));
    }
    if opts.numbers {
        let i = choose|i: int| 0 <= i < before.len() && is_number(#[trigger] before[i]);
        assert(before.contains(before[i]));
        let j = choose|j: int| 0 <= j < after.len() && after[j] == before[i];
        assert(is_number(after[j]));
    }
    if opts.symbols {
        let i = choose|i: int| 0 <= i < before.len() && is_symbol(#[trigger] before[i]);
        assert(before.contains(before[i]));
        let j = choose|j: int| 0 <= j < after.len() && after[j] == before[i];
        assert(is_symbol(after[j]));
    }
}

/// Makes a password for `opts`, as bytes.
///
/// With no class switched on there is nothing to draw from, and no password
/// is made. Otherwise the password satisfies [`is_password_for`].
pub fn generate_password(opts: &GenPassOpts) -> (r: Option<Vec<u8>>)
    ensures
        r is Some <==> opts.class_count() > 0,
        r matches Some(password) ==> is_password_for(*opts, password@),
{
    let mut password: Vec<u8> = Vec::new();
    let mut charset: Vec<u8> = Vec::new();
    let ghost mut lower_at: int = 0;
    let ghost mut upper_at: int = 0;
    let ghost mut number_at: int = 0;
    let ghost mut symbol_at: int = 0;
    assert(forall|b: u8| !charset@.contains(b));
    if opts.lowercase {
        let set = byte_range(97, 122);
        draw_from(&set, &mut password, &mut charset);
        proof {
            lower_at = password@.len() - 1;
        }
        assert(forall|b: u8| charset@.contains(b) ==> allowed(*opts, b));
    }
    if opts.uppercase {
        let set = byte_range(65, 90);
        draw_from(&set, &mut password, &mut charset);
        proof {
            upper_at = password@.len() - 1;
        }
        assert(forall|b: u8| charset@.contains(b) ==> allowed(*opts, b));
    }
    if opts.numbers {
        let set = byte_range(48, 57);
        draw_from(&set, &mut password, &mut charset);
        proof {
            number_at = password@.len() - 1;
        }
        assert(forall|b: u8| charset@.contains(b) ==> allowed(*opts, b));
    }
    if opts.symbols {
        let set = symbol_set();
        draw_from(&set, &mut password, &mut charset);
        proof {
            symbol_at = password@.len() - 1;
        }
        assert(forall|b: u8| charset@.contains(b) ==> allowed(*opts, b));
    }
    if charset.len() == 0 {
        return None;
    }
    let ghost drawn = password@;
    assert(drawn.len() == opts.class_count());
    assert(forall|b: u8| charset@.contains(b) ==> allowed(*opts, b));
    assert(forall|i: int| 0 <= i < drawn.len() ==> allowed(*opts, #[trigger] drawn[i]));
    assert(opts.lowercase ==> 0 <= lower_at < drawn.len() && is_lowercase(drawn[lower_at]));
    assert(opts.uppercase ==> 0 <= upper_at < drawn.len() && is_uppercase(drawn[upper_at]));
    assert(opts.numbers ==> 0 <= number_at < drawn.len() && is_number(drawn[number_at]));
    assert(opts.symbols ==> 0 <= symbol_at < drawn.len() && is_symbol(drawn[symbol_at]));
    while password.len() < opts.length
        invariant
            charset@.len() > 0,
            forall|b: u8| charset@.contains(b) ==> allowed(*opts, b),
            drawn.len() <= password@.len(),
            password@.len() <= opts.length || password@ == drawn,
            password@.subrange(0, drawn.len() as int) == drawn,
            forall|i: int| 0 <= i < password@.len() ==> allowed(*opts, #[trigger] password@[i]),
        decreases opts.length - password@.len(),
    {
        let b = pick(charset.as_slice());
        password.push(b);
        assert(password@.subrange(0, drawn.len() as int) =~= drawn);
    }
    let ghost filled = password@;
    proof {
        assert(filled.subrange(0, drawn.len() as int) == drawn);
        assert(opts.lowercase ==> filled[lower_at] == drawn[lower_at]);
        assert(opts.uppercase ==> filled[upper_at] == drawn[upper_at]);
        assert(opts.numbers ==> filled[number_at] == drawn[number_at]);
        assert(opts.symbols ==> filled[symbol_at] == drawn[symbol_at]);
        assert(is_password_for(*opts, filled));
    }
    shuffle(&mut password);
    proof {
        lemma_reordered_password(*opts, filled, password@);
    }
    Some(password)
}

/// Every punctuation character is below 128.
proof fn lemma_symbols_are_ascii(b: u8)
    requires
        is_symbol(b),
    ensures
        b < 128,
{
    let i = choose|i: int| 0 <= i < symbols().len() && symbols()[i] == b;
    assert(symbols().len() == 19);
    assert(forall|j: int| 0 <= j < 19 ==> symbols()[j] < 128);
}

/// Makes a password for `opts`.
///
/// With no class switched on no password is made. Otherwise the string has
/// one character for each byte of a password that satisfies
/// [`is_password_for`].
pub fn process_genpass(opts: &GenPassOpts) -> (r: Option<String>)
    ensures
        r is Some <==> opts.class_count() > 0,
        r matches Some(password) ==> exists|bytes: Seq<u8>|
            is_password_for(*opts, bytes) && password@ == #[trigger] ascii_chars(bytes),
{
    match generate_password(opts) {
        Some(bytes) => {
            proof {
                assert forall|i: int| 0 <= i < bytes@.len() implies bytes@[i] < 128 by {
                    assert(allowed(*opts, bytes@[i]));
                    if is_symbol(bytes@[i]) {
                        lemma_symbols_are_ascii(bytes@[i]);
                    }
                }
                lemma_ascii_is_utf8(bytes@);
            }
            match string_from_utf8(bytes) {
                Ok(password) => Some(password),
                Err(_) => None,
            }
        },
        None => None,
    }
}

/// Highest score that a password can get.
pub const MAX_SCORE: u8 = 4;

/// A password and the estimate of its strength, from 0 to 4.
#[derive(Debug, Clone, PartialEq, Eq)]
pub struct ScoredPassword {
    /// The password.
    pub password: String,
    /// Its score.
    pub score: u8,
}

/// Calls `zxcvbn::zxcvbn` without user inputs and returns the score of its
/// estimate, which is one of five from 0 to 4. The estimate takes the
/// current year into account, so no more is known of it.
#[verifier::external_body]
fn strength(password: &str) -> (score: u8)
    ensures
        score <= MAX_SCORE,
{
    u8::from(zxcvbn::zxcvbn(password, &[]).score())
}

/// Makes a password for `opts` and estimates its strength.
pub fn generate_scored(opts: &GenPassOpts) -> (r: Option<ScoredPassword>)
    ensures
        r is Some <==> opts.class_count() > 0,
        r matches Some(scored) ==> {
            &&& scored.score <= MAX_SCORE
            &&& exists|bytes: Seq<u8>|
                is_password_for(*opts, bytes) && scored.password@ == #[trigger] ascii_chars(bytes)
        },
{
    match process_genpass(opts) {
        Some(password) => {
            let score = strength(password.as_str());
            Some(ScoredPassword { password, score })
        },
        None => None,
    }
}

} // verus!
