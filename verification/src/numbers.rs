//! Human readable numbers such as context lengths: which unit a number is
//! shown in, and how `3k` or `4.5M` splits into digits and a multiplier.
//! The decimal arithmetic on the digits is left to the caller.
use vstd::prelude::*;
use crate::text::{decimal, decimal_string, concat2, trim, trim_spec, slice_chars, char_count};

verus! {

/// How a number is shown: in full, or divided by a power of a thousand
/// with one decimal and a unit letter.
#[derive(Debug, PartialEq, Eq)]
pub enum NumberFormat {
    /// The number in full.
    Plain(String),
    /// The number divided by `divisor`, with the unit letter `unit`.
    Scaled { divisor: i64, unit: char },
}

/// The decimal rendering of a signed number, as `to_string` gives it.
pub open spec fn signed_decimal(n: int) -> Seq<char> {
    if n < 0 {
        "-"@ + decimal((-n) as nat)
    } else {
        decimal(n as nat)
    }
}

/// The decimal rendering of a signed number.
pub fn signed_decimal_string(n: i64) -> (r: String)
    ensures
        r@ == signed_decimal(n as int),
{
    if n < 0 {
        let m: u64 = (-(n as i128)) as u64;
        let d = decimal_string(m);
        concat2("-", d.as_str())
    } else {
        decimal_string(n as u64)
    }
}

/// How `n` is shown: billions from 10^9, millions from 10^6, thousands
/// from 10^3, else in full.
pub fn number_format(n: i64) -> (r: NumberFormat)
    ensures
        n >= 1_000_000_000 ==> r == (NumberFormat::Scaled { divisor: 1_000_000_000, unit: 'B' }),
        1_000_000 <= n < 1_000_000_000 ==> r == (NumberFormat::Scaled {
            divisor: 1_000_000,
            unit: 'M',
        }),
        1_000 <= n < 1_000_000 ==> r == (NumberFormat::Scaled { divisor: 1_000, unit: 'K' }),
        n < 1_000 ==> (r matches NumberFormat::Plain(s) && s@ == signed_decimal(n as int)),
{
    if n >= 1_000_000_000 {
        NumberFormat::Scaled { divisor: 1_000_000_000, unit: 'B' }
    } else if n >= 1_000_000 {
        NumberFormat::Scaled { divisor: 1_000_000, unit: 'M' }
    } else if n >= 1_000 {
        NumberFormat::Scaled { divisor: 1_000, unit: 'K' }
    } else {
        NumberFormat::Plain(signed_decimal_string(n))
    }
}

/// The multiplier a unit letter stands for; `None` for any other character.
pub open spec fn unit_multiplier(c: char) -> Option<u64> {
    if c == 'k' || c == 'K' {
        Some(1_000)
    } else if c == 'm' || c == 'M' {
        Some(1_000_000)
    } else if c == 'b' || c == 'B' {
        Some(1_000_000_000)
    } else {
        None
    }
}

/// The digits and the multiplier of a human readable number: the text is
/// trimmed, and a trailing unit letter is taken off as its multiplier.
pub open spec fn human_parts(s: Seq<char>) -> (Seq<char>, u64) {
    let t = trim_spec(s);
    if t.len() > 0 {
        match unit_multiplier(t.last()) {
            Some(m) => (t.drop_last(), m),
            None => (t, 1),
        }
    } else {
        (t, 1)
    }
}

/// Splits a human readable number such as `4.5M` into its digits and its
/// multiplier.
pub fn split_human_number(s: &str) -> (r: (String, u64))
    ensures
        r.0@ == human_parts(s@).0,
        r.1 == human_parts(s@).1,
{
    let t = trim(s);
    let n = char_count(t.as_str());
    if n == 0 {
        return (t, 1);
    }
    let c = t.as_str().get_char(n - 1);
    let m: u64 = if c == 'k' || c == 'K' {
        1_000
    } else if c == 'm' || c == 'M' {
        1_000_000
    } else if c == 'b' || c == 'B' {
        1_000_000_000
    } else {
        0
    };
    if m == 0 {
        (t, 1)
    } else {
        let digits = slice_chars(t.as_str(), 0, n - 1);
        proof {
            assert(t@.subrange(0, n - 1) =~= t@.drop_last());
        }
        (digits, m)
    }
}

/// A model offered by a provider: its identifier, its context length and
/// its price per completion token, as the provider states them.
pub struct ModelInfo {
    pub id: String,
    pub context_length: Option<i64>,
    pub completion_price: Option<String>,
}

/// Which optional columns the model table has: context lengths when some
/// model states one, prices when some model states one.
pub fn model_columns(models: &Vec<ModelInfo>) -> (r: (bool, bool))
    ensures
        r.0 == exists|i: int| 0 <= i < models@.len() && (#[trigger] models@[i]).context_length is Some,
        r.1 == exists|i: int| 0 <= i < models@.len() && (#[trigger] models@[i]).completion_price is Some,
{
    let mut has_context = false;
    let mut has_pricing = false;
    let mut i: usize = 0;
    while i < models.len()
        invariant
            i <= models@.len(),
            has_context == exists|k: int| 0 <= k < i && (#[trigger] models@[k]).context_length is Some,
            has_pricing == exists|k: int| 0 <= k < i && (#[trigger] models@[k]).completion_price is Some,
        decreases models@.len() - i,
    {
        if models[i].context_length.is_some() {
            has_context = true;
        }
        if models[i].completion_price.is_some() {
            has_pricing = true;
        }
        i = i + 1;
    }
    (has_context, has_pricing)
}

/// Whether a model stays in the table given the smallest context length
/// asked for: only a model that states a shorter context is left out.
pub fn context_allowed(context_length: Option<i64>, min_context: Option<i64>) -> (r: bool)
    ensures
        r == !(context_length matches Some(c) && min_context matches Some(m) && c < m),
{
    match (context_length, min_context) {
        (Some(c), Some(m)) => c >= m,
        _ => true,
    }
}

} // verus!
