//! The decisions of the setup wizard: the reasoning levels a provider
//! offers, what each question proposes, which base URLs are accepted, and
//! how an API key is written into the `.env` file.
use vstd::prelude::*;
use crate::text::{
    owned, concat2, starts_with, str_eq, lines, lines_spec, join, join_spec, has_prefix,
};
use crate::providers::Providers;

verus! {

/// The reasoning levels the wizard offers for a provider, in order.
pub open spec fn levels_of(p: Providers) -> Seq<Seq<char>> {
    match p {
        Providers::Openrouter => seq!["xhigh"@, "high"@, "medium"@, "low"@, "minimal"@, "none"@],
        Providers::Groq => seq!["high"@, "medium"@, "low"@, "default"@, "none"@],
        Providers::Cerebras => seq!["high"@, "medium"@, "low"@, "none"@],
        Providers::GoogleAIStudio => seq!["high"@, "medium"@, "low"@, "none"@],
        Providers::Local => seq!["max"@, "high"@, "medium"@, "low"@, "none"@],
    }
}

/// The reasoning levels the wizard offers for `p`.
pub fn reasoning_levels(p: Providers) -> (r: Vec<&'static str>)
    ensures
        r@.map_values(|s: &str| s@) == levels_of(p),
{
    let r = match p {
        Providers::Openrouter => vec!["xhigh", "high", "medium", "low", "minimal", "none"],
        Providers::Groq => vec!["high", "medium", "low", "default", "none"],
        Providers::Cerebras => vec!["high", "medium", "low", "none"],
        Providers::GoogleAIStudio => vec!["high", "medium", "low", "none"],
        Providers::Local => vec!["max", "high", "medium", "low", "none"],
    };
    assert(r@.map_values(|s: &str| s@) =~= levels_of(p));
    r
}

/// Where the level list starts: at the current level, else at the top.
pub fn starting_index(levels: &Vec<&str>, current: &str) -> (r: usize)
    ensures
        r < levels@.len() || (r == 0 && levels@.len() == 0),
        (exists|i: int| 0 <= i < levels@.len() && levels@[i]@ == current@) ==> (levels@[r as int]@
            == current@ && forall|j: int| 0 <= j < r ==> levels@[j]@ != current@),
        !(exists|i: int| 0 <= i < levels@.len() && levels@[i]@ == current@) ==> r == 0,
{
    let mut i: usize = 0;
    while i < levels.len()
        invariant
            i <= levels@.len(),
            forall|j: int| 0 <= j < i ==> levels@[j]@ != current@,
        decreases levels@.len() - i,
    {
        if str_eq(levels[i], current) {
            return i;
        }
        i = i + 1;
    }
    0
}

/// A base URL the wizard accepts: it starts with `http://` or `https://`.
pub open spec fn is_http_url(s: Seq<char>) -> bool {
    has_prefix(s, "http://"@) || has_prefix(s, "https://"@)
}

/// Whether the wizard accepts `s` as a base URL.
pub fn http_validator(s: &str) -> (r: bool)
    ensures
        r == is_http_url(s@),
{
    starts_with(s, "http://") || starts_with(s, "https://")
}

/// The base URL proposed for a local provider: the configured one when the
/// provider already was local, else nothing.
pub fn default_base_url(current_provider: &str, current_base_url: &str) -> (r: String)
    ensures
        current_provider@ == "local"@ ==> r@ == current_base_url@,
        current_provider@ != "local"@ ==> r@.len() == 0,
{
    if str_eq(current_provider, "local") {
        owned(current_base_url)
    } else {
        String::new()
    }
}

/// The model name proposed: the configured one when the provider did not
/// change, else nothing.
pub fn default_model_name(provider: &str, configured_provider: &str, configured_name: &str) -> (r:
    String)
    ensures
        provider@ == configured_provider@ ==> r@ == configured_name@,
        provider@ != configured_provider@ ==> r@.len() == 0,
{
    if str_eq(provider, configured_provider) {
        owned(configured_name)
    } else {
        String::new()
    }
}

/// `t` occurs in `s`.
pub open spec fn has_infix(s: Seq<char>, t: Seq<char>) -> bool {
    exists|i: int| 0 <= i <= s.len() - t.len() && #[trigger] s.subrange(i, i + t.len()) == t
}

/// Whether `t` occurs in `s`.
fn contains_str(s: &str, t: &str) -> (r: bool)
    ensures
        r == has_infix(s@, t@),
{
    let n = s.unicode_len();
    let m = t.unicode_len();
    if m > n {
        return false;
    }
    if m == 0 {
        assert(s@.subrange(0int, 0int + t@.len()) =~= t@);
        return true;
    }
    let mut i: usize = 0;
    while i <= n - m
        invariant
            n == s@.len(),
            m == t@.len(),
            0 < m <= n,
            i <= n - m + 1,
            forall|k: int| 0 <= k < i ==> #[trigger] s@.subrange(k, k + m) != t@,
        decreases n - m + 1 - i,
    {
        let piece = crate::text::slice_chars(s, i, i + m);
        if str_eq(piece.as_str(), t) {
            return true;
        }
        i = i + 1;
    }
    false
}

/// The line that sets `key` to `value` in an `.env` file.
pub open spec fn key_line(key: Seq<char>, value: Seq<char>) -> Seq<char> {
    key + "="@ + value
}

/// A line replaced by the key's line when it sets `key`.
pub open spec fn replaced_line(l: Seq<char>, key: Seq<char>, value: Seq<char>) -> Seq<char> {
    if has_prefix(l, key + "="@) {
        key_line(key, value)
    } else {
        l
    }
}

/// The `.env` text after setting `key` to `value`: every line that sets
/// the key is replaced when the text mentions `key=`; otherwise the line
/// is added after the text, trailing whitespace dropped.
pub open spec fn env_with_key(env: Seq<char>, key: Seq<char>, value: Seq<char>) -> Seq<char> {
    if has_infix(env, key + "="@) {
        join_spec(
            lines_spec(env).map_values(|l: Seq<char>| replaced_line(l, key, value)),
            seq!['\n'],
        )
    } else {
        crate::text::trim_end_spec(env) + seq!['\n'] + key_line(key, value)
    }
}

/// Whether the `.env` text already sets `key` (it mentions `key=`).
pub fn env_has_key(env: &str, key: &str) -> (r: bool)
    ensures
        r == has_infix(env@, key@ + "="@),
{
    let k = concat2(key, "=");
    contains_str(env, k.as_str())
}

/// The `.env` text with `key` set to `value`.
pub fn set_env_key(env: &str, key: &str, value: &str) -> (r: String)
    ensures
        r@ == env_with_key(env@, key@, value@),
{
    let prefix = concat2(key, "=");
    let line = concat2(prefix.as_str(), value);
    if contains_str(env, prefix.as_str()) {
        let ls = lines(env);
        let ghost lv = ls@.map_values(|l: String| l@);
        let mut out: Vec<String> = Vec::new();
        let mut i: usize = 0;
        while i < ls.len()
            invariant
                lv == ls@.map_values(|l: String| l@),
                i <= ls@.len(),
                prefix@ == key@ + "="@,
                line@ == key_line(key@, value@),
                out@.map_values(|l: String| l@) == lv.take(i as int).map_values(
                    |l: Seq<char>| replaced_line(l, key@, value@),
                ),
            decreases ls@.len() - i,
        {
            let ghost before = out@;
            if starts_with(ls[i].as_str(), prefix.as_str()) {
                out.push(line.clone());
            } else {
                out.push(ls[i].clone());
            }
            proof {
                assert(lv.take(i + 1) =~= lv.take(i as int).push(lv[i as int]));
                assert(out@.map_values(|l: String| l@) =~= before.map_values(|l: String| l@).push(
                    replaced_line(lv[i as int], key@, value@),
                ));
            }
            i = i + 1;
        }
        proof {
            assert(lv.take(ls@.len() as int) =~= lv);
            reveal_strlit("\n");
            assert("\n"@ =~= seq!['\n']);
        }
        join(&out, "\n")
    } else {
        let mut r = crate::text::trim_end(env);
        r.append("\n");
        r.append(line.as_str());
        proof {
            reveal_strlit("\n");
            assert("\n"@ =~= seq!['\n']);
        }
        r
    }
}

} // verus!
