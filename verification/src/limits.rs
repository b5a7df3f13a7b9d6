//! Static per-model output-token ceilings.
//!
//! Each known model maps to `(max_output_tokens, context_window)`. Matching is
//! on versioned id fragments of the ASCII-lowercased model id; a model that is
//! not in the table yields `None` and the caller fails open.

use vstd::prelude::*;
use crate::text::{ascii_lower, ascii_lower_char, ascii_lowercase_chars, chars_equal, chars_of, contains_chars, has_substring};

verus! {

/// The table itself, over an id that is already lowercased. Entries are tried
/// in order; the first fragment that occurs decides.
pub open spec fn ceiling_of_lowered_id(m: Seq<char>) -> Option<(u32, u32)> {
    if has_substring(m, "opus-4"@) {
        Some((32000, 200000))
    } else if has_substring(m, "sonnet-4"@) {
        Some((64000, 200000))
    } else if has_substring(m, "haiku-4"@) {
        Some((8192, 200000))
    } else if has_substring(m, "gpt-4.1"@) {
        Some((32768, 1000000))
    } else if has_substring(m, "gpt-4o"@) {
        Some((16384, 128000))
    } else if has_substring(m, "grok-3"@) {
        Some((64000, 131072))
    } else if has_substring(m, "deepseek-v4-flash"@) || m == "deepseek-chat"@ || m
        == "deepseek-reasoner"@ {
        Some((8192, 1000000))
    } else {
        None
    }
}

/// The ceiling of a model id: the table applied to its ASCII lowercase.
pub open spec fn model_ceiling(model: Seq<char>) -> Option<(u32, u32)> {
    ceiling_of_lowered_id(ascii_lower(model))
}

/// Returns `(max_output_tokens, context_window)` for a known model, or `None`
/// when the model is unknown (the caller must fail open).
///
/// `_provider` is accepted for future provider-scoped disambiguation; the
/// result depends on the model id alone.
pub fn model_output_ceiling(_provider: &str, model: &str) -> (res: Option<(u32, u32)>)
    ensures
        res == model_ceiling(model@),
{
    let m = ascii_lowercase_chars(model);
    if contains_chars(&m, &chars_of("opus-4")) {
        return Some((32_000, 200_000));
    }
    if contains_chars(&m, &chars_of("sonnet-4")) {
        return Some((64_000, 200_000));
    }
    if contains_chars(&m, &chars_of("haiku-4")) {
        return Some((8_192, 200_000));
    }
    if contains_chars(&m, &chars_of("gpt-4.1")) {
        return Some((32_768, 1_000_000));
    }
    if contains_chars(&m, &chars_of("gpt-4o")) {
        return Some((16_384, 128_000));
    }
    if contains_chars(&m, &chars_of("grok-3")) {
        return Some((64_000, 131_072));
    }
    if contains_chars(&m, &chars_of("deepseek-v4-flash")) || chars_equal(
        &m,
        &chars_of("deepseek-chat"),
    ) || chars_equal(&m, &chars_of("deepseek-reasoner")) {
        return Some((8_192, 1_000_000));
    }
    None
}

/// Lowercasing an id twice is the same as lowercasing it once.
pub proof fn lemma_ascii_lower_idempotent(s: Seq<char>)
    ensures
        ascii_lower(ascii_lower(s)) == ascii_lower(s),
{
    assert forall|i: int| 0 <= i < s.len() implies ascii_lower_char(ascii_lower_char(s[i]))
        == ascii_lower_char(s[i]) by {
        let c = s[i];
        if 'A' <= c && c <= 'Z' {
            assert(('a' as u32) <= (ascii_lower_char(c) as u32) <= ('z' as u32));
        }
    }
    assert(ascii_lower(ascii_lower(s)) =~= ascii_lower(s));
}

/// The lookup is case-insensitive in ASCII: an id and its lowercase (and so any
/// two ids with the same lowercase) have the same ceiling.
pub proof fn lemma_ceiling_is_case_insensitive(a: Seq<char>, b: Seq<char>)
    requires
        ascii_lower(a) == ascii_lower(b),
    ensures
        model_ceiling(a) == model_ceiling(b),
        model_ceiling(a) == model_ceiling(ascii_lower(a)),
{
    lemma_ascii_lower_idempotent(a);
}

/// Every entry of the table caps output at or below its context window.
pub proof fn lemma_output_within_context(model: Seq<char>)
    ensures
        model_ceiling(model) matches Some((out, ctx)) ==> out <= ctx,
{
}

/// A `gpt-4.1` id never falls through to the `gpt-4o` entry: unless it also
/// names one of the entries tried before it, it gets the 4.1 ceiling.
pub proof fn lemma_gpt_4_1_is_not_4o(model: Seq<char>)
    requires
        has_substring(ascii_lower(model), "gpt-4.1"@),
        !has_substring(ascii_lower(model), "opus-4"@),
        !has_substring(ascii_lower(model), "sonnet-4"@),
        !has_substring(ascii_lower(model), "haiku-4"@),
    ensures
        model_ceiling(model) == Some((32768u32, 1000000u32)),
{
}

/// An id that holds none of the versioned fragments and is none of the
/// DeepSeek aliases is unknown, and the lookup fails open with `None`.
pub proof fn lemma_unlisted_model_fails_open(model: Seq<char>)
    requires
        !has_substring(ascii_lower(model), "opus-4"@),
        !has_substring(ascii_lower(model), "sonnet-4"@),
        !has_substring(ascii_lower(model), "haiku-4"@),
        !has_substring(ascii_lower(model), "gpt-4.1"@),
        !has_substring(ascii_lower(model), "gpt-4o"@),
        !has_substring(ascii_lower(model), "grok-3"@),
        !has_substring(ascii_lower(model), "deepseek-v4-flash"@),
        ascii_lower(model) != "deepseek-chat"@,
        ascii_lower(model) != "deepseek-reasoner"@,
    ensures
        model_ceiling(model) is None,
{
}

} // verus!
