//! The `loop` command: its provider, settings, goal and the heuristic that
//! judges an output.
use vstd::prelude::*;
use vstd::string::StringExecFns;
use crate::cli::run::{provider_for, provider_of};
use crate::config::AgentConfig;
use crate::llm::Provider;
use crate::message::{DEFAULT_MAX_ITERATIONS, DEFAULT_THRESHOLD_BITS};
use crate::text::{chars_of, contains_text, has_text};

verus! {

/// The provider a loop agent runs with: Anthropic's or OpenAI's with the
/// configured key and model; any other provider is refused.
pub fn create_provider(config: &AgentConfig) -> (r: Result<Provider, String>)
    ensures
        config.model.provider@ == "anthropic"@ || config.model.provider@ == "openai"@ ==> (r matches Ok(
            p,
        ) && provider_for(p, config.model.provider@, *config)),
        !(config.model.provider@ == "anthropic"@ || config.model.provider@ == "openai"@) ==> (r matches Err(
            m,
        ) && m@ == "Provider '"@ + config.model.provider@ + "' not supported for loop agent"@),
{
    provider_of(config, "' not supported for loop agent")
}

/// The threshold (an `f32`'s bit pattern) and iterations of a loop agent:
/// as its quality section gives them, 0.85 and 20 where it does not; a
/// configuration without a quality section is refused.
pub fn quality_settings(config: &AgentConfig) -> (r: Result<(u32, usize), String>)
    ensures
        match config.quality {
            None => r matches Err(m) && m@
                == "Config must include [quality] section for loop agent. See B-04 schema for details."@,
            Some(q) => r == Ok::<(u32, usize), String>(
                (
                    match q.threshold_bits {
                        Some(t) => t,
                        None => DEFAULT_THRESHOLD_BITS,
                    },
                    match q.max_iterations {
                        Some(m) => m,
                        None => DEFAULT_MAX_ITERATIONS,
                    },
                ),
            ),
        },
{
    match &config.quality {
        None => Err(
            String::from_str(
                "Config must include [quality] section for loop agent. See B-04 schema for details.",
            ),
        ),
        Some(q) => {
            let t = match q.threshold_bits {
                Some(t) => t,
                None => DEFAULT_THRESHOLD_BITS,
            };
            let m = match q.max_iterations {
                Some(m) => m,
                None => DEFAULT_MAX_ITERATIONS,
            };
            Ok((t, m))
        },
    }
}

/// The goal a loop agent pursues: its description, or a generic goal.
pub fn loop_goal(config: &AgentConfig) -> (g: String)
    ensures
        g@ == match config.agent.description {
            Some(d) => d@,
            None => "Complete the assigned task"@,
        },
{
    match &config.agent.description {
        Some(d) => d.clone(),
        None => String::from_str("Complete the assigned task"),
    }
}

/// The number of bytes a character takes in UTF-8.
pub open spec fn utf8_width(c: char) -> nat {
    if (c as u32) < 0x80 {
        1
    } else if (c as u32) < 0x800 {
        2
    } else if (c as u32) < 0x10000 {
        3
    } else {
        4
    }
}

/// The length of a text in UTF-8 bytes.
pub open spec fn utf8_len(s: Seq<char>) -> nat
    decreases s.len(),
{
    if s.len() == 0 {
        0
    } else {
        utf8_len(s.drop_last()) + utf8_width(s.last())
    }
}

/// The heuristic score of an output, in tenths: nothing for an empty
/// output; otherwise five, plus one each for more than 100 bytes, more than
/// 500 bytes, a mention of `test` or `assert`, and a mention of `fn `,
/// `def ` or `function `.
pub open spec fn quality_tenths(s: Seq<char>) -> u32 {
    if s.len() == 0 {
        0
    } else {
        (5 + (if utf8_len(s) > 100 { 1int } else { 0 }) + (if utf8_len(s) > 500 { 1int } else { 0 })
            + (if contains_text(s, "test"@) || contains_text(s, "assert"@) { 1int } else { 0 })
            + (if contains_text(s, "fn "@) || contains_text(s, "def "@) || contains_text(s, "function "@) {
            1int
        } else {
            0
        })) as u32
    }
}

proof fn lemma_utf8_len_grows(s: Seq<char>, k: int)
    requires
        0 <= k <= s.len(),
    ensures
        utf8_len(s.take(k)) <= utf8_len(s),
    decreases s.len() - k,
{
    if k < s.len() {
        lemma_utf8_len_grows(s, k + 1);
        assert(s.take(k + 1).drop_last() =~= s.take(k));
    } else {
        assert(s.take(k) =~= s);
    }
}

/// The UTF-8 length of `s`, counted up to 501 bytes.
fn utf8_len_capped(s: &Vec<char>) -> (n: usize)
    ensures
        n == if utf8_len(s@) > 501 { 501 } else { utf8_len(s@) },
{
    let mut n: usize = 0;
    let mut i: usize = 0;
    while i < s.len()
        invariant
            i <= s.len(),
            n == utf8_len(s@.take(i as int)),
            n <= 501,
        decreases s.len() - i,
    {
        let u = s[i] as u32;
        let w: usize = if u < 0x80 {
            1
        } else if u < 0x800 {
            2
        } else if u < 0x10000 {
            3
        } else {
            4
        };
        proof {
            assert(s@.take(i + 1).drop_last() =~= s@.take(i as int));
        }
        if n + w > 501 {
            proof {
                lemma_utf8_len_grows(s@, i + 1);
            }
            return 501;
        }
        n = n + w;
        i = i + 1;
    }
    proof {
        assert(s@.take(s.len() as int) =~= s@);
    }
    n
}

/// Judges an output by the heuristic, in tenths of a point (from 0 to 9).
pub fn estimate_quality(output: &str) -> (tenths: u32)
    ensures
        tenths == quality_tenths(output@),
        tenths <= 9,
{
    let s = chars_of(output);
    if s.len() == 0 {
        return 0;
    }
    let len = utf8_len_capped(&s);
    let mut score: u32 = 5;
    if len > 100 {
        score = score + 1;
    }
    if len > 500 {
        score = score + 1;
    }
    if has_text(&s, &chars_of("test")) || has_text(&s, &chars_of("assert")) {
        score = score + 1;
    }
    if has_text(&s, &chars_of("fn ")) || has_text(&s, &chars_of("def ")) || has_text(&s, &chars_of("function ")) {
        score = score + 1;
    }
    score
}

} // verus!
