//! Token accounting and the state of the turn in flight.
use std::time::Instant;

use vstd::prelude::*;
#[allow(unused_imports)]
use vstd::string::*;

verus! {

/// Token usage and timing over the session.
#[derive(Clone, Debug, PartialEq, Eq)]
pub struct UsageStats {
    /// Input tokens of the most recent call.
    pub input_tokens: u64,
    /// Output tokens of the most recent call.
    pub output_tokens: u64,
    /// Input tokens over the session.
    pub total_input: u64,
    /// Output tokens over the session.
    pub total_output: u64,
    /// Cache-hit tokens of the most recent call.
    pub cache_hit_tokens: u64,
    /// Cache-miss tokens of the most recent call.
    pub cache_miss_tokens: u64,
    /// Cache-hit tokens over the session.
    pub total_cache_hit: u64,
    /// Cache-miss tokens over the session.
    pub total_cache_miss: u64,
    /// Cache-hit tokens of the turn in progress, or of the most recent one.
    pub turn_cache_hit: u64,
    /// Cache-miss tokens of the turn in progress, or of the most recent one.
    pub turn_cache_miss: u64,
    /// Cache-hit and all cache tokens of the most recently completed turn;
    /// `None` where that turn reported no cache tokens. The cache-hit rate
    /// shown to the user is the quotient of the two.
    pub last_turn_cache: Option<(u64, u64)>,
    /// Round-trip time of the most recent call.
    pub last_latency_ms: u64,
    /// Prompt size of the most recent call.
    pub last_prompt_tokens: u64,
    /// What fills the context window, as the agent last reported it, as JSON
    /// text.
    pub last_breakdown: Option<String>,
}

/// The sum of two counters, held at the top of the range.
pub open spec fn capped_sum(a: u64, b: u64) -> u64 {
    if a + b > u64::MAX {
        u64::MAX
    } else {
        (a + b) as u64
    }
}

/// The stats after a call without cache figures.
pub open spec fn recorded(u: UsageStats, input: u64, output: u64) -> UsageStats {
    UsageStats {
        input_tokens: input,
        output_tokens: output,
        total_input: capped_sum(u.total_input, input),
        total_output: capped_sum(u.total_output, output),
        ..u
    }
}

/// The stats after a call with cache figures.
pub open spec fn recorded_with_cache(
    u: UsageStats,
    input: u64,
    output: u64,
    hit: u64,
    miss: u64,
) -> UsageStats {
    UsageStats {
        cache_hit_tokens: hit,
        cache_miss_tokens: miss,
        total_cache_hit: capped_sum(u.total_cache_hit, hit),
        total_cache_miss: capped_sum(u.total_cache_miss, miss),
        turn_cache_hit: capped_sum(u.turn_cache_hit, hit),
        turn_cache_miss: capped_sum(u.turn_cache_miss, miss),
        last_prompt_tokens: if input >= capped_sum(hit, miss) {
            input
        } else {
            capped_sum(hit, miss)
        },
        ..recorded(u, input, output)
    }
}

/// The stats at the start of a turn.
pub open spec fn turn_begun(u: UsageStats) -> UsageStats {
    UsageStats { turn_cache_hit: 0, turn_cache_miss: 0, ..u }
}

/// The stats once the finished turn's cache figures are kept.
pub open spec fn turn_snapshot(u: UsageStats) -> UsageStats {
    let total = capped_sum(u.turn_cache_hit, u.turn_cache_miss);
    UsageStats {
        last_turn_cache: if total > 0 {
            Some((u.turn_cache_hit, total))
        } else {
            None
        },
        ..u
    }
}

/// The stats before the first call.
pub open spec fn no_usage() -> UsageStats {
    UsageStats {
        input_tokens: 0,
        output_tokens: 0,
        total_input: 0,
        total_output: 0,
        cache_hit_tokens: 0,
        cache_miss_tokens: 0,
        total_cache_hit: 0,
        total_cache_miss: 0,
        turn_cache_hit: 0,
        turn_cache_miss: 0,
        last_turn_cache: None,
        last_latency_ms: 0,
        last_prompt_tokens: 0,
        last_breakdown: None,
    }
}

impl Default for UsageStats {
    fn default() -> (r: UsageStats)
        ensures
            r == no_usage(),
    {
        UsageStats {
            input_tokens: 0,
            output_tokens: 0,
            total_input: 0,
            total_output: 0,
            cache_hit_tokens: 0,
            cache_miss_tokens: 0,
            total_cache_hit: 0,
            total_cache_miss: 0,
            turn_cache_hit: 0,
            turn_cache_miss: 0,
            last_turn_cache: None,
            last_latency_ms: 0,
            last_prompt_tokens: 0,
            last_breakdown: None,
        }
    }
}

impl UsageStats {
    /// Folds the token counts of one call into the stats.
    pub fn record(&mut self, input_tokens: u64, output_tokens: u64)
        ensures
            *final(self) == recorded(*old(self), input_tokens, output_tokens),
    {
        self.input_tokens = input_tokens;
        self.output_tokens = output_tokens;
        self.total_input = self.total_input.saturating_add(input_tokens);
        self.total_output = self.total_output.saturating_add(output_tokens);
    }

    /// Folds the token and cache counts of one call into the stats.
    ///
    /// The prompt size is the larger of the input count and the sum of the
    /// cache counts: some providers leave cached tokens out of the input
    /// count, others report no cache counts at all.
    pub fn record_with_cache(
        &mut self,
        input_tokens: u64,
        output_tokens: u64,
        cache_hit_tokens: u64,
        cache_miss_tokens: u64,
    )
        ensures
            *final(self) == recorded_with_cache(
                *old(self),
                input_tokens,
                output_tokens,
                cache_hit_tokens,
                cache_miss_tokens,
            ),
    {
        self.record(input_tokens, output_tokens);
        self.cache_hit_tokens = cache_hit_tokens;
        self.cache_miss_tokens = cache_miss_tokens;
        self.total_cache_hit = self.total_cache_hit.saturating_add(cache_hit_tokens);
        self.total_cache_miss = self.total_cache_miss.saturating_add(cache_miss_tokens);
        self.turn_cache_hit = self.turn_cache_hit.saturating_add(cache_hit_tokens);
        self.turn_cache_miss = self.turn_cache_miss.saturating_add(cache_miss_tokens);
        let cache_sum: u64 = cache_hit_tokens.saturating_add(cache_miss_tokens);
        self.last_prompt_tokens =
        if input_tokens >= cache_sum {
            input_tokens
        } else {
            cache_sum
        };
    }

    /// Resets the counters of the turn; the session totals stay.
    pub fn begin_turn(&mut self)
        ensures
            *final(self) == turn_begun(*old(self)),
    {
        self.turn_cache_hit = 0;
        self.turn_cache_miss = 0;
    }

    /// Keeps the finished turn's cache figures for display.
    pub fn snapshot_turn_cache_pct(&mut self)
        ensures
            *final(self) == turn_snapshot(*old(self)),
    {
        let total: u64 = self.turn_cache_hit.saturating_add(self.turn_cache_miss);
        if total > 0 {
            self.last_turn_cache = Some((self.turn_cache_hit, total));
        } else {
            self.last_turn_cache = None;
        }
    }
}

/// The state of the turn in flight, if there is one.
#[derive(Clone, Debug, PartialEq)]
pub struct TurnState {
    pub running: bool,
    pub started_at: Option<Instant>,
    pub spinner_verb: &'static str,
}

/// The state in which no turn runs.
pub open spec fn idle(t: TurnState) -> bool {
    !t.running && t.started_at is None && t.spinner_verb@ == "Thinking"@
}

/// The state at the start of a turn.
pub open spec fn underway(t: TurnState) -> bool {
    t.running && t.started_at is Some && t.spinner_verb@ == "Thinking"@
}

impl Default for TurnState {
    fn default() -> (r: TurnState)
        ensures
            idle(r),
    {
        TurnState { running: false, started_at: None, spinner_verb: "Thinking" }
    }
}

impl TurnState {
    /// Marks the turn as running from now on.
    pub fn start(&mut self)
        ensures
            underway(*final(self)),
    {
        self.running = true;
        self.started_at = Some(Instant::now());
        self.spinner_verb = "Thinking";
    }

    /// Marks the turn as over.
    pub fn finish(&mut self)
        ensures
            idle(*final(self)),
    {
        self.running = false;
        self.started_at = None;
        self.spinner_verb = "Thinking";
    }
}

/// Whether `r` is the name of the model that is shown.
pub open spec fn is_model_name(configured: Option<String>, r: String) -> bool {
    match configured {
        Some(name) => r == name,
        None => r@ == "gpt-4o-mini"@,
    }
}

/// The name of the model to show: the configured one, or the default where no
/// configuration could be loaded.
pub fn detect_model_name(configured: Option<String>) -> (r: String)
    ensures
        is_model_name(configured, r),
{
    match configured {
        Some(name) => name,
        None => "gpt-4o-mini".to_owned(),
    }
}

/// The context window of a model.
pub open spec fn window_of(configured: Option<u64>, catalog: u64) -> u64 {
    match configured {
        Some(window) => window,
        None => catalog,
    }
}

/// The context window of a model in tokens: the one that the configuration
/// gives, or that of the catalog where no configuration could be loaded.
pub fn context_window_for_model(configured: Option<u64>, catalog: u64) -> (r: u64)
    ensures
        r == window_of(configured, catalog),
{
    match configured {
        Some(window) => window,
        None => catalog,
    }
}

/// A number held at the top of the 32-bit range.
pub open spec fn held(v: u64) -> int {
    if v > u32::MAX {
        u32::MAX as int
    } else {
        v as int
    }
}

/// A session total as a 32-bit count, held at the top of the range.
pub fn saturating_u32(v: u64) -> (r: u32)
    ensures
        r as int == held(v),
{
    if v > 4294967295 {
        4294967295
    } else {
        v as u32
    }
}

} // verus!
