//! Performance analysis: the kinds of benchmarks, alerts, bottlenecks and
//! optimisation suggestions, and the suggestions the analyser makes.
use vstd::prelude::*;
use crate::text::{join_line_list, join_lines};
use crate::system::new_uuid;

verus! {

/// Kind of benchmark.
#[derive(Debug, Clone)]
pub enum BenchmarkType {
    /// Message routing.
    MessageRouting,
    /// Plugin loading.
    PluginLoading,
    /// Memory use.
    MemoryUsage,
    /// Concurrent processing.
    ConcurrentProcessing,
    /// Network latency.
    NetworkLatency,
    /// Database performance.
    DatabasePerformance,
    /// Anything else, by name.
    Custom(String),
}

/// How a benchmark runs. Durations are in milliseconds.
#[derive(Debug, Clone, Copy, PartialEq, Eq, Structural)]
pub struct BenchmarkConfig {
    /// Concurrent workers.
    pub concurrency: u32,
    /// Duration.
    pub duration_ms: u64,
    /// Warm-up.
    pub warmup_duration_ms: u64,
    /// Repetitions.
    pub iterations: u32,
}

/// State of a benchmark.
#[derive(Debug, Clone)]
pub enum BenchmarkStatus {
    /// Being prepared.
    Preparing,
    /// Warming up.
    Warming,
    /// Running.
    Running,
    /// Done.
    Completed,
    /// Failed, with a reason.
    Failed(String),
}

/// Condition of an alert rule.
#[derive(Debug, Clone, Copy, PartialEq, Eq, Structural)]
pub enum AlertCondition {
    /// Above the threshold.
    GreaterThan,
    /// Below the threshold.
    LessThan,
    /// At the threshold.
    Equal,
    /// Not at the threshold.
    NotEqual,
}

/// Severity of an alert.
#[derive(Debug, Clone, Copy, PartialEq, Eq, Structural)]
pub enum AlertSeverity {
    /// Information.
    Info,
    /// Warning.
    Warning,
    /// Critical.
    Critical,
}

/// Kind of bottleneck.
#[derive(Debug, Clone, Copy, PartialEq, Eq, Structural)]
pub enum BottleneckType {
    /// CPU.
    CPU,
    /// Memory.
    Memory,
    /// Network.
    Network,
    /// Disk I/O.
    DiskIO,
    /// Database.
    Database,
    /// Lock contention.
    LockContention,
    /// Algorithmic efficiency.
    AlgorithmEfficiency,
}

/// Kind of optimisation.
#[derive(Debug, Clone, Copy, PartialEq, Eq, Structural)]
pub enum SuggestionType {
    /// Configuration.
    ConfigurationOptimization,
    /// Algorithm.
    AlgorithmOptimization,
    /// Caching.
    CachingStrategy,
    /// Concurrency.
    ConcurrencyOptimization,
    /// Resources.
    ResourceAdjustment,
    /// Architecture.
    ArchitecturalRefactoring,
}

/// Priority of a suggestion.
#[derive(Debug, Clone, Copy, PartialEq, Eq, Structural)]
pub enum Priority {
    /// Low.
    Low,
    /// Medium.
    Medium,
    /// High.
    High,
    /// Critical.
    Critical,
}

/// Difficulty of carrying a suggestion out.
#[derive(Debug, Clone, Copy, PartialEq, Eq, Structural)]
pub enum Difficulty {
    /// Easy.
    Easy,
    /// Medium.
    Medium,
    /// Hard.
    Hard,
    /// Very hard.
    VeryHard,
}

/// A suggestion for better performance.
#[derive(Debug, Clone)]
pub struct OptimizationSuggestion {
    /// Id.
    pub id: String,
    /// Component concerned.
    pub target_component: String,
    /// Kind.
    pub suggestion_type: SuggestionType,
    /// Priority.
    pub priority: Priority,
    /// Improvement expected.
    pub expected_improvement: String,
    /// Difficulty.
    pub implementation_difficulty: Difficulty,
    /// Description.
    pub description: String,
    /// Code example, if any.
    pub code_example: Option<String>,
}

/// The suggestion the analyser makes: cache message routes.
pub open spec fn routing_cache_suggestion(s: OptimizationSuggestion) -> bool {
    &&& s.id@.len() == 36
    &&& s.target_component@ == "message_router"@
    &&& s.suggestion_type == SuggestionType::CachingStrategy
    &&& s.priority == Priority::High
    &&& s.expected_improvement@ == "减少30%的CPU使用率"@
    &&& s.implementation_difficulty == Difficulty::Medium
    &&& s.description@ == "实施消息路由缓存策略"@
    &&& s.code_example matches Some(c) && c@ == "// 添加LRU缓存\nlet cache = LruCache::new(1000);"@
}

/// The optimisation suggestions of the analyser.
pub fn generate_suggestions() -> (r: Vec<OptimizationSuggestion>)
    ensures
        r@.len() == 1,
        routing_cache_suggestion(r@[0]),
{
    let mut v: Vec<OptimizationSuggestion> = Vec::new();
    v.push(OptimizationSuggestion {
        id: new_uuid(),
        target_component: String::from_str("message_router"),
        suggestion_type: SuggestionType::CachingStrategy,
        priority: Priority::High,
        expected_improvement: String::from_str("减少30%的CPU使用率"),
        implementation_difficulty: Difficulty::Medium,
        description: String::from_str("实施消息路由缓存策略"),
        code_example: Some(String::from_str("// 添加LRU缓存\nlet cache = LruCache::new(1000);")),
    });
    v
}

/// The configuration of the message routing suite: 100 workers for a minute
/// after ten seconds of warm-up, once.
pub fn message_routing_config() -> (r: BenchmarkConfig)
    ensures
        r.concurrency == 100,
        r.duration_ms == 60_000,
        r.warmup_duration_ms == 10_000,
        r.iterations == 1,
{
    BenchmarkConfig { concurrency: 100, duration_ms: 60_000, warmup_duration_ms: 10_000, iterations: 1 }
}

/// The name under which a kind of suggestion is reported.
pub open spec fn suggestion_type_name(t: SuggestionType) -> Seq<char> {
    match t {
        SuggestionType::ConfigurationOptimization => "ConfigurationOptimization"@,
        SuggestionType::AlgorithmOptimization => "AlgorithmOptimization"@,
        SuggestionType::CachingStrategy => "CachingStrategy"@,
        SuggestionType::ConcurrencyOptimization => "ConcurrencyOptimization"@,
        SuggestionType::ResourceAdjustment => "ResourceAdjustment"@,
        SuggestionType::ArchitecturalRefactoring => "ArchitecturalRefactoring"@,
    }
}

/// The name under which a priority is reported.
pub open spec fn priority_name(p: Priority) -> Seq<char> {
    match p {
        Priority::Low => "Low"@,
        Priority::Medium => "Medium"@,
        Priority::High => "High"@,
        Priority::Critical => "Critical"@,
    }
}

/// The report line of a suggestion: its component, kind, description and priority.
pub open spec fn suggestion_line(s: OptimizationSuggestion) -> Seq<char> {
    "- "@ + s.target_component@ + " ("@ + suggestion_type_name(s.suggestion_type) + "): "@ + s.description@
        + " (优先级: "@ + priority_name(s.priority) + ")"@
}

fn suggestion_type_text(t: SuggestionType) -> (r: &'static str)
    ensures
        r@ == suggestion_type_name(t),
{
    match t {
        SuggestionType::ConfigurationOptimization => "ConfigurationOptimization",
        SuggestionType::AlgorithmOptimization => "AlgorithmOptimization",
        SuggestionType::CachingStrategy => "CachingStrategy",
        SuggestionType::ConcurrencyOptimization => "ConcurrencyOptimization",
        SuggestionType::ResourceAdjustment => "ResourceAdjustment",
        SuggestionType::ArchitecturalRefactoring => "ArchitecturalRefactoring",
    }
}

fn priority_text(p: Priority) -> (r: &'static str)
    ensures
        r@ == priority_name(p),
{
    match p {
        Priority::Low => "Low",
        Priority::Medium => "Medium",
        Priority::High => "High",
        Priority::Critical => "Critical",
    }
}

/// The suggestions section of a performance report: one line per
/// suggestion (see `suggestion_line`), joined by line breaks.
pub fn format_optimization_suggestions(suggestions: &Vec<OptimizationSuggestion>) -> (r: String)
    ensures
        r@ == join_lines(suggestions@.map_values(|s: OptimizationSuggestion| suggestion_line(s))),
{
    let ghost want = suggestions@.map_values(|s: OptimizationSuggestion| suggestion_line(s));
    let mut lines: Vec<String> = Vec::new();
    let mut i: usize = 0;
    while i < suggestions.len()
        invariant
            i <= suggestions@.len(),
            want == suggestions@.map_values(|s: OptimizationSuggestion| suggestion_line(s)),
            lines@.len() == i,
            forall|j: int| 0 <= j < i ==> #[trigger] lines@[j]@ == want[j],
        decreases suggestions@.len() - i,
    {
        let s = &suggestions[i];
        let mut line = String::from_str("- ");
        line.append(s.target_component.as_str());
        line.append(" (");
        line.append(suggestion_type_text(s.suggestion_type));
        line.append("): ");
        line.append(s.description.as_str());
        line.append(" (优先级: ");
        line.append(priority_text(s.priority));
        line.append(")");
        proof {
            reveal_strlit("- ");
            reveal_strlit(" (");
            reveal_strlit("): ");
            reveal_strlit(" (优先级: ");
            reveal_strlit(")");
        }
        assert(line@ =~= want[i as int]);
        lines.push(line);
        i = i + 1;
    }
    assert(lines@.map_values(|s: String| s@) =~= want);
    join_line_list(&lines)
}

} // verus!
