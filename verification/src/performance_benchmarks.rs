//! Benchmarks of message handling: their settings and the messages they send.
use vstd::prelude::*;
use crate::a2a::{A2AMessage, MessagePart, MessageRole};

verus! {

/// How a benchmark runs.
#[derive(Debug, Clone, Copy, PartialEq, Eq, Structural)]
pub struct BenchmarkConfig {
    /// Duration, in seconds.
    pub duration_secs: u64,
    /// Concurrent connections.
    pub concurrent_connections: usize,
    /// Size of a message, in bytes.
    pub message_size: usize,
    /// Requests per second aimed at.
    pub target_qps: u64,
    /// Warm-up, in seconds.
    pub warmup_secs: u64,
}

impl Default for BenchmarkConfig {
    fn default() -> (r: Self)
        ensures
            r.duration_secs == 60,
            r.concurrent_connections == 10,
            r.message_size == 1024,
            r.target_qps == 1000,
            r.warmup_secs == 10,
    {
        BenchmarkConfig { duration_secs: 60, concurrent_connections: 10, message_size: 1024, target_qps: 1000, warmup_secs: 10 }
    }
}

/// Bytes of a test message left to other fields than its text.
pub const MESSAGE_OVERHEAD: usize = 100;

/// The text of a test message of `size` bytes: `x` repeated, leaving room
/// for the other fields.
pub open spec fn filler(size: usize) -> Seq<char> {
    let n: int = if size >= MESSAGE_OVERHEAD { size - MESSAGE_OVERHEAD } else { 0 };
    Seq::new(n as nat, |i: int| 'x')
}

/// A user message of about `size` bytes.
pub fn create_test_message_with_size(size: usize) -> (r: Result<A2AMessage, String>)
    ensures
        r matches Ok(m) && m.role == MessageRole::User && m.parts@.len() == 1
            && (m.parts@[0] matches MessagePart::Text(t) && t@ == filler(size))
            && m.metadata@.len() == 0,
{
    let n = size.saturating_sub(MESSAGE_OVERHEAD);
    let mut content = String::from_str("");
    let mut i: usize = 0;
    proof {
        reveal_strlit("");
        reveal_strlit("x");
    }
    while i < n
        invariant
            i <= n,
            n == (if size >= MESSAGE_OVERHEAD { size - MESSAGE_OVERHEAD } else { 0 }),
            content@ == Seq::new(i as nat, |k: int| 'x'),
        decreases n - i,
    {
        content.append("x");
        proof {
            reveal_strlit("x");
        }
        assert(content@ =~= Seq::new((i + 1) as nat, |k: int| 'x'));
        i = i + 1;
    }
    Ok(A2AMessage::user_message(content))
}

} // verus!
