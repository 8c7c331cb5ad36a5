//! The bounded publish pipeline's draining discipline.
//!
//! Records are handed to the broker's asynchronous send without waiting.
//! After finishing an iteration whose index is a multiple of the batch
//! size, and once more after the final iteration, the pipeline drains: it
//! waits for the in-flight operations and aborts on the first failure. The
//! waiting itself is the caller's plumbing; the decision lives here.

use vstd::prelude::*;

verus! {

/// How many iterations may pass between drains.
pub const INGEST_BATCH_SIZE: i64 = 10000;

/// Whether the pipeline drains after this iteration: its index is a
/// multiple of the batch size, or it is the final iteration of the run
/// `[start, start + repeat)`.
pub open spec fn spec_should_drain(iteration: i64, start_iteration: i64, repeat: i64) -> bool {
    (iteration as int) % (INGEST_BATCH_SIZE as int) == 0 || iteration == start_iteration + repeat
        - 1
}

/// Decides whether to drain after an iteration.
pub fn should_drain(iteration: i64, start_iteration: i64, repeat: i64) -> (r: bool)
    requires
        iteration > i64::MIN,
        1 <= repeat,
        start_iteration + repeat - 1 <= i64::MAX,
    ensures
        r == spec_should_drain(iteration, start_iteration, repeat),
{
    let multiple = if iteration >= 0 {
        iteration % INGEST_BATCH_SIZE == 0
    } else {
        let m = (-iteration) % INGEST_BATCH_SIZE == 0;
        proof {
            lemma_neg_divisible(iteration as int, INGEST_BATCH_SIZE as int);
        }
        m
    };
    multiple || iteration == start_iteration + (repeat - 1)
}

/// Divisibility does not depend on sign: `-i` is a multiple of `b` exactly
/// when `i` is.
proof fn lemma_neg_divisible(i: int, b: int)
    requires
        b > 0,
    ensures
        ((-i) % b == 0) == (i % b == 0),
{
    if (-i) % b == 0 {
        let k = (-i) / b;
        assert(-i == b * k + ((-i) % b)) by {
            vstd::arithmetic::div_mod::lemma_fundamental_div_mod(-i, b);
        }
        assert(i == b * (-k)) by {
            assert(-i == b * k);
            assert(b * (-k) == -(b * k)) by (nonlinear_arith);
        }
        assert(i % b == 0) by {
            vstd::arithmetic::div_mod::lemma_mod_multiples_basic(-k, b);
            assert((-k) * b == b * (-k)) by (nonlinear_arith);
        }
    }
    if i % b == 0 {
        let k = i / b;
        assert(i == b * k + (i % b)) by {
            vstd::arithmetic::div_mod::lemma_fundamental_div_mod(i, b);
        }
        assert(-i == b * (-k)) by {
            assert(i == b * k);
            assert(b * (-k) == -(b * k)) by (nonlinear_arith);
        }
        assert((-i) % b == 0) by {
            vstd::arithmetic::div_mod::lemma_mod_multiples_basic(-k, b);
            assert((-k) * b == b * (-k)) by (nonlinear_arith);
        }
    }
}

/// The per-send timeout: the larger of the run-wide default and one
/// second, both in milliseconds.
pub fn publish_timeout_ms(default_ms: u64) -> (r: u64)
    ensures
        r == if default_ms >= 1000 {
            default_ms
        } else {
            1000u64
        },
{
    if default_ms >= 1000 {
        default_ms
    } else {
        1000
    }
}

/// The pipeline drains after exactly the iterations whose index is a
/// multiple of the batch size, and once more after the final iteration of
/// the run — never after any other iteration.
pub proof fn lemma_drain_schedule(iteration: i64, start_iteration: i64, repeat: i64)
    ensures
        spec_should_drain(iteration, start_iteration, repeat) <==> ((iteration as int) % (
        INGEST_BATCH_SIZE as int) == 0 || iteration == start_iteration + repeat - 1),
{
}

} // verus!
