//! The weather snapshot cache: a single text buffer holding the most recent
//! weather summary or error message, rewritten from each frame's poll result.

use vstd::prelude::*;
use crate::text::{dec_rep, append_u64};

verus! {

/// One sample of the weather source, as the session loop hands it in:
/// nothing new this frame, a current reading, or a fetch failure.
pub enum PollResult {
    Unavailable,
    Success { name: String, condition: String, cloud_percent: u64 },
    Failure { description: String },
}

/// The summary sentence shown for a successful reading.
pub open spec fn success_text(name: Seq<char>, condition: Seq<char>, cloud_percent: nat) -> Seq<char> {
    "Today's weather in "@ + name + " is "@ + condition + " and clouds are at "@
        + dec_rep(cloud_percent) + " percent"@
}

/// The sentence shown when the fetch failed.
pub open spec fn failure_text(description: Seq<char>) -> Seq<char> {
    "Could not fetch weather because: "@ + description
}

/// What the snapshot buffer holds after one poll result is fed in: an
/// `Unavailable` poll keeps the prior text (stale data is acceptable), the
/// other results fully rewrite it.
pub open spec fn refreshed(prior: Seq<char>, r: PollResult) -> Seq<char> {
    match r {
        PollResult::Unavailable => prior,
        PollResult::Success { name, condition, cloud_percent } => success_text(
            name@,
            condition@,
            cloud_percent as nat,
        ),
        PollResult::Failure { description } => failure_text(description@),
    }
}

/// Merges one poll result into the snapshot buffer. Must run once per frame,
/// before the frame composer reads the buffer.
pub fn refresh(buf: &mut String, r: &PollResult)
    ensures
        final(buf)@ == refreshed(old(buf)@, *r),
{
    match r {
        PollResult::Unavailable => {},
        PollResult::Success { name, condition, cloud_percent } => {
            *buf = String::new();
            buf.append("Today's weather in ");
            buf.append(name.as_str());
            buf.append(" is ");
            buf.append(condition.as_str());
            buf.append(" and clouds are at ");
            append_u64(buf, *cloud_percent);
            buf.append(" percent");
            proof {
                assert(buf@ =~= refreshed(old(buf)@, *r));
            }
        },
        PollResult::Failure { description } => {
            *buf = String::new();
            buf.append("Could not fetch weather because: ");
            buf.append(description.as_str());
            proof {
                assert(buf@ =~= refreshed(old(buf)@, *r));
            }
        },
    }
}

} // verus!
