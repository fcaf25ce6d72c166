use vstd::prelude::*;
use vstd::string::StringExecFns;

use crate::decimal::{spec_dec_digits, u32_to_dec};

verus! {

/// The shortest session length, in whole seconds, for which a summary is
/// shown at all; shorter sessions end silently.
pub const MIN_SUMMARY_SECONDS: u32 = 5;

/// The hours part of a duration phrase: the hour count in decimal, then
/// `" hour"`, pluralized when the count is above one.
pub open spec fn spec_hours_segment(hours: nat) -> Seq<char> {
    if hours > 1 {
        spec_dec_digits(hours) + " hours"@
    } else {
        spec_dec_digits(hours) + " hour"@
    }
}

/// The minutes part of a duration phrase: the minute count in decimal, then
/// `" minute"`, pluralized when the count is above one.
pub open spec fn spec_minutes_segment(minutes: nat) -> Seq<char> {
    if minutes > 1 {
        spec_dec_digits(minutes) + " minutes"@
    } else {
        spec_dec_digits(minutes) + " minute"@
    }
}

/// The full duration phrase for a whole-seconds count: hours and minutes
/// segments joined by a single space, either one omitted when its count is
/// zero, and the fallback phrase when both are zero. Seconds within the
/// minute are discarded, never rendered.
pub open spec fn spec_duration_msg(total_seconds: nat) -> Seq<char> {
    let hours = total_seconds / 3600;
    let minutes = (total_seconds % 3600) / 60;
    if hours == 0 && minutes == 0 {
        "few seconds"@
    } else if hours == 0 {
        spec_minutes_segment(minutes)
    } else if minutes == 0 {
        spec_hours_segment(hours)
    } else {
        spec_hours_segment(hours) + " "@ + spec_minutes_segment(minutes)
    }
}

/// Every session shorter than one minute gets the same fallback phrase:
/// for all whole-seconds counts below sixty, the duration phrase is
/// `"few seconds"`.
pub proof fn lemma_sub_minute_is_few_seconds(total_seconds: nat)
    requires
        total_seconds < 60,
    ensures
        spec_duration_msg(total_seconds) == "few seconds"@,
{
    assert(total_seconds / 3600 == 0);
    assert(total_seconds % 3600 == total_seconds);
    assert(total_seconds / 60 == 0);
}

/// Pluralization: a count of exactly one keeps the singular noun, a count
/// above one takes the plural noun, and a segment whose count is zero is
/// omitted from the phrase entirely.
pub proof fn lemma_pluralization(count: nat, total_seconds: nat)
    ensures
        spec_hours_segment(1) == "1 hour"@,
        spec_minutes_segment(1) == "1 minute"@,
        count > 1 ==> spec_hours_segment(count) == spec_dec_digits(count) + " hours"@,
        count > 1 ==> spec_minutes_segment(count) == spec_dec_digits(count) + " minutes"@,
        total_seconds / 3600 == 0 && (total_seconds % 3600) / 60 > 0
            ==> spec_duration_msg(total_seconds)
                == spec_minutes_segment((total_seconds % 3600) / 60),
        total_seconds / 3600 > 0 && (total_seconds % 3600) / 60 == 0
            ==> spec_duration_msg(total_seconds) == spec_hours_segment(total_seconds / 3600),
        total_seconds / 3600 == 0 && (total_seconds % 3600) / 60 == 0
            ==> spec_duration_msg(total_seconds) == "few seconds"@,
{
    reveal_strlit("1");
    reveal_strlit(" hour");
    reveal_strlit("1 hour");
    reveal_strlit(" minute");
    reveal_strlit("1 minute");
    assert(spec_dec_digits(1) =~= "1"@);
    assert(spec_dec_digits(1) + " hour"@ =~= "1 hour"@);
    assert(spec_dec_digits(1) + " minute"@ =~= "1 minute"@);
}

/// The formatter is deterministic: any two phrases produced for the same
/// whole-seconds count are identical.
pub proof fn lemma_format_deterministic(total_seconds: nat, first: Seq<char>, second: Seq<char>)
    requires
        first == spec_duration_msg(total_seconds),
        second == spec_duration_msg(total_seconds),
    ensures
        first == second,
{
}

/// Renders elapsed time as a human-readable phrase.
pub struct FocusDisplay;

impl FocusDisplay {
    /// Builds the duration phrase for an elapsed whole-seconds count.
    pub fn convert_time_to_msg(total_seconds: u32) -> (msg: String)
        ensures
            msg@ == spec_duration_msg(total_seconds as nat),
    {
        let mut time_message = String::new();

        let hours: u32 = total_seconds / 3600;
        let minutes: u32 = (total_seconds % 3600) / 60;

        if hours > 0 {
            let h = u32_to_dec(hours);
            time_message.append(h.as_str());
            time_message.append(" hour");
            if hours > 1 {
                time_message.append("s");
            }
        }

        if minutes > 0 {
            if hours > 0 {
                time_message.append(" ");
            }
            let m = u32_to_dec(minutes);
            time_message.append(m.as_str());
            time_message.append(" minute");
            if minutes > 1 {
                time_message.append("s");
            }
        }

        if hours == 0 && minutes == 0 {
            time_message.append("few seconds");
        }

        proof {
            reveal_strlit(" hour");
            reveal_strlit(" hours");
            reveal_strlit(" minute");
            reveal_strlit(" minutes");
            reveal_strlit(" ");
            reveal_strlit("s");
            if hours > 1 {
                assert(" hour"@ + "s"@ =~= " hours"@);
            }
            if minutes > 1 {
                assert(" minute"@ + "s"@ =~= " minutes"@);
            }
            assert(time_message@ =~= spec_duration_msg(total_seconds as nat));
        }
        time_message
    }

    /// The session summary, if one is owed: `None` for a session shorter than
    /// the minimum, otherwise the duration phrase for the elapsed seconds.
    pub fn session_summary(total_seconds: u32) -> (summary: Option<String>)
        ensures
            total_seconds < MIN_SUMMARY_SECONDS ==> summary is None,
            total_seconds >= MIN_SUMMARY_SECONDS ==> (summary matches Some(msg)
                && msg@ == spec_duration_msg(total_seconds as nat)),
    {
        if total_seconds >= MIN_SUMMARY_SECONDS {
            Some(Self::convert_time_to_msg(total_seconds))
        } else {
            None
        }
    }
}

} // verus!
