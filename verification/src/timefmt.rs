use vstd::prelude::*;
use vstd::string::StringExecFns;
use crate::numtext::dec_seq;
use crate::numtext::u64_to_string;

verus! {

/// The human-relative label for a commit time, given the current time:
/// whole days ago ("yesterday" for exactly one), else whole hours, else
/// whole minutes. A commit timestamped after "now" counts negative minutes,
/// rendered with a leading minus sign. Durations truncate toward zero.
pub open spec fn rel_time_spec(commit_secs: int, now_secs: int) -> Seq<char> {
    if now_secs >= commit_secs {
        let diff = (now_secs - commit_secs) as nat;
        let days = diff / 86400;
        if days > 1 {
            dec_seq(days) + " days ago"@
        } else if days == 1 {
            "yesterday"@
        } else if diff / 3600 > 0 {
            dec_seq(diff / 3600) + " hours ago"@
        } else {
            dec_seq(diff / 60) + " minutes ago"@
        }
    } else {
        let back = (commit_secs - now_secs) as nat;
        if back / 60 == 0 {
            dec_seq(0) + " minutes ago"@
        } else {
            seq!['-'] + dec_seq(back / 60) + " minutes ago"@
        }
    }
}

/// Renders a commit's timestamp relative to the given current time.
pub fn format_timestamp(commit_secs: i64, now_secs: i64) -> (s: String)
    ensures
        s@ == rel_time_spec(commit_secs as int, now_secs as int),
{
    if now_secs >= commit_secs {
        let wide: i128 = (now_secs as i128) - (commit_secs as i128);
        let diff: u64 = wide as u64;
        assert(diff == now_secs - commit_secs);
        let days = diff / 86400;
        if days > 1 {
            u64_to_string(days).concat(" days ago")
        } else if days == 1 {
            "yesterday".to_owned()
        } else {
            let hours = diff / 3600;
            if hours > 0 {
                u64_to_string(hours).concat(" hours ago")
            } else {
                u64_to_string(diff / 60).concat(" minutes ago")
            }
        }
    } else {
        let wide: i128 = (commit_secs as i128) - (now_secs as i128);
        let back: u64 = wide as u64;
        assert(back == commit_secs - now_secs);
        let mins = back / 60;
        if mins == 0 {
            u64_to_string(0).concat(" minutes ago")
        } else {
            let mut s = "-".to_owned();
            s.append(u64_to_string(mins).as_str());
            s.append(" minutes ago");
            proof {
                reveal_strlit("-");
            }
            assert(s@ =~= rel_time_spec(commit_secs as int, now_secs as int));
            s
        }
    }
}

} // verus!
