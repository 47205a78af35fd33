//! How long ago something happened, in words.

use crate::text::decimal;
use crate::text::push_decimal;
use crate::text::push_signed_decimal;
use crate::text::signed_decimal;
use vstd::prelude::*;
use vstd::string::*;

verus! {

/// `a` divided by `b`, rounded towards zero.
pub open spec fn whole_units(a: int, b: int) -> int
    recommends
        b > 0,
{
    if a >= 0 {
        a / b
    } else {
        -((-a) / b)
    }
}

/// How many whole units of `unit` seconds there are in `seconds`, counted
/// towards zero.
fn units(seconds: i64, unit: u64) -> (count: i64)
    requires
        unit > 0,
    ensures
        count == whole_units(seconds as int, unit as int),
{
    if seconds >= 0 {
        ((seconds as u64) / unit) as i64
    } else {
        let magnitude: u64 = if seconds == i64::MIN {
            9223372036854775808u64
        } else {
            (-seconds) as u64
        };
        let count = magnitude / unit;
        if count == 9223372036854775808u64 {
            i64::MIN
        } else {
            -(count as i64)
        }
    }
}

/// How long ago a time lies that lies `seconds` seconds back, in words.
///
/// Within the first day the answer is in hours, and within the first hour in
/// minutes. After that it is in days up to 6, weeks up to 27 days, months of
/// 30 days up to 364 days, and years of 365 days. A time that lies ahead is
/// told in minutes, hours or years with a minus sign.
pub open spec fn time_ago_text(seconds: int) -> Seq<char> {
    let days = whole_units(seconds, 86400);
    if days == 0 {
        let hours = whole_units(seconds, 3600);
        if hours == 0 {
            signed_decimal(whole_units(seconds, 60)) + " minutes ago"@
        } else {
            signed_decimal(hours) + " hours ago"@
        }
    } else if 1 <= days <= 6 {
        signed_decimal(days) + " days ago"@
    } else if 7 <= days <= 13 {
        "1 week ago"@
    } else if 14 <= days <= 27 {
        signed_decimal(days / 7) + " weeks ago"@
    } else if 28 <= days <= 45 {
        "1 month ago"@
    } else if 46 <= days <= 364 {
        signed_decimal(days / 30) + " months ago"@
    } else {
        signed_decimal(whole_units(days, 365)) + " years ago"@
    }
}

/// How long ago a time lies that lies `seconds` seconds back, in words.
pub fn relative_time_ago(seconds: i64) -> (text: String)
    ensures
        text@ == time_ago_text(seconds as int),
{
    let days = units(seconds, 86400);
    let mut text = String::new();
    if days == 0 {
        let hours = units(seconds, 3600);
        if hours == 0 {
            push_signed_decimal(&mut text, units(seconds, 60));
            text.append(" minutes ago");
        } else {
            push_signed_decimal(&mut text, hours);
            text.append(" hours ago");
        }
    } else if 1 <= days && days <= 6 {
        push_signed_decimal(&mut text, days);
        text.append(" days ago");
    } else if 7 <= days && days <= 13 {
        text.append("1 week ago");
    } else if 14 <= days && days <= 27 {
        push_signed_decimal(&mut text, days / 7);
        text.append(" weeks ago");
    } else if 28 <= days && days <= 45 {
        text.append("1 month ago");
    } else if 46 <= days && days <= 364 {
        push_signed_decimal(&mut text, days / 30);
        text.append(" months ago");
    } else {
        push_signed_decimal(&mut text, units(days, 365));
        text.append(" years ago");
    }
    assert(text@ =~= time_ago_text(seconds as int));
    text
}

/// A position in a video, as the player shows it: the minutes, a colon, and
/// the seconds in two digits.
pub open spec fn timestamp_text(seconds: nat) -> Seq<char> {
    decimal(seconds / 60) + ":"@ + (if seconds % 60 < 10 {
        "0"@
    } else {
        Seq::empty()
    }) + decimal(seconds % 60)
}

/// A position in a video, `seconds` seconds from its start, as the player
/// shows it.
pub fn timestamp(seconds: usize) -> (text: String)
    ensures
        text@ == timestamp_text(seconds as nat),
{
    let mut text = String::new();
    push_decimal(&mut text, (seconds / 60) as u64);
    text.append(":");
    if seconds % 60 < 10 {
        text.append("0");
    }
    push_decimal(&mut text, (seconds % 60) as u64);
    assert(text@ =~= timestamp_text(seconds as nat));
    text
}

} // verus!
