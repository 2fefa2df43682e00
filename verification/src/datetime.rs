//! Wording of elapsed time.

use vstd::prelude::*;
use vstd::string::StringExecFns;

verus! {

/// The character of a decimal digit.
pub open spec fn digit_char(d: int) -> char {
    if d == 0 {
        '0'
    } else if d == 1 {
        '1'
    } else if d == 2 {
        '2'
    } else if d == 3 {
        '3'
    } else if d == 4 {
        '4'
    } else if d == 5 {
        '5'
    } else if d == 6 {
        '6'
    } else if d == 7 {
        '7'
    } else if d == 8 {
        '8'
    } else {
        '9'
    }
}

/// The decimal notation of `n`, without leading zeros.
pub open spec fn decimal(n: nat) -> Seq<char>
    decreases n,
{
    if n < 10 {
        seq![digit_char(n as int)]
    } else {
        decimal(n / 10).push(digit_char((n % 10) as int))
    }
}

/// How an age of `seconds` is worded: "just now" below a minute, then in
/// whole minutes below an hour, whole hours below a day, whole days below
/// thirty days, months of thirty days below twelve of them, and years of
/// twelve such months from there on.
pub open spec fn duration_text(seconds: int) -> Seq<char> {
    let minutes = seconds / 60;
    let hours = minutes / 60;
    let days = hours / 24;
    let months = days / 30;
    let years = months / 12;
    if seconds < 60 {
        "刚刚"@
    } else if minutes < 60 {
        decimal(minutes as nat) + "分钟前"@
    } else if hours < 24 {
        decimal(hours as nat) + "小时前"@
    } else if days < 30 {
        decimal(days as nat) + "天前"@
    } else if months < 12 {
        decimal(months as nat) + "个月前"@
    } else {
        decimal(years as nat) + "年前"@
    }
}

/// How the distance to a point in time is worded, where `elapsed` is the
/// number of seconds from that point until now: "invalid" where there is no
/// such point, "future" where it lies ahead, else its age.
pub open spec fn relative_text(elapsed: Option<int>) -> Seq<char> {
    match elapsed {
        None => "无效时间"@,
        Some(seconds) => if seconds < 0 {
            "未来"@
        } else {
            duration_text(seconds)
        },
    }
}

fn digit_str(d: u64) -> (r: &'static str)
    requires
        d < 10,
    ensures
        r@ == seq![digit_char(d as int)],
{
    proof {
        reveal_strlit("0");
        reveal_strlit("1");
        reveal_strlit("2");
        reveal_strlit("3");
        reveal_strlit("4");
        reveal_strlit("5");
        reveal_strlit("6");
        reveal_strlit("7");
        reveal_strlit("8");
        reveal_strlit("9");
    }
    if d == 0 {
        "0"
    } else if d == 1 {
        "1"
    } else if d == 2 {
        "2"
    } else if d == 3 {
        "3"
    } else if d == 4 {
        "4"
    } else if d == 5 {
        "5"
    } else if d == 6 {
        "6"
    } else if d == 7 {
        "7"
    } else if d == 8 {
        "8"
    } else {
        "9"
    }
}

/// The decimal notation of `n`.
pub fn decimal_string(n: u64) -> (r: String)
    ensures
        r@ == decimal(n as nat),
    decreases n,
{
    if n < 10 {
        String::from_str(digit_str(n))
    } else {
        let mut r = decimal_string(n / 10);
        r.append(digit_str(n % 10));
        r
    }
}

fn counted(n: i64, unit: &str) -> (r: String)
    requires
        n >= 0,
    ensures
        r@ == decimal(n as nat) + unit@,
{
    let mut r = decimal_string(n as u64);
    r.append(unit);
    r
}

/// Words an age of `seconds`.
pub fn format_duration_chinese(seconds: i64) -> (r: String)
    ensures
        r@ == duration_text(seconds as int),
{
    if seconds < 60 {
        return String::from_str("刚刚");
    }
    let minutes = seconds / 60;
    if minutes < 60 {
        return counted(minutes, "分钟前");
    }
    let hours = minutes / 60;
    if hours < 24 {
        return counted(hours, "小时前");
    }
    let days = hours / 24;
    if days < 30 {
        return counted(days, "天前");
    }
    let months = days / 30;
    if months < 12 {
        return counted(months, "个月前");
    }
    let years = months / 12;
    counted(years, "年前")
}

/// Words the distance to a point in time, where `elapsed_seconds` is the
/// number of whole seconds from that point until now, and `None` where the
/// timestamp names no point in time.
pub fn format_relative(elapsed_seconds: Option<i64>) -> (r: String)
    ensures
        r@ == relative_text(
            match elapsed_seconds {
                Some(seconds) => Some(seconds as int),
                None => None,
            },
        ),
{
    match elapsed_seconds {
        None => String::from_str("无效时间"),
        Some(seconds) => {
            if seconds < 0 {
                String::from_str("未来")
            } else {
                format_duration_chinese(seconds)
            }
        },
    }
}

} // verus!
