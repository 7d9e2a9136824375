use vstd::prelude::*;

verus! {

/// The icon shown for a WMO weather code, as the dashboard draws it.
/// Codes without an icon of their own get a question mark.
pub open spec fn weather_emoji(code: u32) -> Seq<char> {
    if code == 0 {
        "☀️"@
    } else if code == 1 {
        "🌤️"@
    } else if code == 2 {
        "⛅"@
    } else if code == 3 {
        "☁️"@
    } else if code == 45 || code == 48 {
        "🌫️"@
    } else if code == 51 || code == 53 || code == 55 {
        "🌧️"@
    } else if code == 56 || code == 57 {
        "🌨️"@
    } else if code == 61 || code == 63 || code == 65 {
        "🌧️"@
    } else if code == 66 || code == 67 {
        "🌨️"@
    } else if code == 71 || code == 73 || code == 75 {
        "❄️"@
    } else if code == 77 {
        "🌨️"@
    } else if 80 <= code < 82 {
        "🌦️"@
    } else if code == 85 || code == 86 {
        "🌨️"@
    } else if code == 95 {
        "⛈️"@
    } else if code == 96 || code == 99 {
        "⛈️"@
    } else {
        "❓"@
    }
}

/// The icon for a WMO weather code.
pub fn get_weather_emoji(code: u32) -> (icon: &'static str)
    ensures
        icon@ == weather_emoji(code),
{
    match code {
        0 => "☀️",
        1 => "🌤️",
        2 => "⛅",
        3 => "☁️",
        45 | 48 => "🌫️",
        51 | 53 | 55 => "🌧️",
        56 | 57 => "🌨️",
        61 | 63 | 65 => "🌧️",
        66 | 67 => "🌨️",
        71 | 73 | 75 => "❄️",
        77 => "🌨️",
        80 | 81 => "🌦️",
        85 | 86 => "🌨️",
        95 => "⛈️",
        96 | 99 => "⛈️",
        _ => "❓",
    }
}

/// The clock part of a timestamp such as `2024-05-01T06:00`: everything
/// after the last `T`, or the whole text when it holds no `T`.
pub fn clock_part(stamp: &str) -> (clock: &str)
    ensures
        clock@.is_suffix_of(stamp@),
        !clock@.contains('T'),
        clock@.len() < stamp@.len() ==> stamp@[stamp@.len() - clock@.len() - 1] == 'T',
{
    let n = stamp.unicode_len();
    let mut start: usize = n;
    while start > 0 && stamp.get_char(start - 1) != 'T'
        invariant
            n == stamp@.len(),
            start <= n,
            forall|k: int| start <= k < n ==> stamp@[k] != 'T',
        decreases start,
    {
        start -= 1;
    }
    let clock = stamp.substring_char(start, n);
    proof {
        assert(clock@ =~= stamp@.subrange(start as int, n as int));
        assert(stamp@.subrange(stamp@.len() - clock@.len(), stamp@.len() as int) =~= clock@);
        if clock@.contains('T') {
            let k = choose|k: int| 0 <= k < clock@.len() && clock@[k] == 'T';
            assert(stamp@[start + k] == 'T');
        }
    }
    clock
}

} // verus!
