//! The Korean words the screens show: weekday names and weather conditions.
use vstd::prelude::*;
use vstd::string::StringSliceAdditionalSpecFns;
use vstd::utf8::encode_utf8_decode_utf8;

verus! {

/// Korean name of weekday `w` (0 = Sunday); `?` past Saturday.
pub open spec fn weekday_korean_name(w: u8) -> Seq<char> {
    if w == 0 {
        "일"@
    } else if w == 1 {
        "월"@
    } else if w == 2 {
        "화"@
    } else if w == 3 {
        "수"@
    } else if w == 4 {
        "목"@
    } else if w == 5 {
        "금"@
    } else if w == 6 {
        "토"@
    } else {
        "?"@
    }
}

/// Korean word for a weather condition of the service; a condition without
/// one is shown as it is.
pub open spec fn korean_weather(main: Seq<char>) -> Seq<char> {
    if main == "Clear"@ {
        "맑음"@
    } else if main == "Clouds"@ {
        "흐림"@
    } else if main == "Rain"@ {
        "비"@
    } else if main == "Snow"@ {
        "눈"@
    } else if main == "Mist"@ {
        "박무"@
    } else if main == "Fog"@ {
        "안개"@
    } else if main == "Haze"@ {
        "연무"@
    } else if main == "Drizzle"@ {
        "이슬비"@
    } else if main == "Thunderstorm"@ {
        "뇌우"@
    } else {
        main
    }
}

/// The Korean name of a weekday.
pub fn weekday_korean(w: u8) -> (r: &'static str)
    ensures
        r@ == weekday_korean_name(w),
{
    match w {
        0 => "일",
        1 => "월",
        2 => "화",
        3 => "수",
        4 => "목",
        5 => "금",
        6 => "토",
        _ => "?",
    }
}

/// Two byte strings are equal.
fn bytes_equal(a: &[u8], b: &[u8]) -> (r: bool)
    ensures
        r == (a@ == b@),
{
    if a.len() != b.len() {
        return false;
    }
    let mut i: usize = 0;
    while i < a.len()
        invariant
            a@.len() == b@.len(),
            i <= a@.len(),
            forall|j: int| 0 <= j < i ==> a@[j] == b@[j],
        decreases a@.len() - i,
    {
        if a[i] != b[i] {
            return false;
        }
        i = i + 1;
    }
    assert(a@ =~= b@);
    true
}

/// Two strings hold the same characters.
pub fn same_text(a: &str, b: &str) -> (r: bool)
    ensures
        r == (a@ == b@),
{
    let r = bytes_equal(a.as_bytes(), b.as_bytes());
    proof {
        encode_utf8_decode_utf8(a@);
        encode_utf8_decode_utf8(b@);
    }
    r
}

/// The Korean word for a weather condition, or the condition itself.
pub fn weather_to_korean<'a>(main: &'a str) -> (r: &'a str)
    ensures
        r@ == korean_weather(main@),
{
    if same_text(main, "Clear") {
        "맑음"
    } else if same_text(main, "Clouds") {
        "흐림"
    } else if same_text(main, "Rain") {
        "비"
    } else if same_text(main, "Snow") {
        "눈"
    } else if same_text(main, "Mist") {
        "박무"
    } else if same_text(main, "Fog") {
        "안개"
    } else if same_text(main, "Haze") {
        "연무"
    } else if same_text(main, "Drizzle") {
        "이슬비"
    } else if same_text(main, "Thunderstorm") {
        "뇌우"
    } else {
        main
    }
}

} // verus!
