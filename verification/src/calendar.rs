//! The calendar context: the four sexagenary pillars of a civil moment,
//! computed by the `lunar_rust` crate, and the month and day branches
//! extracted from them for the relation engine.

use vstd::prelude::*;

verus! {

use lunar_rust::lunar::LunarRefHelper;
use lunar_rust::solar::SolarRefHelper;

use crate::elements::DiZhi;
use crate::elements::spec_dizhi_of_char;
use crate::elements::dizhi_from_char;

/// The year pillar (heavenly stem and earthly branch) of a civil moment.
pub uninterp spec fn spec_year_pillar(
    year: int,
    month: int,
    day: int,
    hour: int,
    minute: int,
    second: int,
) -> Seq<char>;

/// The month pillar (heavenly stem and earthly branch) of a civil moment.
pub uninterp spec fn spec_month_pillar(
    year: int,
    month: int,
    day: int,
    hour: int,
    minute: int,
    second: int,
) -> Seq<char>;

/// The day pillar (heavenly stem and earthly branch) of a civil moment.
pub uninterp spec fn spec_day_pillar(
    year: int,
    month: int,
    day: int,
    hour: int,
    minute: int,
    second: int,
) -> Seq<char>;

/// The hour branch (earthly branch alone) of a civil moment.
pub uninterp spec fn spec_hour_branch(
    year: int,
    month: int,
    day: int,
    hour: int,
    minute: int,
    second: int,
) -> Seq<char>;

/// Whether `c` is one of the twelve branch characters.
pub open spec fn spec_zhi_char(c: char) -> bool {
    ||| c == '子'
    ||| c == '丑'
    ||| c == '寅'
    ||| c == '卯'
    ||| c == '辰'
    ||| c == '巳'
    ||| c == '午'
    ||| c == '未'
    ||| c == '申'
    ||| c == '酉'
    ||| c == '戌'
    ||| c == '亥'
}

/// Every branch character decodes to a branch.
proof fn lemma_zhi_char_decodes(c: char)
    requires
        spec_zhi_char(c),
    ensures
        spec_dizhi_of_char(c) is Some,
{
}

/// Relies on `lunar_rust`: `solar::from_ymdhms` builds a solar date from
/// the civil fields alone, `get_lunar` converts it, and the pillar getters
/// `get_year_in_gan_zhi`, `get_month_in_gan_zhi`, `get_day_in_gan_zhi` and
/// `get_time_zhi` return, deterministically from the date, one stem
/// character followed by one branch character for each pillar, and the bare
/// branch character for the hour.
#[verifier::external_body]
fn ganzhi_pillars(year: i64, month: i64, day: i64, hour: i64, minute: i64, second: i64) -> (r: (
    String,
    String,
    String,
    String,
))
    requires
        1901 <= year <= 2099,
        1 <= month <= 12,
        1 <= day <= 31,
        0 <= hour <= 23,
        0 <= minute <= 59,
        0 <= second <= 59,
    ensures
        r.0@ == spec_year_pillar(year as int, month as int, day as int, hour as int, minute as int, second as int),
        r.1@ == spec_month_pillar(year as int, month as int, day as int, hour as int, minute as int, second as int),
        r.2@ == spec_day_pillar(year as int, month as int, day as int, hour as int, minute as int, second as int),
        r.3@ == spec_hour_branch(year as int, month as int, day as int, hour as int, minute as int, second as int),
        r.0@.len() == 2,
        r.1@.len() == 2 && spec_zhi_char(r.1@[1]),
        r.2@.len() == 2 && spec_zhi_char(r.2@[1]),
        r.3@.len() == 1 && spec_zhi_char(r.3@[0]),
{
    let lunar = SolarRefHelper::get_lunar(
        &lunar_rust::solar::from_ymdhms(year, month, day, hour, minute, second),
    );
    (
        LunarRefHelper::get_year_in_gan_zhi(&lunar),
        LunarRefHelper::get_month_in_gan_zhi(&lunar),
        LunarRefHelper::get_day_in_gan_zhi(&lunar),
        LunarRefHelper::get_time_zhi(&lunar),
    )
}

/// The branch of a two-character pillar: its second character, decoded.
/// Any other shape yields no branch, and the relations that would have used
/// it are simply omitted downstream.
pub open spec fn spec_branch_of_pillar(s: Seq<char>) -> Option<DiZhi> {
    if s.len() == 2 {
        spec_dizhi_of_char(s[1])
    } else {
        None
    }
}

/// Extract the branch of a pillar, degrading to `None` on any unexpected
/// shape.
pub fn branch_of_pillar(s: &str) -> (r: Option<DiZhi>)
    ensures
        r == spec_branch_of_pillar(s@),
{
    if s.unicode_len() == 2 {
        dizhi_from_char(s.get_char(1))
    } else {
        None
    }
}

/// The calendar context handed to the engine: the four pillar strings for
/// display, and the month and day branches for the relation engine.
pub struct GanZhiContext {
    /// The year pillar, stem and branch.
    pub year_ganzhi: String,
    /// The month pillar, stem and branch.
    pub month_ganzhi: String,
    /// The day pillar, stem and branch.
    pub day_ganzhi: String,
    /// The hour branch.
    pub hour_zhi: String,
    /// The branch of the month pillar.
    pub month_dizhi: Option<DiZhi>,
    /// The branch of the day pillar.
    pub day_dizhi: Option<DiZhi>,
}

/// Compute the calendar context of a civil moment: the four pillars, and
/// the month and day branches extracted from their pillars. For every
/// moment in range the two branches are present.
pub fn ganzhi_context(year: i64, month: i64, day: i64, hour: i64, minute: i64, second: i64) -> (c:
    GanZhiContext)
    requires
        1901 <= year <= 2099,
        1 <= month <= 12,
        1 <= day <= 31,
        0 <= hour <= 23,
        0 <= minute <= 59,
        0 <= second <= 59,
    ensures
        c.year_ganzhi@ == spec_year_pillar(year as int, month as int, day as int, hour as int, minute as int, second as int),
        c.month_ganzhi@ == spec_month_pillar(year as int, month as int, day as int, hour as int, minute as int, second as int),
        c.day_ganzhi@ == spec_day_pillar(year as int, month as int, day as int, hour as int, minute as int, second as int),
        c.hour_zhi@ == spec_hour_branch(year as int, month as int, day as int, hour as int, minute as int, second as int),
        c.month_dizhi == spec_branch_of_pillar(c.month_ganzhi@),
        c.day_dizhi == spec_branch_of_pillar(c.day_ganzhi@),
        c.month_dizhi is Some,
        c.day_dizhi is Some,
{
    let (year_ganzhi, month_ganzhi, day_ganzhi, hour_zhi) = ganzhi_pillars(
        year,
        month,
        day,
        hour,
        minute,
        second,
    );
    let month_dizhi = branch_of_pillar(month_ganzhi.as_str());
    let day_dizhi = branch_of_pillar(day_ganzhi.as_str());
    proof {
        lemma_zhi_char_decodes(month_ganzhi@[1]);
        lemma_zhi_char_decodes(day_ganzhi@[1]);
    }
    GanZhiContext { year_ganzhi, month_ganzhi, day_ganzhi, hour_zhi, month_dizhi, day_dizhi }
}

} // verus!
