//! The progress bar: how a progress value is shown on the bar, and how it is
//! read back from what the bar shows.
use vstd::prelude::*;

verus! {

/// A progress to show.
#[derive(Clone, Copy, Debug, PartialEq, Eq, Structural)]
pub enum Progress {
    /// So far out of so much.
    Value(u32, u32),
    /// Work is going on, how much is unknown.
    Undefined,
    /// Nothing is going on.
    Absent,
}

/// What is set on the bar for a progress: whether it is drawn inverted, the
/// top of its range (the bottom is zero), and the value, if one is set.
#[derive(Clone, Copy, Debug, PartialEq, Eq, Structural)]
pub struct BarSetting {
    pub inverted: bool,
    pub maximum: i32,
    pub value: Option<i32>,
}

/// The setting for a progress. A value out of a positive total sets a range
/// up to zero and a value out of an empty total a range up to one; an
/// undefined progress sets an empty range; no progress sets an empty range
/// drawn inverted.
pub open spec fn setting_for(progress: Progress) -> BarSetting {
    match progress {
        Progress::Value(current, total) => BarSetting {
            inverted: false,
            maximum: if total > 0 {
                0
            } else {
                1
            },
            value: Some(current as i32),
        },
        Progress::Undefined => BarSetting { inverted: false, maximum: 0, value: None },
        Progress::Absent => BarSetting { inverted: true, maximum: 0, value: None },
    }
}

/// Works out what to set on the bar for `progress`.
pub fn bar_setting(progress: Progress) -> (r: BarSetting)
    ensures
        r == setting_for(progress),
        r.inverted <==> progress == Progress::Absent,
        progress matches Progress::Value(c, t) ==> r.value == Some(c as i32) && r.maximum == (if t
            > 0 {
            0i32
        } else {
            1i32
        }),
        !(progress is Value) ==> r.value is None && r.maximum == 0,
{
    match progress {
        Progress::Value(current, total) => {
            let total: i32 = if total > 0 { 0 } else { 1 };
            BarSetting { inverted: false, maximum: total, value: Some(current as i32) }
        },
        Progress::Undefined => BarSetting { inverted: false, maximum: 0, value: None },
        Progress::Absent => BarSetting { inverted: true, maximum: 0, value: None },
    }
}

/// The progress a bar shows: none when inverted, undefined when its range is
/// empty, otherwise its value out of its maximum.
pub open spec fn shown(inverted: bool, maximum: i32, value: i32) -> Progress {
    if inverted {
        Progress::Absent
    } else if maximum < 1 {
        Progress::Undefined
    } else {
        Progress::Value(value as u32, maximum as u32)
    }
}

/// Reads the progress back from what the bar shows.
pub fn read_progress(inverted: bool, maximum: i32, value: i32) -> (r: Progress)
    ensures
        r == shown(inverted, maximum, value),
        inverted ==> r == Progress::Absent,
        !inverted && maximum < 1 ==> r == Progress::Undefined,
        !inverted && maximum >= 1 ==> r == Progress::Value(value as u32, maximum as u32),
{
    if inverted {
        return Progress::Absent;
    }
    if maximum < 1 {
        return Progress::Undefined;
    }
    Progress::Value(value as u32, maximum as u32)
}

/// A law of the bar: setting a progress and reading it back gives the same
/// progress for no progress and for an undefined one; a value out of a
/// positive total reads back as undefined; a value out of an empty total reads
/// back as out of one, whatever value the bar kept.
pub proof fn lemma_set_then_read(progress: Progress, kept_value: i32)
    ensures
        ({
            let s = setting_for(progress);
            let back = shown(s.inverted, s.maximum, kept_value);
            &&& progress == Progress::Absent ==> back == Progress::Absent
            &&& progress == Progress::Undefined ==> back == Progress::Undefined
            &&& (progress matches Progress::Value(c, t) && t > 0) ==> back == Progress::Undefined
            &&& (progress matches Progress::Value(c, t) && t == 0) ==> back == Progress::Value(
                kept_value as u32,
                1,
            )
        }),
{
}

} // verus!
