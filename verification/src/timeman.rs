use vstd::prelude::*;

verus! {

/// Milliseconds shaved off the clock to cover I/O and scheduling delays.
pub const TIME_OVERHEAD: u64 = 50;

/// `5 * opt`, saturating at the top of the range.
pub open spec fn spec_five_times(opt: u64) -> u64 {
    if opt > u64::MAX / 5 {
        u64::MAX
    } else {
        (5 * opt) as u64
    }
}

/// Converts the clock, an optional increment and an optional moves-to-go
/// count into an optimal and a maximum budget for one move, both in
/// milliseconds. The overhead is deducted first, bottoming out at zero.
pub fn time_for_move(time: u64, increment: Option<u64>, moves_to_go: Option<u8>) -> (r: (
    u64,
    u64,
))
    ensures
        ({
            let t = if time >= TIME_OVERHEAD {
                (time - TIME_OVERHEAD) as u64
            } else {
                0u64
            };
            match moves_to_go {
                Some(mtg) => r.0 == t as int / (if mtg == 0 {
                    1int
                } else {
                    mtg as int
                }) && r.1 == r.0,
                None => match increment {
                    Some(inc) => r.0 == t / 20 + inc / 2 && r.1 == (if t / 2
                        < spec_five_times((t / 20 + inc / 2) as u64) {
                        t / 2
                    } else {
                        spec_five_times((t / 20 + inc / 2) as u64)
                    }),
                    None => r.0 == t / 20 && r.1 == r.0,
                },
            }
        }),
{
    let t: u64 = if time >= TIME_OVERHEAD {
        time - TIME_OVERHEAD
    } else {
        0
    };
    if let Some(mtg) = moves_to_go {
        let divisor: u64 = if mtg == 0 {
            1
        } else {
            mtg as u64
        };
        let opt: u64 = t / divisor;
        (opt, opt)
    } else if let Some(inc) = increment {
        let opt: u64 = t / 20 + inc / 2;
        let five: u64 = if opt > u64::MAX / 5 {
            u64::MAX
        } else {
            5 * opt
        };
        let max: u64 = if t / 2 < five {
            t / 2
        } else {
            five
        };
        (opt, max)
    } else {
        let opt: u64 = t / 20;
        (opt, opt)
    }
}

} // verus!
