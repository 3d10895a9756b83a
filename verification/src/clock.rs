//! The one ambient input the engine depends on: the current local date,
//! snapshot once per top-level extraction call so that extraction itself
//! stays a pure function of its inputs.

use vstd::prelude::*;
use crate::date::Date;

verus! {

/// Relies on chrono: `Local::now().date_naive()` and the `Datelike`
/// accessors. The result depends on the wall clock and the machine's time
/// zone, so nothing is promised of it; the caller validates it.
#[verifier::external_body]
fn local_ymd() -> (r: (i64, u32, u32)) {
    let now = chrono::Local::now().date_naive();
    (
        chrono::Datelike::year(&now) as i64,
        chrono::Datelike::month(&now),
        chrono::Datelike::day(&now),
    )
}

/// The current local date. `None` only where the clock answers a date
/// outside the library's year range or an invalid one, which a sane clock
/// never does; a caller treats that as a fatal environment error.
pub fn today() -> (r: Option<Date>)
    ensures
        r matches Some(d) ==> d.well_formed(),
{
    let (y, m, d) = local_ymd();
    if 0 <= y && y <= 9999 {
        Date::new(y as u32, m, d)
    } else {
        None
    }
}

} // verus!
