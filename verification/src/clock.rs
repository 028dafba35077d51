//! The wall clock, and how an instant is written.

use vstd::prelude::*;
use vstd::string::StringExecFns;
use crate::text::option_text;

verus! {

/// The stamp of the Unix epoch. It also stands for an instant that cannot
/// be read or written: a clock before 1970, or one beyond the calendar.
pub const EPOCH_STAMP: &'static str = "1970-01-01T00:00:00.000Z";

/// Whether `text` has the outline of a stamp: at least the twenty-four
/// characters of a date, a time to the millisecond and the zone, and `Z`
/// for the zone at its end.
pub open spec fn is_stamp(text: Seq<char>) -> bool {
    text.len() >= 24 && text.last() == 'Z'
}

/// Whether each of `times` has the outline of a stamp.
pub open spec fn all_stamps(times: Seq<Seq<char>>) -> bool {
    forall|i: int| 0 <= i < times.len() ==> is_stamp(#[trigger] times[i])
}

/// How the instant `secs` seconds and `nanos` nanoseconds after the Unix
/// epoch is written in UTC, to the millisecond and with `Z` for the zone.
/// `None` for an instant beyond the calendar or with nanoseconds out of
/// range.
pub uninterp spec fn rfc3339_millis(secs: i64, nanos: u32) -> Option<Seq<char>>;

/// Calls `std::time::SystemTime::now` and measures the reading from the
/// Unix epoch with `SystemTime::duration_since`: whole seconds and the
/// nanoseconds beyond them, `None` where the clock stands before 1970. The
/// reading depends on when it is made, so nothing is claimed of it.
#[verifier::external_body]
fn since_epoch() -> Option<(u64, u32)> {
    let since = std::time::SystemTime::now().duration_since(std::time::UNIX_EPOCH).ok()?;
    Some((since.as_secs(), since.subsec_nanos()))
}

/// Calls `chrono::DateTime::from_timestamp` and writes the instant with
/// `DateTime::to_rfc3339_opts`, to the millisecond and with `Z` for the
/// zone. The contract names the text, which is a function of the instant
/// alone, and says of it what holds for every year: a four-digit year, or a
/// sign and more digits, then twenty characters that end in `Z`.
#[verifier::external_body]
fn write_instant(secs: i64, nanos: u32) -> (r: Option<String>)
    ensures
        option_text(r) == rfc3339_millis(secs, nanos),
        r matches Some(text) ==> is_stamp(text@),
{
    let at = chrono::DateTime::from_timestamp(secs, nanos)?;
    Some(at.to_rfc3339_opts(chrono::SecondsFormat::Millis, true))
}

/// The stamp for a clock reading of seconds and nanoseconds since the Unix
/// epoch: the instant as it is written, and the stamp of the epoch where
/// there is no reading or the instant cannot be written.
pub open spec fn stamp_of(reading: Option<(u64, u32)>) -> Seq<char> {
    match reading {
        Some((secs, nanos)) => if secs <= i64::MAX {
            match rfc3339_millis(secs as i64, nanos) {
                Some(text) => text,
                None => EPOCH_STAMP@,
            }
        } else {
            EPOCH_STAMP@
        },
        None => EPOCH_STAMP@,
    }
}

/// The stamp of the epoch has the outline of a stamp.
pub proof fn lemma_epoch_stamp_is_stamp()
    ensures
        is_stamp(EPOCH_STAMP@),
{
    reveal_strlit("1970-01-01T00:00:00.000Z");
}

fn epoch_stamp() -> (r: String)
    ensures
        r@ == EPOCH_STAMP@,
{
    String::from_str(EPOCH_STAMP)
}

/// Writes the stamp for a clock reading of seconds and nanoseconds since
/// the Unix epoch.
pub fn stamp(reading: Option<(u64, u32)>) -> (r: String)
    ensures
        r@ == stamp_of(reading),
        is_stamp(r@),
{
    proof {
        lemma_epoch_stamp_is_stamp();
    }
    match reading {
        Some((secs, nanos)) => {
            if secs <= 0x7fff_ffff_ffff_ffff {
                match write_instant(secs as i64, nanos) {
                    Some(text) => text,
                    None => epoch_stamp(),
                }
            } else {
                epoch_stamp()
            }
        },
        None => epoch_stamp(),
    }
}

/// The stamp of the present moment. Which moment that is depends on when
/// the clock is read; whatever it reads, the result has the outline of a
/// stamp.
pub fn timestamp_now() -> (r: String)
    ensures
        is_stamp(r@),
{
    stamp(since_epoch())
}

} // verus!
