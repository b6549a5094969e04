//! Short-lived message shown over the emulated screen (a gamepad plugged
//! in, the CRT shader toggled...): the same text as sent to the console,
//! repeated where the eyes already are while playing.
//!
//! Time is read as nanoseconds elapsed since the message holder was
//! created (the resolution of the monotonic clock); the decisions themselves
//! take that time as an argument.

use vstd::prelude::*;
use std::time::Instant;

verus! {

#[verifier::external_type_specification]
#[verifier::external_body]
pub struct ExInstant(Instant);

/// How long a message stays on screen: two seconds, in nanoseconds.
pub const OSD_DURATION_NS: u64 = 2_000_000_000;

/// Reads the monotonic clock (`Instant::now`). Nothing is stated of the
/// instant returned: it depends on when the call is made.
#[verifier::external_body]
fn clock_origin() -> Instant {
    Instant::now()
}

/// Time elapsed since `origin` (`Instant::elapsed`), as the exact number
/// of nanoseconds the `Duration` holds. Nothing is stated of the value: it
/// depends on when the call is made.
#[verifier::external_body]
fn nanos_since(origin: &Instant) -> u128 {
    origin.elapsed().as_nanos()
}

/// The clock reading, in nanoseconds since `origin`, saturating at the end
/// of the `u64` range (after some 584 years).
fn clock_nanos(origin: &Instant) -> (now: u64) {
    let elapsed = nanos_since(origin);
    if elapsed > 0xFFFF_FFFF_FFFF_FFFFu128 {
        0xFFFF_FFFF_FFFF_FFFFu64
    } else {
        elapsed as u64
    }
}

/// The time at which a message shown at `now` disappears (saturating at the
/// end of the clock's range).
pub open spec fn expiry_after(now: u64) -> u64 {
    if now + OSD_DURATION_NS <= u64::MAX {
        (now + OSD_DURATION_NS) as u64
    } else {
        u64::MAX
    }
}

/// The message held after `text` is shown at `now`, whatever was held
/// before: the last message shown wins and gets two seconds of its own.
pub open spec fn shown_at(text: Seq<char>, now: u64) -> Option<(Seq<char>, u64)> {
    Some((text, expiry_after(now)))
}

/// A message (its text and expiry time) is still to be shown at `now`.
pub open spec fn active_at(message: Option<(Seq<char>, u64)>, now: u64) -> bool {
    match message {
        Some((_, expires)) => now < expires,
        None => false,
    }
}

/// A message shown at `now` is on screen at every later time `t` (until
/// another one is shown) exactly while `t < now + 2 s`; should the clock's
/// range run out first, until its end.
pub proof fn a_message_lasts_two_seconds(text: Seq<char>, now: u64, t: u64)
    ensures
        now + OSD_DURATION_NS <= u64::MAX ==> (active_at(shown_at(text, now), t) <==> t < now
            + OSD_DURATION_NS),
        now + OSD_DURATION_NS > u64::MAX ==> (active_at(shown_at(text, now), t) <==> t
            < u64::MAX),
{
}

pub struct Osd {
    /// The text and the time at which it disappears; `None` most of the
    /// time.
    message: Option<(String, u64)>,
    origin: Instant,
    /// The latest clock reading the holder has taken, in nanoseconds since
    /// `origin`: the clock is monotonic, and the holder never goes back on
    /// a reading.
    last_reading: u64,
}

impl Osd {
    /// The message held (its text and expiry time), if any.
    pub closed spec fn spec_message(&self) -> Option<(Seq<char>, u64)> {
        match self.message {
            Some((text, expires)) => Some((text@, expires)),
            None => None,
        }
    }

    /// The instant the holder's clock counts from.
    pub closed spec fn spec_origin(&self) -> Instant {
        self.origin
    }

    /// The latest clock reading taken by `show` or `expire`, in
    /// nanoseconds since the holder was created.
    pub closed spec fn spec_last_reading(&self) -> u64 {
        self.last_reading
    }

    pub fn new() -> (osd: Self)
        ensures
            osd.spec_message() is None,
            osd.spec_last_reading() == 0,
    {
        Self { message: None, origin: clock_origin(), last_reading: 0 }
    }

    /// The clock now, in nanoseconds since `origin`, never before the
    /// latest reading taken.
    fn current_reading(&self) -> (now: u64)
        ensures
            now >= self.spec_last_reading(),
    {
        let now = clock_nanos(&self.origin);
        if now < self.last_reading {
            self.last_reading
        } else {
            now
        }
    }

    /// Reads the clock and records the reading.
    fn take_reading(&mut self) -> (now: u64)
        ensures
            now >= old(self).spec_last_reading(),
            final(self).spec_last_reading() == now,
            final(self).spec_message() == old(self).spec_message(),
            final(self).spec_origin() == old(self).spec_origin(),
    {
        let now = self.current_reading();
        self.last_reading = now;
        now
    }

    /// Shows `text`, replacing any message still on screen, from time `now`
    /// on for two seconds.
    pub fn show_at(&mut self, text: String, now: u64)
        ensures
            final(self).spec_message() == shown_at(text@, now),
            final(self).spec_origin() == old(self).spec_origin(),
            final(self).spec_last_reading() == old(self).spec_last_reading(),
    {
        let expires = now.saturating_add(OSD_DURATION_NS);
        self.message = Some((text, expires));
    }

    /// Shows `text` from now on, for two seconds: from the clock reading it
    /// takes, which `expire` and `is_active` then count from.
    pub fn show(&mut self, text: String)
        ensures
            final(self).spec_message() matches Some((t, expires)) && t == text@
                && expires >= OSD_DURATION_NS,
            exists|now: u64| #[trigger] shown_at(text@, now) == final(self).spec_message(),
            final(self).spec_message() == shown_at(text@, final(self).spec_last_reading()),
            final(self).spec_last_reading() >= old(self).spec_last_reading(),
            final(self).spec_origin() == old(self).spec_origin(),
    {
        let now = self.take_reading();
        self.show_at(text, now);
    }

    /// Whether a message is to be shown at time `now`. Unlike `expire_at`,
    /// this never drops the message.
    pub fn is_active_at(&self, now: u64) -> (r: bool)
        ensures
            r == active_at(self.spec_message(), now),
    {
        match &self.message {
            Some((_, expires)) => now < *expires,
            None => false,
        }
    }

    /// Whether a message is to be shown now. Never drops the message.
    pub fn is_active(&self) -> (r: bool)
        ensures
            r ==> self.spec_message() is Some,
            exists|now: u64| #[trigger] active_at(self.spec_message(), now) == r,
            exists|now: u64|
                now >= self.spec_last_reading() && #[trigger] active_at(self.spec_message(), now)
                    == r,
    {
        let now = self.current_reading();
        let r = self.is_active_at(now);
        r
    }

    /// The decision made once per frame before drawing: the text to draw at
    /// time `now`, or nothing; a message whose time is up is dropped here.
    pub fn expire_at(&mut self, now: u64) -> (shown: Option<String>)
        ensures
            active_at(old(self).spec_message(), now) ==> final(self).spec_message()
                == old(self).spec_message(),
            active_at(old(self).spec_message(), now) ==> (shown matches Some(t)
                && old(self).spec_message() matches Some((t0, _)) && t0 == t@),
            !active_at(old(self).spec_message(), now) ==> final(self).spec_message() is None
                && shown is None,
            final(self).spec_origin() == old(self).spec_origin(),
            final(self).spec_last_reading() == old(self).spec_last_reading(),
    {
        let expired = match &self.message {
            None => {
                return None;
            },
            Some((_, expires)) => now >= *expires,
        };
        if expired {
            self.message = None;
            None
        } else {
            match &self.message {
                Some((text, _)) => Some(text.clone()),
                None => None,
            }
        }
    }

    /// The text to draw now, dropping the message when its time is up: the
    /// decision of `expire_at` at the clock reading it takes, in the unit
    /// and from the origin that `show` reads.
    pub fn expire(&mut self) -> (shown: Option<String>)
        ensures
            shown is Some ==> final(self).spec_message() == old(self).spec_message(),
            shown matches Some(t) ==> (old(self).spec_message() matches Some((t0, _)) && t0 == t@),
            shown is None ==> final(self).spec_message() is None,
            final(self).spec_origin() == old(self).spec_origin(),
            final(self).spec_last_reading() >= old(self).spec_last_reading(),
            active_at(old(self).spec_message(), final(self).spec_last_reading()) ==> {
                &&& shown matches Some(t)
                &&& old(self).spec_message() matches Some((t0, _))
                &&& t0 == t@
                &&& final(self).spec_message() == old(self).spec_message()
            },
            !active_at(old(self).spec_message(), final(self).spec_last_reading()) ==> {
                &&& final(self).spec_message() is None
                &&& shown is None
            },
    {
        let now = self.take_reading();
        self.expire_at(now)
    }
}

/// Once `show` has put `text` up (the holder then holds it from the reading
/// `show` took), the next `expire`, whose reading is never earlier, drops
/// it when that reading is two seconds or more after `show`'s, and keeps it
/// when it is sooner (short of the end of the clock's range).
pub proof fn expire_counts_from_the_reading_of_show(after_show: Osd, text: Seq<char>, reading: u64)
    requires
        after_show.spec_message() == shown_at(text, after_show.spec_last_reading()),
        reading >= after_show.spec_last_reading(),
    ensures
        reading >= after_show.spec_last_reading() + OSD_DURATION_NS ==> !active_at(
            after_show.spec_message(),
            reading,
        ),
        reading < after_show.spec_last_reading() + OSD_DURATION_NS && reading < u64::MAX
            ==> active_at(after_show.spec_message(), reading),
{
}

} // verus!
