//! The clock shown by the widget: a time of day, advanced one second per tick
//! and shown as `HH:MM:SS`.
use vstd::prelude::*;
use vstd::string::StrSliceExecFns;

verus! {

/// Seconds in one day.
pub const SECONDS_PER_DAY: u32 = 86400;

/// The decimal digits, in order.
pub const DIGITS: &'static str = "0123456789";

/// The character of the decimal digit `d`.
pub open spec fn digit_char(d: nat) -> char {
    DIGITS@[d as int]
}

/// `n` (below 100) as two decimal digits.
pub open spec fn two_digits(n: nat) -> Seq<char> {
    seq![digit_char(n / 10), digit_char(n % 10)]
}

/// The time of day `t` (seconds since midnight) as `HH:MM:SS`.
pub open spec fn hms_text(t: nat) -> Seq<char> {
    two_digits(t / 3600) + seq![':'] + two_digits((t % 3600) / 60) + seq![':'] + two_digits(t % 60)
}

/// Relies on `chrono::Local::now`, read through `Timelike::num_seconds_from_midnight`:
/// the local wall-clock time of day, in seconds since midnight (a leap second
/// counts as the second before it, so it stays below a day).
#[verifier::external_body]
fn local_seconds_of_day() -> (r: u32)
    ensures
        r < SECONDS_PER_DAY,
{
    chrono::Timelike::num_seconds_from_midnight(&chrono::Local::now())
}

/// Appends `n` (below 100) as two decimal digits.
fn append_two_digits(s: &mut String, n: u32)
    requires
        n < 100,
    ensures
        final(s)@ == old(s)@ + two_digits(n as nat),
{
    proof {
        reveal_strlit("0123456789");
    }
    let hi: usize = (n / 10) as usize;
    let lo: usize = (n % 10) as usize;
    s.append(DIGITS.substring_char(hi, hi + 1));
    s.append(DIGITS.substring_char(lo, lo + 1));
    proof {
        assert(DIGITS@.subrange(hi as int, hi + 1) =~= seq![digit_char(hi as nat)]);
        assert(DIGITS@.subrange(lo as int, lo + 1) =~= seq![digit_char(lo as nat)]);
        assert(final(s)@ =~= old(s)@ + two_digits(n as nat));
    }
}

/// A time of day, kept to the second.
pub struct Clock {
    seconds: u32,
}

impl View for Clock {
    type V = nat;

    closed spec fn view(&self) -> nat {
        self.seconds as nat
    }
}

impl Clock {
    /// A clock stands at a time within one day.
    pub open spec fn wf(&self) -> bool {
        self@ < SECONDS_PER_DAY
    }

    /// A clock at `seconds` past midnight; `None` where that is a day or more.
    pub fn at(seconds: u32) -> (r: Option<Clock>)
        ensures
            r is Some <==> seconds < SECONDS_PER_DAY,
            r matches Some(c) ==> c.wf() && c@ == seconds,
    {
        if seconds < SECONDS_PER_DAY {
            Some(Clock { seconds })
        } else {
            None
        }
    }

    /// A clock at the local time of day now.
    pub fn now() -> (r: Clock)
        ensures
            r.wf(),
    {
        Clock { seconds: local_seconds_of_day() }
    }

    /// Seconds since midnight.
    pub fn seconds(&self) -> (r: u32)
        ensures
            r == self@,
    {
        self.seconds
    }

    /// Advances the clock by one second, past midnight to zero.
    pub fn tick(&mut self)
        requires
            old(self).wf(),
        ensures
            final(self).wf(),
            final(self)@ == (old(self)@ + 1) % (SECONDS_PER_DAY as nat),
    {
        if self.seconds + 1 == SECONDS_PER_DAY {
            self.seconds = 0;
        } else {
            self.seconds = self.seconds + 1;
        }
    }

    /// The time shown, as `HH:MM:SS`.
    pub fn text(&self) -> (r: String)
        requires
            self.wf(),
        ensures
            r@ == hms_text(self@),
    {
        let t = self.seconds;
        let mut s = String::new();
        append_two_digits(&mut s, t / 3600);
        s.append(":");
        append_two_digits(&mut s, (t % 3600) / 60);
        s.append(":");
        append_two_digits(&mut s, t % 60);
        proof {
            reveal_strlit(":");
            assert(s@ =~= hms_text(self@));
        }
        s
    }
}

/// The time of day `n` seconds after `start`.
pub open spec fn seconds_after(start: nat, n: nat) -> nat {
    (start + n) % (SECONDS_PER_DAY as nat)
}

/// The time of day after `n` ticks from `start`, one tick at a time.
pub open spec fn after_ticks(start: nat, n: nat) -> nat
    decreases n,
{
    if n == 0 {
        start
    } else {
        (after_ticks(start, (n - 1) as nat) + 1) % (SECONDS_PER_DAY as nat)
    }
}

/// Ticking `n` times from a time of day lands `n` seconds later, past
/// midnight as often as it takes; the clock then shows that time.
pub proof fn lemma_ticks_add_seconds(start: nat, n: nat)
    requires
        start < SECONDS_PER_DAY,
    ensures
        after_ticks(start, n) == seconds_after(start, n),
        after_ticks(start, n) < SECONDS_PER_DAY,
    decreases n,
{
    if n > 0 {
        lemma_ticks_add_seconds(start, (n - 1) as nat);
        let d = SECONDS_PER_DAY as int;
        let k = start + n - 1;
        assert((k % d + 1) % d == (k + 1) % d) by {
            vstd::arithmetic::div_mod::lemma_add_mod_noop(k, 1, d);
            vstd::arithmetic::div_mod::lemma_small_mod(1, d as nat);
        }
    }
}

} // verus!
