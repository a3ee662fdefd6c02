//! Shared helpers: time stamps, debouncing, path and text utilities.

pub mod path;
pub mod text;

use vstd::prelude::*;

verus! {

/// Debounce helper for rate-limiting operations
pub struct Debouncer {
    delay_ms: u64,
    last_trigger: Option<u64>,
}

impl Debouncer {
    /// The delay, in milliseconds.
    pub closed spec fn delay(&self) -> u64 {
        self.delay_ms
    }

    /// When it last fired, in milliseconds, if it has.
    pub closed spec fn last(&self) -> Option<u64> {
        self.last_trigger
    }

    /// Create a debouncer that has not fired yet
    pub fn new(delay_ms: u64) -> (r: Self)
        ensures
            r.delay() == delay_ms,
            r.last() is None,
    {
        Debouncer { delay_ms, last_trigger: None }
    }

    /// Decide at time `now` (milliseconds) whether to fire: always the
    /// first time, then once at least the delay has passed since the last
    /// firing (a clock that went back counts as no time passed). Firing
    /// records `now`.
    pub fn should_trigger_at(&mut self, now: u64) -> (r: bool)
        ensures
            r == (match old(self).last() {
                Some(last) => now >= last && now - last >= old(self).delay(),
                None => true,
            }),
            final(self).last() == (if r { Some(now) } else { old(self).last() }),
            final(self).delay() == old(self).delay(),
    {
        match self.last_trigger {
            Some(last) => {
                let elapsed = if now >= last {
                    now - last
                } else {
                    0
                };
                if now >= last && elapsed >= self.delay_ms {
                    self.last_trigger = Some(now);
                    true
                } else {
                    false
                }
            },
            None => {
                self.last_trigger = Some(now);
                true
            },
        }
    }

    /// Check if enough time has passed since last trigger, reading the clock
    pub fn should_trigger(&mut self) -> (r: bool)
        ensures
            old(self).last() is None ==> r && final(self).last() is Some,
            final(self).delay() == old(self).delay(),
    {
        let now = now_millis();
        self.should_trigger_at(now)
    }

    /// Reset the debouncer
    pub fn reset(&mut self)
        ensures
            final(self).last() is None,
            final(self).delay() == old(self).delay(),
    {
        self.last_trigger = None;
    }
}

/// Relies on std::time::SystemTime::now and Duration::as_millis: the current
/// time in milliseconds since the Unix epoch (0 if the clock reads earlier).
/// Nothing is promised of the value.
#[verifier::external_body]
pub(crate) fn now_millis() -> (r: u64) {
    match std::time::SystemTime::now().duration_since(std::time::UNIX_EPOCH) {
        Ok(d) => d.as_millis() as u64,
        Err(_) => 0,
    }
}

/// Decimal digit for a value below ten.
pub open spec fn digit_char(d: nat) -> char {
    if d == 0 { '0' } else if d == 1 { '1' } else if d == 2 { '2' } else if d == 3 { '3' }
    else if d == 4 { '4' } else if d == 5 { '5' } else if d == 6 { '6' } else if d == 7 { '7' }
    else if d == 8 { '8' } else { '9' }
}

/// Decimal notation of a natural number, without sign or leading zeros.
pub open spec fn decimal(n: nat) -> Seq<char>
    decreases n,
{
    if n < 10 {
        seq![digit_char(n)]
    } else {
        decimal(n / 10).push(digit_char(n % 10))
    }
}

/// The decimal digit for a value below ten.
fn digit(d: u64) -> (r: char)
    requires
        d < 10,
    ensures
        r == digit_char(d as nat),
{
    if d == 0 { '0' } else if d == 1 { '1' } else if d == 2 { '2' } else if d == 3 { '3' }
    else if d == 4 { '4' } else if d == 5 { '5' } else if d == 6 { '6' } else if d == 7 { '7' }
    else if d == 8 { '8' } else { '9' }
}

/// Append the decimal notation of `n`.
fn write_decimal(out: &mut String, n: u64)
    ensures
        final(out)@ == old(out)@ + decimal(n as nat),
    decreases n,
{
    if n >= 10 {
        write_decimal(out, n / 10);
    }
    push_char(out, digit(n % 10));
    assert(out@ =~= old(out)@ + decimal(n as nat)) by {
        if n >= 10 {
            assert(decimal(n as nat) == decimal((n / 10) as nat).push(digit_char((n % 10) as nat)));
        }
    }
}

/// The decimal notation of a number.
pub(crate) fn u64_to_string(n: u64) -> (r: String)
    ensures
        r@ == decimal(n as nat),
{
    let mut out = String::new();
    write_decimal(&mut out, n);
    assert(out@ =~= decimal(n as nat));
    out
}

/// The decimal notation of a number.
pub(crate) fn usize_to_string(n: usize) -> (r: String)
    ensures
        r@ == decimal(n as nat),
{
    u64_to_string(n as u64)
}

/// Relies on String::push: appends one character.
#[verifier::external_body]
pub(crate) fn push_char(s: &mut String, c: char)
    ensures
        final(s)@ == old(s)@.push(c),
{
    s.push(c)
}

} // verus!
