//! The live bot's per-tick gate: a rolling window of recent prices per
//! symbol, and the checks a tick must pass before strategies are run.

use std::collections::VecDeque;
use vstd::prelude::*;

verus! {

/// The window after appending `x` to `s` and dropping the oldest value
/// when it then holds more than `max_len`.
pub open spec fn window_after<T>(s: Seq<T>, x: T, max_len: nat) -> Seq<T> {
    if s.len() + 1 > max_len {
        s.push(x).subrange(1, s.len() as int + 1)
    } else {
        s.push(x)
    }
}

/// A rolling window holding at most `max_len` of the most recent values.
pub struct PriceWindow<T> {
    buf: VecDeque<T>,
    max_len: usize,
}

impl<T> PriceWindow<T> {
    /// A window never holds more than its capacity.
    #[verifier::type_invariant]
    spec fn within_capacity(self) -> bool {
        self.buf@.len() <= self.max_len
    }

    /// The values held, oldest first.
    pub closed spec fn values(&self) -> Seq<T> {
        self.buf@
    }

    /// The most values the window keeps.
    pub closed spec fn capacity(&self) -> nat {
        self.max_len as nat
    }

    /// An empty window keeping at most `max_len` values.
    pub fn new(max_len: usize) -> (w: PriceWindow<T>)
        ensures
            w.values() == Seq::<T>::empty(),
            w.capacity() == max_len,
    {
        PriceWindow { buf: VecDeque::new(), max_len }
    }

    /// Append a value, dropping the oldest one when the window overflows.
    pub fn push(&mut self, x: T)
        ensures
            final(self).values() == window_after(old(self).values(), x, old(self).capacity()),
            final(self).capacity() == old(self).capacity(),
            final(self).values().len() <= final(self).capacity(),
    {
        proof {
            use_type_invariant(&*self);
        }
        let mut buf: VecDeque<T> = VecDeque::new();
        std::mem::swap(&mut buf, &mut self.buf);
        buf.push_back(x);
        if buf.len() > self.max_len {
            let _ = buf.pop_front();
        }
        self.buf = buf;
    }

    /// Number of values held.
    pub fn len(&self) -> (r: usize)
        ensures
            r == self.values().len(),
            r <= self.capacity(),
    {
        proof {
            use_type_invariant(self);
        }
        self.buf.len()
    }

    /// The values held, oldest first.
    pub fn buffer(&self) -> (r: &VecDeque<T>)
        ensures
            r@ == self.values(),
    {
        &self.buf
    }
}

/// Law: a window never holds more than its capacity, keeps the newest value
/// last (when it can hold any), and otherwise keeps the previous values in
/// order.
pub proof fn lemma_window_after<T>(s: Seq<T>, x: T, max_len: nat)
    requires
        s.len() <= max_len,
    ensures
        window_after(s, x, max_len).len() <= max_len,
        max_len >= 1 ==> window_after(s, x, max_len).last() == x,
        s.len() < max_len ==> window_after(s, x, max_len) == s.push(x),
{
}

/// Whether a tick is evaluated: enough prices are buffered, the circuit
/// breaker is not tripped, and the symbol's last signal (if any) is at least
/// the cool-down ago.
pub open spec fn tick_passes(
    window_len: nat,
    min_prices: nat,
    circuit_broken: bool,
    secs_since_last_signal: Option<u64>,
    cooldown_secs: u64,
) -> bool {
    &&& window_len >= min_prices
    &&& !circuit_broken
    &&& (secs_since_last_signal matches Some(s) ==> s >= cooldown_secs)
}

/// The per-tick gate of the live bot.
pub fn should_evaluate_tick(
    window_len: usize,
    min_prices_for_hv: usize,
    circuit_broken: bool,
    secs_since_last_signal: Option<u64>,
    cooldown_secs: u64,
) -> (b: bool)
    ensures
        b == tick_passes(
            window_len as nat,
            min_prices_for_hv as nat,
            circuit_broken,
            secs_since_last_signal,
            cooldown_secs,
        ),
{
    if window_len < min_prices_for_hv {
        return false;
    }
    if circuit_broken {
        return false;
    }
    match secs_since_last_signal {
        Some(s) => s >= cooldown_secs,
        None => true,
    }
}

} // verus!
