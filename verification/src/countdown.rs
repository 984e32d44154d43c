//! The mathematical model of the countdown to the welcome, and what holds of
//! it over a run of frames.

use vstd::prelude::*;

verus! {

/// How much frame time passes before people are welcomed: two seconds.
pub const GREET_DELAY_NANOS: u64 = 2_000_000_000;

/// The state of a one-shot countdown of [`GREET_DELAY_NANOS`].
pub struct Countdown {
    /// Frame time counted so far, in nanoseconds.
    pub elapsed: nat,
    /// Whether the last frame was the one that reached the delay.
    pub just_finished: bool,
}

impl Countdown {
    /// A countdown on which no frame has been counted.
    pub open spec fn fresh() -> Countdown {
        Countdown { elapsed: 0, just_finished: false }
    }

    /// Whether the delay has been reached.
    pub open spec fn finished(self) -> bool {
        self.elapsed >= GREET_DELAY_NANOS
    }

    /// Whether a frame of `delta` nanoseconds takes the countdown from short
    /// of the delay to the delay.
    pub open spec fn reaches_delay(self, delta: nat) -> bool {
        !self.finished() && self.elapsed + delta >= GREET_DELAY_NANOS
    }

    /// The countdown after a frame of `delta` nanoseconds: it counts up to the
    /// delay and stays there.
    pub open spec fn tick(self, delta: nat) -> Countdown {
        Countdown {
            elapsed: if self.finished() {
                self.elapsed
            } else if self.elapsed + delta >= GREET_DELAY_NANOS {
                GREET_DELAY_NANOS as nat
            } else {
                self.elapsed + delta
            },
            just_finished: self.reaches_delay(delta),
        }
    }

    /// A fresh countdown after the frames `deltas`, in order.
    pub open spec fn after(deltas: Seq<nat>) -> Countdown
        decreases deltas.len(),
    {
        if deltas.len() == 0 {
            Countdown::fresh()
        } else {
            Countdown::after(deltas.drop_last()).tick(deltas.last())
        }
    }
}

/// The frame time of `deltas` together, in nanoseconds.
pub open spec fn total_nanos(deltas: Seq<nat>) -> nat
    decreases deltas.len(),
{
    if deltas.len() == 0 {
        0
    } else {
        total_nanos(deltas.drop_last()) + deltas.last()
    }
}

/// Whether frame `i` of `deltas` is the one in which a countdown that was
/// fresh before the first frame reaches the delay.
pub open spec fn welcomed_at(deltas: Seq<nat>, i: int) -> bool {
    Countdown::after(deltas.take(i)).reaches_delay(deltas[i])
}

/// A fresh countdown shows the frame time it was given, capped at the delay.
pub proof fn lemma_after_is_capped_total(deltas: Seq<nat>)
    ensures
        Countdown::after(deltas).elapsed == if total_nanos(deltas) >= GREET_DELAY_NANOS {
            GREET_DELAY_NANOS as nat
        } else {
            total_nanos(deltas)
        },
    decreases deltas.len(),
{
    if deltas.len() > 0 {
        lemma_after_is_capped_total(deltas.drop_last());
    }
}

/// Frame time only grows as frames are added.
pub proof fn lemma_total_grows(deltas: Seq<nat>, i: int, j: int)
    requires
        0 <= i <= j <= deltas.len(),
    ensures
        total_nanos(deltas.take(i)) <= total_nanos(deltas.take(j)),
    decreases j - i,
{
    if i < j {
        lemma_total_grows(deltas, i, j - 1);
        assert(deltas.take(j).drop_last() =~= deltas.take(j - 1));
    }
}

/// The frame of the welcome is the first one by the end of which the delay
/// has passed: the frames before it fall short, and with it they do not.
pub proof fn lemma_welcomed_at_first_due_frame(deltas: Seq<nat>, i: int)
    requires
        0 <= i < deltas.len(),
    ensures
        welcomed_at(deltas, i) <==> total_nanos(deltas.take(i)) < GREET_DELAY_NANOS
            <= total_nanos(deltas.take(i + 1)),
{
    lemma_after_is_capped_total(deltas.take(i));
    assert(deltas.take(i + 1).drop_last() =~= deltas.take(i));
}

/// People are welcomed at most once: no two frames of a run are both the
/// frame of the welcome.
pub proof fn lemma_welcomed_at_most_once(deltas: Seq<nat>, i: int, j: int)
    requires
        0 <= i < j < deltas.len(),
    ensures
        !(welcomed_at(deltas, i) && welcomed_at(deltas, j)),
{
    lemma_welcomed_at_first_due_frame(deltas, i);
    lemma_welcomed_at_first_due_frame(deltas, j);
    lemma_total_grows(deltas, i + 1, j);
}

/// People are welcomed during a run exactly if its frames add up to the
/// delay or more.
pub proof fn lemma_welcomed_iff_due(deltas: Seq<nat>)
    ensures
        (exists|i: int| 0 <= i < deltas.len() && welcomed_at(deltas, i)) <==> total_nanos(deltas)
            >= GREET_DELAY_NANOS,
    decreases deltas.len(),
{
    if deltas.len() > 0 {
        let last = deltas.len() - 1;
        let front = deltas.drop_last();
        lemma_welcomed_iff_due(front);
        lemma_welcomed_at_first_due_frame(deltas, last);
        assert(deltas.take(last) =~= front);
        assert(deltas.take(last + 1) =~= deltas);
        assert forall|i: int| 0 <= i < last implies welcomed_at(front, i) == welcomed_at(
            deltas,
            i,
        ) by {
            assert(front.take(i) =~= deltas.take(i));
        }
        if total_nanos(deltas) >= GREET_DELAY_NANOS {
            if total_nanos(front) >= GREET_DELAY_NANOS {
                let i = choose|i: int| 0 <= i < front.len() && welcomed_at(front, i);
                assert(welcomed_at(deltas, i));
            } else {
                assert(welcomed_at(deltas, last));
            }
        } else {
            assert forall|i: int| 0 <= i < deltas.len() implies !welcomed_at(deltas, i) by {
                if i < last {
                    assert(!welcomed_at(front, i));
                }
            }
        }
    }
}

} // verus!
