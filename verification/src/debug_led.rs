//! The debug LED: which blink pattern each firmware state shows.
use vstd::prelude::*;

verus! {

/// The blink patterns of the debug LED.
#[derive(Clone, Copy, Debug, PartialEq, Eq, Structural)]
pub enum Sequence {
    Toggle,
    LowCharge,
    Monitor,
    Manual,
    On,
    Off,
}

/// How the LED behaves: a cycle of `(lit, milliseconds)` steps repeated
/// forever, or a steady level.
#[derive(Clone, Debug, PartialEq, Eq)]
pub enum Pattern {
    Repeat(Vec<(bool, u32)>),
    Steady(bool),
}

/// `count` short flashes 150 ms apart (at least one).
pub open spec fn pulses_spec(count: nat) -> Seq<(bool, u32)>
    decreases count,
{
    if count <= 1 {
        seq![(true, 1u32)]
    } else {
        pulses_spec((count - 1) as nat) + seq![(false, 150u32), (true, 1u32)]
    }
}

/// The cycle a sequence repeats; empty for the steady ones.
pub open spec fn cycle_of(s: Sequence) -> Seq<(bool, u32)> {
    match s {
        Sequence::Toggle => seq![(true, 500u32), (false, 500u32)],
        Sequence::LowCharge => pulses_spec(1) + seq![(false, 2000u32)],
        Sequence::Monitor => pulses_spec(2) + seq![(false, 900u32)],
        Sequence::Manual => pulses_spec(2) + seq![(false, 500u32)] + pulses_spec(1) + seq![(false, 1500u32)],
        _ => Seq::empty(),
    }
}

/// `count` short flashes of 1 ms, 150 ms apart; a count of zero still flashes once.
pub fn pulses(count: u32) -> (steps: Vec<(bool, u32)>)
    ensures
        steps@ == pulses_spec(count as nat),
{
    let mut steps: Vec<(bool, u32)> = Vec::new();
    steps.push((true, 1));
    let mut i: u32 = 1;
    while i < count
        invariant
            1 <= i,
            i <= count || i == 1,
            steps@ == pulses_spec(i as nat),
        decreases count - i,
    {
        steps.push((false, 150));
        steps.push((true, 1));
        i = i + 1;
        assert(steps@ =~= pulses_spec(i as nat));
    }
    proof {
        if count <= 1 {
            assert(pulses_spec(count as nat) == pulses_spec(1));
        }
    }
    steps
}

fn append(v: &mut Vec<(bool, u32)>, w: Vec<(bool, u32)>)
    ensures
        final(v)@ == old(v)@ + w@,
{
    let mut i: usize = 0;
    let ghost start = v@;
    while i < w.len()
        invariant
            i <= w@.len(),
            v@ == start + w@.subrange(0, i as int),
        decreases w@.len() - i,
    {
        v.push(w[i]);
        i = i + 1;
        assert(v@ =~= start + w@.subrange(0, i as int));
    }
    assert(w@.subrange(0, w@.len() as int) =~= w@);
}

impl Sequence {
    /// How the LED behaves while this sequence is selected.
    pub fn pattern(&self) -> (p: Pattern)
        ensures
            *self == Sequence::On ==> p == Pattern::Steady(true),
            *self == Sequence::Off ==> p == Pattern::Steady(false),
            *self != Sequence::On && *self != Sequence::Off ==> (p matches Pattern::Repeat(c) && c@ == cycle_of(*self)),
    {
        match self {
            Sequence::Toggle => {
                let mut c: Vec<(bool, u32)> = Vec::new();
                c.push((true, 500));
                c.push((false, 500));
                assert(c@ =~= cycle_of(*self));
                Pattern::Repeat(c)
            },
            Sequence::LowCharge => {
                let mut c = pulses(1);
                c.push((false, 2000));
                assert(c@ =~= cycle_of(*self));
                Pattern::Repeat(c)
            },
            Sequence::Monitor => {
                let mut c = pulses(2);
                c.push((false, 900));
                assert(c@ =~= cycle_of(*self));
                Pattern::Repeat(c)
            },
            Sequence::Manual => {
                let mut c = pulses(2);
                c.push((false, 500));
                append(&mut c, pulses(1));
                c.push((false, 1500));
                assert(c@ =~= cycle_of(*self));
                Pattern::Repeat(c)
            },
            Sequence::On => Pattern::Steady(true),
            Sequence::Off => Pattern::Steady(false),
        }
    }
}

/// How many times a cycle lights the LED.
pub open spec fn flash_count(c: Seq<(bool, u32)>) -> nat
    decreases c.len(),
{
    if c.len() == 0 {
        0
    } else {
        flash_count(c.drop_last()) + if c.last().0 { 1nat } else { 0nat }
    }
}

/// A group of `count` flashes (at least one) lights the LED `count` times for
/// 1 ms each, with 150 ms dark between two flashes: it starts and ends lit,
/// and alternates.
pub proof fn lemma_pulses_shape(count: nat)
    requires
        count >= 1,
    ensures
        pulses_spec(count).len() == 2 * count - 1,
        forall|i: int| 0 <= i < pulses_spec(count).len() && i % 2 == 0 ==> #[trigger] pulses_spec(count)[i] == (
        true, 1u32),
        forall|i: int| 0 <= i < pulses_spec(count).len() && i % 2 == 1 ==> #[trigger] pulses_spec(count)[i] == (
        false, 150u32),
        flash_count(pulses_spec(count)) == count,
    decreases count,
{
    if count > 1 {
        lemma_pulses_shape((count - 1) as nat);
        let prev = pulses_spec((count - 1) as nat);
        let c = pulses_spec(count);
        assert(c == prev + seq![(false, 150u32), (true, 1u32)]);
        assert(c.drop_last() =~= prev.push((false, 150u32)));
        assert(c.drop_last().drop_last() =~= prev);
        assert(c.drop_last().last() == (false, 150u32));
        assert(flash_count(c.drop_last()) == flash_count(prev));
        assert(c.last() == (true, 1u32));
        assert(flash_count(c) == flash_count(c.drop_last()) + 1);
    } else {
        assert(pulses_spec(1).drop_last() =~= Seq::<(bool, u32)>::empty());
        assert(flash_count(Seq::<(bool, u32)>::empty()) == 0);
        assert(flash_count(pulses_spec(1)) == flash_count(pulses_spec(1).drop_last()) + 1);
    }
}

/// What each sequence shows: toggling lights the LED half of every second;
/// low charge flashes once, then 2 s dark; monitoring flashes twice 150 ms
/// apart, then 900 ms dark; manual mode flashes twice, 500 ms dark, once more,
/// then 1.5 s dark; every flash lasts 1 ms. On and Off repeat nothing.
pub proof fn lemma_led_patterns()
    ensures
        cycle_of(Sequence::Toggle) == seq![(true, 500u32), (false, 500u32)],
        cycle_of(Sequence::LowCharge) == seq![(true, 1u32), (false, 2000u32)],
        cycle_of(Sequence::Monitor) == seq![(true, 1u32), (false, 150u32), (true, 1u32), (false, 900u32)],
        cycle_of(Sequence::Manual) == seq![
            (true, 1u32),
            (false, 150u32),
            (true, 1u32),
            (false, 500u32),
            (true, 1u32),
            (false, 1500u32),
        ],
        flash_count(cycle_of(Sequence::LowCharge)) == 1,
        flash_count(cycle_of(Sequence::Monitor)) == 2,
        flash_count(cycle_of(Sequence::Manual)) == 3,
        cycle_of(Sequence::On).len() == 0,
        cycle_of(Sequence::Off).len() == 0,
{
    reveal_with_fuel(flash_count, 7);
    lemma_pulses_shape(1);
    lemma_pulses_shape(2);
    assert(cycle_of(Sequence::LowCharge) =~= seq![(true, 1u32), (false, 2000u32)]);
    assert(cycle_of(Sequence::Monitor) =~= seq![(true, 1u32), (false, 150u32), (true, 1u32), (false, 900u32)]);
    assert(cycle_of(Sequence::Manual) =~= seq![
        (true, 1u32),
        (false, 150u32),
        (true, 1u32),
        (false, 500u32),
        (true, 1u32),
        (false, 1500u32),
    ]);
    let low = seq![(true, 1u32), (false, 2000u32)];
    assert(low.drop_last() =~= seq![(true, 1u32)]);
    assert(seq![(true, 1u32)].drop_last() =~= Seq::<(bool, u32)>::empty());
    let mon = seq![(true, 1u32), (false, 150u32), (true, 1u32), (false, 900u32)];
    assert(mon.drop_last() =~= seq![(true, 1u32), (false, 150u32), (true, 1u32)]);
    assert(mon.drop_last().drop_last() =~= seq![(true, 1u32), (false, 150u32)]);
    assert(mon.drop_last().drop_last().drop_last() =~= seq![(true, 1u32)]);
    let man = cycle_of(Sequence::Manual);
    assert(man.drop_last() =~= seq![(true, 1u32), (false, 150u32), (true, 1u32), (false, 500u32), (true, 1u32)]);
    assert(man.drop_last().drop_last() =~= mon.drop_last().push((false, 500u32)));
    assert(man.drop_last().drop_last().drop_last() =~= mon.drop_last());
}

/// The LED task as the rest of the firmware sees it.
#[derive(Clone, Copy, Debug, PartialEq, Eq, Structural)]
pub struct LedControl {
    /// The sequence being shown.
    pub current: Sequence,
    /// A sequence requested and not yet taken up.
    pub pending: Option<Sequence>,
}

impl LedControl {
    /// The LED starts off.
    pub fn new() -> (c: Self)
        ensures
            c.current == Sequence::Off,
            c.pending.is_none(),
    {
        LedControl { current: Sequence::Off, pending: None }
    }

    /// Requests a sequence; replaces any request not yet taken up.
    pub fn send(&mut self, s: Sequence)
        ensures
            final(self).pending == Some(s),
            final(self).current == old(self).current,
    {
        self.pending = Some(s);
    }

    /// Switches to the requested sequence, if any.
    pub fn take_up(&mut self)
        ensures
            final(self).pending.is_none(),
            final(self).current == match old(self).pending {
                Some(s) => s,
                None => old(self).current,
            },
    {
        if let Some(s) = self.pending.take() {
            self.current = s;
        }
    }
}

} // verus!
