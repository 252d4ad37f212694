use vstd::prelude::*;

verus! {

/// Number of equal steps between a hidden screen (opacity 0) and a fully
/// shown one (opacity 1); one tick moves the opacity by one step, i.e. 0.05.
pub const OPACITY_STEPS: u8 = 20;

/// Period of the timer whose ticks drive the fade, in milliseconds.
pub const TICK_INTERVAL_MS: u64 = 30;

/// Which of the two forms is shown.
#[derive(PartialEq, Eq, Structural, Clone, Copy, Debug)]
pub enum Mode {
    Login,
    Signup,
}

impl Mode {
    pub open spec fn flipped(self) -> Mode {
        match self {
            Mode::Login => Mode::Signup,
            Mode::Signup => Mode::Login,
        }
    }

    /// The other form.
    pub fn flip(self) -> (r: Mode)
        ensures
            r == self.flipped(),
    {
        match self {
            Mode::Login => Mode::Signup,
            Mode::Signup => Mode::Login,
        }
    }
}

/// The cross-fade between the two forms.
///
/// `opacity` counts steps of `1 / OPACITY_STEPS`, so the shown opacity is
/// `opacity / OPACITY_STEPS`. `direction` is `-1` while the current form fades
/// out, `1` while it fades in and `0` when nothing moves.
#[derive(PartialEq, Eq, Structural, Clone, Copy, Debug)]
pub struct Fade {
    pub mode: Mode,
    pub opacity: u8,
    pub direction: i8,
}

impl Fade {
    /// Opacity lies in `[0, 1]`, the direction is one of `-1, 0, 1`, and the
    /// fade rests only at full opacity.
    pub open spec fn wf(self) -> bool {
        &&& self.opacity <= OPACITY_STEPS
        &&& (self.direction == -1 || self.direction == 0 || self.direction == 1)
        &&& (self.direction == 0 ==> self.opacity == OPACITY_STEPS)
    }

    /// The resting state that shows `mode` fully.
    pub open spec fn idle(mode: Mode) -> Fade {
        Fade { mode, opacity: OPACITY_STEPS, direction: 0 }
    }

    /// A toggle request: the shown form starts to fade out, whichever it is;
    /// nothing else changes.
    pub open spec fn toggled(self) -> Fade {
        Fade { direction: -1i8, ..self }
    }

    /// One timer tick: the opacity moves one step in the current direction.
    /// Reaching 0 flips the mode and starts fading in; reaching full opacity
    /// comes to rest.
    pub open spec fn ticked(self) -> Fade {
        if self.direction == 0 {
            self
        } else {
            let o = self.opacity + self.direction;
            if o <= 0 {
                Fade { mode: self.mode.flipped(), opacity: 0, direction: 1 }
            } else if o >= OPACITY_STEPS {
                Fade { mode: self.mode, opacity: OPACITY_STEPS, direction: 0 }
            } else {
                Fade { opacity: o as u8, ..self }
            }
        }
    }

    /// The state after `n` ticks.
    pub open spec fn after_ticks(self, n: nat) -> Fade
        decreases n,
    {
        if n == 0 {
            self
        } else {
            self.ticked().after_ticks((n - 1) as nat)
        }
    }

    /// The login form, fully shown and at rest.
    pub fn new() -> (r: Fade)
        ensures
            r == Fade::idle(Mode::Login),
            r.wf(),
    {
        Fade { mode: Mode::Login, opacity: OPACITY_STEPS, direction: 0 }
    }

    /// Whether the state is well formed.
    pub fn is_valid(&self) -> (r: bool)
        ensures
            r == self.wf(),
    {
        self.opacity <= OPACITY_STEPS && (self.direction == -1 || self.direction == 0
            || self.direction == 1) && (self.direction != 0 || self.opacity == OPACITY_STEPS)
    }

    /// Starts a transition away from the current form.
    pub fn toggle(&mut self)
        requires
            old(self).wf(),
        ensures
            *final(self) == old(self).toggled(),
            final(self).wf(),
    {
        self.direction = -1;
    }

    /// Advances the fade by one tick.
    pub fn tick(&mut self)
        requires
            old(self).wf(),
        ensures
            *final(self) == old(self).ticked(),
            final(self).wf(),
    {
        if self.direction != 0 {
            let o: i16 = self.opacity as i16 + self.direction as i16;
            if o <= 0 {
                self.mode = self.mode.flip();
                self.opacity = 0;
                self.direction = 1;
            } else if o >= OPACITY_STEPS as i16 {
                self.opacity = OPACITY_STEPS;
                self.direction = 0;
            } else {
                self.opacity = o as u8;
            }
        }
    }
}

/// A tick keeps the state well formed.
pub proof fn lemma_tick_keeps_wf(f: Fade)
    requires
        f.wf(),
    ensures
        f.ticked().wf(),
{
}

/// Ticks compose: `a + b` ticks are `a` ticks followed by `b` ticks.
pub proof fn lemma_ticks_compose(f: Fade, a: nat, b: nat)
    ensures
        f.after_ticks(a + b) == f.after_ticks(a).after_ticks(b),
    decreases a,
{
    if a > 0 {
        lemma_ticks_compose(f.ticked(), (a - 1) as nat, b);
        assert((a + b - 1) as nat == ((a - 1) as nat + b) as nat);
    }
}

/// Whatever the number of ticks, the state stays well formed; in particular
/// the opacity stays within `[0, 1]`.
pub proof fn lemma_opacity_bounded(f: Fade, n: nat)
    requires
        f.wf(),
    ensures
        f.after_ticks(n).wf(),
        0 <= f.after_ticks(n).opacity <= OPACITY_STEPS,
    decreases n,
{
    if n > 0 {
        lemma_tick_keeps_wf(f);
        lemma_opacity_bounded(f.ticked(), (n - 1) as nat);
    }
}

/// A state at rest does not change on ticks.
pub proof fn lemma_idle_stays(f: Fade, n: nat)
    requires
        f.direction == 0,
    ensures
        f.after_ticks(n) == f,
    decreases n,
{
    if n > 0 {
        lemma_idle_stays(f, (n - 1) as nat);
    }
}

/// Fading out from `k` steps of opacity takes exactly `k` ticks, and ends
/// with the other form hidden and starting to fade in.
pub proof fn lemma_fade_out(f: Fade, k: nat)
    requires
        f.direction == -1,
        f.opacity == k,
        1 <= k <= OPACITY_STEPS,
    ensures
        f.after_ticks(k) == (Fade { mode: f.mode.flipped(), opacity: 0, direction: 1 }),
    decreases k,
{
    if k == 1 {
        assert(f.ticked().after_ticks(0) == f.ticked());
    } else {
        lemma_fade_out(f.ticked(), (k - 1) as nat);
    }
}

/// Fading in `k` steps short of full opacity takes exactly `k` ticks, and
/// ends at rest on the same form.
pub proof fn lemma_fade_in(f: Fade, k: nat)
    requires
        f.direction == 1,
        f.opacity + k == OPACITY_STEPS,
        1 <= k,
    ensures
        f.after_ticks(k) == Fade::idle(f.mode),
    decreases k,
{
    if k == 1 {
        assert(f.ticked().after_ticks(0) == f.ticked());
    } else {
        lemma_fade_in(f.ticked(), (k - 1) as nat);
    }
}

/// From either form at rest, a toggle request followed by `OPACITY_STEPS`
/// ticks hides that form and switches to the other, which starts to fade in;
/// `OPACITY_STEPS` more ticks show it fully and come to rest.
pub proof fn lemma_toggle_from_rest(m: Mode)
    ensures
        Fade::idle(m).toggled().after_ticks(OPACITY_STEPS as nat) == (Fade {
            mode: m.flipped(),
            opacity: 0,
            direction: 1,
        }),
        Fade::idle(m).toggled().after_ticks(2 * OPACITY_STEPS as nat) == Fade::idle(m.flipped()),
{
    let f = Fade::idle(m).toggled();
    let n = OPACITY_STEPS as nat;
    lemma_fade_out(f, n);
    let g = f.after_ticks(n);
    lemma_fade_in(g, n);
    lemma_ticks_compose(f, n, n);
    assert(n + n == 2 * OPACITY_STEPS as nat);
}

/// From either form at rest, two toggle requests, each followed by
/// `2 * OPACITY_STEPS` ticks, return to the same form at rest.
pub proof fn lemma_toggle_twice(m: Mode)
    ensures
        Fade::idle(m).toggled().after_ticks(2 * OPACITY_STEPS as nat).toggled().after_ticks(
            2 * OPACITY_STEPS as nat,
        ) == Fade::idle(m),
{
    lemma_toggle_from_rest(m);
    lemma_toggle_from_rest(m.flipped());
    assert(m.flipped().flipped() == m);
}

} // verus!
