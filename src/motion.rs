use vstd::prelude::*;

use vstd::arithmetic::div_mod::lemma_fundamental_div_mod_converse;

use crate::layout::ConfigError;

verus! {

/// The shape of the platform's duty cycle: of every `cycle_length` steps the
/// platform moves on the first `active_steps` (counting residues from zero)
/// and holds still on the rest.
#[derive(Debug, Clone, Copy, PartialEq, Eq, Structural)]
pub struct DutyCycle {
    cycle_length: u64,
    active_steps: u64,
}

/// What the host does with the platform on one simulation step.
#[derive(Debug, Clone, Copy, PartialEq, Eq, Structural)]
pub enum StepAction {
    /// Leave the platform where it is.
    Hold,
    /// Advance the platform along its path and set it as the next kinematic target.
    Move,
}

impl DutyCycle {
    pub closed spec fn cycle(self) -> nat {
        self.cycle_length as nat
    }

    pub closed spec fn window(self) -> nat {
        self.active_steps as nat
    }

    pub open spec fn wf(self) -> bool {
        self.cycle() > 0
    }

    /// Whether the platform moves on step number `step`.
    pub open spec fn active_on(self, step: nat) -> bool {
        step % self.cycle() < self.window()
    }

    /// A cycle of `cycle_length` steps that moves on its first `active_steps`.
    pub fn new(cycle_length: u64, active_steps: u64) -> (r: Result<DutyCycle, ConfigError>)
        ensures
            cycle_length == 0 <==> r == Err::<DutyCycle, ConfigError>(ConfigError::EmptyCycle),
            cycle_length > 0 <==> r is Ok,
            r matches Ok(d) ==> d.wf() && d.cycle() == cycle_length && d.window() == active_steps,
    {
        if cycle_length == 0 {
            Err(ConfigError::EmptyCycle)
        } else {
            Ok(DutyCycle { cycle_length, active_steps })
        }
    }

    pub fn cycle_length(&self) -> (r: u64)
        ensures
            r == self.cycle(),
    {
        self.cycle_length
    }

    pub fn active_steps(&self) -> (r: u64)
        ensures
            r == self.window(),
    {
        self.active_steps
    }

    /// Whether the platform moves on step number `step`.
    pub fn is_active(&self, step: u64) -> (r: bool)
        requires
            self.wf(),
        ensures
            r == self.active_on(step as nat),
    {
        step % self.cycle_length < self.active_steps
    }
}

/// Within cycle number `c`, step `c * cycle + offset` moves the platform
/// exactly when `offset` falls in the leading window: the platform moves on
/// every step of the window and holds still on every other step of the cycle.
pub proof fn law_duty_cycle_gating(d: DutyCycle, c: nat, offset: nat)
    requires
        d.wf(),
        offset < d.cycle(),
    ensures
        d.active_on(c * d.cycle() + offset) <==> offset < d.window(),
{
    lemma_fundamental_div_mod_converse(
        (c * d.cycle() + offset) as int,
        d.cycle() as int,
        c as int,
        offset as int,
    );
}

/// The duty cycle repeats: a step and the step one cycle later are
/// both active or both idle.
pub proof fn law_duty_cycle_periodic(d: DutyCycle, step: nat)
    requires
        d.wf(),
    ensures
        d.active_on(step + d.cycle()) == d.active_on(step),
{
    let q = step / d.cycle();
    let r = step % d.cycle();
    assert(step == q * d.cycle() + r) by (nonlinear_arith)
        requires
            d.cycle() > 0,
            q == step / d.cycle(),
            r == step % d.cycle(),
    ;
    assert(step + d.cycle() == (q + 1) * d.cycle() + r) by (nonlinear_arith)
        requires
            step == q * d.cycle() + r,
    ;
    lemma_fundamental_div_mod_converse(
        (step + d.cycle()) as int,
        d.cycle() as int,
        (q + 1) as int,
        r as int,
    );
}

/// The state that drives the platform: the host's handle to it and the number
/// of steps seen so far.
#[derive(Debug, Clone, Copy)]
pub struct PlatformController<H> {
    platform: H,
    steps: u64,
    duty: DutyCycle,
}

impl<H> PlatformController<H> {
    pub closed spec fn handle(self) -> H {
        self.platform
    }

    pub closed spec fn step_count(self) -> nat {
        self.steps as nat
    }

    pub closed spec fn cycle_shape(self) -> DutyCycle {
        self.duty
    }

    pub open spec fn wf(self) -> bool {
        self.cycle_shape().wf()
    }

    /// A controller for `platform` that has seen no step yet.
    pub fn new(platform: H, duty: DutyCycle) -> (r: PlatformController<H>)
        requires
            duty.wf(),
        ensures
            r.wf(),
            r.handle() == platform,
            r.step_count() == 0,
            r.cycle_shape() == duty,
    {
        PlatformController { platform, steps: 0, duty }
    }

    pub fn platform(&self) -> (r: &H)
        ensures
            *r == self.handle(),
    {
        &self.platform
    }

    pub fn steps(&self) -> (r: u64)
        ensures
            r == self.step_count(),
    {
        self.steps
    }

    pub fn duty(&self) -> (r: DutyCycle)
        ensures
            r == self.cycle_shape(),
    {
        self.duty
    }

    /// Counts one more step and says whether the platform moves on it.
    pub fn on_step(&mut self) -> (r: StepAction)
        requires
            old(self).wf(),
            old(self).step_count() < u64::MAX,
        ensures
            final(self).wf(),
            final(self).step_count() == old(self).step_count() + 1,
            final(self).handle() == old(self).handle(),
            final(self).cycle_shape() == old(self).cycle_shape(),
            r == if old(self).cycle_shape().active_on(final(self).step_count()) {
                StepAction::Move
            } else {
                StepAction::Hold
            },
    {
        self.steps = self.steps + 1;
        if self.duty.is_active(self.steps) {
            StepAction::Move
        } else {
            StepAction::Hold
        }
    }
}

} // verus!
