//! The state shared by the sampling loop and the USB interrupt handler, and
//! the three operations that touch it.
//!
//! Each operation takes the context by exclusive reference and is one step
//! from the state before it to the state after it. The firmware runs every
//! call inside one critical section, so that no step is ever seen half done.

use vstd::prelude::*;
use crate::direction::{Direction, DirectionMap, LAMPS};
use crate::led::LedPanel;
use crate::motion::{filtered, magnitude, MotionFilter, THRESHOLD};
use crate::report::{HidReport, ReportBuilder};

verus! {

/// Misuse of the shared context. The firmware treats either as fatal.
#[derive(Clone, Copy, PartialEq, Eq, Structural, Debug)]
pub enum ContextError {
    /// The context was used before it was initialized.
    Uninitialized,
    /// The context was initialized a second time.
    AlreadyInitialized,
}

/// What a shared context holds, as plain values.
pub enum ContextState {
    /// Nothing yet: initialization has not happened.
    Uninitialized,
    /// In service: the lamp states by lamp index, and the button state that
    /// the last sample brought.
    Active { lamps: Seq<bool>, last_button: bool },
}

/// One critical section's worth of work on the shared context.
pub enum Operation {
    /// Initialization, with the lamp states to start from.
    Init { lamps: Seq<bool> },
    /// A sample from the sampling loop: the button and the scaled motion.
    Send { pressed: bool, x: int, y: int },
    /// A poll of the USB stack from the interrupt handler.
    Poll,
}

impl ContextState {
    /// An active context has a lamp state for each of the eight lamps.
    pub open spec fn wf(self) -> bool {
        self matches ContextState::Active { lamps, .. } ==> lamps.len() == LAMPS
    }

    /// Whether the context, in this state, takes the operation. It takes
    /// initialization once, and samples and polls from then on.
    pub open spec fn accepts(self, op: Operation) -> bool {
        match op {
            Operation::Init { .. } => self is Uninitialized,
            Operation::Send { .. } => self is Active,
            Operation::Poll => self is Active,
        }
    }

    /// The state that an operation leaves behind.
    ///
    /// Initialization puts the context in service with the button released.
    /// A sample shows the direction of its filtered motion on the lamps and
    /// stores its button state, whether or not a report goes out. A poll and
    /// an operation that is not taken leave the state as it was.
    pub open spec fn after(self, op: Operation) -> ContextState {
        if !self.accepts(op) {
            self
        } else {
            match op {
                Operation::Init { lamps } => ContextState::Active { lamps, last_button: false },
                Operation::Send { pressed, x, y } => {
                    let (dx, dy) = filtered(x, y);
                    ContextState::Active {
                        lamps: LedPanel::showing(DirectionMap::direction_of(dx, dy)),
                        last_button: pressed,
                    }
                },
                Operation::Poll => self,
            }
        }
    }

    /// The report that a sample sends to the host from this state, if any:
    /// the one built from its filtered motion, where the button changed or
    /// the filtered motion is not at rest.
    pub open spec fn transmits(self, pressed: bool, x: int, y: int) -> Option<HidReport> {
        match self {
            ContextState::Uninitialized => None,
            ContextState::Active { last_button, .. } => {
                let (dx, dy) = filtered(x, y);
                ReportBuilder::decision(last_button, pressed, dx, dy)
            },
        }
    }
}

/// Noise at rest is silent: a sample below the threshold that brings no change
/// of the button sends nothing, and darkens every lamp.
pub proof fn noise_sends_nothing(state: ContextState, pressed: bool, x: int, y: int)
    requires
        state matches ContextState::Active { last_button, .. } && last_button == pressed,
        magnitude(x, y) < THRESHOLD,
    ensures
        state.transmits(pressed, x, y) is None,
        state.after(Operation::Send { pressed, x, y }) == (ContextState::Active {
            lamps: LedPanel::showing(Direction::Neutral),
            last_button: pressed,
        }),
{
}

/// The state shared by the sampling loop and the interrupt handler: the lamp
/// panel and the button state of the last sample, once initialized.
///
/// There is one way into service, `init_globals`, and none out of it.
pub struct SharedUsbContext {
    active: bool,
    leds: LedPanel,
    last_button: bool,
}

impl View for SharedUsbContext {
    type V = ContextState;

    closed spec fn view(&self) -> ContextState {
        if self.active {
            ContextState::Active { lamps: self.leds@, last_button: self.last_button }
        } else {
            ContextState::Uninitialized
        }
    }
}

impl SharedUsbContext {
    /// A context that is not yet initialized.
    pub fn new() -> (ctx: SharedUsbContext)
        ensures
            ctx@ == ContextState::Uninitialized,
    {
        SharedUsbContext { active: false, leds: LedPanel::new(), last_button: false }
    }

    /// Every context is well formed.
    pub proof fn always_wf(&self)
        ensures
            self@.wf(),
    {
        self.leds.eight_lamps();
    }

    /// Whether the context has been initialized.
    pub fn is_active(&self) -> (active: bool)
        ensures
            active == (self@ is Active),
    {
        self.active
    }

    /// The lamp panel, once the context is initialized.
    pub fn leds(&self) -> (leds: Option<LedPanel>)
        ensures
            match self@ {
                ContextState::Uninitialized => leds is None,
                ContextState::Active { lamps, .. } => leds matches Some(panel) && panel@ == lamps,
            },
    {
        if self.active {
            Some(self.leds)
        } else {
            None
        }
    }

    /// The button state that the last sample brought, once the context is
    /// initialized; `false` until the first sample.
    pub fn last_button(&self) -> (button: Option<bool>)
        ensures
            match self@ {
                ContextState::Uninitialized => button is None,
                ContextState::Active { last_button, .. } => button == Some(last_button),
            },
    {
        if self.active {
            Some(self.last_button)
        } else {
            None
        }
    }
}

/// Puts the context in service with the given lamp panel and the button
/// released. Fails, and changes nothing, if the context is in service already.
pub fn init_globals(ctx: &mut SharedUsbContext, leds: LedPanel) -> (outcome: Result<
    (),
    ContextError,
>)
    ensures
        final(ctx)@ == old(ctx)@.after(Operation::Init { lamps: leds@ }),
        old(ctx)@ is Uninitialized ==> outcome is Ok && final(ctx)@ == (ContextState::Active {
            lamps: leds@,
            last_button: false,
        }),
        old(ctx)@ is Active ==> outcome == Err::<(), ContextError>(
            ContextError::AlreadyInitialized,
        ) && final(ctx)@ == old(ctx)@,
{
    if ctx.active {
        Err(ContextError::AlreadyInitialized)
    } else {
        ctx.active = true;
        ctx.leds = leds;
        ctx.last_button = false;
        Ok(())
    }
}

/// Takes one sample from the sampling loop: the button state and the scaled
/// motion `(x, y)`.
///
/// The motion is filtered, the lamps show its direction, and the report for
/// it is returned if one has to be sent: when the button differs from that
/// of the last sample or the filtered motion is not at rest. The button
/// state is stored either way. Fails, and changes nothing, if the context is
/// not initialized.
pub fn send(ctx: &mut SharedUsbContext, pressed: bool, x: i16, y: i16) -> (outcome: Result<
    Option<HidReport>,
    ContextError,
>)
    ensures
        final(ctx)@ == old(ctx)@.after(Operation::Send { pressed, x: x as int, y: y as int }),
        old(ctx)@ is Uninitialized ==> outcome == Err::<Option<HidReport>, ContextError>(
            ContextError::Uninitialized,
        ),
        old(ctx)@ is Active ==> outcome == Ok::<Option<HidReport>, ContextError>(
            old(ctx)@.transmits(pressed, x as int, y as int),
        ),
{
    if !ctx.active {
        return Err(ContextError::Uninitialized);
    }
    let (dx, dy) = MotionFilter::filter(x, y);
    ctx.leds.apply(DirectionMap::classify(dx, dy));
    let report = ReportBuilder::decide(ctx.last_button, pressed, dx, dy);
    ctx.last_button = pressed;
    Ok(report)
}

/// Entry of the USB interrupt handler: says whether the USB stack is to be
/// polled. It is, once, whenever the context is in service; the context
/// itself is only read. Fails if the context is not initialized.
pub fn usb_interrupt(ctx: &SharedUsbContext) -> (outcome: Result<(), ContextError>)
    ensures
        ctx@.after(Operation::Poll) == ctx@,
        outcome == if ctx@ is Active {
            Ok::<(), ContextError>(())
        } else {
            Err::<(), ContextError>(ContextError::Uninitialized)
        },
{
    if ctx.active {
        Ok(())
    } else {
        Err(ContextError::Uninitialized)
    }
}

} // verus!
