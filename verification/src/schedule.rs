//! Sequences of critical sections on the shared context.
//!
//! The sampling loop and the interrupt handler never touch the context at
//! the same time: whatever the order in which their sections fall, the
//! context goes through them one whole operation after another. This module
//! states what follows from that for any such sequence.

use vstd::prelude::*;
use crate::report::HidReport;
use crate::usb::{ContextState, Operation};

verus! {

/// The state after a sequence of operations, each applied to the state that
/// the one before it left behind.
pub open spec fn run(state: ContextState, ops: Seq<Operation>) -> ContextState
    decreases ops.len(),
{
    if ops.len() == 0 {
        state
    } else {
        run(state, ops.drop_last()).after(ops.last())
    }
}

/// The report that one operation sends to the host from `state`, if any.
/// Only a sample sends one.
pub open spec fn report_of_section(state: ContextState, op: Operation) -> Option<HidReport> {
    match op {
        Operation::Send { pressed, x, y } => state.transmits(pressed, x, y),
        _ => None,
    }
}

/// The reports that a sequence of operations sends to the host, in order.
pub open spec fn reports(state: ContextState, ops: Seq<Operation>) -> Seq<HidReport>
    decreases ops.len(),
{
    if ops.len() == 0 {
        Seq::empty()
    } else {
        let earlier = reports(state, ops.drop_last());
        match report_of_section(run(state, ops.drop_last()), ops.last()) {
            Some(report) => earlier.push(report),
            None => earlier,
        }
    }
}

/// Sections commit in order and nothing is held back between them: a
/// sequence continues from exactly the state that the sections before it
/// left, and sends exactly the reports that it would send from there.
pub proof fn sections_compose(state: ContextState, first: Seq<Operation>, second: Seq<Operation>)
    ensures
        run(state, first + second) == run(run(state, first), second),
        reports(state, first + second) == reports(state, first) + reports(
            run(state, first),
            second,
        ),
    decreases second.len(),
{
    if second.len() == 0 {
        assert(first + second =~= first);
        assert(reports(state, first) + Seq::<HidReport>::empty() =~= reports(state, first));
    } else {
        let both = first + second;
        assert(both.drop_last() =~= first + second.drop_last());
        assert(both.last() == second.last());
        sections_compose(state, first, second.drop_last());
        let middle = run(state, first);
        let earlier = reports(middle, second.drop_last());
        match report_of_section(run(middle, second.drop_last()), second.last()) {
            Some(report) => {
                assert(reports(state, both) =~= reports(state, first) + earlier.push(report));
            },
            None => {},
        }
    }
}

/// A poll of the USB stack leaves no trace in the shared state: wherever the
/// interrupt handler's section falls among the others, the context ends in
/// the same state and the host gets the same reports as without it.
pub proof fn polls_leave_no_trace(state: ContextState, ops: Seq<Operation>, at: int)
    requires
        0 <= at <= ops.len(),
    ensures
        run(state, ops.insert(at, Operation::Poll)) == run(state, ops),
        reports(state, ops.insert(at, Operation::Poll)) == reports(state, ops),
{
    let before = ops.subrange(0, at);
    let after = ops.subrange(at, ops.len() as int);
    let poll = seq![Operation::Poll];
    assert(ops =~= before + after);
    assert(ops.insert(at, Operation::Poll) =~= (before + poll) + after);
    assert(poll.drop_last() =~= Seq::<Operation>::empty());
    assert(run(run(state, before), poll) == run(state, before)) by {
        reveal_with_fuel(run, 2);
    }
    assert(reports(run(state, before), poll) =~= Seq::<HidReport>::empty()) by {
        reveal_with_fuel(reports, 2);
    }
    sections_compose(state, before, poll);
    sections_compose(state, before + poll, after);
    sections_compose(state, before, after);
    assert(reports(state, before) + Seq::<HidReport>::empty() =~= reports(state, before));
}

/// There is no way out of service: a context that is initialized stays so
/// through every sequence of operations.
pub proof fn service_never_ends(state: ContextState, ops: Seq<Operation>)
    requires
        state is Active,
    ensures
        run(state, ops) is Active,
    decreases ops.len(),
{
    if ops.len() > 0 {
        service_never_ends(state, ops.drop_last());
    }
}

/// Until it is initialized a context takes nothing: samples and polls leave
/// it uninitialized and send no report.
pub proof fn nothing_before_initialization(state: ContextState, ops: Seq<Operation>)
    requires
        state is Uninitialized,
        forall|i: int| 0 <= i < ops.len() ==> !(#[trigger] ops[i] is Init),
    ensures
        run(state, ops) is Uninitialized,
        reports(state, ops) == Seq::<HidReport>::empty(),
    decreases ops.len(),
{
    if ops.len() > 0 {
        nothing_before_initialization(state, ops.drop_last());
    }
}

} // verus!
