//! What holds of every device handle, whatever its driver reports.

use vstd::prelude::*;
use crate::layout::{spec_ifreq_bytes, spec_u16_le, IFNAMSIZ};
use crate::error::{Error, ErrorKind};
use crate::lifecycle::{
    ActionView,
    Addressing,
    ControlOp,
    DeviceKind,
    Event,
    Input,
    Lifecycle,
    Stage,
    State,
};

verus! {

/// A handle for which nothing has been done holds no descriptor, and the
/// first thing it asks for is the control device file.
pub proof fn lemma_fresh_holds_nothing(ifname: Seq<i8>, kind: DeviceKind, addressing: Addressing)
    requires
        ifname.len() == IFNAMSIZ,
    ensures
        Lifecycle::fresh(ifname, kind, addressing).wf(),
        Lifecycle::fresh(ifname, kind, addressing).held() == 0,
        Lifecycle::fresh(ifname, kind, addressing).action() == ActionView::OpenDevice,
{
}

/// Whatever happens to a handle, what it holds goes on matching its stage.
pub proof fn lemma_feed_keeps_wf(m: Lifecycle, input: Input)
    requires
        m.wf(),
    ensures
        m.feed(input).wf(),
{
}

/// The same, of any number of inputs.
pub proof fn lemma_run_keeps_wf(m: Lifecycle, inputs: Seq<Input>)
    requires
        m.wf(),
    ensures
        m.run(inputs).wf(),
    decreases inputs.len(),
{
    if inputs.len() > 0 {
        lemma_feed_keeps_wf(m, inputs[0]);
        lemma_run_keeps_wf(m.feed(inputs[0]), inputs.drop_first());
    }
}

/// A handle never goes back: no input takes it to an earlier stage or
/// state. An outcome reported while an operation is outstanding takes it to
/// a later stage.
pub proof fn lemma_transitions_go_forward(m: Lifecycle, input: Input)
    requires
        m.wf(),
    ensures
        m.feed(input).stage.rank() >= m.stage.rank(),
        m.feed(input).state().rank() >= m.state().rank(),
        input is Outcome && !m.stage.is_idle() ==> m.feed(input).stage.rank() > m.stage.rank(),
{
}

/// Whether every input of `inputs` is a report of the driver.
pub open spec fn all_outcomes(inputs: Seq<Input>) -> bool {
    forall|i: int| 0 <= i < inputs.len() ==> inputs[i] is Outcome
}

/// A handle that waits for no operation is not moved by any report.
pub proof fn lemma_idle_stays_idle(m: Lifecycle, inputs: Seq<Input>)
    requires
        m.stage.is_idle(),
        all_outcomes(inputs),
    ensures
        m.run(inputs) == m,
    decreases inputs.len(),
{
    if inputs.len() > 0 {
        assert(inputs[0] is Outcome);
        assert(all_outcomes(inputs.drop_first())) by {
            assert forall|i: int| 0 <= i < inputs.drop_first().len() implies inputs.drop_first()[i]
                is Outcome by {
                assert(inputs.drop_first()[i] == inputs[i + 1]);
            }
        }
        lemma_idle_stays_idle(m.feed(inputs[0]), inputs.drop_first());
    }
}

/// A construction comes to an end. However the operations turn out, a
/// handle whose driver reports on each of them is ready or finished after
/// as many reports as there are stages left.
pub proof fn lemma_construction_ends(m: Lifecycle, inputs: Seq<Input>)
    requires
        m.wf(),
        all_outcomes(inputs),
        inputs.len() + m.stage.rank() >= Stage::Finished.rank(),
    ensures
        m.run(inputs).stage.is_idle(),
    decreases inputs.len(),
{
    if inputs.len() > 0 {
        assert(inputs[0] is Outcome);
        assert(all_outcomes(inputs.drop_first())) by {
            assert forall|i: int| 0 <= i < inputs.drop_first().len() implies inputs.drop_first()[i]
                is Outcome by {
                assert(inputs.drop_first()[i] == inputs[i + 1]);
            }
        }
        if m.stage.is_idle() {
            lemma_idle_stays_idle(m, inputs);
        } else {
            lemma_feed_keeps_wf(m, inputs[0]);
            lemma_transitions_go_forward(m, inputs[0]);
            lemma_construction_ends(m.feed(inputs[0]), inputs.drop_first());
        }
    }
}

/// A handle that is ready owns the device descriptor and nothing else, and
/// no operation of its construction has failed. A handle that has finished
/// owns nothing.
pub proof fn lemma_idle_handles(m: Lifecycle)
    requires
        m.wf(),
    ensures
        m.stage is Ready ==> m.device is Some && m.socket is None && m.failure is None,
        m.stage is Finished ==> m.held() == 0,
        m.action() is Failed ==> m.held() == 0 && m.failure == Some(m.action()->error),
{
}

/// Descriptors are accounted for: those held after any inputs are those held
/// before, and those opened since, less those closed since.
pub proof fn lemma_descriptor_balance(m: Lifecycle, inputs: Seq<Input>)
    requires
        m.wf(),
    ensures
        m.run(inputs).held() + m.closed(inputs) == m.held() + m.opened(inputs),
    decreases inputs.len(),
{
    if inputs.len() > 0 {
        let next = m.feed(inputs[0]);
        lemma_feed_keeps_wf(m, inputs[0]);
        lemma_descriptor_balance(next, inputs.drop_first());
    }
}

/// A handle that has run its course, from nothing to the end, has had every
/// descriptor closed that was opened for it: as many were closed as were
/// opened, whether the construction succeeded or failed, and wherever its
/// owner gave it up.
pub proof fn lemma_cycle_leaves_nothing_open(
    ifname: Seq<i8>,
    kind: DeviceKind,
    addressing: Addressing,
    inputs: Seq<Input>,
)
    requires
        ifname.len() == IFNAMSIZ,
        Lifecycle::fresh(ifname, kind, addressing).run(inputs).stage is Finished,
    ensures
        Lifecycle::fresh(ifname, kind, addressing).opened(inputs) == Lifecycle::fresh(
            ifname,
            kind,
            addressing,
        ).closed(inputs),
{
    let m = Lifecycle::fresh(ifname, kind, addressing);
    lemma_descriptor_balance(m, inputs);
    lemma_run_keeps_wf(m, inputs);
}

/// Whether a handle is past its construction: it only gives back what it
/// holds, or has done so.
pub open spec fn winding_down(m: Lifecycle) -> bool {
    m.stage is ReleaseSocket || m.stage is ReleaseDevice || m.stage is Finished
}

/// A handle that is past its construction stays so, whatever comes in: it
/// issues no control call any more, and what it knows of a failure no
/// longer changes.
pub proof fn lemma_failure_is_final(m: Lifecycle, inputs: Seq<Input>)
    requires
        winding_down(m),
    ensures
        winding_down(m.run(inputs)),
        !(m.run(inputs).action() is Control),
        m.run(inputs).failure == m.failure,
    decreases inputs.len(),
{
    if inputs.len() > 0 {
        lemma_failure_is_final(m.feed(inputs[0]), inputs.drop_first());
    }
}

/// A netmask that the kernel refuses, after it has accepted the address,
/// fails the construction with `AddIp` and the kernel's error. The address
/// is not taken back: from then on the handle only closes its descriptors,
/// and in the end reports that failure.
pub proof fn lemma_netmask_failure_is_not_rolled_back(
    m: Lifecycle,
    cause: Option<i32>,
    inputs: Seq<Input>,
)
    requires
        m.wf(),
        m.stage is SetNetmask4,
    ensures
        ({
            let failed = m.step(Event::Failed { cause });
            let error = Error { kind: ErrorKind::AddIp, cause };
            &&& failed.failure == Some(error)
            &&& failed.action() == ActionView::Close { fd: m.socket.unwrap() }
            &&& !(failed.run(inputs).action() is Control)
            &&& failed.run(inputs).stage is Finished ==> failed.run(inputs).action()
                == ActionView::Failed { error }
        }),
{
    lemma_failure_is_final(m.step(Event::Failed { cause }), inputs);
}

/// The only way into the state `Active` is the flags-set call: the handle
/// has asked for the flags "up" and "running" to be set on its interface,
/// and the driver has reported that they were.
pub proof fn lemma_active_only_after_flags_set(m: Lifecycle, input: Input)
    requires
        m.wf(),
        m.state().rank() < State::Active.rank(),
        m.feed(input).state() == State::Active,
    ensures
        m.stage is SetFlags,
        input matches Input::Outcome(Event::Completed { .. }),
        m.action() == (ActionView::Control {
            fd: m.socket.unwrap(),
            op: ControlOp::SetFlags,
            request: spec_ifreq_bytes(m.ifname, spec_u16_le(0x41)),
        }),
{
}

/// A device becomes ready only by way of every state before: each input
/// takes a handle that is still under construction at most one state
/// further. The one state that may be passed over is `Addressed`, and only
/// where no address is configured.
pub proof fn lemma_no_state_is_skipped(m: Lifecycle, input: Input)
    requires
        m.wf(),
        m.feed(input).state().rank() <= State::Registered.rank(),
    ensures
        m.feed(input).state().rank() <= m.state().rank() + 1 || (!m.addressing.any() && m.state()
            == State::Named && m.feed(input).state() == State::Active),
{
}

} // verus!
