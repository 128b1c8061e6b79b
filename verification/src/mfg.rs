//! Manufacturing-exchange session: the decision core of the identity
//! exchange with an external provisioning system.
//!
//! In the manufacturing build the derived measurement is sent over a
//! byte-oriented transport and the provisioning system confirms the identity
//! material. The transport itself lives outside this library; the session
//! here is a state machine from state and transport event to next state. The
//! wait for a confirmation is a bounded poll with a hard budget, and any
//! failure — a refused send, an unexpected event, an exhausted budget — ends
//! the session in `Failed`: measurement is mandatory in this build, so the
//! runner must halt rather than boot unmeasured code.

use vstd::prelude::*;

verus! {

/// Poll intervals the session waits for a confirmation before the hard
/// timeout.
pub const MFG_POLL_BUDGET: u32 = 1000;

/// State of a manufacturing-exchange session.
#[derive(Clone, Copy, Debug, PartialEq, Eq, Structural)]
pub enum MfgState {
    /// The measurement is ready and has not been sent.
    SendMeasurement,
    /// The measurement went out; this many poll intervals remain before the
    /// exchange times out.
    AwaitConfirmation(u32),
    /// The provisioning system confirmed the identity material; the boot may
    /// proceed.
    Confirmed,
    /// The exchange failed; the boot attempt must halt.
    Failed,
}

/// A transport event handed back to the session.
#[derive(Clone, Copy, Debug, PartialEq, Eq, Structural)]
pub enum MfgEvent {
    /// The transport accepted the measurement bytes.
    SentOk,
    /// The transport refused to send.
    SendFailed,
    /// The provisioning system's confirmation arrived.
    ConfirmReceived,
    /// A poll interval passed with no reply.
    NoReply,
}

/// The session's transition on event `e` in state `s`. `Confirmed` and
/// `Failed` are terminal; any event a state does not expect fails the
/// session.
pub open spec fn spec_mfg_step(s: MfgState, e: MfgEvent) -> MfgState {
    match s {
        MfgState::SendMeasurement => match e {
            MfgEvent::SentOk => MfgState::AwaitConfirmation(MFG_POLL_BUDGET),
            _ => MfgState::Failed,
        },
        MfgState::AwaitConfirmation(polls_left) => match e {
            MfgEvent::ConfirmReceived => MfgState::Confirmed,
            MfgEvent::NoReply => if polls_left == 0 {
                MfgState::Failed
            } else {
                MfgState::AwaitConfirmation((polls_left - 1) as u32)
            },
            _ => MfgState::Failed,
        },
        MfgState::Confirmed => MfgState::Confirmed,
        MfgState::Failed => MfgState::Failed,
    }
}

/// Advances the session by one transport event.
pub fn mfg_step(s: MfgState, e: MfgEvent) -> (r: MfgState)
    ensures
        r == spec_mfg_step(s, e),
{
    match s {
        MfgState::SendMeasurement => match e {
            MfgEvent::SentOk => MfgState::AwaitConfirmation(MFG_POLL_BUDGET),
            _ => MfgState::Failed,
        },
        MfgState::AwaitConfirmation(polls_left) => match e {
            MfgEvent::ConfirmReceived => MfgState::Confirmed,
            MfgEvent::NoReply => if polls_left == 0 {
                MfgState::Failed
            } else {
                MfgState::AwaitConfirmation(polls_left - 1)
            },
            _ => MfgState::Failed,
        },
        MfgState::Confirmed => MfgState::Confirmed,
        MfgState::Failed => MfgState::Failed,
    }
}

/// Law: a received confirmation is the only way into `Confirmed` — no event
/// sequence completes the exchange silently, so a mandatory measurement is
/// never skipped.
pub proof fn lemma_confirmation_required(s: MfgState, e: MfgEvent)
    ensures
        spec_mfg_step(s, e) == MfgState::Confirmed ==> (s == MfgState::Confirmed || (s matches
        MfgState::AwaitConfirmation(_) && e == MfgEvent::ConfirmReceived)),
{
}

/// Law: the wait for a confirmation is bounded — every silent poll strictly
/// lowers the remaining budget, and a silent poll on an exhausted budget
/// fails the session.
pub proof fn lemma_wait_bounded(polls_left: u32)
    ensures
        polls_left > 0 ==> spec_mfg_step(MfgState::AwaitConfirmation(polls_left), MfgEvent::NoReply)
            == MfgState::AwaitConfirmation((polls_left - 1) as u32),
        spec_mfg_step(MfgState::AwaitConfirmation(0), MfgEvent::NoReply) == MfgState::Failed,
{
}

/// Law: the two outcomes are terminal — no event leaves `Confirmed` or
/// `Failed`.
pub proof fn lemma_outcomes_terminal(e: MfgEvent)
    ensures
        spec_mfg_step(MfgState::Confirmed, e) == MfgState::Confirmed,
        spec_mfg_step(MfgState::Failed, e) == MfgState::Failed,
{
}

} // verus!
