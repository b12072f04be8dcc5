//! Control plane: joining the wireless network.
//!
//! Two interchangeable variants share one contract. The native variant
//! issues join requests directly and retries every failure with the same
//! credentials, forever, until one succeeds. The modem variant brings the
//! link up by running a fixed sequence of line commands, where any exchange
//! failure is fatal to the whole sequence.

use vstd::prelude::*;
use crate::framer::CommandError;

verus! {

/// Network name and passphrase, fixed at build time and never changed.
pub struct Credentials {
    pub network_name: String,
    pub passphrase: String,
}

impl Credentials {
    pub fn new(network_name: String, passphrase: String) -> (c: Credentials)
        ensures
            c.network_name == network_name,
            c.passphrase == passphrase,
    {
        Credentials { network_name, passphrase }
    }
}

/// Result of one association attempt, as the chip reported it.
#[derive(Clone, Copy, Debug, PartialEq, Eq, Structural)]
pub enum AssociationStatus {
    Success,
    /// The attempt failed with this status code.
    Failed(u32),
}

/// What the control plane does after an association attempt.
#[derive(Clone, Copy, Debug, PartialEq, Eq, Structural)]
pub enum JoinDecision {
    /// Joined: apply the fixed power-management mode and hand control to
    /// the readiness gate.
    Connected,
    /// Log this status code and issue the identical join request again,
    /// without delay.
    Retry(u32),
}

/// The decision the join loop takes on an attempt's outcome.
pub open spec fn join_decision(attempt: AssociationStatus) -> JoinDecision {
    match attempt {
        AssociationStatus::Success => JoinDecision::Connected,
        AssociationStatus::Failed(code) => JoinDecision::Retry(code),
    }
}

/// Join retry: a failed attempt never ends the join loop. Whatever the
/// status code, the decision is another attempt, and the code is the one
/// that is logged.
pub proof fn lemma_join_retry(attempt: AssociationStatus)
    requires
        attempt is Failed,
    ensures
        join_decision(attempt) is Retry,
        join_decision(attempt)->Retry_0 == attempt->Failed_0,
        join_decision(attempt) != JoinDecision::Connected,
{
}

/// The native-variant join loop: its credentials and whether it has joined.
pub struct JoinLoop {
    pub credentials: Credentials,
    pub connected: bool,
}

impl JoinLoop {
    /// A loop that has not joined yet.
    pub fn new(credentials: Credentials) -> (j: JoinLoop)
        ensures
            j.credentials == credentials,
            !j.connected,
    {
        JoinLoop { credentials, connected: false }
    }

    /// Takes one attempt's outcome. Success ends the loop; any failure is
    /// retried with the credentials untouched — no backoff, no attempt
    /// limit, no escalation.
    pub fn step(&mut self, attempt: AssociationStatus) -> (d: JoinDecision)
        requires
            !old(self).connected,
        ensures
            final(self).credentials == old(self).credentials,
            final(self).connected == (attempt is Success),
            d == join_decision(attempt),
    {
        match attempt {
            AssociationStatus::Success => {
                self.connected = true;
                JoinDecision::Connected
            },
            AssociationStatus::Failed(code) => JoinDecision::Retry(code),
        }
    }
}

/// Number of commands in the modem bring-up sequence.
pub const BRINGUP_COMMAND_COUNT: usize = 4;

/// The fixed bring-up commands, in order: disable command echo, select
/// station mode, allow multiple connections, start the listening server.
pub open spec fn spec_bringup_command(i: int) -> Seq<u8> {
    if i == 0 {
        // "ATE0"
        seq![65u8, 84u8, 69u8, 48u8]
    } else if i == 1 {
        // "AT+CWMODE=1"
        seq![65u8, 84u8, 43u8, 67u8, 87u8, 77u8, 79u8, 68u8, 69u8, 61u8, 49u8]
    } else if i == 2 {
        // "AT+CIPMUX=1"
        seq![65u8, 84u8, 43u8, 67u8, 73u8, 80u8, 77u8, 85u8, 88u8, 61u8, 49u8]
    } else {
        // "AT+CIPSERVER=1"
        seq![65u8, 84u8, 43u8, 67u8, 73u8, 80u8, 83u8, 69u8, 82u8, 86u8, 69u8, 82u8, 61u8, 49u8]
    }
}

/// The bytes of the `i`-th bring-up command, before framing.
pub fn bringup_command(i: usize) -> (cmd: Vec<u8>)
    requires
        i < BRINGUP_COMMAND_COUNT,
    ensures
        cmd@ == spec_bringup_command(i as int),
{
    let mut cmd: Vec<u8> = Vec::new();
    cmd.push(65);
    cmd.push(84);
    if i == 0 {
        cmd.push(69);
        cmd.push(48);
    } else {
        cmd.push(43);
        cmd.push(67);
        if i == 1 {
            cmd.push(87);
            cmd.push(77);
            cmd.push(79);
            cmd.push(68);
            cmd.push(69);
        } else {
            cmd.push(73);
            cmd.push(80);
            if i == 2 {
                cmd.push(77);
                cmd.push(85);
                cmd.push(88);
            } else {
                cmd.push(83);
                cmd.push(69);
                cmd.push(82);
                cmd.push(86);
                cmd.push(69);
                cmd.push(82);
            }
        }
        cmd.push(61);
        cmd.push(49);
    }
    proof {
        assert(cmd@ =~= spec_bringup_command(i as int));
    }
    cmd
}

/// Where the modem bring-up sequence stands.
#[derive(Clone, Copy, Debug, PartialEq, Eq, Structural)]
pub enum BringUpState {
    /// The commands before this index are acknowledged; this one is next.
    InProgress(usize),
    /// All commands acknowledged; the modem is configured and listening.
    Done,
    /// An exchange failed; the whole sequence is abandoned with this cause.
    Failed(CommandError),
}

/// A bring-up state that can arise: an in-progress index stays within the
/// command sequence.
pub open spec fn bringup_wf(s: BringUpState) -> bool {
    s is InProgress ==> s->InProgress_0 < BRINGUP_COMMAND_COUNT
}

/// The state after the current command's exchange ends with `outcome`.
pub open spec fn bringup_next(s: BringUpState, outcome: Result<(), CommandError>) -> BringUpState {
    match outcome {
        Ok(_) => if s->InProgress_0 + 1 == BRINGUP_COMMAND_COUNT {
            BringUpState::Done
        } else {
            BringUpState::InProgress((s->InProgress_0 + 1) as usize)
        },
        Err(e) => BringUpState::Failed(e),
    }
}

/// The sequence starts at its first command.
pub fn bringup_start() -> (s: BringUpState)
    ensures
        s == BringUpState::InProgress(0usize),
        bringup_wf(s),
{
    BringUpState::InProgress(0)
}

/// Advances the sequence by one exchange outcome: an acknowledged command
/// moves to the next (or finishes the sequence), any failure abandons the
/// sequence — no retry, no partial fallback.
pub fn bringup_advance(s: BringUpState, outcome: Result<(), CommandError>) -> (next: BringUpState)
    requires
        s is InProgress,
        bringup_wf(s),
    ensures
        next == bringup_next(s, outcome),
        bringup_wf(next),
{
    match s {
        BringUpState::InProgress(i) => match outcome {
            Ok(()) => {
                if i + 1 == BRINGUP_COMMAND_COUNT {
                    BringUpState::Done
                } else {
                    BringUpState::InProgress(i + 1)
                }
            },
            Err(e) => BringUpState::Failed(e),
        },
        _ => s,
    }
}

/// An exchange failure is fatal to bring-up: whichever command was in
/// flight and whichever cause occurred, the sequence lands in `Failed`
/// with that cause, and no step is taken from `Failed` or `Done`.
pub proof fn lemma_bringup_failure_fatal(s: BringUpState, e: CommandError)
    requires
        s is InProgress,
    ensures
        bringup_next(s, Err(e)) == BringUpState::Failed(e),
{
}

} // verus!
