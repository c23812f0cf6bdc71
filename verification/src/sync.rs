//! Synchronization state-machine boundary.
use vstd::prelude::*;

verus! {

/// Monotonic synchronization milestones visible to callers.
///
/// `LocalCommitted` means the source has a durable commit, `HubReceived` means
/// the hub has durably stored the event and deduplication record, and
/// `HubApplied` means current state plus the apply cursor are durable. The enum
/// contains no transient network state, so it cannot imply that an ACK was
/// sent merely because a connection exists.
#[derive(Debug, Clone, Copy, PartialEq, Eq, Structural)]
pub enum SyncState {
    LocalCommitted,
    HubReceived,
    HubApplied,
}

/// Identifies a rejected edge in the monotonic synchronization graph.
#[derive(Debug, Clone, Copy, PartialEq, Eq, Structural)]
pub struct InvalidTransition {
    /// State observed before the attempted transition.
    pub from: SyncState,
    /// State requested by the caller.
    pub to: SyncState,
}

/// Position of a state along local -> received -> applied.
pub open spec fn milestone(s: SyncState) -> int {
    match s {
        SyncState::LocalCommitted => 0,
        SyncState::HubReceived => 1,
        SyncState::HubApplied => 2,
    }
}

/// The five allowed edges: three idempotent self-edges and the two forward
/// edges local -> received and received -> applied.
pub open spec fn transition_allowed(from: SyncState, to: SyncState) -> bool {
    ||| from == to
    ||| (from == SyncState::LocalCommitted && to == SyncState::HubReceived)
    ||| (from == SyncState::HubReceived && to == SyncState::HubApplied)
}

/// Index of the first disallowed edge in `edges`, if there is one.
pub open spec fn first_disallowed(edges: Seq<(SyncState, SyncState)>) -> Option<int> {
    if exists|i: int| 0 <= i < edges.len() && !transition_allowed(edges[i].0, edges[i].1) {
        Some(
            choose|i: int|
                0 <= i < edges.len() && !transition_allowed(edges[i].0, edges[i].1) && forall|
                    j: int,
                |
                    0 <= j < i ==> transition_allowed(#[trigger] edges[j].0, edges[j].1),
        )
    } else {
        None
    }
}

/// The name `{:?}` gives a state.
pub open spec fn state_debug_text(s: SyncState) -> Seq<char> {
    match s {
        SyncState::LocalCommitted => "LocalCommitted"@,
        SyncState::HubReceived => "HubReceived"@,
        SyncState::HubApplied => "HubApplied"@,
    }
}

/// The text `{:?}` gives a rejected transition.
pub open spec fn invalid_transition_debug_text(t: InvalidTransition) -> Seq<char> {
    "InvalidTransition { from: "@ + state_debug_text(t.from) + ", to: "@ + state_debug_text(t.to)
        + " }"@
}

impl SyncState {
    /// The variant name, as `{:?}` renders it.
    pub fn debug_text(&self) -> (text: String)
        ensures
            text@ == state_debug_text(*self),
    {
        match self {
            SyncState::LocalCommitted => String::from_str("LocalCommitted"),
            SyncState::HubReceived => String::from_str("HubReceived"),
            SyncState::HubApplied => String::from_str("HubApplied"),
        }
    }
}

impl InvalidTransition {
    /// The rejected edge, as `{:?}` renders it.
    pub fn debug_text(&self) -> (text: String)
        ensures
            text@ == invalid_transition_debug_text(*self),
    {
        let mut text = String::from_str("InvalidTransition { from: ");
        let from = self.from.debug_text();
        text.append(from.as_str());
        text.append(", to: ");
        let to = self.to.debug_text();
        text.append(to.as_str());
        text.append(" }");
        text
    }
}

/// Returns whether a synchronization status transition is allowed.
///
/// Self-transitions are allowed for idempotent retries; forward edges are
/// allowed only in the order local -> received -> applied.
pub fn is_valid_transition(from: SyncState, to: SyncState) -> (allowed: bool)
    ensures
        allowed == transition_allowed(from, to),
        allowed <==> milestone(from) <= milestone(to) <= milestone(from) + 1,
{
    match (from, to) {
        (SyncState::LocalCommitted, SyncState::LocalCommitted)
        | (SyncState::LocalCommitted, SyncState::HubReceived)
        | (SyncState::HubReceived, SyncState::HubReceived)
        | (SyncState::HubReceived, SyncState::HubApplied)
        | (SyncState::HubApplied, SyncState::HubApplied) => true,
        _ => false,
    }
}

/// Validates a supplied transition list.
///
/// The scan stops at the first invalid edge and returns it unchanged; nothing
/// is applied.
pub fn validate_transitions(transitions: &[(SyncState, SyncState)]) -> (result: Result<
    (),
    InvalidTransition,
>)
    ensures
        match first_disallowed(transitions@) {
            None => result is Ok,
            Some(i) => result == Err::<(), InvalidTransition>(
                InvalidTransition { from: transitions@[i].0, to: transitions@[i].1 },
            ),
        },
        result is Ok <==> forall|i: int|
            0 <= i < transitions@.len() ==> transition_allowed(
                #[trigger] transitions@[i].0,
                transitions@[i].1,
            ),
{
    let mut k: usize = 0;
    while k < transitions.len()
        invariant
            k <= transitions@.len(),
            forall|j: int| 0 <= j < k ==> transition_allowed(#[trigger] transitions@[j].0, transitions@[j].1),
        decreases transitions@.len() - k,
    {
        let (from, to) = transitions[k];
        if !is_valid_transition(from, to) {
            proof {
                let edges = transitions@;
                let i = k as int;
                assert(0 <= i < edges.len() && !transition_allowed(edges[i].0, edges[i].1) && forall|
                    j: int,
                |
                    0 <= j < i ==> transition_allowed(#[trigger] edges[j].0, edges[j].1));
                let c = first_disallowed(edges)->0;
                if c < i {
                    assert(transition_allowed(edges[c].0, edges[c].1));
                } else if c > i {
                    assert(transition_allowed(edges[i].0, edges[i].1));
                }
            }
            return Err(InvalidTransition { from, to });
        }
        k = k + 1;
    }
    Ok(())
}

/// The complete five-edge status path required by stage 0.
pub open spec fn stage_zero_edges() -> Seq<(SyncState, SyncState)> {
    seq![
        (SyncState::LocalCommitted, SyncState::LocalCommitted),
        (SyncState::LocalCommitted, SyncState::HubReceived),
        (SyncState::HubReceived, SyncState::HubReceived),
        (SyncState::HubReceived, SyncState::HubApplied),
        (SyncState::HubApplied, SyncState::HubApplied),
    ]
}

/// Checks the complete five-edge status path required by stage 0.
pub fn validate_stage_zero() -> (result: Result<(), InvalidTransition>)
    ensures
        result is Ok,
{
    let edges = [
        (SyncState::LocalCommitted, SyncState::LocalCommitted),
        (SyncState::LocalCommitted, SyncState::HubReceived),
        (SyncState::HubReceived, SyncState::HubReceived),
        (SyncState::HubReceived, SyncState::HubApplied),
        (SyncState::HubApplied, SyncState::HubApplied),
    ];
    proof {
        assert(edges@ == stage_zero_edges());
        lemma_stage_zero_edges_are_exactly_the_allowed();
    }
    validate_transitions(&edges)
}

/// The stage 0 path lists every allowed edge, and nothing else, exactly once.
pub proof fn lemma_stage_zero_edges_are_exactly_the_allowed()
    ensures
        stage_zero_edges().no_duplicates(),
        forall|a: SyncState, b: SyncState|
            #[trigger] transition_allowed(a, b) <==> stage_zero_edges().contains((a, b)),
{
    let e = stage_zero_edges();
    assert forall|a: SyncState, b: SyncState|
        #[trigger] transition_allowed(a, b) <==> e.contains((a, b)) by {
        if transition_allowed(a, b) {
            match (a, b) {
                (SyncState::LocalCommitted, SyncState::LocalCommitted) => assert(e[0] == (a, b)),
                (SyncState::LocalCommitted, SyncState::HubReceived) => assert(e[1] == (a, b)),
                (SyncState::HubReceived, SyncState::HubReceived) => assert(e[2] == (a, b)),
                (SyncState::HubReceived, SyncState::HubApplied) => assert(e[3] == (a, b)),
                (SyncState::HubApplied, SyncState::HubApplied) => assert(e[4] == (a, b)),
                _ => {},
            }
        }
    }
}

/// Along any run of allowed transitions a state never moves backwards and
/// advances by at most one milestone per step.
pub proof fn lemma_allowed_runs_are_monotone(states: Seq<SyncState>)
    requires
        forall|i: int|
            0 <= i < states.len() - 1 ==> transition_allowed(#[trigger] states[i], states[i + 1]),
    ensures
        forall|i: int, j: int|
            0 <= i <= j < states.len() ==> milestone(#[trigger] states[i]) <= milestone(
                #[trigger] states[j],
            ) <= milestone(states[i]) + (j - i),
    decreases states.len(),
{
    if states.len() > 1 {
        let rest = states.drop_last();
        assert forall|i: int|
            0 <= i < rest.len() - 1 implies transition_allowed(#[trigger] rest[i], rest[i + 1]) by {
            assert(transition_allowed(states[i], states[i + 1]));
        }
        lemma_allowed_runs_are_monotone(rest);
        let n = states.len() - 1;
        assert(transition_allowed(states[n - 1], states[n]));
        assert forall|i: int, j: int|
            0 <= i <= j < states.len() implies milestone(#[trigger] states[i]) <= milestone(
            #[trigger] states[j],
        ) <= milestone(states[i]) + (j - i) by {
            if j < n {
                assert(rest[i] == states[i] && rest[j] == states[j]);
            } else if i < n {
                assert(rest[i] == states[i] && rest[n - 1] == states[n - 1]);
            }
        }
    }
}

} // verus!
