//! Validation of the versioned stage 0 documents: the frozen protocol
//! specification and the fault-injection matrix.
//!
//! Each validator checks its rules in a fixed order and reports the first
//! rule that fails as `StageZeroError::Validation` with the rule's detail text.
use vstd::prelude::*;

use crate::baseline::{CURRENT_FILE_FORMAT_VERSION, CURRENT_PROTOCOL_VERSION};
use crate::text::{
    contains_fragment, has_fragment, hex_text, hex_text_16, is_blank, is_blank_text, str_is, text_is,
};
use crate::frozen_sections::{
    filesystem_failure, frame_layout_failure, identifiers_failure, sequences_failure,
    validate_filesystem, validate_frame_layout, validate_identifiers, validate_sequences,
    Filesystem, FrameLayout, Identifiers, Sequences,
};
use crate::sync::{transition_allowed, SyncState};
use vstd::string::StringSliceAdditionalSpecFns;

verus! {

/// Counts and digest reported for a pair of documents that passed validation.
#[derive(Debug, Clone, PartialEq, Eq)]
pub struct StageZeroSummary {
    pub spec_version: String,
    pub fault_cases: usize,
    pub transition_rules: usize,
    pub spec_hash: String,
}

/// Why the stage 0 documents were rejected.
#[derive(Debug, Clone, PartialEq, Eq)]
pub enum StageZeroError {
    Parse(String),
    Validation(String),
}

/// Frame type numbers of the frozen wire format.
#[derive(Debug, Clone, Copy, PartialEq, Eq, Structural)]
pub struct FrameTypes {
    pub begin: u8,
    pub operation: u8,
    pub commit: u8,
    pub change_event: u8,
    pub cursor: u8,
    pub snapshot_marker: u8,
}

/// Persistence explanations for each externally visible synchronization state.
#[derive(Debug, Clone, PartialEq, Eq)]
pub struct Durability {
    pub local_committed: String,
    pub hub_received: String,
    pub hub_applied: String,
}

/// One allowed synchronization-state transition and its explanation.
#[derive(Debug, Clone, PartialEq, Eq)]
pub struct TransitionRule {
    pub from: String,
    pub to: String,
    pub trigger: String,
    pub persisted: String,
    pub cursor_effect: String,
}

/// The frozen stage 0 protocol specification.
#[derive(Debug, Clone, PartialEq, Eq)]
pub struct FrozenSpec {
    pub spec_version: String,
    pub protocol_version: u16,
    pub file_format_version: u16,
    pub encoding: String,
    pub text_encoding: String,
    pub checksum: String,
    pub max_record_bytes: u64,
    pub max_batch_bytes: u64,
    pub max_transaction_operations: u64,
    pub log_segment_bytes: u64,
    pub snapshot_bytes: u64,
    pub pending_queue_bytes: u64,
    pub node_id_bytes: u8,
    pub dataset_id_max_bytes: u16,
    pub partition_id_max_bytes: u16,
    pub record_id_max_bytes: u16,
    pub sequence_bytes: u8,
    pub frame_magic: String,
    pub frame_header_bytes: u16,
    pub identifiers: Identifiers,
    pub sequences: Sequences,
    pub filesystem: Filesystem,
    pub frame_layout: FrameLayout,
    pub frame_types: FrameTypes,
    pub durability: Durability,
    pub error_codes: Vec<String>,
    pub event_outcomes: Vec<String>,
    pub transitions: Vec<TransitionRule>,
}

/// Versioned collection of deterministic fault-injection cases.
#[derive(Debug, Clone, PartialEq, Eq)]
pub struct FaultMatrix {
    pub schema_version: String,
    pub cases: Vec<FaultCase>,
}

/// One reproducible fault condition and its externally visible result.
#[derive(Debug, Clone, PartialEq, Eq)]
pub struct FaultCase {
    pub id: String,
    pub category: String,
    pub injection_point: String,
    pub precondition: String,
    pub input: String,
    pub expected_outcome: String,
    pub durable_artifacts: String,
    pub error_code: String,
    pub retry_action: String,
    pub cursor_effect: String,
    pub isolation_scope: String,
}

// ---------------------------------------------------------------------------
// Verdicts
// ---------------------------------------------------------------------------

/// `result` reports `failure`: success when no rule failed, otherwise a
/// validation error carrying exactly the failed rule's detail text.
pub open spec fn reports(result: Result<(), StageZeroError>, failure: Option<Seq<char>>) -> bool {
    match failure {
        None => result is Ok,
        Some(detail) => result matches Err(StageZeroError::Validation(text)) && text@ == detail,
    }
}

/// A single rule: no failure when it holds, its detail text when it does not.
pub open spec fn check(holds: bool, detail: Seq<char>) -> Option<Seq<char>> {
    if holds {
        None
    } else {
        Some(detail)
    }
}

/// The first failure of two groups of rules checked one after the other.
pub open spec fn or_else(first: Option<Seq<char>>, then: Option<Seq<char>>) -> Option<
    Seq<char>,
> {
    if first is Some {
        first
    } else {
        then
    }
}

/// The first failure among the rules `at(0)`, ..., `at(n - 1)`, checked in that order.
pub open spec fn scan(n: int, at: spec_fn(int) -> Option<Seq<char>>) -> Option<Seq<char>>
    decreases n,
{
    if n <= 0 {
        None
    } else {
        or_else(scan(n - 1, at), at(n - 1))
    }
}

/// Once rule `k` is the first to fail, it stays the first failure of every longer scan.
pub proof fn lemma_scan_settles(at: spec_fn(int) -> Option<Seq<char>>, k: int, n: int)
    requires
        0 <= k < n,
        scan(k, at) is None,
        at(k) is Some,
    ensures
        scan(n, at) == at(k),
    decreases n - k,
{
    if n > k + 1 {
        lemma_scan_settles(at, k, n - 1);
    }
}

/// The character views of a list of strings.
pub open spec fn texts(values: Seq<String>) -> Seq<Seq<char>> {
    values.map_values(|s: String| s@)
}

/// The character views of a list of string slices.
pub open spec fn literals(values: Seq<&str>) -> Seq<Seq<char>> {
    values.map_values(|s: &str| s@)
}

/// Checks one rule, reporting `detail` when it does not hold.
pub fn require(condition: bool, detail: &str) -> (result: Result<(), StageZeroError>)
    ensures
        reports(result, check(condition, detail@)),
{
    if condition {
        Ok(())
    } else {
        Err(StageZeroError::Validation(String::from_str(detail)))
    }
}

/// The text a stage 0 error is displayed with.
pub open spec fn stage_zero_error_text(e: StageZeroError) -> Seq<char> {
    match e {
        StageZeroError::Parse(detail) => "stage 0 parse error: "@ + detail@,
        StageZeroError::Validation(detail) => "stage 0 validation error: "@ + detail@,
    }
}

impl StageZeroError {
    /// Human-readable description of the error.
    pub fn message(&self) -> (text: String)
        ensures
            text@ == stage_zero_error_text(*self),
    {
        match self {
            StageZeroError::Parse(detail) => {
                let mut text = String::from_str("stage 0 parse error: ");
                text.append(detail.as_str());
                text
            },
            StageZeroError::Validation(detail) => {
                let mut text = String::from_str("stage 0 validation error: ");
                text.append(detail.as_str());
                text
            },
        }
    }
}

// ---------------------------------------------------------------------------
// Lists of values
// ---------------------------------------------------------------------------

/// Whether `value` occurs in `values`.
fn contains_text(values: &[String], value: &str) -> (found: bool)
    ensures
        found == texts(values@).contains(value@),
{
    let mut k: usize = 0;
    while k < values.len()
        invariant
            k <= values@.len(),
            forall|j: int| 0 <= j < k ==> values@[j]@ != value@,
        decreases values@.len() - k,
    {
        if text_is(&values[k], value) {
            assert(texts(values@)[k as int] == value@);
            return true;
        }
        k = k + 1;
    }
    proof {
        if texts(values@).contains(value@) {
            let j = choose|j: int| 0 <= j < texts(values@).len() && texts(values@)[j] == value@;
            assert(values@[j]@ == value@);
        }
    }
    false
}

/// Whether no two entries of `values` have the same text.
fn all_distinct(values: &[String]) -> (distinct: bool)
    ensures
        distinct == texts(values@).no_duplicates(),
{
    let ghost t = texts(values@);
    let mut i: usize = 0;
    while i < values.len()
        invariant
            i <= values@.len(),
            t == texts(values@),
            forall|a: int, b: int| 0 <= a < b < t.len() && a < i ==> t[a] != t[b],
        decreases values@.len() - i,
    {
        let mut j: usize = i + 1;
        while j < values.len()
            invariant
                i < values@.len(),
                i + 1 <= j <= values@.len(),
                t == texts(values@),
                forall|a: int, b: int| 0 <= a < b < t.len() && a < i ==> t[a] != t[b],
                forall|b: int| i < b < j ==> t[i as int] != t[b],
            decreases values@.len() - j,
        {
            if values[i] == values[j] {
                assert(t[i as int] == t[j as int]);
                return false;
            }
            j = j + 1;
        }
        i = i + 1;
    }
    true
}

/// The rule for `values` containing no duplicates.
pub open spec fn unique_values_failure(name: Seq<char>, values: Seq<String>) -> Option<Seq<char>> {
    check(texts(values).no_duplicates(), name + " contain duplicate values"@)
}

/// Rejects a list that holds the same value twice.
pub fn validate_unique_values(name: &str, values: &[String]) -> (result: Result<(), StageZeroError>)
    ensures
        reports(result, unique_values_failure(name@, values@)),
{
    let distinct = all_distinct(values);
    let mut detail = String::from_str(name);
    detail.append(" contain duplicate values");
    require(distinct, detail.as_str())
}

/// The rule at position `k` of a required-values check: `required[k]` is present.
pub open spec fn required_value_rules(
    name: Seq<char>,
    values: Seq<String>,
    required: Seq<Seq<char>>,
) -> spec_fn(int) -> Option<Seq<char>> {
    |k: int| check(texts(values).contains(required[k]), name + " missing "@ + required[k])
}

/// The first required value, in the order given, that `values` lacks.
pub open spec fn required_values_failure(
    name: Seq<char>,
    values: Seq<String>,
    required: Seq<Seq<char>>,
) -> Option<Seq<char>> {
    scan(required.len() as int, required_value_rules(name, values, required))
}

/// Rejects a list that lacks one of the required values.
pub fn validate_required_values(name: &str, values: &[String], required: &[&str]) -> (result:
    Result<(), StageZeroError>)
    ensures
        reports(result, required_values_failure(name@, values@, literals(required@))),
{
    let ghost rules = required_value_rules(name@, values@, literals(required@));
    let mut k: usize = 0;
    while k < required.len()
        invariant
            k <= required@.len(),
            rules == required_value_rules(name@, values@, literals(required@)),
            scan(k as int, rules) is None,
        decreases required@.len() - k,
    {
        let item = required[k];
        let found = contains_text(values, item);
        let mut detail = String::from_str(name);
        detail.append(" missing ");
        detail.append(item);
        let outcome = require(found, detail.as_str());
        assert(literals(required@)[k as int] == item@);
        if outcome.is_err() {
            proof {
                lemma_scan_settles(rules, k as int, required@.len() as int);
            }
            return outcome;
        }
        k = k + 1;
    }
    Ok(())
}

// ---------------------------------------------------------------------------
// Frame types and durability
// ---------------------------------------------------------------------------

/// The six frame type numbers in declaration order.
pub open spec fn frame_type_values(t: FrameTypes) -> Seq<u8> {
    seq![t.begin, t.operation, t.commit, t.change_event, t.cursor, t.snapshot_marker]
}

/// The frame type numbers of the frozen wire format.
pub open spec fn frozen_frame_types() -> FrameTypes {
    FrameTypes { begin: 1, operation: 2, commit: 3, change_event: 4, cursor: 5, snapshot_marker: 6 }
}

/// First failing frame type rule: distinct values, then each name's required number.
pub open spec fn frame_types_failure(t: FrameTypes) -> Option<Seq<char>> {
    if !frame_type_values(t).no_duplicates() {
        Some("frame type values duplicate"@)
    } else if t.begin != 1 {
        Some("frame type begin must be 1"@)
    } else if t.operation != 2 {
        Some("frame type operation must be 2"@)
    } else if t.commit != 3 {
        Some("frame type commit must be 3"@)
    } else if t.change_event != 4 {
        Some("frame type change_event must be 4"@)
    } else if t.cursor != 5 {
        Some("frame type cursor must be 5"@)
    } else if t.snapshot_marker != 6 {
        Some("frame type snapshot_marker must be 6"@)
    } else {
        None
    }
}

fn all_distinct_bytes(values: &[u8]) -> (distinct: bool)
    ensures
        distinct == values@.no_duplicates(),
{
    let mut i: usize = 0;
    while i < values.len()
        invariant
            i <= values@.len(),
            forall|a: int, b: int| 0 <= a < b < values@.len() && a < i ==> values@[a] != values@[b],
        decreases values@.len() - i,
    {
        let mut j: usize = i + 1;
        while j < values.len()
            invariant
                i < values@.len(),
                i + 1 <= j <= values@.len(),
                forall|a: int, b: int|
                    0 <= a < b < values@.len() && a < i ==> values@[a] != values@[b],
                forall|b: int| i < b < j ==> values@[i as int] != values@[b],
            decreases values@.len() - j,
        {
            if values[i] == values[j] {
                return false;
            }
            j = j + 1;
        }
        i = i + 1;
    }
    true
}

/// Checks all frame type names and values against the frozen wire format.
pub fn validate_frame_types(types: &FrameTypes) -> (result: Result<(), StageZeroError>)
    ensures
        reports(result, frame_types_failure(*types)),
{
    let values = [
        types.begin,
        types.operation,
        types.commit,
        types.change_event,
        types.cursor,
        types.snapshot_marker,
    ];
    assert(values@ == frame_type_values(*types));
    if !all_distinct_bytes(&values) {
        return require(false, "frame type values duplicate");
    }
    if types.begin != 1 {
        return require(false, "frame type begin must be 1");
    }
    if types.operation != 2 {
        return require(false, "frame type operation must be 2");
    }
    if types.commit != 3 {
        return require(false, "frame type commit must be 3");
    }
    if types.change_event != 4 {
        return require(false, "frame type change_event must be 4");
    }
    if types.cursor != 5 {
        return require(false, "frame type cursor must be 5");
    }
    if types.snapshot_marker != 6 {
        return require(false, "frame type snapshot_marker must be 6");
    }
    Ok(())
}

/// Frame types pass validation exactly when they are the frozen numbers
/// begin 1, operation 2, commit 3, change_event 4, cursor 5, snapshot_marker 6.
pub proof fn lemma_frame_types_accepted_iff_frozen(t: FrameTypes)
    ensures
        frame_types_failure(t) is None <==> t == frozen_frame_types(),
{
    if t == frozen_frame_types() {
        let v = frame_type_values(t);
        assert forall|i: int, j: int| 0 <= i < v.len() && 0 <= j < v.len() && i != j implies v[i]
            != v[j] by {
            assert(v[i] == i + 1 && v[j] == j + 1);
        }
    }
}

/// First empty durability rule, in the order local, received, applied.
pub open spec fn durability_failure(d: Durability) -> Option<Seq<char>> {
    if is_blank_text(d.local_committed@) {
        Some("durability rule local_committed is empty"@)
    } else if is_blank_text(d.hub_received@) {
        Some("durability rule hub_received is empty"@)
    } else if is_blank_text(d.hub_applied@) {
        Some("durability rule hub_applied is empty"@)
    } else {
        None
    }
}

/// Checks that every durability state has a non-empty persistence rule.
pub fn validate_durability(durability: &Durability) -> (result: Result<(), StageZeroError>)
    ensures
        reports(result, durability_failure(*durability)),
{
    if is_blank(durability.local_committed.as_str()) {
        return require(false, "durability rule local_committed is empty");
    }
    if is_blank(durability.hub_received.as_str()) {
        return require(false, "durability rule hub_received is empty");
    }
    if is_blank(durability.hub_applied.as_str()) {
        return require(false, "durability rule hub_applied is empty");
    }
    Ok(())
}

// ---------------------------------------------------------------------------
// Transition rules
// ---------------------------------------------------------------------------

/// The state pair of a transition rule.
pub open spec fn rule_pair(t: TransitionRule) -> (Seq<char>, Seq<char>) {
    (t.from@, t.to@)
}

/// The exact five state pairs of the monotonic synchronization graph.
pub open spec fn required_transition_pairs() -> Seq<(Seq<char>, Seq<char>)> {
    seq![
        ("local_committed"@, "local_committed"@),
        ("local_committed"@, "hub_received"@),
        ("hub_received"@, "hub_received"@),
        ("hub_received"@, "hub_applied"@),
        ("hub_applied"@, "hub_applied"@),
    ]
}

/// The rule for transition `i`: its three texts are not blank, and its pair
/// does not repeat the pair of an earlier transition.
pub open spec fn transition_entry_failure(ts: Seq<TransitionRule>, i: int) -> Option<Seq<char>> {
    if is_blank_text(ts[i].trigger@) {
        Some("transition trigger is empty"@)
    } else if is_blank_text(ts[i].persisted@) {
        Some("transition persistence rule is empty"@)
    } else if is_blank_text(ts[i].cursor_effect@) {
        Some("transition cursor effect is empty"@)
    } else if exists|j: int| 0 <= j < i && rule_pair(#[trigger] ts[j]) == rule_pair(ts[i]) {
        Some("transition pair is duplicated"@)
    } else {
        None
    }
}

/// The transition rules as a scan over positions.
pub open spec fn transition_entry_rules(ts: Seq<TransitionRule>) -> spec_fn(int) -> Option<
    Seq<char>,
> {
    |i: int| transition_entry_failure(ts, i)
}

/// The rule for required pair `k`: some transition has that pair.
pub open spec fn required_pair_rules(ts: Seq<TransitionRule>) -> spec_fn(int) -> Option<
    Seq<char>,
> {
    |k: int|
        check(
            ts.map_values(|t: TransitionRule| rule_pair(t)).contains(required_transition_pairs()[k]),
            "missing transition "@ + required_transition_pairs()[k].0 + " -> "@
                + required_transition_pairs()[k].1,
        )
}

/// First failing transition rule: the count, then each transition in order,
/// then each required pair in order.
pub open spec fn transitions_failure(ts: Seq<TransitionRule>) -> Option<Seq<char>> {
    if ts.len() != 5 {
        Some("transition rule count mismatch"@)
    } else {
        or_else(scan(5, transition_entry_rules(ts)), scan(5, required_pair_rules(ts)))
    }
}

fn same_pair(a: &TransitionRule, b: &TransitionRule) -> (same: bool)
    ensures
        same == (rule_pair(*a) == rule_pair(*b)),
{
    a.from == b.from && a.to == b.to
}

fn has_pair(ts: &[TransitionRule], from: &str, to: &str) -> (found: bool)
    ensures
        found == ts@.map_values(|t: TransitionRule| rule_pair(t)).contains((from@, to@)),
{
    let ghost pairs = ts@.map_values(|t: TransitionRule| rule_pair(t));
    let mut k: usize = 0;
    while k < ts.len()
        invariant
            k <= ts@.len(),
            pairs == ts@.map_values(|t: TransitionRule| rule_pair(t)),
            forall|j: int| 0 <= j < k ==> pairs[j] != (from@, to@),
        decreases ts@.len() - k,
    {
        if text_is(&ts[k].from, from) && text_is(&ts[k].to, to) {
            assert(pairs[k as int] == (from@, to@));
            return true;
        }
        k = k + 1;
    }
    false
}

fn transition_entry(ts: &[TransitionRule], i: usize) -> (result: Result<(), StageZeroError>)
    requires
        i < ts@.len(),
    ensures
        reports(result, transition_entry_failure(ts@, i as int)),
{
    let t = &ts[i];
    if is_blank(t.trigger.as_str()) {
        return require(false, "transition trigger is empty");
    }
    if is_blank(t.persisted.as_str()) {
        return require(false, "transition persistence rule is empty");
    }
    if is_blank(t.cursor_effect.as_str()) {
        return require(false, "transition cursor effect is empty");
    }
    let mut j: usize = 0;
    while j < i
        invariant
            i < ts@.len(),
            j <= i,
            !is_blank_text(ts@[i as int].trigger@),
            !is_blank_text(ts@[i as int].persisted@),
            !is_blank_text(ts@[i as int].cursor_effect@),
            forall|m: int| 0 <= m < j ==> rule_pair(#[trigger] ts@[m]) != rule_pair(ts@[i as int]),
        decreases i - j,
    {
        if same_pair(&ts[j], &ts[i]) {
            assert(rule_pair(ts@[j as int]) == rule_pair(ts@[i as int]));
            return require(false, "transition pair is duplicated");
        }
        j = j + 1;
    }
    Ok(())
}

/// Checks the exact monotonic state transitions required by the baseline.
pub fn validate_transitions(transitions: &[TransitionRule]) -> (result: Result<(), StageZeroError>)
    ensures
        reports(result, transitions_failure(transitions@)),
{
    if transitions.len() != 5 {
        return require(false, "transition rule count mismatch");
    }
    let ghost entries = transition_entry_rules(transitions@);
    let mut i: usize = 0;
    while i < transitions.len()
        invariant
            transitions@.len() == 5,
            i <= 5,
            entries == transition_entry_rules(transitions@),
            scan(i as int, entries) is None,
        decreases 5 - i,
    {
        let outcome = transition_entry(transitions, i);
        if outcome.is_err() {
            proof {
                lemma_scan_settles(entries, i as int, 5);
            }
            return outcome;
        }
        i = i + 1;
    }
    let required = [
        ("local_committed", "local_committed"),
        ("local_committed", "hub_received"),
        ("hub_received", "hub_received"),
        ("hub_received", "hub_applied"),
        ("hub_applied", "hub_applied"),
    ];
    let ghost pairs = required_pair_rules(transitions@);
    let mut k: usize = 0;
    while k < 5
        invariant
            k <= 5,
            transitions@.len() == 5,
            scan(5, entries) is None,
            entries == transition_entry_rules(transitions@),
            pairs == required_pair_rules(transitions@),
            scan(k as int, pairs) is None,
            forall|m: int|
                0 <= m < 5 ==> (#[trigger] required@[m]).0@ == required_transition_pairs()[m].0
                    && required@[m].1@ == required_transition_pairs()[m].1,
        decreases 5 - k,
    {
        let (from, to) = required[k];
        let found = has_pair(transitions, from, to);
        let mut detail = String::from_str("missing transition ");
        detail.append(from);
        detail.append(" -> ");
        detail.append(to);
        let outcome = require(found, detail.as_str());
        if outcome.is_err() {
            proof {
                lemma_scan_settles(pairs, k as int, 5);
            }
            return outcome;
        }
        k = k + 1;
    }
    Ok(())
}

/// A scan that found no failure passed every one of its rules.
pub proof fn lemma_scan_passes_each(at: spec_fn(int) -> Option<Seq<char>>, n: int)
    requires
        scan(n, at) is None,
    ensures
        forall|i: int| 0 <= i < n ==> #[trigger] at(i) is None,
    decreases n,
{
    if n > 0 {
        lemma_scan_passes_each(at, n - 1);
    }
}

/// A scan finds no failure exactly when each of its rules passes.
pub proof fn lemma_scan_passes_iff_each_passes(at: spec_fn(int) -> Option<Seq<char>>, n: int)
    ensures
        scan(n, at) is None <==> forall|i: int| 0 <= i < n ==> #[trigger] at(i) is None,
    decreases n,
{
    if n > 0 {
        lemma_scan_passes_iff_each_passes(at, n - 1);
    }
}

/// A list passes a required-values check exactly when it contains every
/// required value.
pub proof fn lemma_required_values_pass_iff_all_present(
    name: Seq<char>,
    values: Seq<String>,
    required: Seq<Seq<char>>,
)
    ensures
        required_values_failure(name, values, required) is None <==> forall|k: int|
            0 <= k < required.len() ==> texts(values).contains(#[trigger] required[k]),
{
    let rules = required_value_rules(name, values, required);
    lemma_scan_passes_iff_each_passes(rules, required.len() as int);
    if required_values_failure(name, values, required) is None {
        assert forall|k: int| 0 <= k < required.len() implies texts(values).contains(
            #[trigger] required[k],
        ) by {
            assert(rules(k) is None);
        }
    } else {
        let k = choose|k: int| 0 <= k < required.len() && !(#[trigger] rules(k) is None);
        assert(!texts(values).contains(required[k]));
    }
}

/// Transition rules pass validation only when their state pairs are exactly
/// the five edges local -> local, local -> received, received -> received,
/// received -> applied and applied -> applied, each listed once.
pub proof fn lemma_accepted_transitions_are_the_frozen_edges(ts: Seq<TransitionRule>)
    requires
        transitions_failure(ts) is None,
    ensures
        ts.len() == 5,
        ts.map_values(|t: TransitionRule| rule_pair(t)).no_duplicates(),
        ts.map_values(|t: TransitionRule| rule_pair(t)).to_set()
            == required_transition_pairs().to_set(),
{
    let pairs = ts.map_values(|t: TransitionRule| rule_pair(t));
    let required = required_transition_pairs();
    lemma_scan_passes_each(transition_entry_rules(ts), 5);
    lemma_scan_passes_each(required_pair_rules(ts), 5);
    assert forall|i: int, j: int| 0 <= i < pairs.len() && 0 <= j < pairs.len() && i != j implies pairs[i]
        != pairs[j] by {
        if i < j {
            assert(transition_entry_rules(ts)(j) is None);
            assert(rule_pair(ts[i]) != rule_pair(ts[j]));
        } else {
            assert(transition_entry_rules(ts)(i) is None);
            assert(rule_pair(ts[j]) != rule_pair(ts[i]));
        }
    }
    assert forall|p| required.to_set().contains(p) implies pairs.to_set().contains(p) by {
        let k = choose|k: int| 0 <= k < required.len() && required[k] == p;
        assert(required_pair_rules(ts)(k) is None);
    }
    assert(required.no_duplicates()) by {
        reveal_strlit("local_committed");
        reveal_strlit("hub_received");
        reveal_strlit("hub_applied");
        assert("local_committed"@.len() == 15);
        assert("hub_received"@.len() == 12);
        assert("hub_applied"@.len() == 11);
        assert forall|i: int, j: int| 0 <= i < 5 && 0 <= j < 5 && i != j implies required[i]
            != required[j] by {
            assert(required[i].0.len() != required[j].0.len() || required[i].1.len()
                != required[j].1.len());
        }
    }
    required.unique_seq_to_set();
    pairs.unique_seq_to_set();
    vstd::seq_lib::seq_to_set_is_finite(pairs);
    vstd::seq_lib::seq_to_set_is_finite(required);
    vstd::set_lib::lemma_subset_equality(required.to_set(), pairs.to_set());
}

// ---------------------------------------------------------------------------
// The frozen specification
// ---------------------------------------------------------------------------

/// Error codes every specification must declare.
pub open spec fn required_error_codes() -> Seq<Seq<char>> {
    seq![
        "E_FORMAT_VERSION"@,
        "E_FRAME_TYPE"@,
        "E_FRAME_LENGTH"@,
        "E_CHECKSUM"@,
        "E_TRUNCATED_TAIL"@,
        "E_DISK_FULL"@,
        "E_SEQUENCE_GAP"@,
        "E_DUPLICATE_OPERATION"@,
        "E_QUARANTINED_EVENT"@,
    ]
}

/// Event outcomes every specification must declare.
pub open spec fn required_outcomes() -> Seq<Seq<char>> {
    seq!["accepted"@, "duplicate"@, "pending_gap"@, "rejected"@, "quarantined"@]
}

/// First failing scalar rule: versions, encodings, capacities, identifier
/// widths and frame header, in that order.
pub open spec fn scalar_failure(s: FrozenSpec) -> Option<Seq<char>> {
    if s.spec_version@ != "0.1"@ {
        Some("spec_version must be 0.1"@)
    } else if s.protocol_version != CURRENT_PROTOCOL_VERSION {
        Some("protocol_version mismatch"@)
    } else if s.file_format_version != CURRENT_FILE_FORMAT_VERSION {
        Some("file_format_version mismatch"@)
    } else if s.encoding@ != "little-endian"@ {
        Some("encoding must be little-endian"@)
    } else if s.text_encoding@ != "utf-8"@ {
        Some("text_encoding must be utf-8"@)
    } else if s.checksum@ != "crc32c"@ {
        Some("checksum must be crc32c"@)
    } else if s.max_record_bytes == 0 {
        Some("max_record_bytes must be positive"@)
    } else if s.max_batch_bytes < s.max_record_bytes {
        Some("batch capacity is too small"@)
    } else if s.max_transaction_operations == 0 {
        Some("max_transaction_operations must be positive"@)
    } else if s.log_segment_bytes < s.max_batch_bytes {
        Some("log segment is too small"@)
    } else if s.snapshot_bytes < s.max_record_bytes {
        Some("snapshot capacity is too small"@)
    } else if s.pending_queue_bytes < s.max_batch_bytes {
        Some("pending queue is too small"@)
    } else if s.node_id_bytes != 16 {
        Some("node_id_bytes must be 16"@)
    } else if s.dataset_id_max_bytes == 0 {
        Some("dataset_id_max_bytes must be positive"@)
    } else if s.partition_id_max_bytes == 0 {
        Some("partition_id_max_bytes must be positive"@)
    } else if s.record_id_max_bytes == 0 {
        Some("record_id_max_bytes must be positive"@)
    } else if s.sequence_bytes != 8 {
        Some("sequence_bytes must be 8"@)
    } else if s.frame_magic@ != "LDB1"@ {
        Some("frame_magic must be LDB1"@)
    } else if s.frame_header_bytes != 32 {
        Some("frame_header_bytes must be 32"@)
    } else {
        None
    }
}

/// First failing rule of the whole specification: scalar rules, the
/// identifier, sequence, filesystem and frame-layout sections, frame types,
/// durability rules, the error-code and outcome vocabularies, then transitions.
pub open spec fn spec_failure(s: FrozenSpec) -> Option<Seq<char>> {
    or_else(
        scalar_failure(s),
        or_else(
            section_failure(s),
            or_else(frame_types_failure(s.frame_types), vocabulary_failure(s)),
        ),
    )
}

/// First failing rule after the frame types: durability rules, the error-code
/// and outcome vocabularies, then transitions.
pub open spec fn vocabulary_failure(s: FrozenSpec) -> Option<Seq<char>> {
    or_else(
        durability_failure(s.durability),
        or_else(
            unique_values_failure("error_codes"@, s.error_codes@),
            or_else(
                required_values_failure("error_codes"@, s.error_codes@, required_error_codes()),
                or_else(
                    unique_values_failure("event_outcomes"@, s.event_outcomes@),
                    or_else(
                        required_values_failure(
                            "event_outcomes"@,
                            s.event_outcomes@,
                            required_outcomes(),
                        ),
                        transitions_failure(s.transitions@),
                    ),
                ),
            ),
        ),
    )
}

/// First failing rule of the structured sections, in the order identifiers,
/// sequences, filesystem, frame layout.
pub open spec fn section_failure(s: FrozenSpec) -> Option<Seq<char>> {
    or_else(
        identifiers_failure(s.identifiers),
        or_else(
            sequences_failure(s.sequences),
            or_else(filesystem_failure(s.filesystem), frame_layout_failure(s.frame_layout)),
        ),
    )
}

fn validate_scalars(spec: &FrozenSpec) -> (result: Result<(), StageZeroError>)
    ensures
        reports(result, scalar_failure(*spec)),
{
    if !text_is(&spec.spec_version, "0.1") {
        return require(false, "spec_version must be 0.1");
    }
    if spec.protocol_version != CURRENT_PROTOCOL_VERSION {
        return require(false, "protocol_version mismatch");
    }
    if spec.file_format_version != CURRENT_FILE_FORMAT_VERSION {
        return require(false, "file_format_version mismatch");
    }
    if !text_is(&spec.encoding, "little-endian") {
        return require(false, "encoding must be little-endian");
    }
    if !text_is(&spec.text_encoding, "utf-8") {
        return require(false, "text_encoding must be utf-8");
    }
    if !text_is(&spec.checksum, "crc32c") {
        return require(false, "checksum must be crc32c");
    }
    if spec.max_record_bytes == 0 {
        return require(false, "max_record_bytes must be positive");
    }
    if spec.max_batch_bytes < spec.max_record_bytes {
        return require(false, "batch capacity is too small");
    }
    if spec.max_transaction_operations == 0 {
        return require(false, "max_transaction_operations must be positive");
    }
    if spec.log_segment_bytes < spec.max_batch_bytes {
        return require(false, "log segment is too small");
    }
    if spec.snapshot_bytes < spec.max_record_bytes {
        return require(false, "snapshot capacity is too small");
    }
    if spec.pending_queue_bytes < spec.max_batch_bytes {
        return require(false, "pending queue is too small");
    }
    if spec.node_id_bytes != 16 {
        return require(false, "node_id_bytes must be 16");
    }
    if spec.dataset_id_max_bytes == 0 {
        return require(false, "dataset_id_max_bytes must be positive");
    }
    if spec.partition_id_max_bytes == 0 {
        return require(false, "partition_id_max_bytes must be positive");
    }
    if spec.record_id_max_bytes == 0 {
        return require(false, "record_id_max_bytes must be positive");
    }
    if spec.sequence_bytes != 8 {
        return require(false, "sequence_bytes must be 8");
    }
    if !text_is(&spec.frame_magic, "LDB1") {
        return require(false, "frame_magic must be LDB1");
    }
    if spec.frame_header_bytes != 32 {
        return require(false, "frame_header_bytes must be 32");
    }
    Ok(())
}

/// Checks the frozen protocol, frame, capacity, and transition rules.
pub fn validate_spec(spec: &FrozenSpec) -> (result: Result<(), StageZeroError>)
    ensures
        reports(result, spec_failure(*spec)),
{
    let outcome = validate_scalars(spec);
    if outcome.is_err() {
        return outcome;
    }
    let outcome = validate_identifiers(&spec.identifiers);
    if outcome.is_err() {
        return outcome;
    }
    let outcome = validate_sequences(&spec.sequences);
    if outcome.is_err() {
        return outcome;
    }
    let outcome = validate_filesystem(&spec.filesystem);
    if outcome.is_err() {
        return outcome;
    }
    let outcome = validate_frame_layout(&spec.frame_layout);
    if outcome.is_err() {
        return outcome;
    }
    let outcome = validate_frame_types(&spec.frame_types);
    if outcome.is_err() {
        return outcome;
    }
    let outcome = validate_durability(&spec.durability);
    if outcome.is_err() {
        return outcome;
    }
    let outcome = validate_unique_values("error_codes", &spec.error_codes);
    if outcome.is_err() {
        return outcome;
    }
    let codes = [
        "E_FORMAT_VERSION",
        "E_FRAME_TYPE",
        "E_FRAME_LENGTH",
        "E_CHECKSUM",
        "E_TRUNCATED_TAIL",
        "E_DISK_FULL",
        "E_SEQUENCE_GAP",
        "E_DUPLICATE_OPERATION",
        "E_QUARANTINED_EVENT",
    ];
    assert(literals(codes@) =~= required_error_codes());
    let outcome = validate_required_values("error_codes", &spec.error_codes, &codes);
    if outcome.is_err() {
        return outcome;
    }
    let outcome = validate_unique_values("event_outcomes", &spec.event_outcomes);
    if outcome.is_err() {
        return outcome;
    }
    let outcomes = ["accepted", "duplicate", "pending_gap", "rejected", "quarantined"];
    assert(literals(outcomes@) =~= required_outcomes());
    let outcome = validate_required_values("event_outcomes", &spec.event_outcomes, &outcomes);
    if outcome.is_err() {
        return outcome;
    }
    validate_transitions(&spec.transitions)
}

// ---------------------------------------------------------------------------
// The fault matrix
// ---------------------------------------------------------------------------

/// The sixteen fault case identifiers every matrix must contain.
pub open spec fn required_fault_ids() -> Seq<Seq<char>> {
    seq![
        "F-001"@, "F-002"@, "F-003"@, "F-004"@, "F-005"@, "F-006"@, "F-007"@, "F-008"@,
        "F-009"@, "F-010"@, "F-011"@, "F-012"@, "F-013"@, "F-014"@, "F-015"@, "F-016"@,
    ]
}

/// The seven fault categories every matrix must cover.
pub open spec fn required_fault_categories() -> Seq<Seq<char>> {
    seq![
        "process_crash"@,
        "storage_corruption"@,
        "compatibility"@,
        "capacity"@,
        "data_semantics"@,
        "network"@,
        "restart"@,
    ]
}

/// The identifiers of a list of fault cases.
pub open spec fn case_ids(cases: Seq<FaultCase>) -> Seq<Seq<char>> {
    cases.map_values(|c: FaultCase| c.id@)
}

/// The categories of a list of fault cases.
pub open spec fn case_categories(cases: Seq<FaultCase>) -> Seq<Seq<char>> {
    cases.map_values(|c: FaultCase| c.category@)
}

/// The detail text for a fault case whose field `field` is blank.
pub open spec fn empty_field_text(id: Seq<char>, field: Seq<char>) -> Seq<char> {
    id + " has empty "@ + field
}

/// First failing rule of one fault case: no blank descriptive field (checked
/// in declaration order), a category that is one of the seven required
/// categories, a deterministic cursor effect (one that does not
/// offer alternatives joined by "or"), a declared outcome, and an error code
/// that is either empty or declared.
pub open spec fn fault_case_failure(
    c: FaultCase,
    error_codes: Seq<Seq<char>>,
    outcomes: Seq<Seq<char>>,
) -> Option<Seq<char>> {
    if is_blank_text(c.category@) {
        Some(empty_field_text(c.id@, "category"@))
    } else if is_blank_text(c.injection_point@) {
        Some(empty_field_text(c.id@, "injection_point"@))
    } else if is_blank_text(c.precondition@) {
        Some(empty_field_text(c.id@, "precondition"@))
    } else if is_blank_text(c.input@) {
        Some(empty_field_text(c.id@, "input"@))
    } else if is_blank_text(c.expected_outcome@) {
        Some(empty_field_text(c.id@, "expected_outcome"@))
    } else if is_blank_text(c.durable_artifacts@) {
        Some(empty_field_text(c.id@, "durable_artifacts"@))
    } else if is_blank_text(c.retry_action@) {
        Some(empty_field_text(c.id@, "retry_action"@))
    } else if is_blank_text(c.cursor_effect@) {
        Some(empty_field_text(c.id@, "cursor_effect"@))
    } else if is_blank_text(c.isolation_scope@) {
        Some(empty_field_text(c.id@, "isolation_scope"@))
    } else if !required_fault_categories().contains(c.category@) {
        Some(c.id@ + " has unknown category"@)
    } else if contains_fragment(c.cursor_effect@, " or "@) {
        Some(c.id@ + " has nondeterministic cursor_effect"@)
    } else if !outcomes.contains(c.expected_outcome@) {
        Some(c.id@ + " references unknown outcome"@)
    } else if !(c.error_code@.len() == 0 || error_codes.contains(c.error_code@)) {
        Some(c.id@ + " references unknown error code"@)
    } else {
        None
    }
}

fn literal_list_contains(list: &[&str], value: &str) -> (found: bool)
    ensures
        found == literals(list@).contains(value@),
{
    let mut k: usize = 0;
    while k < list.len()
        invariant
            k <= list@.len(),
            forall|j: int| 0 <= j < k ==> literals(list@)[j] != value@,
        decreases list@.len() - k,
    {
        if str_is(list[k], value) {
            assert(literals(list@)[k as int] == value@);
            return true;
        }
        k = k + 1;
    }
    false
}

fn case_detail(id: &String, middle: &str, last: &str) -> (detail: String)
    ensures
        detail@ == id@ + middle@ + last@,
{
    let mut detail = id.clone();
    detail.append(middle);
    detail.append(last);
    detail
}

fn require_filled(id: &String, field: &str, value: &String) -> (result: Result<(), StageZeroError>)
    ensures
        reports(result, check(!is_blank_text(value@), empty_field_text(id@, field@))),
{
    let blank = is_blank(value.as_str());
    let detail = case_detail(id, " has empty ", field);
    require(!blank, detail.as_str())
}

/// Checks required text and references for one fault case.
///
/// `error_codes` and `outcomes` are the vocabularies declared by the
/// specification; only membership in them matters.
pub fn validate_fault_case(case: &FaultCase, error_codes: &[String], outcomes: &[String]) -> (result:
    Result<(), StageZeroError>)
    ensures
        reports(result, fault_case_failure(*case, texts(error_codes@), texts(outcomes@))),
{
    let r = require_filled(&case.id, "category", &case.category);
    if r.is_err() {
        return r;
    }
    let r = require_filled(&case.id, "injection_point", &case.injection_point);
    if r.is_err() {
        return r;
    }
    let r = require_filled(&case.id, "precondition", &case.precondition);
    if r.is_err() {
        return r;
    }
    let r = require_filled(&case.id, "input", &case.input);
    if r.is_err() {
        return r;
    }
    let r = require_filled(&case.id, "expected_outcome", &case.expected_outcome);
    if r.is_err() {
        return r;
    }
    let r = require_filled(&case.id, "durable_artifacts", &case.durable_artifacts);
    if r.is_err() {
        return r;
    }
    let r = require_filled(&case.id, "retry_action", &case.retry_action);
    if r.is_err() {
        return r;
    }
    let r = require_filled(&case.id, "cursor_effect", &case.cursor_effect);
    if r.is_err() {
        return r;
    }
    let r = require_filled(&case.id, "isolation_scope", &case.isolation_scope);
    if r.is_err() {
        return r;
    }
    let categories = [
        "process_crash",
        "storage_corruption",
        "compatibility",
        "capacity",
        "data_semantics",
        "network",
        "restart",
    ];
    assert(literals(categories@) =~= required_fault_categories());
    let known_category = literal_list_contains(&categories, case.category.as_str());
    let mut detail = case.id.clone();
    detail.append(" has unknown category");
    let r = require(known_category, detail.as_str());
    if r.is_err() {
        return r;
    }
    let ambiguous = has_fragment(case.cursor_effect.as_str(), " or ");
    let mut detail = case.id.clone();
    detail.append(" has nondeterministic cursor_effect");
    let r = require(!ambiguous, detail.as_str());
    if r.is_err() {
        return r;
    }
    let known_outcome = contains_text(outcomes, case.expected_outcome.as_str());
    let mut detail = case.id.clone();
    detail.append(" references unknown outcome");
    let r = require(known_outcome, detail.as_str());
    if r.is_err() {
        return r;
    }
    let known_code = case.error_code.as_str().is_empty() || contains_text(
        error_codes,
        case.error_code.as_str(),
    );
    let mut detail = case.id.clone();
    detail.append(" references unknown error code");
    require(known_code, detail.as_str())
}

/// The rule for required identifier `k`: some case carries it.
pub open spec fn required_id_rules(cases: Seq<FaultCase>) -> spec_fn(int) -> Option<Seq<char>> {
    |k: int|
        check(
            case_ids(cases).contains(required_fault_ids()[k]),
            "missing fault case "@ + required_fault_ids()[k],
        )
}

/// The rule for required category `k`: some case belongs to it.
pub open spec fn required_category_rules(cases: Seq<FaultCase>) -> spec_fn(int) -> Option<
    Seq<char>,
> {
    |k: int|
        check(
            case_categories(cases).contains(required_fault_categories()[k]),
            "missing fault category "@ + required_fault_categories()[k],
        )
}

/// The rule for case `i`: it passes the fault case checks against the
/// specification's vocabularies.
pub open spec fn case_rules(s: FrozenSpec, cases: Seq<FaultCase>) -> spec_fn(int) -> Option<
    Seq<char>,
> {
    |i: int| fault_case_failure(cases[i], texts(s.error_codes@), texts(s.event_outcomes@))
}

/// First failing rule of the fault matrix: schema, case count, unique
/// identifiers, each required identifier, each required category, then each
/// case in order.
pub open spec fn matrix_failure(s: FrozenSpec, m: FaultMatrix) -> Option<Seq<char>> {
    let cases = m.cases@;
    if m.schema_version@ != "0.1"@ {
        Some("fault matrix schema_version must be 0.1"@)
    } else if cases.len() != 16 {
        Some("fault case count mismatch"@)
    } else if !case_ids(cases).no_duplicates() {
        Some("fault case IDs duplicate"@)
    } else {
        or_else(
            scan(16, required_id_rules(cases)),
            or_else(scan(7, required_category_rules(cases)), scan(16, case_rules(s, cases))),
        )
    }
}

fn distinct_ids(cases: &[FaultCase]) -> (distinct: bool)
    ensures
        distinct == case_ids(cases@).no_duplicates(),
{
    let ghost t = case_ids(cases@);
    let mut i: usize = 0;
    while i < cases.len()
        invariant
            i <= cases@.len(),
            t == case_ids(cases@),
            forall|a: int, b: int| 0 <= a < b < t.len() && a < i ==> t[a] != t[b],
        decreases cases@.len() - i,
    {
        let mut j: usize = i + 1;
        while j < cases.len()
            invariant
                i < cases@.len(),
                i + 1 <= j <= cases@.len(),
                t == case_ids(cases@),
                forall|a: int, b: int| 0 <= a < b < t.len() && a < i ==> t[a] != t[b],
                forall|b: int| i < b < j ==> t[i as int] != t[b],
            decreases cases@.len() - j,
        {
            if cases[i].id == cases[j].id {
                assert(t[i as int] == t[j as int]);
                return false;
            }
            j = j + 1;
        }
        i = i + 1;
    }
    true
}

fn has_id(cases: &[FaultCase], id: &str) -> (found: bool)
    ensures
        found == case_ids(cases@).contains(id@),
{
    let ghost t = case_ids(cases@);
    let mut k: usize = 0;
    while k < cases.len()
        invariant
            k <= cases@.len(),
            t == case_ids(cases@),
            forall|j: int| 0 <= j < k ==> t[j] != id@,
        decreases cases@.len() - k,
    {
        if text_is(&cases[k].id, id) {
            assert(t[k as int] == id@);
            return true;
        }
        k = k + 1;
    }
    false
}

fn has_category(cases: &[FaultCase], category: &str) -> (found: bool)
    ensures
        found == case_categories(cases@).contains(category@),
{
    let ghost t = case_categories(cases@);
    let mut k: usize = 0;
    while k < cases.len()
        invariant
            k <= cases@.len(),
            t == case_categories(cases@),
            forall|j: int| 0 <= j < k ==> t[j] != category@,
        decreases cases@.len() - k,
    {
        if text_is(&cases[k].category, category) {
            assert(t[k as int] == category@);
            return true;
        }
        k = k + 1;
    }
    false
}

/// Checks the fault matrix schema, case identities, categories, and references.
pub fn validate_matrix(spec: &FrozenSpec, matrix: &FaultMatrix) -> (result: Result<
    (),
    StageZeroError,
>)
    ensures
        reports(result, matrix_failure(*spec, *matrix)),
{
    if !text_is(&matrix.schema_version, "0.1") {
        return require(false, "fault matrix schema_version must be 0.1");
    }
    if matrix.cases.len() != 16 {
        return require(false, "fault case count mismatch");
    }
    if !distinct_ids(&matrix.cases) {
        return require(false, "fault case IDs duplicate");
    }
    let ghost cases = matrix.cases@;
    let ids = [
        "F-001", "F-002", "F-003", "F-004", "F-005", "F-006", "F-007", "F-008",
        "F-009", "F-010", "F-011", "F-012", "F-013", "F-014", "F-015", "F-016",
    ];
    assert(literals(ids@) =~= required_fault_ids());
    let ghost id_rules = required_id_rules(cases);
    let mut k: usize = 0;
    while k < 16
        invariant
            k <= 16,
            cases == matrix.cases@,
            matrix.schema_version@ == "0.1"@,
            cases.len() == 16,
            case_ids(cases).no_duplicates(),
            id_rules == required_id_rules(cases),
            literals(ids@) == required_fault_ids(),
            scan(k as int, id_rules) is None,
        decreases 16 - k,
    {
        let id = ids[k];
        assert(literals(ids@)[k as int] == id@);
        let found = has_id(&matrix.cases, id);
        let mut detail = String::from_str("missing fault case ");
        detail.append(id);
        let r = require(found, detail.as_str());
        if r.is_err() {
            proof {
                lemma_scan_settles(id_rules, k as int, 16);
            }
            return r;
        }
        k = k + 1;
    }
    let categories = [
        "process_crash",
        "storage_corruption",
        "compatibility",
        "capacity",
        "data_semantics",
        "network",
        "restart",
    ];
    assert(literals(categories@) =~= required_fault_categories());
    let ghost category_rules = required_category_rules(cases);
    let mut k: usize = 0;
    while k < 7
        invariant
            k <= 7,
            cases == matrix.cases@,
            matrix.schema_version@ == "0.1"@,
            cases.len() == 16,
            case_ids(cases).no_duplicates(),
            category_rules == required_category_rules(cases),
            id_rules == required_id_rules(cases),
            scan(16, id_rules) is None,
            literals(categories@) == required_fault_categories(),
            scan(k as int, category_rules) is None,
        decreases 7 - k,
    {
        let category = categories[k];
        assert(literals(categories@)[k as int] == category@);
        let found = has_category(&matrix.cases, category);
        let mut detail = String::from_str("missing fault category ");
        detail.append(category);
        let r = require(found, detail.as_str());
        if r.is_err() {
            proof {
                lemma_scan_settles(category_rules, k as int, 7);
            }
            return r;
        }
        k = k + 1;
    }
    let ghost per_case = case_rules(*spec, cases);
    let mut i: usize = 0;
    while i < 16
        invariant
            i <= 16,
            cases == matrix.cases@,
            matrix.schema_version@ == "0.1"@,
            cases.len() == 16,
            case_ids(cases).no_duplicates(),
            per_case == case_rules(*spec, cases),
            scan(16, id_rules) is None,
            scan(7, category_rules) is None,
            id_rules == required_id_rules(cases),
            category_rules == required_category_rules(cases),
            scan(i as int, per_case) is None,
        decreases 16 - i,
    {
        let r = validate_fault_case(&matrix.cases[i], &spec.error_codes, &spec.event_outcomes);
        if r.is_err() {
            proof {
                lemma_scan_settles(per_case, i as int, 16);
            }
            return r;
        }
        i = i + 1;
    }
    Ok(())
}

// ---------------------------------------------------------------------------
// Document digest and summary
// ---------------------------------------------------------------------------

/// FNV-1a 64-bit offset basis.
pub const FNV_OFFSET_BASIS: u64 = 0xcbf29ce484222325;

/// FNV-1a 64-bit prime.
pub const FNV_PRIME: u64 = 0x100000001b3;

/// One FNV-1a round: fold a byte into the hash, then multiply modulo 2^64.
pub open spec fn fnv1a_step(hash: u64, byte: u8) -> u64 {
    (hash ^ (byte as u64)).wrapping_mul(FNV_PRIME)
}

/// FNV-1a rounds over `bytes`, in order, starting from `seed`.
pub open spec fn fnv1a_fold(seed: u64, bytes: Seq<u8>) -> u64
    decreases bytes.len(),
{
    if bytes.len() == 0 {
        seed
    } else {
        fnv1a_step(fnv1a_fold(seed, bytes.drop_last()), bytes.last())
    }
}

/// The FNV-1a digest of the specification bytes, a zero separator byte, and
/// the matrix bytes.
pub open spec fn document_digest(spec: Seq<u8>, matrix: Seq<u8>) -> u64 {
    fnv1a_fold(FNV_OFFSET_BASIS, spec + seq![0u8] + matrix)
}

/// Lower-case hexadecimal digit.
pub open spec fn is_lower_hex_digit(c: char) -> bool {
    ('0' <= c <= '9') || ('a' <= c <= 'f')
}

/// Folding a concatenation folds the first part, then the second.
pub proof fn lemma_fnv1a_fold_concat(seed: u64, a: Seq<u8>, b: Seq<u8>)
    ensures
        fnv1a_fold(seed, a + b) == fnv1a_fold(fnv1a_fold(seed, a), b),
    decreases b.len(),
{
    if b.len() == 0 {
        assert(a + b =~= a);
    } else {
        assert((a + b).drop_last() =~= a + b.drop_last());
        lemma_fnv1a_fold_concat(seed, a, b.drop_last());
    }
}

/// The fixed-width hexadecimal text has exactly `width` lower-case digits.
pub proof fn lemma_hex_text_shape(v: nat, width: nat)
    ensures
        hex_text(v, width).len() == width,
        forall|i: int| 0 <= i < width ==> is_lower_hex_digit(#[trigger] hex_text(v, width)[i]),
    decreases width,
{
    if width > 0 {
        lemma_hex_text_shape(v / 16, (width - 1) as nat);
        let d = v % 16;
        assert(is_lower_hex_digit(crate::text::digit_char(d)));
    }
}

fn fnv1a_extend(seed: u64, bytes: &[u8]) -> (hash: u64)
    ensures
        hash == fnv1a_fold(seed, bytes@),
{
    let mut hash = seed;
    let mut i: usize = 0;
    while i < bytes.len()
        invariant
            i <= bytes@.len(),
            hash == fnv1a_fold(seed, bytes@.take(i as int)),
        decreases bytes@.len() - i,
    {
        assert(bytes@.take(i as int + 1).drop_last() =~= bytes@.take(i as int));
        hash = (hash ^ (bytes[i] as u64)).wrapping_mul(FNV_PRIME);
        i = i + 1;
    }
    assert(bytes@.take(bytes@.len() as int) =~= bytes@);
    hash
}

/// Returns a stable FNV-1a hash over the exact documents, as sixteen
/// lower-case hexadecimal digits.
pub fn stable_hash(spec: &str, matrix: &str) -> (hash: String)
    ensures
        hash@ == hex_text(document_digest(spec.spec_bytes(), matrix.spec_bytes()) as nat, 16),
        hash@.len() == 16,
        forall|i: int| 0 <= i < 16 ==> is_lower_hex_digit(#[trigger] hash@[i]),
{
    let separator = [0u8];
    let h = fnv1a_extend(FNV_OFFSET_BASIS, spec.as_bytes());
    let h = fnv1a_extend(h, &separator);
    let h = fnv1a_extend(h, matrix.as_bytes());
    proof {
        let s = spec.spec_bytes();
        let m = matrix.spec_bytes();
        assert(separator@ =~= seq![0u8]);
        lemma_fnv1a_fold_concat(FNV_OFFSET_BASIS, s, seq![0u8]);
        lemma_fnv1a_fold_concat(FNV_OFFSET_BASIS, s + seq![0u8], m);
        lemma_hex_text_shape(h as nat, 16);
    }
    hex_text_16(h)
}

/// The outcome of validating parsed documents: the first failing rule of the
/// specification, else of the matrix; otherwise the summary of both.
pub open spec fn documents_verdict(
    result: Result<StageZeroSummary, StageZeroError>,
    spec: FrozenSpec,
    matrix: FaultMatrix,
    spec_document: &str,
    matrix_document: &str,
) -> bool {
    match or_else(spec_failure(spec), matrix_failure(spec, matrix)) {
        Some(detail) => result matches Err(StageZeroError::Validation(text)) && text@ == detail,
        None => result matches Ok(summary) && {
            &&& summary.spec_version@ == spec.spec_version@
            &&& summary.fault_cases == matrix.cases@.len()
            &&& summary.transition_rules == spec.transitions@.len()
            &&& summary.spec_hash@ == hex_text(
                document_digest(spec_document.spec_bytes(), matrix_document.spec_bytes()) as nat,
                16,
            )
        },
    }
}

/// Validates a parsed specification and fault matrix and summarizes them:
/// the specification version, the case and transition counts, and the digest
/// of the documents they were read from.
pub fn validate_parsed_documents(
    spec: &FrozenSpec,
    matrix: &FaultMatrix,
    spec_document: &str,
    matrix_document: &str,
) -> (result: Result<StageZeroSummary, StageZeroError>)
    ensures
        documents_verdict(result, *spec, *matrix, spec_document, matrix_document),
{
    match validate_spec(spec) {
        Ok(()) => {},
        Err(e) => return Err(e),
    }
    match validate_matrix(spec, matrix) {
        Ok(()) => {},
        Err(e) => return Err(e),
    }
    Ok(
        StageZeroSummary {
            spec_version: spec.spec_version.clone(),
            fault_cases: matrix.cases.len(),
            transition_rules: spec.transitions.len(),
            spec_hash: stable_hash(spec_document, matrix_document),
        },
    )
}

// ---------------------------------------------------------------------------
// Laws of accepted documents
// ---------------------------------------------------------------------------

/// The sixteen required fault identifiers are distinct.
pub proof fn lemma_required_fault_ids_distinct()
    ensures
        required_fault_ids().no_duplicates(),
{
    let r = required_fault_ids();
    reveal_strlit("F-001");
    reveal_strlit("F-002");
    reveal_strlit("F-003");
    reveal_strlit("F-004");
    reveal_strlit("F-005");
    reveal_strlit("F-006");
    reveal_strlit("F-007");
    reveal_strlit("F-008");
    reveal_strlit("F-009");
    reveal_strlit("F-010");
    reveal_strlit("F-011");
    reveal_strlit("F-012");
    reveal_strlit("F-013");
    reveal_strlit("F-014");
    reveal_strlit("F-015");
    reveal_strlit("F-016");
    assert forall|i: int, j: int| 0 <= i < 16 && 0 <= j < 16 && i != j implies r[i] != r[j] by {
        assert(r[i][3] != r[j][3] || r[i][4] != r[j][4]);
    }
}

/// A fault matrix passes validation only when its cases carry exactly the
/// identifiers F-001 to F-016, one each, cover every required category, and
/// every case names a declared outcome and an empty or declared error code.
pub proof fn lemma_accepted_matrix_is_complete(s: FrozenSpec, m: FaultMatrix)
    requires
        matrix_failure(s, m) is None,
    ensures
        m.cases@.len() == 16,
        case_ids(m.cases@).no_duplicates(),
        case_ids(m.cases@).to_set() == required_fault_ids().to_set(),
        forall|k: int|
            0 <= k < 7 ==> case_categories(m.cases@).contains(
                #[trigger] required_fault_categories()[k],
            ),
        forall|i: int|
            0 <= i < 16 ==> {
                &&& texts(s.event_outcomes@).contains(#[trigger] m.cases@[i].expected_outcome@)
                &&& (m.cases@[i].error_code@.len() == 0 || texts(s.error_codes@).contains(
                    m.cases@[i].error_code@,
                ))
            },
{
    let cases = m.cases@;
    let ids = case_ids(cases);
    let required = required_fault_ids();
    lemma_scan_passes_each(required_id_rules(cases), 16);
    lemma_scan_passes_each(required_category_rules(cases), 7);
    lemma_scan_passes_each(case_rules(s, cases), 16);
    assert forall|k: int| 0 <= k < 7 implies case_categories(cases).contains(
        #[trigger] required_fault_categories()[k],
    ) by {
        assert(required_category_rules(cases)(k) is None);
    }
    assert forall|i: int| 0 <= i < 16 implies {
        &&& texts(s.event_outcomes@).contains(#[trigger] cases[i].expected_outcome@)
        &&& (cases[i].error_code@.len() == 0 || texts(s.error_codes@).contains(
            cases[i].error_code@,
        ))
    } by {
        assert(case_rules(s, cases)(i) is None);
    }
    assert forall|p| required.to_set().contains(p) implies ids.to_set().contains(p) by {
        let k = choose|k: int| 0 <= k < required.len() && required[k] == p;
        assert(required_id_rules(cases)(k) is None);
    }
    lemma_required_fault_ids_distinct();
    required.unique_seq_to_set();
    ids.unique_seq_to_set();
    vstd::seq_lib::seq_to_set_is_finite(ids);
    vstd::seq_lib::seq_to_set_is_finite(required);
    vstd::set_lib::lemma_subset_equality(required.to_set(), ids.to_set());
}

/// The document name of a synchronization state.
pub open spec fn state_document_name(s: SyncState) -> Seq<char> {
    match s {
        SyncState::LocalCommitted => "local_committed"@,
        SyncState::HubReceived => "hub_received"@,
        SyncState::HubApplied => "hub_applied"@,
    }
}

/// The transitions the frozen specification must list are exactly the edges
/// the synchronization state machine allows.
pub proof fn lemma_required_pairs_match_state_machine(a: SyncState, b: SyncState)
    ensures
        transition_allowed(a, b) <==> required_transition_pairs().contains(
            (state_document_name(a), state_document_name(b)),
        ),
{
    let r = required_transition_pairs();
    let p = (state_document_name(a), state_document_name(b));
    reveal_strlit("local_committed");
    reveal_strlit("hub_received");
    reveal_strlit("hub_applied");
    assert("local_committed"@.len() == 15);
    assert("hub_received"@.len() == 12);
    assert("hub_applied"@.len() == 11);
    if transition_allowed(a, b) {
        match (a, b) {
            (SyncState::LocalCommitted, SyncState::LocalCommitted) => assert(r[0] == p),
            (SyncState::LocalCommitted, SyncState::HubReceived) => assert(r[1] == p),
            (SyncState::HubReceived, SyncState::HubReceived) => assert(r[2] == p),
            (SyncState::HubReceived, SyncState::HubApplied) => assert(r[3] == p),
            (SyncState::HubApplied, SyncState::HubApplied) => assert(r[4] == p),
            _ => {},
        }
    } else if r.contains(p) {
        let k = choose|k: int| 0 <= k < r.len() && r[k] == p;
        assert(r[k].0.len() == p.0.len() && r[k].1.len() == p.1.len());
    }
}

/// `b` lists the elements of `a` in another order: `p` maps each position of
/// `b` to the position of `a` holding the same element, and `q` is its inverse.
pub open spec fn is_reordering<A>(a: Seq<A>, b: Seq<A>, p: Seq<int>, q: Seq<int>) -> bool {
    &&& a.len() == b.len()
    &&& p.len() == b.len()
    &&& q.len() == a.len()
    &&& forall|i: int|
        0 <= i < b.len() ==> 0 <= #[trigger] p[i] < a.len() && b[i] == a[p[i]] && q[p[i]] == i
    &&& forall|j: int|
        0 <= j < a.len() ==> 0 <= #[trigger] q[j] < b.len() && a[j] == b[q[j]] && p[q[j]] == j
}

/// The matrix rules, stated as conditions rather than as a first failure.
pub open spec fn matrix_accepted(s: FrozenSpec, m: FaultMatrix) -> bool {
    let cases = m.cases@;
    &&& m.schema_version@ == "0.1"@
    &&& cases.len() == 16
    &&& case_ids(cases).no_duplicates()
    &&& forall|k: int| 0 <= k < 16 ==> case_ids(cases).contains(#[trigger] required_fault_ids()[k])
    &&& forall|k: int|
        0 <= k < 7 ==> case_categories(cases).contains(#[trigger] required_fault_categories()[k])
    &&& forall|i: int|
        0 <= i < 16 ==> #[trigger] fault_case_failure(
            cases[i],
            texts(s.error_codes@),
            texts(s.event_outcomes@),
        ) is None
}

/// A matrix passes validation exactly when it meets every matrix rule.
pub proof fn lemma_matrix_failure_none_iff_accepted(s: FrozenSpec, m: FaultMatrix)
    ensures
        matrix_failure(s, m) is None <==> matrix_accepted(s, m),
{
    let cases = m.cases@;
    lemma_scan_passes_iff_each_passes(required_id_rules(cases), 16);
    lemma_scan_passes_iff_each_passes(required_category_rules(cases), 7);
    lemma_scan_passes_iff_each_passes(case_rules(s, cases), 16);
    if matrix_accepted(s, m) {
        assert forall|k: int| 0 <= k < 16 implies #[trigger] required_id_rules(cases)(k) is None by {
            assert(case_ids(cases).contains(required_fault_ids()[k]));
        }
        assert forall|k: int| 0 <= k < 7 implies #[trigger] required_category_rules(cases)(
            k,
        ) is None by {
            assert(case_categories(cases).contains(required_fault_categories()[k]));
        }
        assert forall|i: int| 0 <= i < 16 implies #[trigger] case_rules(s, cases)(i) is None by {
            assert(fault_case_failure(cases[i], texts(s.error_codes@), texts(s.event_outcomes@))
                is None);
        }
    }
    if matrix_failure(s, m) is None {
        assert forall|k: int| 0 <= k < 16 implies case_ids(cases).contains(
            #[trigger] required_fault_ids()[k],
        ) by {
            assert(required_id_rules(cases)(k) is None);
        }
        assert forall|k: int| 0 <= k < 7 implies case_categories(cases).contains(
            #[trigger] required_fault_categories()[k],
        ) by {
            assert(required_category_rules(cases)(k) is None);
        }
        assert forall|i: int| 0 <= i < 16 implies #[trigger] fault_case_failure(
            cases[i],
            texts(s.error_codes@),
            texts(s.event_outcomes@),
        ) is None by {
            assert(case_rules(s, cases)(i) is None);
        }
    }
}

proof fn lemma_matrix_accepted_transfers(
    s1: FrozenSpec,
    s2: FrozenSpec,
    m1: FaultMatrix,
    m2: FaultMatrix,
    p: Seq<int>,
    q: Seq<int>,
)
    requires
        matrix_accepted(s1, m1),
        texts(s1.error_codes@).to_set() == texts(s2.error_codes@).to_set(),
        texts(s1.event_outcomes@).to_set() == texts(s2.event_outcomes@).to_set(),
        m1.schema_version@ == m2.schema_version@,
        is_reordering(m1.cases@, m2.cases@, p, q),
    ensures
        matrix_accepted(s2, m2),
{
    let a = m1.cases@;
    let b = m2.cases@;
    let ia = case_ids(a);
    let ib = case_ids(b);
    assert forall|i: int, j: int| 0 <= i < ib.len() && 0 <= j < ib.len() && i != j implies ib[i]
        != ib[j] by {
        assert(ib[i] == ia[p[i]] && ib[j] == ia[p[j]]);
        assert(p[i] != p[j]);
    }
    assert forall|k: int| 0 <= k < 16 implies ib.contains(#[trigger] required_fault_ids()[k]) by {
        let t = choose|t: int| 0 <= t < ia.len() && ia[t] == required_fault_ids()[k];
        assert(ib[q[t]] == ia[t]);
    }
    assert forall|k: int| 0 <= k < 7 implies case_categories(b).contains(
        #[trigger] required_fault_categories()[k],
    ) by {
        let t = choose|t: int|
            0 <= t < case_categories(a).len() && case_categories(a)[t]
                == required_fault_categories()[k];
        assert(case_categories(b)[q[t]] == case_categories(a)[t]);
    }
    assert forall|x: Seq<char>|
        texts(s1.error_codes@).contains(x) == texts(s2.error_codes@).contains(x) by {
        vstd::set::axiom_set_new(|y: Seq<char>| texts(s1.error_codes@).contains(y), x);
        vstd::set::axiom_set_new(|y: Seq<char>| texts(s2.error_codes@).contains(y), x);
        assert(texts(s1.error_codes@).to_set().contains(x) == texts(s2.error_codes@).to_set().contains(x));
    }
    assert forall|x: Seq<char>|
        texts(s1.event_outcomes@).contains(x) == texts(s2.event_outcomes@).contains(x) by {
        vstd::set::axiom_set_new(|y: Seq<char>| texts(s1.event_outcomes@).contains(y), x);
        vstd::set::axiom_set_new(|y: Seq<char>| texts(s2.event_outcomes@).contains(y), x);
        assert(texts(s1.event_outcomes@).to_set().contains(x) == texts(
            s2.event_outcomes@,
        ).to_set().contains(x));
    }
    assert forall|i: int| 0 <= i < 16 implies #[trigger] fault_case_failure(
        b[i],
        texts(s2.error_codes@),
        texts(s2.event_outcomes@),
    ) is None by {
        assert(b[i] == a[p[i]]);
        assert(fault_case_failure(a[p[i]], texts(s1.error_codes@), texts(s1.event_outcomes@))
            is None);
    }
}

/// Whether a fault matrix passes validation does not depend on the order of
/// its cases, nor on how the specification lists its error codes and outcomes:
/// only the sets of error codes and outcomes matter, and no other field of the
/// specification is read.
pub proof fn lemma_matrix_verdict_ignores_order(
    s1: FrozenSpec,
    s2: FrozenSpec,
    m1: FaultMatrix,
    m2: FaultMatrix,
    p: Seq<int>,
    q: Seq<int>,
)
    requires
        texts(s1.error_codes@).to_set() == texts(s2.error_codes@).to_set(),
        texts(s1.event_outcomes@).to_set() == texts(s2.event_outcomes@).to_set(),
        m1.schema_version@ == m2.schema_version@,
        is_reordering(m1.cases@, m2.cases@, p, q),
    ensures
        matrix_failure(s1, m1) is None <==> matrix_failure(s2, m2) is None,
{
    lemma_matrix_failure_none_iff_accepted(s1, m1);
    lemma_matrix_failure_none_iff_accepted(s2, m2);
    if matrix_accepted(s1, m1) {
        lemma_matrix_accepted_transfers(s1, s2, m1, m2, p, q);
    }
    if matrix_accepted(s2, m2) {
        lemma_matrix_accepted_transfers(s2, s1, m2, m1, q, p);
    }
}

// ---------------------------------------------------------------------------
// Laws of the individual rules
// ---------------------------------------------------------------------------

/// The scalar rules accept a specification exactly when its versions are
/// current, its encodings, checksum and magic are the frozen ones, every
/// capacity that must be positive is, a batch holds a record, a log segment and
/// the pending queue hold a batch, a snapshot holds a record, and the fixed
/// widths are 16-byte node ids, 8-byte sequences and a 32-byte frame header.
pub proof fn lemma_scalar_rules_accept_exactly_the_frozen_relations(s: FrozenSpec)
    ensures
        scalar_failure(s) is None <==> {
            &&& s.spec_version@ == "0.1"@
            &&& s.protocol_version == 1
            &&& s.file_format_version == 1
            &&& s.encoding@ == "little-endian"@
            &&& s.text_encoding@ == "utf-8"@
            &&& s.checksum@ == "crc32c"@
            &&& s.max_record_bytes > 0
            &&& s.max_batch_bytes >= s.max_record_bytes
            &&& s.max_transaction_operations > 0
            &&& s.log_segment_bytes >= s.max_batch_bytes
            &&& s.snapshot_bytes >= s.max_record_bytes
            &&& s.pending_queue_bytes >= s.max_batch_bytes
            &&& s.node_id_bytes == 16
            &&& s.dataset_id_max_bytes > 0
            &&& s.partition_id_max_bytes > 0
            &&& s.record_id_max_bytes > 0
            &&& s.sequence_bytes == 8
            &&& s.frame_magic@ == "LDB1"@
            &&& s.frame_header_bytes == 32
        },
{
}

/// In accepted transition rules every entry, not only the first, has a
/// non-blank trigger, persistence rule and cursor effect.
pub proof fn lemma_accepted_transitions_have_filled_texts(ts: Seq<TransitionRule>)
    requires
        transitions_failure(ts) is None,
    ensures
        forall|i: int|
            0 <= i < ts.len() ==> {
                &&& !is_blank_text(#[trigger] ts[i].trigger@)
                &&& !is_blank_text(ts[i].persisted@)
                &&& !is_blank_text(ts[i].cursor_effect@)
            },
{
    lemma_scan_passes_each(transition_entry_rules(ts), 5);
    assert forall|i: int| 0 <= i < ts.len() implies {
        &&& !is_blank_text(#[trigger] ts[i].trigger@)
        &&& !is_blank_text(ts[i].persisted@)
        &&& !is_blank_text(ts[i].cursor_effect@)
    } by {
        assert(transition_entry_rules(ts)(i) is None);
    }
}

/// A blank text in the transition at position `i` is what gets reported when
/// every earlier transition has its three texts filled and a pair of its own:
/// a blank trigger first, then a blank persistence rule, then a blank cursor
/// effect.
pub proof fn lemma_first_blank_transition_text_is_reported(ts: Seq<TransitionRule>, i: int)
    requires
        ts.len() == 5,
        0 <= i < 5,
        forall|j: int|
            0 <= j < i ==> {
                &&& !is_blank_text(#[trigger] ts[j].trigger@)
                &&& !is_blank_text(ts[j].persisted@)
                &&& !is_blank_text(ts[j].cursor_effect@)
                &&& forall|k: int| 0 <= k < j ==> rule_pair(ts[k]) != rule_pair(ts[j])
            },
        is_blank_text(ts[i].trigger@) || is_blank_text(ts[i].persisted@) || is_blank_text(
            ts[i].cursor_effect@,
        ),
    ensures
        is_blank_text(ts[i].trigger@) ==> transitions_failure(ts) == Some(
            "transition trigger is empty"@,
        ),
        !is_blank_text(ts[i].trigger@) && is_blank_text(ts[i].persisted@) ==> transitions_failure(
            ts,
        ) == Some("transition persistence rule is empty"@),
        !is_blank_text(ts[i].trigger@) && !is_blank_text(ts[i].persisted@) ==> transitions_failure(
            ts,
        ) == Some("transition cursor effect is empty"@),
{
    let rules = transition_entry_rules(ts);
    assert forall|j: int| 0 <= j < i implies #[trigger] rules(j) is None by {
        assert(!is_blank_text(ts[j].trigger@));
        if exists|k: int| 0 <= k < j && rule_pair(#[trigger] ts[k]) == rule_pair(ts[j]) {
            let k = choose|k: int| 0 <= k < j && rule_pair(#[trigger] ts[k]) == rule_pair(ts[j]);
            assert(rule_pair(ts[k]) != rule_pair(ts[j]));
        }
    }
    lemma_scan_passes_iff_each_passes(rules, i);
    assert(rules(i) is Some);
    lemma_scan_settles(rules, i, 5);
}

/// A fault case passes the case rules exactly when none of its descriptive
/// fields is blank, its category is one of the seven, its cursor effect never
/// contains the word "or" between spaces, its outcome is declared, and its
/// error code is empty or declared. In particular a cursor effect such as
/// "origin advances" is deterministic.
pub proof fn lemma_fault_case_rules_accept_exactly(
    c: FaultCase,
    error_codes: Seq<Seq<char>>,
    outcomes: Seq<Seq<char>>,
)
    ensures
        fault_case_failure(c, error_codes, outcomes) is None <==> {
            &&& !is_blank_text(c.category@)
            &&& !is_blank_text(c.injection_point@)
            &&& !is_blank_text(c.precondition@)
            &&& !is_blank_text(c.input@)
            &&& !is_blank_text(c.expected_outcome@)
            &&& !is_blank_text(c.durable_artifacts@)
            &&& !is_blank_text(c.retry_action@)
            &&& !is_blank_text(c.cursor_effect@)
            &&& !is_blank_text(c.isolation_scope@)
            &&& required_fault_categories().contains(c.category@)
            &&& forall|i: int|
                0 <= i && i + 4 <= c.cursor_effect@.len() ==> #[trigger] c.cursor_effect@.subrange(
                    i,
                    i + 4,
                ) != seq![' ', 'o', 'r', ' ']
            &&& outcomes.contains(c.expected_outcome@)
            &&& (c.error_code@.len() == 0 || error_codes.contains(c.error_code@))
        },
{
    reveal_strlit(" or ");
    assert(" or "@ =~= seq![' ', 'o', 'r', ' ']);
}

/// One FNV-1a round XORs the byte, zero-extended, into the hash: the seven
/// upper bytes are left untouched and the lowest byte is XORed with the byte.
/// The result is then multiplied by the FNV prime 0x100000001b3 modulo 2^64.
pub proof fn lemma_fnv1a_round_xors_the_unsigned_byte(h: u64, b: u8)
    ensures
        ({
            let x = h ^ (b as u64);
            &&& x / 256 == h / 256
            &&& x % 256 == (h % 256) ^ (b as u64)
            &&& fnv1a_step(h, b) as nat == (x as nat * 0x100000001b3nat) % 0x1_0000_0000_0000_0000nat
        }),
{
    let x = h ^ (b as u64);
    assert(x / 256 == h / 256) by (bit_vector)
        requires
            x == h ^ (b as u64),
    ;
    assert(x % 256 == (h % 256) ^ (b as u64)) by (bit_vector)
        requires
            x == h ^ (b as u64),
    ;
}

/// The document digest runs FNV-1a from the offset basis over the
/// specification bytes, then over one zero byte, then over the matrix bytes.
pub proof fn lemma_document_digest_separates_with_zero(spec: Seq<u8>, matrix: Seq<u8>)
    ensures
        document_digest(spec, matrix) == fnv1a_fold(
            fnv1a_step(fnv1a_fold(0xcbf29ce484222325u64, spec), 0u8),
            matrix,
        ),
        fnv1a_fold(0xcbf29ce484222325u64, Seq::<u8>::empty()) == 0xcbf29ce484222325u64,
        forall|seed: u64, bytes: Seq<u8>, b: u8|
            #[trigger] fnv1a_fold(seed, bytes.push(b)) == fnv1a_step(fnv1a_fold(seed, bytes), b),
{
    lemma_fnv1a_fold_concat(FNV_OFFSET_BASIS, spec, seq![0u8]);
    lemma_fnv1a_fold_concat(FNV_OFFSET_BASIS, spec + seq![0u8], matrix);
    let one = seq![0u8];
    assert(one.drop_last() =~= Seq::<u8>::empty());
    assert forall|seed: u64, bytes: Seq<u8>, b: u8|
        #[trigger] fnv1a_fold(seed, bytes.push(b)) == fnv1a_step(fnv1a_fold(seed, bytes), b) by {
        assert(bytes.push(b).drop_last() =~= bytes);
    }
}

} // verus!
