//! The structured sections of the frozen specification: identifier rules,
//! sequence and cursor rules, on-disk names and atomic-write order, and the
//! frame-header layout. Every field is frozen to one value; each validator
//! reports the first field, in declaration order, that differs.
use vstd::prelude::*;

use crate::stage_zero::{literals, reports, require, texts, StageZeroError};
use crate::text::text_is;

verus! {

/// Whether the list holds exactly the given texts, in order.
fn texts_are(values: &[String], expected: &[&str]) -> (same: bool)
    ensures
        same == (texts(values@) == literals(expected@)),
{
    if values.len() != expected.len() {
        assert(texts(values@).len() != literals(expected@).len());
        return false;
    }
    let mut k: usize = 0;
    while k < values.len()
        invariant
            values@.len() == expected@.len(),
            k <= values@.len(),
            forall|j: int| 0 <= j < k ==> texts(values@)[j] == literals(expected@)[j],
        decreases values@.len() - k,
    {
        if !text_is(&values[k], expected[k]) {
            assert(texts(values@)[k as int] != literals(expected@)[k as int]);
            return false;
        }
        k = k + 1;
    }
    assert(texts(values@) =~= literals(expected@));
    true
}

/// Identifier encoding and deduplication rules.
#[derive(Debug, Clone, PartialEq, Eq)]
pub struct Identifiers {
    /// Encoding of the persistent node identity.
    pub node_encoding: String,
    /// Node identity byte width.
    pub node_bytes: u8,
    /// Cryptographically secure node identity generator.
    pub node_generator: String,
    /// File boundary at which a new node identity becomes durable.
    pub node_persistence: String,
    /// Whether the node identity survives every restart unchanged.
    pub node_immutable: bool,
    /// Transaction identity encoding.
    pub transaction_encoding: String,
    /// Transaction identity byte width.
    pub transaction_bytes: u8,
    /// Transaction identity generator.
    pub transaction_generator: String,
    /// Behavior when a transaction identity is reused.
    pub transaction_reuse: String,
    /// Operation identity encoding.
    pub operation_encoding: String,
    /// Operation identity byte width.
    pub operation_bytes: u8,
    /// Operation identity generator.
    pub operation_generator: String,
    /// Behavior when an operation identity is reused.
    pub operation_reuse: String,
    /// Tuple used by the receiver for idempotent deduplication.
    pub operation_dedup_key: String,
    /// Text identifier encoding.
    pub text_encoding: String,
    /// Minimum text identifier length in encoded bytes.
    pub text_min_bytes: u16,
    /// Maximum text identifier length in encoded bytes.
    pub text_max_bytes: u16,
    /// Length-prefix width for variable text fields.
    pub text_length_prefix: String,
    /// Equality rule; no locale or case folding is allowed.
    pub text_equality: String,
    /// Unicode normalization policy.
    pub text_normalization: String,
    /// NUL-byte policy for path-safe text identifiers.
    pub text_nul: String,
}

/// Sequence allocation and contiguous cursor rules.
#[derive(Debug, Clone, PartialEq, Eq)]
pub struct Sequences {
    /// Tuple that owns an origin sequence space.
    pub origin_scope: String,
    /// Origin sequence width in bits.
    pub origin_width_bits: u8,
    /// First valid origin sequence; zero means absent.
    pub origin_initial: u64,
    /// Commit boundary at which origin sequence allocation occurs.
    pub origin_assignment: String,
    /// Durability boundary shared by sequence and commit.
    pub origin_persistence: String,
    /// Restart rule for the next origin sequence.
    pub origin_restart: String,
    /// Overflow result; sequence values never wrap.
    pub origin_overflow: String,
    /// Tuple that owns a partition commit sequence space.
    pub partition_scope: String,
    /// Partition sequence width in bits.
    pub partition_width_bits: u8,
    /// First valid partition commit sequence.
    pub partition_initial: u64,
    /// Commit boundary at which the partition sequence advances.
    pub partition_assignment: String,
    /// Rule for failed transactions and sequence gaps.
    pub partition_gaps: String,
    /// Overflow result for partition sequence values.
    pub partition_overflow: String,
    /// Full identity of one persisted synchronization cursor.
    pub cursor_key: String,
    /// Cursor kinds in their allowed progression order.
    pub cursor_kinds: Vec<String>,
    /// Meaning of a cursor value.
    pub cursor_value: String,
    /// Initial cursor value before any event is confirmed.
    pub cursor_initial: u64,
    /// Single-step contiguous advancement rule.
    pub cursor_advance: String,
    /// Effect of a duplicate event on a cursor.
    pub duplicate_effect: String,
    /// Effect of a missing sequence on a cursor.
    pub gap_effect: String,
}

/// Canonical on-disk names and atomic replacement steps.
#[derive(Debug, Clone, PartialEq, Eq)]
pub struct Filesystem {
    /// Relative root selected by the runtime configuration.
    pub data_root: String,
    /// Atomic metadata file containing format and node identity.
    pub format_meta: String,
    /// Single-process ownership lock.
    pub lock_file: String,
    /// Partition directory template after identifier digesting.
    pub partition_directory: String,
    /// Segment filename template keyed by first sequence.
    pub segment_pattern: String,
    /// Snapshot filename template keyed by commit sequence.
    pub snapshot_pattern: String,
    /// Cursor filename template keyed by peer identity.
    pub cursor_pattern: String,
    /// Quarantine filename template keyed by event identity.
    pub quarantine_pattern: String,
    /// Same-filesystem temporary directory for atomic writes.
    pub temporary_directory: String,
    /// Temporary suffix that is never treated as committed data.
    pub temporary_suffix: String,
    /// Rule rejecting unsafe caller-supplied path fragments.
    pub path_input_rule: String,
    /// Ordered write, sync, rename, and parent-sync operations.
    pub atomic_write_steps: Vec<String>,
}

/// Fixed frame-header byte offsets and checksum scope.
#[derive(Debug, Clone, PartialEq, Eq)]
pub struct FrameLayout {
    /// Offset of the four-byte magic.
    pub magic_offset: u8,
    /// Width of the magic field.
    pub magic_width: u8,
    /// Offset of the format version.
    pub version_offset: u8,
    /// Width of the format version.
    pub version_width: u8,
    /// Offset of the frame type.
    pub type_offset: u8,
    /// Offset of flags; all currently defined flags are zero.
    pub flags_offset: u8,
    /// Offset of the payload length.
    pub payload_length_offset: u8,
    /// Width of the payload length.
    pub payload_length_width: u8,
    /// Offset of the sequence value.
    pub sequence_offset: u8,
    /// Width of the sequence value.
    pub sequence_width: u8,
    /// Offset of the CRC32C field.
    pub checksum_offset: u8,
    /// Width of the CRC32C field.
    pub checksum_width: u8,
    /// Offset of reserved bytes.
    pub reserved_offset: u8,
    /// Width of reserved bytes.
    pub reserved_width: u8,
    /// Required value for all reserved bytes.
    pub reserved_value: u32,
    /// Exact byte range covered by the checksum.
    pub checksum_coverage: String,
    /// Failure behavior for unknown frame types.
    pub unknown_type: String,
    /// Failure behavior for nonzero flags.
    pub nonzero_flags: String,
}

/// First field of the `identifiers` section that differs from its frozen value,
/// checked in declaration order.
pub open spec fn identifiers_failure(v: Identifiers) -> Option<Seq<char>> {
    if v.node_encoding@ != "binary"@ {
        Some("identifiers.node_encoding must be binary"@)
    } else if v.node_bytes != 16 {
        Some("identifiers.node_bytes must be 16"@)
    } else if v.node_generator@ != "os-csprng"@ {
        Some("identifiers.node_generator must be os-csprng"@)
    } else if v.node_persistence@ != "format_meta"@ {
        Some("identifiers.node_persistence must be format_meta"@)
    } else if !v.node_immutable {
        Some("identifiers.node_immutable must be true"@)
    } else if v.transaction_encoding@ != "binary"@ {
        Some("identifiers.transaction_encoding must be binary"@)
    } else if v.transaction_bytes != 16 {
        Some("identifiers.transaction_bytes must be 16"@)
    } else if v.transaction_generator@ != "os-csprng"@ {
        Some("identifiers.transaction_generator must be os-csprng"@)
    } else if v.transaction_reuse@ != "reject"@ {
        Some("identifiers.transaction_reuse must be reject"@)
    } else if v.operation_encoding@ != "binary"@ {
        Some("identifiers.operation_encoding must be binary"@)
    } else if v.operation_bytes != 16 {
        Some("identifiers.operation_bytes must be 16"@)
    } else if v.operation_generator@ != "os-csprng"@ {
        Some("identifiers.operation_generator must be os-csprng"@)
    } else if v.operation_reuse@ != "duplicate"@ {
        Some("identifiers.operation_reuse must be duplicate"@)
    } else if v.operation_dedup_key@ != "origin_node,operation_id"@ {
        Some("identifiers.operation_dedup_key must be origin_node,operation_id"@)
    } else if v.text_encoding@ != "utf-8"@ {
        Some("identifiers.text_encoding must be utf-8"@)
    } else if v.text_min_bytes != 1 {
        Some("identifiers.text_min_bytes must be 1"@)
    } else if v.text_max_bytes != 255 {
        Some("identifiers.text_max_bytes must be 255"@)
    } else if v.text_length_prefix@ != "u16"@ {
        Some("identifiers.text_length_prefix must be u16"@)
    } else if v.text_equality@ != "bytewise"@ {
        Some("identifiers.text_equality must be bytewise"@)
    } else if v.text_normalization@ != "none"@ {
        Some("identifiers.text_normalization must be none"@)
    } else if v.text_nul@ != "rejected"@ {
        Some("identifiers.text_nul must be rejected"@)
    } else {
        None
    }
}

/// Checks every field of the `identifiers` section against its frozen value.
pub fn validate_identifiers(value: &Identifiers) -> (result: Result<(), StageZeroError>)
    ensures
        reports(result, identifiers_failure(*value)),
{
    if !text_is(&value.node_encoding, "binary") {
        return require(false, "identifiers.node_encoding must be binary");
    }
    if value.node_bytes != 16 {
        return require(false, "identifiers.node_bytes must be 16");
    }
    if !text_is(&value.node_generator, "os-csprng") {
        return require(false, "identifiers.node_generator must be os-csprng");
    }
    if !text_is(&value.node_persistence, "format_meta") {
        return require(false, "identifiers.node_persistence must be format_meta");
    }
    if !value.node_immutable {
        return require(false, "identifiers.node_immutable must be true");
    }
    if !text_is(&value.transaction_encoding, "binary") {
        return require(false, "identifiers.transaction_encoding must be binary");
    }
    if value.transaction_bytes != 16 {
        return require(false, "identifiers.transaction_bytes must be 16");
    }
    if !text_is(&value.transaction_generator, "os-csprng") {
        return require(false, "identifiers.transaction_generator must be os-csprng");
    }
    if !text_is(&value.transaction_reuse, "reject") {
        return require(false, "identifiers.transaction_reuse must be reject");
    }
    if !text_is(&value.operation_encoding, "binary") {
        return require(false, "identifiers.operation_encoding must be binary");
    }
    if value.operation_bytes != 16 {
        return require(false, "identifiers.operation_bytes must be 16");
    }
    if !text_is(&value.operation_generator, "os-csprng") {
        return require(false, "identifiers.operation_generator must be os-csprng");
    }
    if !text_is(&value.operation_reuse, "duplicate") {
        return require(false, "identifiers.operation_reuse must be duplicate");
    }
    if !text_is(&value.operation_dedup_key, "origin_node,operation_id") {
        return require(false, "identifiers.operation_dedup_key must be origin_node,operation_id");
    }
    if !text_is(&value.text_encoding, "utf-8") {
        return require(false, "identifiers.text_encoding must be utf-8");
    }
    if value.text_min_bytes != 1 {
        return require(false, "identifiers.text_min_bytes must be 1");
    }
    if value.text_max_bytes != 255 {
        return require(false, "identifiers.text_max_bytes must be 255");
    }
    if !text_is(&value.text_length_prefix, "u16") {
        return require(false, "identifiers.text_length_prefix must be u16");
    }
    if !text_is(&value.text_equality, "bytewise") {
        return require(false, "identifiers.text_equality must be bytewise");
    }
    if !text_is(&value.text_normalization, "none") {
        return require(false, "identifiers.text_normalization must be none");
    }
    if !text_is(&value.text_nul, "rejected") {
        return require(false, "identifiers.text_nul must be rejected");
    }
    Ok(())
}

/// First field of the `sequences` section that differs from its frozen value,
/// checked in declaration order.
pub open spec fn sequences_failure(v: Sequences) -> Option<Seq<char>> {
    if v.origin_scope@ != "origin_node,partition"@ {
        Some("sequences.origin_scope must be origin_node,partition"@)
    } else if v.origin_width_bits != 64 {
        Some("sequences.origin_width_bits must be 64"@)
    } else if v.origin_initial != 1 {
        Some("sequences.origin_initial must be 1"@)
    } else if v.origin_assignment@ != "commit"@ {
        Some("sequences.origin_assignment must be commit"@)
    } else if v.origin_persistence@ != "commit_frame"@ {
        Some("sequences.origin_persistence must be commit_frame"@)
    } else if v.origin_restart@ != "last_durable_plus_one"@ {
        Some("sequences.origin_restart must be last_durable_plus_one"@)
    } else if v.origin_overflow@ != "reject"@ {
        Some("sequences.origin_overflow must be reject"@)
    } else if v.partition_scope@ != "dataset,partition"@ {
        Some("sequences.partition_scope must be dataset,partition"@)
    } else if v.partition_width_bits != 64 {
        Some("sequences.partition_width_bits must be 64"@)
    } else if v.partition_initial != 1 {
        Some("sequences.partition_initial must be 1"@)
    } else if v.partition_assignment@ != "commit"@ {
        Some("sequences.partition_assignment must be commit"@)
    } else if v.partition_gaps@ != "never"@ {
        Some("sequences.partition_gaps must be never"@)
    } else if v.partition_overflow@ != "reject"@ {
        Some("sequences.partition_overflow must be reject"@)
    } else if v.cursor_key@ != "peer_node,dataset,partition,origin_node,kind"@ {
        Some("sequences.cursor_key must be peer_node,dataset,partition,origin_node,kind"@)
    } else if texts(v.cursor_kinds@) != seq!["received"@, "applied"@] {
        Some("sequences.cursor_kinds must be received, applied"@)
    } else if v.cursor_value@ != "highest_contiguous_sequence"@ {
        Some("sequences.cursor_value must be highest_contiguous_sequence"@)
    } else if v.cursor_initial != 0 {
        Some("sequences.cursor_initial must be 0"@)
    } else if v.cursor_advance@ != "plus_one"@ {
        Some("sequences.cursor_advance must be plus_one"@)
    } else if v.duplicate_effect@ != "unchanged"@ {
        Some("sequences.duplicate_effect must be unchanged"@)
    } else if v.gap_effect@ != "unchanged"@ {
        Some("sequences.gap_effect must be unchanged"@)
    } else {
        None
    }
}

/// Checks every field of the `sequences` section against its frozen value.
pub fn validate_sequences(value: &Sequences) -> (result: Result<(), StageZeroError>)
    ensures
        reports(result, sequences_failure(*value)),
{
    if !text_is(&value.origin_scope, "origin_node,partition") {
        return require(false, "sequences.origin_scope must be origin_node,partition");
    }
    if value.origin_width_bits != 64 {
        return require(false, "sequences.origin_width_bits must be 64");
    }
    if value.origin_initial != 1 {
        return require(false, "sequences.origin_initial must be 1");
    }
    if !text_is(&value.origin_assignment, "commit") {
        return require(false, "sequences.origin_assignment must be commit");
    }
    if !text_is(&value.origin_persistence, "commit_frame") {
        return require(false, "sequences.origin_persistence must be commit_frame");
    }
    if !text_is(&value.origin_restart, "last_durable_plus_one") {
        return require(false, "sequences.origin_restart must be last_durable_plus_one");
    }
    if !text_is(&value.origin_overflow, "reject") {
        return require(false, "sequences.origin_overflow must be reject");
    }
    if !text_is(&value.partition_scope, "dataset,partition") {
        return require(false, "sequences.partition_scope must be dataset,partition");
    }
    if value.partition_width_bits != 64 {
        return require(false, "sequences.partition_width_bits must be 64");
    }
    if value.partition_initial != 1 {
        return require(false, "sequences.partition_initial must be 1");
    }
    if !text_is(&value.partition_assignment, "commit") {
        return require(false, "sequences.partition_assignment must be commit");
    }
    if !text_is(&value.partition_gaps, "never") {
        return require(false, "sequences.partition_gaps must be never");
    }
    if !text_is(&value.partition_overflow, "reject") {
        return require(false, "sequences.partition_overflow must be reject");
    }
    if !text_is(&value.cursor_key, "peer_node,dataset,partition,origin_node,kind") {
        return require(false, "sequences.cursor_key must be peer_node,dataset,partition,origin_node,kind");
    }
    let expected = ["received", "applied"];
    assert(literals(expected@) =~= seq!["received"@, "applied"@]);
    if !texts_are(&value.cursor_kinds, &expected) {
        return require(false, "sequences.cursor_kinds must be received, applied");
    }
    if !text_is(&value.cursor_value, "highest_contiguous_sequence") {
        return require(false, "sequences.cursor_value must be highest_contiguous_sequence");
    }
    if value.cursor_initial != 0 {
        return require(false, "sequences.cursor_initial must be 0");
    }
    if !text_is(&value.cursor_advance, "plus_one") {
        return require(false, "sequences.cursor_advance must be plus_one");
    }
    if !text_is(&value.duplicate_effect, "unchanged") {
        return require(false, "sequences.duplicate_effect must be unchanged");
    }
    if !text_is(&value.gap_effect, "unchanged") {
        return require(false, "sequences.gap_effect must be unchanged");
    }
    Ok(())
}

/// First field of the `filesystem` section that differs from its frozen value,
/// checked in declaration order.
pub open spec fn filesystem_failure(v: Filesystem) -> Option<Seq<char>> {
    if v.data_root@ != "data"@ {
        Some("filesystem.data_root must be data"@)
    } else if v.format_meta@ != "FORMAT"@ {
        Some("filesystem.format_meta must be FORMAT"@)
    } else if v.lock_file@ != "LOCK"@ {
        Some("filesystem.lock_file must be LOCK"@)
    } else if v.partition_directory@ != "partitions/{partition_digest}"@ {
        Some("filesystem.partition_directory must be partitions/{partition_digest}"@)
    } else if v.segment_pattern@ != "{first_sequence:020}.log"@ {
        Some("filesystem.segment_pattern must be {first_sequence:020}.log"@)
    } else if v.snapshot_pattern@ != "{commit_sequence:020}.snap"@ {
        Some("filesystem.snapshot_pattern must be {commit_sequence:020}.snap"@)
    } else if v.cursor_pattern@ != "cursors/{peer_node}.cursor"@ {
        Some("filesystem.cursor_pattern must be cursors/{peer_node}.cursor"@)
    } else if v.quarantine_pattern@ != "quarantine/{event_id}.event"@ {
        Some("filesystem.quarantine_pattern must be quarantine/{event_id}.event"@)
    } else if v.temporary_directory@ != "tmp"@ {
        Some("filesystem.temporary_directory must be tmp"@)
    } else if v.temporary_suffix@ != ".tmp"@ {
        Some("filesystem.temporary_suffix must be .tmp"@)
    } else if v.path_input_rule@ != "reject_separators_dot_segments_and_nul"@ {
        Some("filesystem.path_input_rule must be reject_separators_dot_segments_and_nul"@)
    } else if texts(v.atomic_write_steps@) != seq!["write_temporary"@, "fsync_temporary"@, "rename"@, "fsync_parent"@] {
        Some("filesystem.atomic_write_steps must be write_temporary, fsync_temporary, rename, fsync_parent"@)
    } else {
        None
    }
}

/// Checks every field of the `filesystem` section against its frozen value.
pub fn validate_filesystem(value: &Filesystem) -> (result: Result<(), StageZeroError>)
    ensures
        reports(result, filesystem_failure(*value)),
{
    if !text_is(&value.data_root, "data") {
        return require(false, "filesystem.data_root must be data");
    }
    if !text_is(&value.format_meta, "FORMAT") {
        return require(false, "filesystem.format_meta must be FORMAT");
    }
    if !text_is(&value.lock_file, "LOCK") {
        return require(false, "filesystem.lock_file must be LOCK");
    }
    if !text_is(&value.partition_directory, "partitions/{partition_digest}") {
        return require(false, "filesystem.partition_directory must be partitions/{partition_digest}");
    }
    if !text_is(&value.segment_pattern, "{first_sequence:020}.log") {
        return require(false, "filesystem.segment_pattern must be {first_sequence:020}.log");
    }
    if !text_is(&value.snapshot_pattern, "{commit_sequence:020}.snap") {
        return require(false, "filesystem.snapshot_pattern must be {commit_sequence:020}.snap");
    }
    if !text_is(&value.cursor_pattern, "cursors/{peer_node}.cursor") {
        return require(false, "filesystem.cursor_pattern must be cursors/{peer_node}.cursor");
    }
    if !text_is(&value.quarantine_pattern, "quarantine/{event_id}.event") {
        return require(false, "filesystem.quarantine_pattern must be quarantine/{event_id}.event");
    }
    if !text_is(&value.temporary_directory, "tmp") {
        return require(false, "filesystem.temporary_directory must be tmp");
    }
    if !text_is(&value.temporary_suffix, ".tmp") {
        return require(false, "filesystem.temporary_suffix must be .tmp");
    }
    if !text_is(&value.path_input_rule, "reject_separators_dot_segments_and_nul") {
        return require(false, "filesystem.path_input_rule must be reject_separators_dot_segments_and_nul");
    }
    let expected = ["write_temporary", "fsync_temporary", "rename", "fsync_parent"];
    assert(literals(expected@) =~= seq!["write_temporary"@, "fsync_temporary"@, "rename"@, "fsync_parent"@]);
    if !texts_are(&value.atomic_write_steps, &expected) {
        return require(false, "filesystem.atomic_write_steps must be write_temporary, fsync_temporary, rename, fsync_parent");
    }
    Ok(())
}

/// First field of the `frame_layout` section that differs from its frozen value,
/// checked in declaration order.
pub open spec fn frame_layout_failure(v: FrameLayout) -> Option<Seq<char>> {
    if v.magic_offset != 0 {
        Some("frame_layout.magic_offset must be 0"@)
    } else if v.magic_width != 4 {
        Some("frame_layout.magic_width must be 4"@)
    } else if v.version_offset != 4 {
        Some("frame_layout.version_offset must be 4"@)
    } else if v.version_width != 2 {
        Some("frame_layout.version_width must be 2"@)
    } else if v.type_offset != 6 {
        Some("frame_layout.type_offset must be 6"@)
    } else if v.flags_offset != 7 {
        Some("frame_layout.flags_offset must be 7"@)
    } else if v.payload_length_offset != 8 {
        Some("frame_layout.payload_length_offset must be 8"@)
    } else if v.payload_length_width != 4 {
        Some("frame_layout.payload_length_width must be 4"@)
    } else if v.sequence_offset != 12 {
        Some("frame_layout.sequence_offset must be 12"@)
    } else if v.sequence_width != 8 {
        Some("frame_layout.sequence_width must be 8"@)
    } else if v.checksum_offset != 20 {
        Some("frame_layout.checksum_offset must be 20"@)
    } else if v.checksum_width != 4 {
        Some("frame_layout.checksum_width must be 4"@)
    } else if v.reserved_offset != 24 {
        Some("frame_layout.reserved_offset must be 24"@)
    } else if v.reserved_width != 8 {
        Some("frame_layout.reserved_width must be 8"@)
    } else if v.reserved_value != 0 {
        Some("frame_layout.reserved_value must be 0"@)
    } else if v.checksum_coverage@ != "header_before_checksum_and_payload"@ {
        Some("frame_layout.checksum_coverage must be header_before_checksum_and_payload"@)
    } else if v.unknown_type@ != "reject"@ {
        Some("frame_layout.unknown_type must be reject"@)
    } else if v.nonzero_flags@ != "reject"@ {
        Some("frame_layout.nonzero_flags must be reject"@)
    } else {
        None
    }
}

/// Checks every field of the `frame_layout` section against its frozen value.
pub fn validate_frame_layout(value: &FrameLayout) -> (result: Result<(), StageZeroError>)
    ensures
        reports(result, frame_layout_failure(*value)),
{
    if value.magic_offset != 0 {
        return require(false, "frame_layout.magic_offset must be 0");
    }
    if value.magic_width != 4 {
        return require(false, "frame_layout.magic_width must be 4");
    }
    if value.version_offset != 4 {
        return require(false, "frame_layout.version_offset must be 4");
    }
    if value.version_width != 2 {
        return require(false, "frame_layout.version_width must be 2");
    }
    if value.type_offset != 6 {
        return require(false, "frame_layout.type_offset must be 6");
    }
    if value.flags_offset != 7 {
        return require(false, "frame_layout.flags_offset must be 7");
    }
    if value.payload_length_offset != 8 {
        return require(false, "frame_layout.payload_length_offset must be 8");
    }
    if value.payload_length_width != 4 {
        return require(false, "frame_layout.payload_length_width must be 4");
    }
    if value.sequence_offset != 12 {
        return require(false, "frame_layout.sequence_offset must be 12");
    }
    if value.sequence_width != 8 {
        return require(false, "frame_layout.sequence_width must be 8");
    }
    if value.checksum_offset != 20 {
        return require(false, "frame_layout.checksum_offset must be 20");
    }
    if value.checksum_width != 4 {
        return require(false, "frame_layout.checksum_width must be 4");
    }
    if value.reserved_offset != 24 {
        return require(false, "frame_layout.reserved_offset must be 24");
    }
    if value.reserved_width != 8 {
        return require(false, "frame_layout.reserved_width must be 8");
    }
    if value.reserved_value != 0 {
        return require(false, "frame_layout.reserved_value must be 0");
    }
    if !text_is(&value.checksum_coverage, "header_before_checksum_and_payload") {
        return require(false, "frame_layout.checksum_coverage must be header_before_checksum_and_payload");
    }
    if !text_is(&value.unknown_type, "reject") {
        return require(false, "frame_layout.unknown_type must be reject");
    }
    if !text_is(&value.nonzero_flags, "reject") {
        return require(false, "frame_layout.nonzero_flags must be reject");
    }
    Ok(())
}

/// An accepted frame layout tiles the 32-byte frame header: the magic starts
/// at byte 0, every field starts where the previous one ends (the type and the
/// flags take one byte each), and the reserved bytes end at byte 32.
pub proof fn lemma_accepted_layout_tiles_header(v: FrameLayout)
    requires
        frame_layout_failure(v) is None,
    ensures
        v.magic_offset == 0,
        v.version_offset == v.magic_offset + v.magic_width,
        v.type_offset == v.version_offset + v.version_width,
        v.flags_offset == v.type_offset + 1,
        v.payload_length_offset == v.flags_offset + 1,
        v.sequence_offset == v.payload_length_offset + v.payload_length_width,
        v.checksum_offset == v.sequence_offset + v.sequence_width,
        v.reserved_offset == v.checksum_offset + v.checksum_width,
        v.reserved_offset + v.reserved_width == 32,
{
}

/// Accepted sequence rules start origin and partition sequences at one, start
/// cursors at zero (no event confirmed), and advance cursors by one contiguous
/// step; duplicates and gaps leave a cursor unchanged.
pub proof fn lemma_accepted_sequences_are_contiguous(v: Sequences)
    requires
        sequences_failure(v) is None,
    ensures
        v.origin_initial == 1,
        v.partition_initial == 1,
        v.cursor_initial == 0,
        v.cursor_advance@ == "plus_one"@,
        v.duplicate_effect@ == "unchanged"@,
        v.gap_effect@ == "unchanged"@,
        texts(v.cursor_kinds@) == seq!["received"@, "applied"@],
{
}

/// Accepted filesystem rules replace files atomically in the order write the
/// temporary file, sync it, rename it over the target, sync the parent.
pub proof fn lemma_accepted_filesystem_write_order(v: Filesystem)
    requires
        filesystem_failure(v) is None,
    ensures
        texts(v.atomic_write_steps@) == seq![
            "write_temporary"@,
            "fsync_temporary"@,
            "rename"@,
            "fsync_parent"@,
        ],
        v.path_input_rule@ == "reject_separators_dot_segments_and_nul"@,
        v.temporary_suffix@ == ".tmp"@,
{
}

} // verus!
