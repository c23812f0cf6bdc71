//! The versioned stage 0 documents, in TOML: the frozen protocol
//! specification and the fault-injection matrix.
use vstd::prelude::*;

verus! {

/// Frozen stage 0 specification, revision 0.1.
pub const FROZEN_SPEC_DOCUMENT: &'static str = r#"spec_version = "0.1"
protocol_version = 1
file_format_version = 1
encoding = "little-endian"
text_encoding = "utf-8"
checksum = "crc32c"
max_record_bytes = 1048576
max_batch_bytes = 4194304
max_transaction_operations = 1024
log_segment_bytes = 67108864
snapshot_bytes = 1073741824
pending_queue_bytes = 268435456
node_id_bytes = 16
dataset_id_max_bytes = 255
partition_id_max_bytes = 255
record_id_max_bytes = 1024
sequence_bytes = 8
frame_magic = "LDB1"
frame_header_bytes = 32
error_codes = [
  "E_FORMAT_VERSION",
  "E_FRAME_TYPE",
  "E_FRAME_LENGTH",
  "E_CHECKSUM",
  "E_TRUNCATED_TAIL",
  "E_DISK_FULL",
  "E_SEQUENCE_GAP",
  "E_DUPLICATE_OPERATION",
  "E_QUARANTINED_EVENT",
]
event_outcomes = ["accepted", "duplicate", "pending_gap", "rejected", "quarantined"]

[identifiers]
node_encoding = "binary"
node_bytes = 16
node_generator = "os-csprng"
node_persistence = "format_meta"
node_immutable = true
transaction_encoding = "binary"
transaction_bytes = 16
transaction_generator = "os-csprng"
transaction_reuse = "reject"
operation_encoding = "binary"
operation_bytes = 16
operation_generator = "os-csprng"
operation_reuse = "duplicate"
operation_dedup_key = "origin_node,operation_id"
text_encoding = "utf-8"
text_min_bytes = 1
text_max_bytes = 255
text_length_prefix = "u16"
text_equality = "bytewise"
text_normalization = "none"
text_nul = "rejected"

[sequences]
origin_scope = "origin_node,partition"
origin_width_bits = 64
origin_initial = 1
origin_assignment = "commit"
origin_persistence = "commit_frame"
origin_restart = "last_durable_plus_one"
origin_overflow = "reject"
partition_scope = "dataset,partition"
partition_width_bits = 64
partition_initial = 1
partition_assignment = "commit"
partition_gaps = "never"
partition_overflow = "reject"
cursor_key = "peer_node,dataset,partition,origin_node,kind"
cursor_kinds = ["received", "applied"]
cursor_value = "highest_contiguous_sequence"
cursor_initial = 0
cursor_advance = "plus_one"
duplicate_effect = "unchanged"
gap_effect = "unchanged"

[filesystem]
data_root = "data"
format_meta = "FORMAT"
lock_file = "LOCK"
partition_directory = "partitions/{partition_digest}"
segment_pattern = "{first_sequence:020}.log"
snapshot_pattern = "{commit_sequence:020}.snap"
cursor_pattern = "cursors/{peer_node}.cursor"
quarantine_pattern = "quarantine/{event_id}.event"
temporary_directory = "tmp"
temporary_suffix = ".tmp"
path_input_rule = "reject_separators_dot_segments_and_nul"
atomic_write_steps = ["write_temporary", "fsync_temporary", "rename", "fsync_parent"]

[frame_layout]
magic_offset = 0
magic_width = 4
version_offset = 4
version_width = 2
type_offset = 6
flags_offset = 7
payload_length_offset = 8
payload_length_width = 4
sequence_offset = 12
sequence_width = 8
checksum_offset = 20
checksum_width = 4
reserved_offset = 24
reserved_width = 8
reserved_value = 0
checksum_coverage = "header_before_checksum_and_payload"
unknown_type = "reject"
nonzero_flags = "reject"
[frame_types]
begin = 1
operation = 2
commit = 3
change_event = 4
cursor = 5
snapshot_marker = 6

[durability]
local_committed = "commit frame and its operations are fsynced in the active log segment"
hub_received = "event and its deduplication record are fsynced in the hub receive log"
hub_applied = "current state and the apply cursor are fsynced together"

[[transitions]]
from = "local_committed"
to = "local_committed"
trigger = "local retry of an already committed transaction"
persisted = "nothing new; the existing commit frame stays durable"
cursor_effect = "unchanged"

[[transitions]]
from = "local_committed"
to = "hub_received"
trigger = "hub acknowledges receipt of the change event"
persisted = "hub receive log entry and deduplication record"
cursor_effect = "receive cursor advances by one contiguous sequence"

[[transitions]]
from = "hub_received"
to = "hub_received"
trigger = "duplicate delivery of an already received event"
persisted = "nothing new; the deduplication record answers the retry"
cursor_effect = "unchanged"

[[transitions]]
from = "hub_received"
to = "hub_applied"
trigger = "hub applies the event to current state"
persisted = "current state and apply cursor in one atomic write"
cursor_effect = "apply cursor advances by one contiguous sequence"

[[transitions]]
from = "hub_applied"
to = "hub_applied"
trigger = "retry after the event was applied"
persisted = "nothing new; the apply cursor already covers the event"
cursor_effect = "unchanged"
"#;

/// Fault-injection matrix for stage 0, schema revision 0.1.
pub const FAULT_MATRIX_DOCUMENT: &'static str = r#"schema_version = "0.1"

[[cases]]
id = "F-001"
category = "process_crash"
injection_point = "after operation frames are written, before the commit frame"
precondition = "open transaction with two operations"
input = "kill the process"
expected_outcome = "rejected"
durable_artifacts = "previous committed frames only"
error_code = ""
retry_action = "client retries the transaction with the same transaction id"
cursor_effect = "unchanged"
isolation_scope = "transaction"

[[cases]]
id = "F-002"
category = "process_crash"
injection_point = "after the commit frame is written, before fsync"
precondition = "transaction ready to commit"
input = "kill the process"
expected_outcome = "rejected"
durable_artifacts = "previous committed frames only"
error_code = "E_TRUNCATED_TAIL"
retry_action = "recovery truncates the partial tail, client retries"
cursor_effect = "unchanged"
isolation_scope = "log segment"

[[cases]]
id = "F-003"
category = "storage_corruption"
injection_point = "frame payload on disk"
precondition = "committed frame in a closed segment"
input = "flip one payload bit"
expected_outcome = "quarantined"
durable_artifacts = "segment moved to quarantine"
error_code = "E_CHECKSUM"
retry_action = "operator restores the segment from a snapshot"
cursor_effect = "unchanged"
isolation_scope = "partition"

[[cases]]
id = "F-004"
category = "storage_corruption"
injection_point = "frame header length field"
precondition = "committed frame in the active segment"
input = "length larger than the remaining file"
expected_outcome = "rejected"
durable_artifacts = "frames before the damaged header"
error_code = "E_FRAME_LENGTH"
retry_action = "recovery truncates at the damaged header"
cursor_effect = "unchanged"
isolation_scope = "log segment"

[[cases]]
id = "F-005"
category = "storage_corruption"
injection_point = "frame header type field"
precondition = "committed frame in a closed segment"
input = "unknown frame type value"
expected_outcome = "rejected"
durable_artifacts = "segment left unchanged for inspection"
error_code = "E_FRAME_TYPE"
retry_action = "operator inspects the segment"
cursor_effect = "unchanged"
isolation_scope = "log segment"

[[cases]]
id = "F-006"
category = "compatibility"
injection_point = "format metadata on open"
precondition = "data root written by a newer file format"
input = "file_format_version 2"
expected_outcome = "rejected"
durable_artifacts = "data root left unchanged"
error_code = "E_FORMAT_VERSION"
retry_action = "upgrade the binary"
cursor_effect = "unchanged"
isolation_scope = "node"

[[cases]]
id = "F-007"
category = "compatibility"
injection_point = "handshake with a peer"
precondition = "peer announces a different protocol version"
input = "protocol_version 2"
expected_outcome = "rejected"
durable_artifacts = "no new records"
error_code = "E_FORMAT_VERSION"
retry_action = "upgrade one of the peers"
cursor_effect = "unchanged"
isolation_scope = "connection"

[[cases]]
id = "F-008"
category = "capacity"
injection_point = "segment append"
precondition = "disk has less free space than one batch"
input = "commit a full batch"
expected_outcome = "rejected"
durable_artifacts = "previous committed frames only"
error_code = "E_DISK_FULL"
retry_action = "free space, then retry the batch"
cursor_effect = "unchanged"
isolation_scope = "node"

[[cases]]
id = "F-009"
category = "capacity"
injection_point = "pending synchronization queue"
precondition = "queue holds pending_queue_bytes"
input = "commit one more event"
expected_outcome = "rejected"
durable_artifacts = "queued events stay durable"
error_code = "E_DISK_FULL"
retry_action = "wait for the hub to drain the queue"
cursor_effect = "unchanged"
isolation_scope = "partition"

[[cases]]
id = "F-010"
category = "data_semantics"
injection_point = "hub receive path"
precondition = "event already received"
input = "same origin, sequence and operation id again"
expected_outcome = "duplicate"
durable_artifacts = "original receive record"
error_code = "E_DUPLICATE_OPERATION"
retry_action = "sender treats the duplicate as acknowledged"
cursor_effect = "unchanged"
isolation_scope = "operation"

[[cases]]
id = "F-011"
category = "data_semantics"
injection_point = "hub apply path"
precondition = "event with a sequence beyond the next expected one"
input = "sequence gap of one"
expected_outcome = "pending_gap"
durable_artifacts = "event held in the pending set"
error_code = "E_SEQUENCE_GAP"
retry_action = "request the missing sequence"
cursor_effect = "unchanged"
isolation_scope = "origin"

[[cases]]
id = "F-012"
category = "data_semantics"
injection_point = "hub apply path"
precondition = "event that violates the record schema"
input = "malformed record payload"
expected_outcome = "quarantined"
durable_artifacts = "event copied to quarantine"
error_code = "E_QUARANTINED_EVENT"
retry_action = "operator repairs or discards the event"
cursor_effect = "unchanged"
isolation_scope = "event"

[[cases]]
id = "F-013"
category = "network"
injection_point = "after the hub stores the event, before the acknowledgement is sent"
precondition = "event in flight"
input = "drop the connection"
expected_outcome = "duplicate"
durable_artifacts = "hub receive record"
error_code = "E_DUPLICATE_OPERATION"
retry_action = "sender resends, hub answers from the deduplication record"
cursor_effect = "unchanged"
isolation_scope = "connection"

[[cases]]
id = "F-014"
category = "network"
injection_point = "during event transmission"
precondition = "event partially sent"
input = "truncate the frame on the wire"
expected_outcome = "rejected"
durable_artifacts = "no hub record"
error_code = "E_FRAME_LENGTH"
retry_action = "sender resends the event"
cursor_effect = "unchanged"
isolation_scope = "connection"

[[cases]]
id = "F-015"
category = "restart"
injection_point = "process start after a clean shutdown"
precondition = "all segments closed"
input = "restart the node"
expected_outcome = "accepted"
durable_artifacts = "all committed frames"
error_code = ""
retry_action = "none"
cursor_effect = "unchanged"
isolation_scope = "node"

[[cases]]
id = "F-016"
category = "restart"
injection_point = "hub start after a crash between receive and apply"
precondition = "event received but not applied"
input = "restart the hub"
expected_outcome = "accepted"
durable_artifacts = "receive record and previous apply cursor"
error_code = ""
retry_action = "hub applies the received event"
cursor_effect = "apply cursor advances by one contiguous sequence"
isolation_scope = "partition"
"#;

} // verus!
