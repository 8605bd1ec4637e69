//! Shared resource bounds. Sizes are bytes, durations are milliseconds.
use vstd::prelude::*;

verus! {

/// Longest JSONL record, without its line feed.
pub const MAX_JSONL_LINE_BYTES: usize = 16_777_216;

/// Longest wire form of one outbound value.
pub const MAX_OUTBOUND_VALUE_WIRE_BYTES: usize = 16_777_216;

/// Longest identifier that may select a route.
pub const ROUTING_ID_BYTE_LIMIT: usize = 512;

/// Events of one subscription that may be dropped, and deferred notifications
/// of one thread.
pub const THREAD_EVENT_CAPACITY: usize = 256;

/// Events of one subscription that may not be dropped.
pub const THREAD_TERMINAL_CAPACITY: usize = 64;

/// Bytes that one subscription, or the deferred notifications of one thread,
/// may retain.
pub const THREAD_MAILBOX_BYTE_BUDGET: usize = 4_194_304;

/// Longest text fragment that one queued event may hold.
pub const THREAD_DELTA_BYTE_LIMIT: usize = 262_144;

/// Bytes that the retained outcomes, or the completed item identifiers, of one
/// thread may take.
pub const THREAD_PROJECTION_BYTE_BUDGET: usize = 8_388_608;

/// Outcomes that one thread retains.
pub const THREAD_OUTCOME_CAPACITY: usize = 64;

/// Threads that one client tracks.
pub const CLIENT_PROJECTION_CAPACITY: usize = 256;

/// Subscriptions of one client.
pub const CLIENT_SUBSCRIBER_CAPACITY: usize = 256;

/// Subscriptions of one thread.
pub const THREAD_SUBSCRIBER_CAPACITY: usize = 8;

/// Control events that may wait for their consumer.
pub const CLIENT_CONTROL_CAPACITY: usize = 256;

/// Bytes that waiting control requests may retain together.
pub const CLIENT_CONTROL_BYTE_BUDGET: usize = 8_388_608;

/// Bytes that one control request may retain.
pub const CLIENT_CONTROL_EVENT_BYTE_LIMIT: usize = 4_194_304;

/// High-priority commands that may wait or be in flight.
pub const RPC_HIGH_CAPACITY: usize = 32;

/// Normal commands that may wait.
pub const RPC_NORMAL_CAPACITY: usize = 128;

/// Normal requests that may be in flight.
pub const RPC_INFLIGHT_CAPACITY: usize = 128;

/// Requests of either priority that may be pending.
pub const RPC_TOTAL_PENDING_CAPACITY: usize = 160;

/// Requests of the server that may be unanswered.
pub const RPC_SERVER_REQUEST_CAPACITY: usize = 64;

/// Events that may wait and may be dropped.
pub const EVENT_CAPACITY: usize = 256;

/// Events that may wait and may not be dropped.
pub const RPC_RELIABLE_EVENT_CAPACITY: usize = 64;

/// Bytes of normal commands, and of events that may be dropped.
pub const RPC_BYTE_BUDGET: usize = 67_108_864;

/// Bytes of high-priority commands.
pub const RPC_HIGH_BYTE_BUDGET: usize = 33_554_432;

/// Bytes of events that may not be dropped.
pub const RPC_RELIABLE_EVENT_BYTE_BUDGET: usize = 33_554_432;

/// High-priority commands in a row before a normal one goes first.
pub const HIGH_PRIORITY_BURST: usize = 16;

/// Time for one control request.
pub const CONTROL_RPC_TIMEOUT_MS: u64 = 30_000;

/// Time for the initialize handshake.
pub const INITIALIZE_TIMEOUT_MS: u64 = 15_000;

/// Time for one interruption.
pub const INTERRUPT_TIMEOUT_MS: u64 = 5_000;

/// Output of a version probe that is read.
pub const MAX_VERSION_OUTPUT_BYTES: usize = 4_096;

/// Time for one version probe, cleanup included.
pub const VERSION_PROBE_TIMEOUT_MS: u64 = 10_000;

/// Part of the probe time that is kept for cleanup.
pub const VERSION_PROBE_CLEANUP_RESERVE_MS: u64 = 1_000;

/// Time between two looks at an owned process group.
pub const PROCESS_GROUP_POLL_INTERVAL_MS: u64 = 10;

/// The shortest time that a process tree is given to end once it is killed, in
/// milliseconds.
pub const PROCESS_REAP_MINIMUM_MS: u64 = 1_000;

/// Longest endpoint text.
pub const MAX_EXTERNAL_ENDPOINT_BYTES: usize = 2_048;

/// Longest path of a credential file.
pub const MAX_EXTERNAL_SECRET_PATH_BYTES: usize = 4_096;

/// Longest credential, with its line end.
pub const MAX_EXTERNAL_AUTH_TOKEN_BYTES: usize = 8_192;

/// Frames that may arrive before one awaited answer.
pub const EXTERNAL_GATE_MAX_MESSAGES: usize = 32;

/// Rows that the read-only canary of an admission asks for, and that its answer
/// may hold at most.
pub const EXTERNAL_GATE_CANARY_ROWS: usize = 1;

/// Longest text frame during admission.
pub const EXTERNAL_GATE_MESSAGE_BYTES: usize = 1_048_576;

/// Text that may arrive before one awaited answer.
pub const EXTERNAL_GATE_TOTAL_BYTES: usize = 4_194_304;

/// Time for one admission.
pub const EXTERNAL_GATE_TIMEOUT_MS: u64 = 15_000;

/// Longest text frame of an admitted connection.
pub const EXTERNAL_WS_MESSAGE_BYTES: usize = 16_777_216;

/// Time for an orderly close.
pub const EXTERNAL_WS_CLOSE_TIMEOUT_MS: u64 = 2_000;

/// Longest frame of the protocol sidecar, without its line feed.
pub const CODEX_SIDECAR_FRAME_BYTES: usize = 16_777_216;

/// Requests of both directions that the protocol sidecar may hold.
pub const CODEX_SIDECAR_PENDING_CAPACITY: usize = RPC_TOTAL_PENDING_CAPACITY
    + RPC_SERVER_REQUEST_CAPACITY;

/// Longest time for the handshake with the protocol sidecar.
pub const CODEX_SIDECAR_HANDSHAKE_TIMEOUT_MS: u64 = 15_000;

/// Longest time that the protocol sidecar gets to stop.
pub const CODEX_SIDECAR_SHUTDOWN_GRACE_MS: u64 = 5_000;

/// Threads of one endpoint that are reconciled.
pub const EXTERNAL_MANAGED_THREAD_CAPACITY: usize = 256;

/// Turns, or items, of one thread that one reconciliation may hold.
pub const EXTERNAL_RECONCILE_ENTRY_CAPACITY: usize = 16_384;

/// Events of one thread that may wait for its reconciliation.
pub const EXTERNAL_RECONCILE_EVENT_CAPACITY: usize = 1_024;

/// Bytes of events of one thread that may wait for its reconciliation.
pub const EXTERNAL_RECONCILE_MAILBOX_BYTES: usize = 4_194_304;

/// Bytes that all threads of one endpoint may take in one reconciliation.
pub const EXTERNAL_RECONCILE_ENDPOINT_BYTES: usize = 67_108_864;

/// Bytes of answers about one thread.
pub const EXTERNAL_RECONCILE_THREAD_BYTES: usize = 16_777_216;

/// Pages of turns, or of items, of one thread.
pub const EXTERNAL_RECONCILE_PAGE_CAPACITY: usize = 256;

/// Entries of one page.
pub const EXTERNAL_RECONCILE_PAGE_SIZE: u32 = 100;

/// Items of the page in which a write looks for its own message.
pub const EXTERNAL_MESSAGE_SEARCH_PAGE_SIZE: u32 = 100;

/// First pause before a reconnect.
pub const EXTERNAL_RECONNECT_INITIAL_DELAY_MS: u64 = 250;

/// Longest pause before a reconnect.
pub const EXTERNAL_RECONNECT_MAX_DELAY_MS: u64 = 30_000;

/// Longest wait for the writer's orderly end.
pub const EXTERNAL_WRITE_SHUTDOWN_TIMEOUT_MS: u64 = 10_000;

/// Longest name of an actor of the writer.
pub const EXTERNAL_ACTOR_BYTES: usize = 256;

/// Longest time that an approval may wait for its recipient.
pub const APPROVAL_DEADLINE_MAX_MS: u64 = 300_000;

/// Time by which an approval is answered before the server would resolve it.
pub const APPROVAL_REMOTE_MARGIN_MS: u64 = 5_000;

/// Shortest time that a durable approval record may wait.
pub const APPROVAL_DURABLE_MIN_MS: u64 = 1_000;

/// Longest frame of the channel sidecar.
pub const CHANNEL_SIDECAR_FRAME_BYTES: usize = 1_048_576;

/// Events of the channel sidecar that wait for the durable handler.
pub const CHANNEL_SIDECAR_EVENT_CAPACITY: usize = 64;

/// Frames that wait for the channel sidecar's input.
pub const CHANNEL_SIDECAR_WRITE_CAPACITY: usize = 128;

/// Longest wait for the channel sidecar's hello and configuration.
pub const CHANNEL_SIDECAR_HANDSHAKE_TIMEOUT_MS: u64 = 10_000;

/// Longest wait for the channel sidecar's first connection.
pub const CHANNEL_SIDECAR_CONNECT_TIMEOUT_MS: u64 = 30_000;

/// Connected time after which the channel sidecar counts as healthy.
pub const CHANNEL_SIDECAR_HEALTHY_UPTIME_MS: u64 = 60_000;

/// Longest wait for one durable event decision.
pub const CHANNEL_SIDECAR_HANDLER_TIMEOUT_MS: u64 = 10_000;

/// Time that an acknowledgement may take beyond the decision.
pub const CHANNEL_SIDECAR_ACK_GRACE_MS: u64 = 5_000;

/// Longest grace for the channel sidecar's end.
pub const CHANNEL_SIDECAR_SHUTDOWN_GRACE_MS: u64 = 5_000;

/// Longest line of a sidecar's diagnostics that is counted.
pub const MAX_STDERR_LINE_BYTES: usize = 16_384;

} // verus!
