//! The streaming core of an end-to-end encrypted messaging client: the rules by
//! which welcomes, locally created conversations and per-group message feeds are
//! merged into the streams that a consumer reads.
//!
//! Everything here is a decision on plain values. Whoever drives the library
//! awaits the transport, the store and the event bus, and hands over what they
//! returned; the library answers with the next state and what to do.

pub mod errors;
pub mod conversation;
pub mod welcome;
pub mod events;
pub mod group_info;
pub mod multiplexer;
pub mod handle;

pub use crate::conversation::{
    filter_conversation, plan_conversation, resolve_conversation, ConversationPlan,
    ConversationType, GroupMetadata, MlsGroup, StoredGroup, WelcomeOrGroup,
    WELCOME_START_CURSOR,
};
pub use crate::errors::{ClientError, LocalEventError, SourceError, SubscribeError};
pub use crate::events::{
    consent_stream_item, new_group_stream_item, optify, preference_stream_item,
    sync_stream_item, ConsentState, ConsentType, LocalEvents, StoredConsentRecord, SyncMessage,
    UserPreferenceUpdate,
};
pub use crate::group_info::{
    GroupEntry, GroupInfoMap, MessagesStreamInfo, CURSOR_FROM_CREATION, CURSOR_FROM_STORE,
};
pub use crate::handle::{pump_step, PumpAction, PumpEvent, PumpState, StreamHandle};
pub use crate::multiplexer::{ConversationOutcome, Multiplexer, Source};
pub use crate::welcome::{
    after_creation, after_lookup, decoded_welcome, extract_welcome_message, welcome_id_key,
    WelcomeMessage,
    WelcomeMessageV1, WelcomeStep,
};
