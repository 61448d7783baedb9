//! Bluetooth call-audio activation library.
//!
//! The heart of the crate is the logic that converts a Bluetooth audio
//! endpoint from a stereo-music profile to a telephony (Hands-Free) profile,
//! forces the synchronous voice channel open by supervising two audio-bridge
//! processes, and guarantees clean restoration afterwards.  All decisions are
//! made by verified state machines; the surrounding process runs external
//! tools and feeds the observed outcomes back in as events.
//!
//! The text helpers and parsers turn the audio tools' tabular output into
//! values; the profile module holds the selection policy and its two switch
//! machines; the watch module bounds the polling for asynchronously
//! appearing voice nodes; the session module is the acquire/release
//! lifecycle ([`Activation`], [`Teardown`] and the [`HfpSession`] they
//! manage).  [`AudioServer`] is an executable model of the audio daemon, and
//! the drivers run the machines against it, proving what each run acquires,
//! what each failure rolls back, and what a release restores.  Around the
//! call-audio core sit the gateway-client decisions: phone-number
//! validation, response classification, configuration checks and the
//! discovery address preference.

mod api;
mod bt;
mod config;
mod discover;
mod drive;
mod parse;
mod profiles;
mod server;
mod session;
mod text;
mod watch;

pub use api::{
    classify_call_response, classify_devices_response, phone_digits, phone_valid, validate_phone,
    CallResult, DeviceInfo, DevicesResponse, DialError,
};
pub use bt::{
    card_name_of_mac, card_name_to_mac, card_views, derive_node_names, mac_of_card_name,
    mac_to_card_name, strip_card_prefix_spec, voice_sink_name, voice_source_name, BridgeKind,
    BtCard, BtCardView, BtError, HfpCodec,
};
pub use config::{placeholder_url, Config};
pub use discover::{
    addr_is_link_local, addr_is_loopback, addr_preferred, pick_gateway_addr, DiscoveredGateway,
    NetAddr,
};
pub use drive::{activate_hfp, release, run_teardown, switch_to_a2dp, switch_to_hfp};
pub use parse::{
    alias_scan, available_profiles, available_profiles_spec, bt_cards_spec, find_view_idx,
    fresh_card, has_node, is_digit_char, lemma_find_view_idx_at, list_bt_cards, name_line,
    node_is_running, node_running_spec, parse_alias, parse_short_line, profiles_scan,
    set_active_first, short_cards_spec, verbose_scan,
};
pub use profiles::{
    attempt_views, first_music_success, first_telephony_success, has_cvsd_variant,
    has_gateway_profile, has_headset_profile, lemma_attempt_codecs, lemma_headset_literals,
    lemma_music_hit, lemma_music_miss, lemma_release_restores_music, lemma_telephony_hit,
    lemma_telephony_miss, lemma_voice_profile_is_headset, music_attempts, music_candidates,
    music_restore_target, narrowband_profile, telephony_attempts, vec_contains_str,
    wideband_profile, MusicProgress, MusicSwitch, SwitchAttempt, SwitchProgress, TelephonySwitch,
};
pub use server::{
    card_voice_active, find_card_spec, lemma_find_card, lemma_find_card_at,
    lemma_find_card_same_names, AudioServer, CardModel, ServerCall,
};
pub use session::{
    ActPhase, ActTag, Activation, BtAction, BtEvent, HfpSession, Teardown, TdPhase, TdTag,
    SETTLE_DELAY_MS,
};
pub use text::{
    before_colon, before_colon_spec, clone_string_vec, contains_seq, find_char, find_char_spec,
    is_space, is_space_char, lemma_find_char, lemma_find_char_at, lines_spec, map_char_spec,
    replace_char, split_lines, starts_with_seq, str_contains, str_eq, str_starts_with, str_trim,
    str_trim_end, str_trim_start, strip_prefix_str, trim_end_spec, trim_spec, trim_start_spec,
    views_of,
};
pub use watch::{
    lemma_wait_satisfied, lemma_wait_timeout, run_wait, wait_verdict, NodeWait, WaitOutcome,
    WaitStep, NODE_WAIT_TIMEOUT_MS, POLL_INTERVAL_MS,
};
