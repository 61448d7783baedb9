//! End-to-end lifecycle behaviour against the model daemon.

use phoneconnect::{
    activate_hfp, release, switch_to_a2dp, switch_to_hfp, AudioServer, BridgeKind, BtError,
    CardModel, HfpCodec, ServerCall,
};

fn server_with(profiles: &[&str], active: Option<&str>) -> AudioServer {
    AudioServer {
        cards: vec![CardModel {
            name: "bluez_card.AA_BB_CC_DD_EE_FF".to_string(),
            profiles: profiles.iter().map(|p| p.to_string()).collect(),
            active_profile: active.map(|p| p.to_string()),
        }],
        autoswitch: true,
        voice_nodes_run: true,
        mic_spawn_ok: true,
        speaker_spawn_ok: true,
        mic_bridge_live: false,
        speaker_bridge_live: false,
        calls: Vec::new(),
    }
}

const CARD: &str = "bluez_card.AA_BB_CC_DD_EE_FF";

fn active_of(server: &AudioServer, card: &str) -> Option<String> {
    server
        .cards
        .iter()
        .find(|c| c.name == card)
        .and_then(|c| c.active_profile.clone())
}

#[test]
fn wideband_wins_when_advertised() {
    // The explicit -cvsd variant marks the family where the unsuffixed name
    // is the wideband one.
    let mut server = server_with(
        &["headset-head-unit", "headset-head-unit-cvsd", "a2dp-sink"],
        Some("a2dp-sink"),
    );
    let r = switch_to_hfp(&mut server, CARD);
    assert_eq!(r, Ok(HfpCodec::MSbc));
    assert_eq!(active_of(&server, CARD), Some("headset-head-unit".to_string()));
}

#[test]
fn wideband_wins_in_suffixed_family() {
    let mut server = server_with(
        &["headset-head-unit-msbc", "headset-head-unit", "a2dp-sink"],
        Some("a2dp-sink"),
    );
    let r = switch_to_hfp(&mut server, CARD);
    assert_eq!(r, Ok(HfpCodec::MSbc));
    assert_eq!(active_of(&server, CARD), Some("headset-head-unit-msbc".to_string()));
}

#[test]
fn narrowband_fallback_when_wideband_missing() {
    // No -cvsd variant: the unsuffixed name is the narrowband fallback and
    // the wideband -msbc name is not advertised.
    let mut server = server_with(&["headset-head-unit", "a2dp-sink"], Some("a2dp-sink"));
    let r = switch_to_hfp(&mut server, CARD);
    assert_eq!(r, Ok(HfpCodec::Cvsd));
    assert_eq!(active_of(&server, CARD), Some("headset-head-unit".to_string()));
}

#[test]
fn gateway_profile_when_nothing_else() {
    let mut server = server_with(&["audio-gateway", "a2dp-sink"], Some("a2dp-sink"));
    let r = switch_to_hfp(&mut server, CARD);
    assert_eq!(r, Ok(HfpCodec::PhoneGateway));
    assert_eq!(active_of(&server, CARD), Some("audio-gateway".to_string()));
}

#[test]
fn no_telephony_profile_reports_available() {
    let mut server = server_with(&["a2dp-sink", "off"], Some("a2dp-sink"));
    let r = switch_to_hfp(&mut server, CARD);
    match r {
        Err(BtError::NoTelephonyProfile { card_name, available }) => {
            assert_eq!(card_name, CARD);
            assert_eq!(available, vec!["a2dp-sink".to_string(), "off".to_string()]);
        }
        other => panic!("expected NoTelephonyProfile, got {:?}", other),
    }
    // The failed switch left the active profile alone.
    assert_eq!(active_of(&server, CARD), Some("a2dp-sink".to_string()));
}

#[test]
fn switch_attempts_in_family_order() {
    // Scenario: the endpoint AA:BB:CC:DD:EE:FF advertises
    // {headset-head-unit, a2dp-sink} with no -cvsd variant, so the wideband
    // name headset-head-unit-msbc must be attempted first (and fail), then
    // headset-head-unit (which succeeds), yielding narrowband voice.
    let mut server = server_with(&["headset-head-unit", "a2dp-sink"], Some("a2dp-sink"));
    let r = switch_to_hfp(&mut server, CARD);
    assert_eq!(r, Ok(HfpCodec::Cvsd));
    assert_eq!(
        server.calls,
        vec![
            ServerCall::ProfilesQueried { card_name: CARD.to_string() },
            ServerCall::ProfileSetAttempt {
                profile: "headset-head-unit-msbc".to_string(),
                ok: false,
            },
            ServerCall::ProfileSetAttempt { profile: "headset-head-unit".to_string(), ok: true },
        ],
    );
}

#[test]
fn activate_suspends_policy_before_switching() {
    let mut server = server_with(
        &["headset-head-unit", "headset-head-unit-cvsd", "a2dp-sink"],
        Some("a2dp-sink"),
    );
    let r = activate_hfp(&mut server, CARD);
    let session = r.expect("activation should succeed");
    assert_eq!(session.codec, HfpCodec::MSbc);
    assert!(session.bridges.is_some());
    // The policy guard is suspended strictly before any profile change.
    assert_eq!(server.calls[0], ServerCall::AutoswitchSet(false));
    let first_set = server
        .calls
        .iter()
        .position(|c| matches!(c, ServerCall::ProfileSetAttempt { .. }))
        .expect("a profile was set");
    assert!(first_set > 0);
    assert!(!server.autoswitch, "policy stays suspended while the session lives");
    assert!(server.mic_bridge_live && server.speaker_bridge_live);
}

#[test]
fn gateway_activation_starts_no_bridges() {
    let mut server = server_with(&["audio-gateway", "a2dp-sink"], Some("a2dp-sink"));
    let r = activate_hfp(&mut server, CARD);
    let session = r.expect("activation should succeed");
    assert_eq!(session.codec, HfpCodec::PhoneGateway);
    assert_eq!(session.bridges, None);
    assert!(
        !server
            .calls
            .iter()
            .any(|c| matches!(c, ServerCall::BridgeSpawnAttempt { .. })),
        "no bridge processes for a gateway endpoint",
    );
    // The guard is resumed at once: no local voice channel is held.
    assert!(server.autoswitch);
    assert!(!server.mic_bridge_live && !server.speaker_bridge_live);
}

#[test]
fn release_restores_music_for_wideband() {
    let mut server = server_with(
        &["headset-head-unit", "headset-head-unit-cvsd", "a2dp-sink"],
        Some("a2dp-sink"),
    );
    let mut session = activate_hfp(&mut server, CARD).expect("activation should succeed");
    release(&mut server, &mut session);
    assert!(session.released);
    assert_eq!(active_of(&server, CARD), Some("a2dp-sink".to_string()));
    assert!(server.autoswitch);
    assert!(!server.mic_bridge_live && !server.speaker_bridge_live);
}

#[test]
fn release_restores_music_for_narrowband_even_unconfirmed() {
    // The running-state wait times out (nodes never report running); the
    // session is still handed out and release still restores music.
    let mut server = server_with(&["headset-head-unit", "a2dp-sink"], Some("a2dp-sink"));
    server.voice_nodes_run = false;
    let mut session = activate_hfp(&mut server, CARD).expect("activation should succeed");
    assert_eq!(session.codec, HfpCodec::Cvsd);
    release(&mut server, &mut session);
    assert_eq!(active_of(&server, CARD), Some("a2dp-sink".to_string()));
    assert!(server.autoswitch);
    assert!(!server.mic_bridge_live && !server.speaker_bridge_live);
}

#[test]
fn release_settles_between_kills_and_restore() {
    let mut server = server_with(&["headset-head-unit", "a2dp-sink"], Some("a2dp-sink"));
    let mut session = activate_hfp(&mut server, CARD).expect("activation should succeed");
    let start = server.calls.len();
    release(&mut server, &mut session);
    let tail = &server.calls[start..];
    assert_eq!(tail[0], ServerCall::BridgeKilled { kind: BridgeKind::Mic });
    assert_eq!(tail[1], ServerCall::BridgeKilled { kind: BridgeKind::Speaker });
    assert_eq!(tail[2], ServerCall::SleptMs(200));
    assert!(matches!(tail[3], ServerCall::ProfilesQueried { .. }));
    assert_eq!(
        tail[4],
        ServerCall::ProfileSetAttempt { profile: "a2dp-sink".to_string(), ok: true },
    );
    // The guard resumes strictly after the last teardown step.
    assert_eq!(tail[5], ServerCall::AutoswitchSet(true));
    assert_eq!(tail.len(), 6);
}

#[test]
fn release_is_idempotent() {
    let mut server = server_with(&["headset-head-unit", "a2dp-sink"], Some("a2dp-sink"));
    let mut session = activate_hfp(&mut server, CARD).expect("activation should succeed");
    release(&mut server, &mut session);
    let calls_after_first = server.calls.len();
    let active_after_first = active_of(&server, CARD);
    release(&mut server, &mut session);
    assert_eq!(server.calls.len(), calls_after_first, "no further external calls");
    assert_eq!(active_of(&server, CARD), active_after_first);
    assert!(session.released);
}

#[test]
fn gateway_release_resumes_policy_only() {
    let mut server = server_with(&["audio-gateway", "a2dp-sink"], Some("a2dp-sink"));
    let mut session = activate_hfp(&mut server, CARD).expect("activation should succeed");
    let start = server.calls.len();
    release(&mut server, &mut session);
    let tail = &server.calls[start..];
    assert_eq!(tail, &[ServerCall::AutoswitchSet(true)]);
    assert_eq!(active_of(&server, CARD), Some("audio-gateway".to_string()));
}

#[test]
fn first_bridge_failure_rolls_back() {
    let mut server = server_with(&["headset-head-unit", "a2dp-sink"], Some("a2dp-sink"));
    server.mic_spawn_ok = false;
    let r = activate_hfp(&mut server, CARD);
    assert_eq!(r, Err(BtError::BridgeSpawnFailed { which: BridgeKind::Mic }));
    assert!(!server.mic_bridge_live && !server.speaker_bridge_live);
    assert!(server.autoswitch, "policy resumed after the failed activation");
    assert_eq!(active_of(&server, CARD), Some("a2dp-sink".to_string()));
}

#[test]
fn second_bridge_failure_kills_first() {
    let mut server = server_with(&["headset-head-unit", "a2dp-sink"], Some("a2dp-sink"));
    server.speaker_spawn_ok = false;
    let before = switch_to_a2dp(&mut server, CARD); // establish a music profile first
    assert!(before.is_ok());
    let profiles_before: Vec<String> = server.cards[0].profiles.clone();
    let r = activate_hfp(&mut server, CARD);
    // The error names the bridge that failed.
    assert_eq!(r, Err(BtError::BridgeSpawnFailed { which: BridgeKind::Speaker }));
    // Bridge #1, already started, was killed again.
    assert!(!server.mic_bridge_live);
    assert!(server
        .calls
        .iter()
        .any(|c| *c == ServerCall::BridgeKilled { kind: BridgeKind::Mic }));
    // The advertised profiles are unaffected by the failure.
    assert_eq!(server.cards[0].profiles, profiles_before);
    assert!(server.autoswitch);
    assert_eq!(active_of(&server, CARD), Some("a2dp-sink".to_string()));
}

#[test]
fn failed_activation_without_music_candidate_keeps_profile() {
    // A card that advertises no music profile: after a failed activation the
    // restore has nothing to restore to and tolerates that.
    let mut server = server_with(&["headset-head-unit"], Some("headset-head-unit"));
    server.mic_spawn_ok = false;
    let r = activate_hfp(&mut server, CARD);
    assert_eq!(r, Err(BtError::BridgeSpawnFailed { which: BridgeKind::Mic }));
    // No music candidate advertised: the profile stays where it was.
    assert_eq!(active_of(&server, CARD), Some("headset-head-unit".to_string()));
    assert!(server.autoswitch);
}

#[test]
fn a2dp_restore_prefers_plain_sink() {
    let mut server = server_with(
        &["headset-head-unit", "a2dp-sink-aac", "a2dp-sink"],
        Some("headset-head-unit"),
    );
    let r = switch_to_a2dp(&mut server, CARD);
    assert!(r.is_ok());
    assert_eq!(active_of(&server, CARD), Some("a2dp-sink".to_string()));
}

#[test]
fn a2dp_restore_takes_best_available() {
    let mut server = server_with(
        &["headset-head-unit", "a2dp-sink-sbc_xq", "a2dp-sink-sbc"],
        Some("headset-head-unit"),
    );
    let r = switch_to_a2dp(&mut server, CARD);
    assert!(r.is_ok());
    assert_eq!(active_of(&server, CARD), Some("a2dp-sink-sbc_xq".to_string()));
}

#[test]
fn a2dp_restore_fails_without_candidates() {
    let mut server = server_with(&["headset-head-unit"], Some("headset-head-unit"));
    let r = switch_to_a2dp(&mut server, CARD);
    match r {
        Err(BtError::NoMusicProfile { card_name, available }) => {
            assert_eq!(card_name, CARD);
            assert_eq!(available, vec!["headset-head-unit".to_string()]);
        }
        other => panic!("expected NoMusicProfile, got {:?}", other),
    }
}

#[test]
fn a2dp_restore_on_unknown_card_attempts_all_candidates() {
    // Enumeration yields nothing for an unknown card; the permissive
    // fallback still attempts every candidate before giving up.
    let mut server = server_with(&["a2dp-sink"], None);
    let r = switch_to_a2dp(&mut server, "bluez_card.00_00_00_00_00_00");
    assert!(matches!(r, Err(BtError::NoMusicProfile { .. })));
    let attempts: Vec<&ServerCall> = server
        .calls
        .iter()
        .filter(|c| matches!(c, ServerCall::ProfileSetAttempt { .. }))
        .collect();
    assert_eq!(attempts.len(), 4);
}

#[test]
fn activation_without_telephony_profiles_fails_cleanly() {
    let mut server = server_with(&["a2dp-sink"], Some("a2dp-sink"));
    let r = activate_hfp(&mut server, CARD);
    match r {
        Err(BtError::NoTelephonyProfile { card_name, available }) => {
            assert_eq!(card_name, CARD);
            assert_eq!(available, vec!["a2dp-sink".to_string()]);
        }
        other => panic!("expected NoTelephonyProfile, got {:?}", other),
    }
    // Only the policy guard was acquired, and it was given back.
    assert!(server.autoswitch);
    assert_eq!(active_of(&server, CARD), Some("a2dp-sink".to_string()));
    assert!(!server.mic_bridge_live && !server.speaker_bridge_live);
}
