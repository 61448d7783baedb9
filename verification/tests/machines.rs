//! Driving the event machines directly, the way the process around the
//! library does: perform the requested action, feed the observed outcome.

use phoneconnect::{
    Activation, BtAction, BtEvent, HfpCodec, MusicProgress, MusicSwitch, SwitchProgress,
    TelephonySwitch, Teardown,
};

#[test]
fn activation_asks_suspend_first_and_query_second() {
    let mut m = Activation::new("bluez_card.AA_BB_CC_DD_EE_FF");
    match m.current_action() {
        Some(BtAction::SetAutoswitch(false)) => {}
        other => panic!("expected the policy suspension, got {:?}", other),
    }
    m.step(BtEvent::AutoswitchSet);
    match m.current_action() {
        Some(BtAction::QueryProfiles { card_name }) => {
            assert_eq!(card_name, "bluez_card.AA_BB_CC_DD_EE_FF");
        }
        other => panic!("expected the profile query, got {:?}", other),
    }
}

#[test]
fn activation_node_names_derive_from_the_card() {
    let mut m = Activation::new("bluez_card.AA_BB_CC_DD_EE_FF");
    m.step(BtEvent::AutoswitchSet);
    m.step(BtEvent::Profiles {
        available: vec!["headset-head-unit".to_string(), "a2dp-sink".to_string()],
    });
    // Suffix-family: wideband attempt first.
    match m.current_action() {
        Some(BtAction::SetProfile { profile }) => assert_eq!(profile, "headset-head-unit-msbc"),
        other => panic!("expected a profile attempt, got {:?}", other),
    }
    m.step(BtEvent::ProfileSet { ok: false });
    match m.current_action() {
        Some(BtAction::SetProfile { profile }) => assert_eq!(profile, "headset-head-unit"),
        other => panic!("expected the fallback attempt, got {:?}", other),
    }
    m.step(BtEvent::ProfileSet { ok: true });
    match m.current_action() {
        Some(BtAction::CheckNodesExist { source, sink }) => {
            assert_eq!(source, "bluez_input.AA:BB:CC:DD:EE:FF");
            assert_eq!(sink, "bluez_output.AA:BB:CC:DD:EE:FF");
        }
        other => panic!("expected the node check, got {:?}", other),
    }
}

#[test]
fn activation_sleeps_between_node_checks() {
    let mut m = Activation::new("bluez_card.AA_BB_CC_DD_EE_FF");
    m.step(BtEvent::AutoswitchSet);
    m.step(BtEvent::Profiles { available: vec!["headset-head-unit-cvsd".to_string()] });
    m.step(BtEvent::ProfileSet { ok: true });
    // Nodes not there yet: the machine asks for one 200 ms sleep, then asks
    // again.
    m.step(BtEvent::NodesChecked { source_ok: false, sink_ok: false });
    match m.current_action() {
        Some(BtAction::Sleep { ms }) => assert_eq!(ms, 200),
        other => panic!("expected a sleep, got {:?}", other),
    }
    m.step(BtEvent::Slept);
    assert!(matches!(m.current_action(), Some(BtAction::CheckNodesExist { .. })));
}

#[test]
fn activation_hands_back_a_rollback_on_failure() {
    let mut m = Activation::new("bluez_card.AA_BB_CC_DD_EE_FF");
    m.step(BtEvent::AutoswitchSet);
    m.step(BtEvent::Profiles { available: vec!["headset-head-unit".to_string()] });
    m.step(BtEvent::ProfileSet { ok: false });
    m.step(BtEvent::ProfileSet { ok: false });
    assert!(m.is_finished());
    let (result, rollback) = m.finish();
    assert!(result.is_err());
    let td = rollback.expect("a failed activation yields its rollback");
    // Nothing was acquired beyond the policy guard: resume it and stop.
    let mut td = td;
    match td.current_action() {
        Some(BtAction::SetAutoswitch(true)) => {}
        other => panic!("expected the policy resumption, got {:?}", other),
    }
    td.step(BtEvent::AutoswitchSet);
    assert!(td.is_finished());
}

#[test]
fn teardown_for_a_full_session_kills_settles_restores_resumes() {
    let mut td = Teardown::new("bluez_card.AA_BB_CC_DD_EE_FF".to_string(), true, true, true);
    assert!(matches!(td.current_action(), Some(BtAction::KillMicBridge)));
    td.step(BtEvent::BridgeKilled);
    assert!(matches!(td.current_action(), Some(BtAction::KillSpeakerBridge)));
    td.step(BtEvent::BridgeKilled);
    match td.current_action() {
        Some(BtAction::Sleep { ms }) => assert_eq!(ms, 200),
        other => panic!("expected the settle delay, got {:?}", other),
    }
    td.step(BtEvent::Slept);
    assert!(matches!(td.current_action(), Some(BtAction::QueryProfiles { .. })));
    td.step(BtEvent::Profiles {
        available: vec!["a2dp-sink-aac".to_string(), "headset-head-unit".to_string()],
    });
    match td.current_action() {
        Some(BtAction::SetProfile { profile }) => assert_eq!(profile, "a2dp-sink-aac"),
        other => panic!("expected the music restore, got {:?}", other),
    }
    td.step(BtEvent::ProfileSet { ok: true });
    assert!(matches!(td.current_action(), Some(BtAction::SetAutoswitch(true))));
    td.step(BtEvent::AutoswitchSet);
    assert!(td.is_finished());
}

#[test]
fn teardown_tolerates_a_failed_restore() {
    let mut td = Teardown::new("c".to_string(), false, false, true);
    td.step(BtEvent::Profiles { available: vec!["a2dp-sink".to_string()] });
    td.step(BtEvent::ProfileSet { ok: false });
    // The only candidate failed; the teardown resumes the policy and ends.
    assert!(matches!(td.current_action(), Some(BtAction::SetAutoswitch(true))));
    td.step(BtEvent::AutoswitchSet);
    assert!(td.is_finished());
}

#[test]
fn telephony_switch_plans_by_family() {
    let pipewire = TelephonySwitch::new(
        "c".to_string(),
        vec![
            "headset-head-unit".to_string(),
            "headset-head-unit-cvsd".to_string(),
            "audio-gateway".to_string(),
        ],
    );
    let plan: Vec<&str> = pipewire.attempts.iter().map(|a| a.profile.as_str()).collect();
    assert_eq!(plan, vec!["headset-head-unit", "headset-head-unit-cvsd", "audio-gateway"]);
    assert_eq!(pipewire.attempts[0].codec, HfpCodec::MSbc);
    assert_eq!(pipewire.attempts[1].codec, HfpCodec::Cvsd);
    assert_eq!(pipewire.attempts[2].codec, HfpCodec::PhoneGateway);

    let pulse = TelephonySwitch::new(
        "c".to_string(),
        vec!["headset-head-unit".to_string()],
    );
    let plan: Vec<&str> = pulse.attempts.iter().map(|a| a.profile.as_str()).collect();
    assert_eq!(plan, vec!["headset-head-unit-msbc", "headset-head-unit"]);

    let none = TelephonySwitch::new("c".to_string(), vec!["a2dp-sink".to_string()]);
    assert_eq!(none.outcome, SwitchProgress::Failed);
}

#[test]
fn music_switch_attempts_every_candidate_when_enumeration_failed() {
    let ms = MusicSwitch::new("c".to_string(), Vec::new());
    assert_eq!(
        ms.attempts,
        vec![
            "a2dp-sink".to_string(),
            "a2dp-sink-aac".to_string(),
            "a2dp-sink-sbc_xq".to_string(),
            "a2dp-sink-sbc".to_string(),
        ],
    );
    assert_eq!(ms.outcome, MusicProgress::Pending);
    let filtered = MusicSwitch::new(
        "c".to_string(),
        vec!["headset-head-unit".to_string(), "a2dp-sink-sbc".to_string()],
    );
    assert_eq!(filtered.attempts, vec!["a2dp-sink-sbc".to_string()]);
}

#[test]
fn node_wait_timeout_aborts_activation_with_rollback() {
    let mut m = Activation::new("bluez_card.AA_BB_CC_DD_EE_FF");
    m.step(BtEvent::AutoswitchSet);
    m.step(BtEvent::Profiles {
        available: vec!["headset-head-unit".to_string(), "a2dp-sink".to_string()],
    });
    m.step(BtEvent::ProfileSet { ok: false });
    m.step(BtEvent::ProfileSet { ok: true });
    // The voice nodes never appear: 21 checks at 0, 200, ..., 4000 ms.
    let mut checks = 0;
    while !m.is_finished() {
        match m.current_action() {
            Some(BtAction::CheckNodesExist { .. }) => {
                checks += 1;
                m.step(BtEvent::NodesChecked { source_ok: false, sink_ok: false });
            }
            Some(BtAction::Sleep { ms }) => {
                assert_eq!(ms, 200);
                m.step(BtEvent::Slept);
            }
            other => panic!("unexpected action {:?}", other),
        }
    }
    assert_eq!(checks, 21, "the fatal wait samples up to its 4 s budget");
    let (result, rollback) = m.finish();
    match result {
        Err(phoneconnect::BtError::NodeTimeout { source, sink }) => {
            assert_eq!(source, "bluez_input.AA:BB:CC:DD:EE:FF");
            assert_eq!(sink, "bluez_output.AA:BB:CC:DD:EE:FF");
        }
        other => panic!("expected a node timeout, got {:?}", other),
    }
    // The profile was switched, so the rollback also restores music.
    let td = rollback.expect("the failure hands back its rollback");
    assert!(td.switch_music);
}
