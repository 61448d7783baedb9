//! The text parsers against realistic tool output.

use phoneconnect::{
    available_profiles, card_name_to_mac, has_node, list_bt_cards, mac_to_card_name,
    node_is_running, parse_alias, HfpCodec,
};

const CARDS_TEXT: &str = "Card #41\n\
\tName: alsa_card.pci-0000_00_1f.3\n\
\tDriver: alsa\n\
\tProfiles:\n\
\t\toutput:analog-stereo: Analog Stereo Output (sinks: 1, sources: 0, priority: 6500, available: yes)\n\
\t\toff: Off (sinks: 0, sources: 0, priority: 0, available: yes)\n\
\tActive Profile: output:analog-stereo\n\
Card #55\n\
\tName: bluez_card.AA_BB_CC_DD_EE_FF\n\
\tDriver: module-bluez5-device.c\n\
\tProfiles:\n\
\t\ta2dp-sink: High Fidelity Playback (A2DP Sink) (sinks: 1, sources: 0, priority: 40, available: yes)\n\
\t\theadset-head-unit: Headset Head Unit (HSP/HFP) (sinks: 1, sources: 1, priority: 30, available: yes)\n\
\t\theadset-head-unit-cvsd: Headset Head Unit (HSP/HFP, codec CVSD) (sinks: 1, sources: 1, priority: 20, available: yes)\n\
\t\toff: Off (sinks: 0, sources: 0, priority: 0, available: yes)\n\
\tActive Profile: a2dp-sink\n\
Card #56\n\
\tName: bluez_card.11_22_33_44_55_66\n\
\tProfiles:\n\
\t\taudio-gateway: Audio Gateway (sinks: 1, sources: 1, priority: 10, available: yes)\n\
\tActive Profile: off\n";

#[test]
fn profiles_of_the_wanted_card_only() {
    let ps = available_profiles(CARDS_TEXT, "bluez_card.AA_BB_CC_DD_EE_FF");
    assert_eq!(
        ps,
        vec![
            "a2dp-sink".to_string(),
            "headset-head-unit".to_string(),
            "headset-head-unit-cvsd".to_string(),
            "off".to_string(),
        ],
    );
}

#[test]
fn profiles_stop_at_the_active_profile_line() {
    let ps = available_profiles(CARDS_TEXT, "bluez_card.11_22_33_44_55_66");
    assert_eq!(ps, vec!["audio-gateway".to_string()]);
}

#[test]
fn profiles_of_an_unknown_card_are_empty() {
    let ps = available_profiles(CARDS_TEXT, "bluez_card.00_00_00_00_00_00");
    assert!(ps.is_empty());
}

#[test]
fn profiles_of_empty_output_are_empty() {
    let ps = available_profiles("", "bluez_card.AA_BB_CC_DD_EE_FF");
    assert!(ps.is_empty());
}

const SHORT_TEXT: &str = "41\talsa_card.pci-0000_00_1f.3\talsa\n\
55\tbluez_card.AA_BB_CC_DD_EE_FF\tmodule-bluez5-device.c\n\
56\tbluez_card.11_22_33_44_55_66\tmodule-bluez5-device.c\n\
garbage line without tabs\n";

#[test]
fn bluetooth_cards_from_the_listings() {
    let cards = list_bt_cards(SHORT_TEXT, CARDS_TEXT);
    assert_eq!(cards.len(), 2);
    assert_eq!(cards[0].name, "bluez_card.AA_BB_CC_DD_EE_FF");
    assert_eq!(cards[0].mac, "AA:BB:CC:DD:EE:FF");
    assert_eq!(cards[0].active_profile, Some("a2dp-sink".to_string()));
    assert_eq!(cards[0].display_name, None);
    assert_eq!(cards[1].name, "bluez_card.11_22_33_44_55_66");
    assert_eq!(cards[1].mac, "11:22:33:44:55:66");
    assert_eq!(cards[1].active_profile, Some("off".to_string()));
}

#[test]
fn no_bluetooth_cards_in_a_plain_machine() {
    let cards = list_bt_cards("41\talsa_card.pci-0000_00_1f.3\talsa\n", CARDS_TEXT);
    assert!(cards.is_empty());
}

#[test]
fn alias_is_preferred_over_name() {
    let info = "Device AA:BB:CC:DD:EE:FF (public)\n\
\tName: AB123\n\
\tAlias: Kitchen Speaker\n\
\tPaired: yes\n";
    assert_eq!(parse_alias(info), Some("AB123".to_string()));
    let info2 = "Device AA:BB:CC:DD:EE:FF (public)\n\
\tAlias: Kitchen Speaker\n\
\tName: AB123\n";
    assert_eq!(parse_alias(info2), Some("Kitchen Speaker".to_string()));
}

#[test]
fn alias_skips_empty_values() {
    let info = "\tAlias:   \n\tName: AB123\n";
    assert_eq!(parse_alias(info), Some("AB123".to_string()));
    assert_eq!(parse_alias("no names here\n"), None);
}

const SOURCES_TEXT: &str = "1\talsa_input.pci.analog-stereo\tPipeWire\ts16le 2ch 48000Hz\tSUSPENDED\n\
77\tbluez_input.AA:BB:CC:DD:EE:FF\tPipeWire\ts16le 1ch 16000Hz\tRUNNING\n";

#[test]
fn node_presence_is_a_substring_check() {
    assert!(has_node(SOURCES_TEXT, "bluez_input.AA:BB:CC:DD:EE:FF"));
    assert!(!has_node(SOURCES_TEXT, "bluez_input.11:22:33:44:55:66"));
}

#[test]
fn running_state_ignores_suspended_lines() {
    assert!(node_is_running(SOURCES_TEXT, "bluez_input.AA:BB:CC:DD:EE:FF"));
    assert!(!node_is_running(SOURCES_TEXT, "alsa_input.pci.analog-stereo"));
    let suspended = "77\tbluez_input.AA:BB:CC:DD:EE:FF\tPipeWire\ts16le 1ch 16000Hz\tSUSPENDED\n";
    assert!(!node_is_running(suspended, "bluez_input.AA:BB:CC:DD:EE:FF"));
}

#[test]
fn mac_and_card_name_convert_both_ways() {
    assert_eq!(mac_to_card_name("AA:BB:CC:DD:EE:FF"), "bluez_card.AA_BB_CC_DD_EE_FF");
    assert_eq!(mac_to_card_name("AA_BB_CC_DD_EE_FF"), "bluez_card.AA_BB_CC_DD_EE_FF");
    assert_eq!(card_name_to_mac("bluez_card.AA_BB_CC_DD_EE_FF"), "AA:BB:CC:DD:EE:FF");
    assert_eq!(card_name_to_mac(&mac_to_card_name("B8:EA:98:EF:B4:A5")), "B8:EA:98:EF:B4:A5");
}

#[test]
fn codec_labels() {
    assert_eq!(HfpCodec::MSbc.label(), "mSBC (16 kHz wideband)");
    assert_eq!(HfpCodec::Cvsd.label(), "CVSD (8 kHz narrowband)");
    assert_eq!(HfpCodec::PhoneGateway.label(), "Audio Gateway (phone HFP mode)");
}
