//! Core Bluetooth audio types: endpoints, codecs, bridge identities and the
//! error taxonomy, together with the deterministic name conversions between
//! MAC addresses, card names and voice-node names.

use vstd::prelude::*;
use vstd::string::*;

use crate::text::{map_char_spec, replace_char, starts_with_seq, str_starts_with, strip_prefix_str};

verus! {

/// A Bluetooth audio card visible to the audio server.
#[derive(Debug, Clone, PartialEq)]
pub struct BtCard {
    /// Full card name, e.g. `bluez_card.AA_BB_CC_DD_EE_FF`.
    pub name: String,
    /// Human-readable MAC, e.g. `AA:BB:CC:DD:EE:FF`.
    pub mac: String,
    /// Friendly name from the Bluetooth daemon, if available.
    pub display_name: Option<String>,
    /// Currently active audio profile, if known.
    pub active_profile: Option<String>,
}

/// Ghost mirror of a [`BtCard`], used by the parser specifications.
pub struct BtCardView {
    pub name: Seq<char>,
    pub mac: Seq<char>,
    pub display_name: Option<Seq<char>>,
    pub active_profile: Option<Seq<char>>,
}

impl View for BtCard {
    type V = BtCardView;

    open spec fn view(&self) -> BtCardView {
        BtCardView {
            name: self.name@,
            mac: self.mac@,
            display_name: match self.display_name {
                Some(ref d) => Some(d@),
                None => None,
            },
            active_profile: match self.active_profile {
                Some(ref p) => Some(p@),
                None => None,
            },
        }
    }
}

/// The views of a vector of cards.
pub open spec fn card_views(v: Seq<BtCard>) -> Seq<BtCardView> {
    v.map_values(|c: BtCard| c@)
}

/// Which telephony codec / mode a profile switch achieved.
#[derive(Debug, Clone, Copy, PartialEq, Eq, Structural)]
pub enum HfpCodec {
    /// Wideband 16 kHz voice, best quality.
    MSbc,
    /// Narrowband 8 kHz voice, fallback.
    Cvsd,
    /// The endpoint itself acts as the telephony gateway; no local voice
    /// channel is opened.
    PhoneGateway,
}

impl HfpCodec {
    /// A short human-readable description of the codec.
    pub fn label(&self) -> (r: &'static str)
        ensures
            *self is MSbc ==> r@ == "mSBC (16 kHz wideband)"@,
            *self is Cvsd ==> r@ == "CVSD (8 kHz narrowband)"@,
            *self is PhoneGateway ==> r@ == "Audio Gateway (phone HFP mode)"@,
    {
        match self {
            HfpCodec::MSbc => "mSBC (16 kHz wideband)",
            HfpCodec::Cvsd => "CVSD (8 kHz narrowband)",
            HfpCodec::PhoneGateway => "Audio Gateway (phone HFP mode)",
        }
    }
}

/// Identity of one of the two audio-bridge processes.
#[derive(Debug, Clone, Copy, PartialEq, Eq, Structural)]
pub enum BridgeKind {
    /// Bridge #1: voice input to default output (lets the user hear).
    Mic,
    /// Bridge #2: default input to voice output (lets the user be heard).
    Speaker,
}

/// Everything that can go wrong while manipulating call audio.
#[derive(Debug, Clone, PartialEq)]
pub enum BtError {
    /// No telephony profile could be activated; carries the profiles that
    /// were actually advertised, to aid diagnosis.
    NoTelephonyProfile { card_name: String, available: Vec<String> },
    /// No stereo-music profile could be restored.
    NoMusicProfile { card_name: String, available: Vec<String> },
    /// The voice nodes did not appear within the fatal wait budget.
    NodeTimeout { source: String, sink: String },
    /// One of the two bridge processes failed to spawn.
    BridgeSpawnFailed { which: BridgeKind },
    /// Profile switching is not available on this platform.
    PlatformUnsupported,
}

/// A MAC with `':'` separators turned into the audio server's card name.
pub open spec fn card_name_of_mac(mac: Seq<char>) -> Seq<char> {
    "bluez_card."@ + map_char_spec(mac, ':', '_')
}

/// Convert `XX:XX:XX:XX:XX:XX` (or `XX_XX_...`) to `bluez_card.XX_XX_...`.
pub fn mac_to_card_name(mac: &str) -> (r: String)
    ensures
        r@ == card_name_of_mac(mac@),
{
    proof {
        reveal_strlit("_");
        assert("_"@ =~= seq!['_']);
    }
    let mut r = String::from_str("bluez_card.");
    let tail = replace_char(mac, ':', '_', "_");
    r.append(tail.as_str());
    r
}

/// The card name with every leading `bluez_card.` prefix removed.
pub open spec fn strip_card_prefix_spec(name: Seq<char>) -> Seq<char>
    decreases name.len(),
{
    if starts_with_seq(name, "bluez_card."@) && "bluez_card."@.len() > 0 {
        strip_card_prefix_spec(name.subrange("bluez_card."@.len() as int, name.len() as int))
    } else {
        name
    }
}

/// The MAC behind a card name.
pub open spec fn mac_of_card_name(name: Seq<char>) -> Seq<char> {
    map_char_spec(strip_card_prefix_spec(name), '_', ':')
}

fn strip_card_prefix<'a>(name: &'a str) -> (r: &'a str)
    ensures
        r@ == strip_card_prefix_spec(name@),
    decreases name@.len(),
{
    proof {
        reveal_strlit("bluez_card.");
    }
    match strip_prefix_str(name, "bluez_card.") {
        Some(t) => strip_card_prefix(t),
        None => name,
    }
}

/// Convert a card name back to `AA:BB:CC:DD:EE:FF`.
pub fn card_name_to_mac(name: &str) -> (r: String)
    ensures
        r@ == mac_of_card_name(name@),
{
    proof {
        reveal_strlit(":");
        assert(":"@ =~= seq![':']);
    }
    replace_char(strip_card_prefix(name), '_', ':', ":")
}

/// Name of the voice-capture node that a telephony switch creates.
pub open spec fn voice_source_name(card_name: Seq<char>) -> Seq<char> {
    "bluez_input."@ + mac_of_card_name(card_name)
}

/// Name of the voice-playback node that a telephony switch creates.
pub open spec fn voice_sink_name(card_name: Seq<char>) -> Seq<char> {
    "bluez_output."@ + mac_of_card_name(card_name)
}

/// Derive the `(source, sink)` voice-node names for a card.
pub fn derive_node_names(card_name: &str) -> (r: (String, String))
    ensures
        r.0@ == voice_source_name(card_name@),
        r.1@ == voice_sink_name(card_name@),
{
    let mac = card_name_to_mac(card_name);
    let mut source = String::from_str("bluez_input.");
    source.append(mac.as_str());
    let mut sink = String::from_str("bluez_output.");
    sink.append(mac.as_str());
    (source, sink)
}

} // verus!
