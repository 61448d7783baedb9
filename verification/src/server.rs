//! An executable model of the audio daemon.
//!
//! The orchestration machines are driven against this model to prove the
//! end-to-end properties, and tests substitute it for the real daemon.  The
//! model daemon accepts a profile exactly when the profile is advertised,
//! exposes the voice nodes of every card whose active profile is a telephony
//! one, and records every call made to it, so that ordering and idempotence
//! can be observed.

use vstd::prelude::*;
use vstd::string::*;

use crate::bt::{voice_sink_name, voice_source_name, BridgeKind};
use crate::profiles::vec_contains_str;
use crate::text::{starts_with_seq, str_eq, str_starts_with, views_of};

verus! {

/// One audio card known to the model daemon.
#[derive(Debug)]
pub struct CardModel {
    pub name: String,
    /// The advertised profiles; a set request succeeds exactly for these.
    pub profiles: Vec<String>,
    pub active_profile: Option<String>,
}

/// One external call as the model daemon records it.
#[derive(Debug, Clone, PartialEq)]
pub enum ServerCall {
    AutoswitchSet(bool),
    ProfilesQueried { card_name: String },
    ProfileSetAttempt { profile: String, ok: bool },
    NodesExistQueried { source: String, sink: String },
    NodesRunningQueried { source: String, sink: String },
    SleptMs(u64),
    BridgeSpawnAttempt { kind: BridgeKind, ok: bool },
    BridgeKilled { kind: BridgeKind },
}

/// The model daemon.
#[derive(Debug)]
pub struct AudioServer {
    pub cards: Vec<CardModel>,
    /// The automatic profile-reversion policy setting.
    pub autoswitch: bool,
    /// Whether voice nodes, once present, report themselves as running.
    pub voice_nodes_run: bool,
    /// Whether spawning the first bridge process succeeds.
    pub mic_spawn_ok: bool,
    /// Whether spawning the second bridge process succeeds.
    pub speaker_spawn_ok: bool,
    pub mic_bridge_live: bool,
    pub speaker_bridge_live: bool,
    /// Every call made so far, oldest first.
    pub calls: Vec<ServerCall>,
}

/// Index of the first card with this name, or `cards.len()` if absent.
pub open spec fn find_card_spec(cards: Seq<CardModel>, name: Seq<char>) -> int
    decreases cards.len(),
{
    if cards.len() == 0 {
        0
    } else if cards[0].name@ == name {
        0
    } else {
        1 + find_card_spec(cards.subrange(1, cards.len() as int), name)
    }
}

pub proof fn lemma_find_card(cards: Seq<CardModel>, name: Seq<char>)
    ensures
        0 <= find_card_spec(cards, name) <= cards.len(),
        forall|j: int| 0 <= j < find_card_spec(cards, name) ==> (#[trigger] cards[j]).name@ != name,
        find_card_spec(cards, name) < cards.len() ==> cards[find_card_spec(cards, name)].name@
            == name,
    decreases cards.len(),
{
    if cards.len() != 0 && cards[0].name@ != name {
        let t = cards.subrange(1, cards.len() as int);
        lemma_find_card(t, name);
        assert forall|j: int| 0 <= j < find_card_spec(cards, name) implies (#[trigger] cards[j]).name@
            != name by {
            if j > 0 {
                assert(cards[j] == t[j - 1]);
            }
        }
    }
}

pub proof fn lemma_find_card_at(cards: Seq<CardModel>, name: Seq<char>, i: int)
    requires
        0 <= i <= cards.len(),
        forall|j: int| 0 <= j < i ==> (#[trigger] cards[j]).name@ != name,
        i < cards.len() ==> cards[i].name@ == name,
    ensures
        find_card_spec(cards, name) == i,
    decreases cards.len(),
{
    if cards.len() != 0 {
        if i == 0 {
        } else {
            let t = cards.subrange(1, cards.len() as int);
            assert(forall|j: int| 0 <= j < i - 1 ==> t[j] == cards[j + 1]);
            lemma_find_card_at(t, name, i - 1);
        }
    }
}

/// Cards with pointwise equal names are searched identically.
pub proof fn lemma_find_card_same_names(a: Seq<CardModel>, b: Seq<CardModel>, name: Seq<char>)
    requires
        a.len() == b.len(),
        forall|i: int| 0 <= i < a.len() ==> (#[trigger] a[i]).name == b[i].name,
    ensures
        find_card_spec(a, name) == find_card_spec(b, name),
    decreases a.len(),
{
    if a.len() != 0 {
        let ta = a.subrange(1, a.len() as int);
        let tb = b.subrange(1, b.len() as int);
        assert(forall|i: int| 0 <= i < ta.len() ==> (#[trigger] ta[i]).name == tb[i].name);
        lemma_find_card_same_names(ta, tb, name);
    }
}

/// A card's active profile is a telephony one.
pub open spec fn card_voice_active(c: CardModel) -> bool {
    match c.active_profile {
        Some(p) => starts_with_seq(p@, "headset-head-unit"@),
        None => false,
    }
}

impl AudioServer {
    pub open spec fn card_idx(&self, name: Seq<char>) -> int {
        find_card_spec(self.cards@, name)
    }

    pub open spec fn has_card(&self, name: Seq<char>) -> bool {
        self.card_idx(name) < self.cards@.len()
    }

    /// The profiles advertised for a card; empty when the card is unknown.
    pub open spec fn profiles_of(&self, name: Seq<char>) -> Seq<Seq<char>> {
        if self.has_card(name) {
            views_of(self.cards@[self.card_idx(name)].profiles@)
        } else {
            Seq::<Seq<char>>::empty()
        }
    }

    /// The active profile of a card, if the card is known and has one.
    pub open spec fn active_of(&self, name: Seq<char>) -> Option<Seq<char>> {
        if self.has_card(name) {
            match self.cards@[self.card_idx(name)].active_profile {
                Some(p) => Some(p@),
                None => None,
            }
        } else {
            None
        }
    }

    /// A voice-capture node with this name is present.
    pub open spec fn source_node_present(&self, node: Seq<char>) -> bool {
        exists|i: int|
            0 <= i < self.cards@.len() && card_voice_active(#[trigger] self.cards@[i]) && node
                == voice_source_name(self.cards@[i].name@)
    }

    /// A voice-playback node with this name is present.
    pub open spec fn sink_node_present(&self, node: Seq<char>) -> bool {
        exists|i: int|
            0 <= i < self.cards@.len() && card_voice_active(#[trigger] self.cards@[i]) && node
                == voice_sink_name(self.cards@[i].name@)
    }

    /// The new call log is the old one plus exactly one entry.
    pub open spec fn logged_one(&self, new: AudioServer) -> bool {
        &&& new.calls@.len() == self.calls@.len() + 1
        &&& new.calls@.subrange(0, self.calls@.len() as int) == self.calls@
    }

    fn find_card(&self, card_name: &str) -> (i: usize)
        ensures
            i as int == self.card_idx(card_name@),
            i <= self.cards@.len(),
    {
        let n = self.cards.len();
        let mut i: usize = 0;
        while i < n
            invariant
                0 <= i <= n,
                n == self.cards@.len(),
                forall|j: int| 0 <= j < i ==> (#[trigger] self.cards@[j]).name@ != card_name@,
            decreases n - i,
        {
            if str_eq(self.cards[i].name.as_str(), card_name) {
                proof {
                    lemma_find_card_at(self.cards@, card_name@, i as int);
                }
                return i;
            }
            i += 1;
        }
        proof {
            lemma_find_card_at(self.cards@, card_name@, n as int);
        }
        n
    }

    /// Model of the profile-enumeration query.
    pub fn query_profiles(&mut self, card_name: &str) -> (r: Vec<String>)
        ensures
            views_of(r@) == old(self).profiles_of(card_name@),
            final(self).cards == old(self).cards,
            final(self).autoswitch == old(self).autoswitch,
            final(self).voice_nodes_run == old(self).voice_nodes_run,
            final(self).mic_spawn_ok == old(self).mic_spawn_ok,
            final(self).speaker_spawn_ok == old(self).speaker_spawn_ok,
            final(self).mic_bridge_live == old(self).mic_bridge_live,
            final(self).speaker_bridge_live == old(self).speaker_bridge_live,
            old(self).logged_one(*final(self)),
            final(self).calls@.last() matches ServerCall::ProfilesQueried { card_name: c } && c@
                == card_name@,
    {
        let idx = self.find_card(card_name);
        let r = if idx < self.cards.len() {
            crate::text::clone_string_vec(&self.cards[idx].profiles)
        } else {
            Vec::new()
        };
        self.calls.push(ServerCall::ProfilesQueried { card_name: String::from_str(card_name) });
        proof {
            assert(views_of(r@) =~= old(self).profiles_of(card_name@));
            assert(final(self).calls@.subrange(0, old(self).calls@.len() as int) =~= old(
                self,
            ).calls@);
        }
        r
    }

    /// Model of the autoswitch-policy toggle.
    pub fn set_autoswitch(&mut self, on: bool)
        ensures
            final(self).cards == old(self).cards,
            final(self).autoswitch == on,
            final(self).voice_nodes_run == old(self).voice_nodes_run,
            final(self).mic_spawn_ok == old(self).mic_spawn_ok,
            final(self).speaker_spawn_ok == old(self).speaker_spawn_ok,
            final(self).mic_bridge_live == old(self).mic_bridge_live,
            final(self).speaker_bridge_live == old(self).speaker_bridge_live,
            old(self).logged_one(*final(self)),
            final(self).calls@.last() == ServerCall::AutoswitchSet(on),
    {
        self.autoswitch = on;
        self.calls.push(ServerCall::AutoswitchSet(on));
        proof {
            assert(final(self).calls@.subrange(0, old(self).calls@.len() as int) =~= old(
                self,
            ).calls@);
        }
    }

    /// Model of a profile-set request: it succeeds exactly when the profile
    /// is advertised for a known card, and then becomes the active profile.
    pub fn set_profile(&mut self, card_name: &str, profile: &str) -> (ok: bool)
        ensures
            ok == old(self).profiles_of(card_name@).contains(profile@),
            final(self).autoswitch == old(self).autoswitch,
            final(self).voice_nodes_run == old(self).voice_nodes_run,
            final(self).mic_spawn_ok == old(self).mic_spawn_ok,
            final(self).speaker_spawn_ok == old(self).speaker_spawn_ok,
            final(self).mic_bridge_live == old(self).mic_bridge_live,
            final(self).speaker_bridge_live == old(self).speaker_bridge_live,
            old(self).logged_one(*final(self)),
            final(self).calls@.last() matches ServerCall::ProfileSetAttempt { profile: p, ok: k }
                && p@ == profile@ && k == ok,
            !ok ==> final(self).cards == old(self).cards,
            forall|n: Seq<char>| #[trigger] final(self).profiles_of(n) == old(self).profiles_of(n),
            forall|n: Seq<char>| #[trigger]
                final(self).active_of(n) == if ok && n == card_name@ {
                    Some(profile@)
                } else {
                    old(self).active_of(n)
                },
    {
        let idx = self.find_card(card_name);
        let ghost pre = *self;
        let mut ok = false;
        if idx < self.cards.len() {
            if vec_contains_str(&self.cards[idx].profiles, profile) {
                self.cards[idx].active_profile = Some(String::from_str(profile));
                ok = true;
            }
        }
        self.calls.push(
            ServerCall::ProfileSetAttempt { profile: String::from_str(profile), ok },
        );
        proof {
            assert(final(self).calls@.subrange(0, pre.calls@.len() as int) =~= pre.calls@);
            if !ok {
                assert(final(self).cards =~= pre.cards);
            }
            assert(final(self).cards@.len() == pre.cards@.len());
            assert(forall|i: int|
                0 <= i < pre.cards@.len() ==> (#[trigger] final(self).cards@[i]).name
                    == pre.cards@[i].name && final(self).cards@[i].profiles
                    == pre.cards@[i].profiles);
            assert(forall|i: int|
                0 <= i < pre.cards@.len() && i != idx as int ==> #[trigger] final(self).cards@[i]
                    == pre.cards@[i]);
            assert forall|n: Seq<char>| #[trigger] final(self).profiles_of(n) == pre.profiles_of(
                n,
            ) by {
                lemma_find_card_same_names(pre.cards@, final(self).cards@, n);
                lemma_find_card(pre.cards@, n);
            }
            assert forall|n: Seq<char>| #[trigger]
            final(self).active_of(n) == (if ok && n == card_name@ {
                Some(profile@)
            } else {
                pre.active_of(n)
            }) by {
                lemma_find_card_same_names(pre.cards@, final(self).cards@, n);
                lemma_find_card(pre.cards@, n);
                lemma_find_card(pre.cards@, card_name@);
                let i_n = find_card_spec(pre.cards@, n);
                if i_n < pre.cards@.len() {
                    if ok && n == card_name@ {
                        assert(i_n == idx as int);
                    } else if i_n == idx as int && ok {
                        assert(pre.cards@[i_n].name@ == n);
                        assert(pre.cards@[idx as int].name@ == card_name@);
                        assert(false);
                    } else {
                        assert(final(self).cards@[i_n] == pre.cards@[i_n]);
                    }
                } else {
                    assert(!pre.has_card(n) && !final(self).has_card(n));
                }
            }
        }
        ok
    }

    /// Model of the node-presence query.
    pub fn check_nodes_exist(&mut self, source: &str, sink: &str) -> (r: (bool, bool))
        ensures
            r.0 == old(self).source_node_present(source@),
            r.1 == old(self).sink_node_present(sink@),
            final(self).cards == old(self).cards,
            final(self).autoswitch == old(self).autoswitch,
            final(self).voice_nodes_run == old(self).voice_nodes_run,
            final(self).mic_spawn_ok == old(self).mic_spawn_ok,
            final(self).speaker_spawn_ok == old(self).speaker_spawn_ok,
            final(self).mic_bridge_live == old(self).mic_bridge_live,
            final(self).speaker_bridge_live == old(self).speaker_bridge_live,
            old(self).logged_one(*final(self)),
            final(self).calls@.last() matches ServerCall::NodesExistQueried { source: s, sink: k }
                && s@ == source@ && k@ == sink@,
    {
        let src_ok = self.source_present(source);
        let snk_ok = self.sink_present(sink);
        self.calls.push(
            ServerCall::NodesExistQueried {
                source: String::from_str(source),
                sink: String::from_str(sink),
            },
        );
        proof {
            assert(final(self).calls@.subrange(0, old(self).calls@.len() as int) =~= old(
                self,
            ).calls@);
        }
        (src_ok, snk_ok)
    }

    /// Model of the running-state query: a node runs when it is present and
    /// the daemon reports running nodes at all.
    pub fn check_nodes_running(&mut self, source: &str, sink: &str) -> (r: (bool, bool))
        ensures
            r.0 == (old(self).source_node_present(source@) && old(self).voice_nodes_run),
            r.1 == (old(self).sink_node_present(sink@) && old(self).voice_nodes_run),
            final(self).cards == old(self).cards,
            final(self).autoswitch == old(self).autoswitch,
            final(self).voice_nodes_run == old(self).voice_nodes_run,
            final(self).mic_spawn_ok == old(self).mic_spawn_ok,
            final(self).speaker_spawn_ok == old(self).speaker_spawn_ok,
            final(self).mic_bridge_live == old(self).mic_bridge_live,
            final(self).speaker_bridge_live == old(self).speaker_bridge_live,
            old(self).logged_one(*final(self)),
            final(self).calls@.last() matches ServerCall::NodesRunningQueried {
                source: s,
                sink: k,
            } && s@ == source@ && k@ == sink@,
    {
        let src_ok = self.source_present(source) && self.voice_nodes_run;
        let snk_ok = self.sink_present(sink) && self.voice_nodes_run;
        self.calls.push(
            ServerCall::NodesRunningQueried {
                source: String::from_str(source),
                sink: String::from_str(sink),
            },
        );
        proof {
            assert(final(self).calls@.subrange(0, old(self).calls@.len() as int) =~= old(
                self,
            ).calls@);
        }
        (src_ok, snk_ok)
    }

    /// Model of the settle delay.
    pub fn sleep_ms(&mut self, ms: u64)
        ensures
            final(self).cards == old(self).cards,
            final(self).autoswitch == old(self).autoswitch,
            final(self).voice_nodes_run == old(self).voice_nodes_run,
            final(self).mic_spawn_ok == old(self).mic_spawn_ok,
            final(self).speaker_spawn_ok == old(self).speaker_spawn_ok,
            final(self).mic_bridge_live == old(self).mic_bridge_live,
            final(self).speaker_bridge_live == old(self).speaker_bridge_live,
            old(self).logged_one(*final(self)),
            final(self).calls@.last() == ServerCall::SleptMs(ms),
    {
        self.calls.push(ServerCall::SleptMs(ms));
        proof {
            assert(final(self).calls@.subrange(0, old(self).calls@.len() as int) =~= old(
                self,
            ).calls@);
        }
    }

    /// Model of spawning one bridge process.
    pub fn spawn_bridge(&mut self, kind: BridgeKind) -> (ok: bool)
        ensures
            ok == (if kind is Mic {
                old(self).mic_spawn_ok
            } else {
                old(self).speaker_spawn_ok
            }),
            final(self).cards == old(self).cards,
            final(self).autoswitch == old(self).autoswitch,
            final(self).voice_nodes_run == old(self).voice_nodes_run,
            final(self).mic_spawn_ok == old(self).mic_spawn_ok,
            final(self).speaker_spawn_ok == old(self).speaker_spawn_ok,
            final(self).mic_bridge_live == (old(self).mic_bridge_live || (kind is Mic && ok)),
            final(self).speaker_bridge_live == (old(self).speaker_bridge_live || (kind is Speaker
                && ok)),
            old(self).logged_one(*final(self)),
            final(self).calls@.last() == (ServerCall::BridgeSpawnAttempt { kind, ok }),
    {
        let ok = match kind {
            BridgeKind::Mic => self.mic_spawn_ok,
            BridgeKind::Speaker => self.speaker_spawn_ok,
        };
        if ok {
            match kind {
                BridgeKind::Mic => {
                    self.mic_bridge_live = true;
                },
                BridgeKind::Speaker => {
                    self.speaker_bridge_live = true;
                },
            }
        }
        self.calls.push(ServerCall::BridgeSpawnAttempt { kind, ok });
        proof {
            assert(final(self).calls@.subrange(0, old(self).calls@.len() as int) =~= old(
                self,
            ).calls@);
        }
        ok
    }

    /// Model of killing one bridge process (tolerates one already dead).
    pub fn kill_bridge(&mut self, kind: BridgeKind)
        ensures
            final(self).cards == old(self).cards,
            final(self).autoswitch == old(self).autoswitch,
            final(self).voice_nodes_run == old(self).voice_nodes_run,
            final(self).mic_spawn_ok == old(self).mic_spawn_ok,
            final(self).speaker_spawn_ok == old(self).speaker_spawn_ok,
            final(self).mic_bridge_live == (old(self).mic_bridge_live && !(kind is Mic)),
            final(self).speaker_bridge_live == (old(self).speaker_bridge_live && !(kind
                is Speaker)),
            old(self).logged_one(*final(self)),
            final(self).calls@.last() == (ServerCall::BridgeKilled { kind }),
    {
        match kind {
            BridgeKind::Mic => {
                self.mic_bridge_live = false;
            },
            BridgeKind::Speaker => {
                self.speaker_bridge_live = false;
            },
        }
        self.calls.push(ServerCall::BridgeKilled { kind });
        proof {
            assert(final(self).calls@.subrange(0, old(self).calls@.len() as int) =~= old(
                self,
            ).calls@);
        }
    }

    fn source_present(&self, node: &str) -> (r: bool)
        ensures
            r == self.source_node_present(node@),
    {
        let n = self.cards.len();
        let mut i: usize = 0;
        while i < n
            invariant
                0 <= i <= n,
                n == self.cards@.len(),
                forall|j: int|
                    0 <= j < i ==> !(card_voice_active(#[trigger] self.cards@[j]) && node@
                        == voice_source_name(self.cards@[j].name@)),
            decreases n - i,
        {
            let voice = match &self.cards[i].active_profile {
                Some(p) => crate::text::str_starts_with(p.as_str(), "headset-head-unit"),
                None => false,
            };
            if voice {
                let names = crate::bt::derive_node_names(self.cards[i].name.as_str());
                if str_eq(node, names.0.as_str()) {
                    assert(card_voice_active(self.cards@[i as int]) && node@ == voice_source_name(
                        self.cards@[i as int].name@,
                    ));
                    return true;
                }
            }
            i += 1;
        }
        false
    }

    fn sink_present(&self, node: &str) -> (r: bool)
        ensures
            r == self.sink_node_present(node@),
    {
        let n = self.cards.len();
        let mut i: usize = 0;
        while i < n
            invariant
                0 <= i <= n,
                n == self.cards@.len(),
                forall|j: int|
                    0 <= j < i ==> !(card_voice_active(#[trigger] self.cards@[j]) && node@
                        == voice_sink_name(self.cards@[j].name@)),
            decreases n - i,
        {
            let voice = match &self.cards[i].active_profile {
                Some(p) => crate::text::str_starts_with(p.as_str(), "headset-head-unit"),
                None => false,
            };
            if voice {
                let names = crate::bt::derive_node_names(self.cards[i].name.as_str());
                if str_eq(node, names.1.as_str()) {
                    assert(card_voice_active(self.cards@[i as int]) && node@ == voice_sink_name(
                        self.cards@[i as int].name@,
                    ));
                    return true;
                }
            }
            i += 1;
        }
        false
    }
}

} // verus!
