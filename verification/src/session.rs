//! The acquire/release lifecycle of a call-audio session.
//!
//! [`Activation`] and [`Teardown`] are event-driven machines: each asks for
//! one external action at a time ([`BtAction`]) and is fed the observed
//! outcome ([`BtEvent`]).  The caller that performs the actions holds no
//! policy: ordering, fallback, rollback and timing all live here.
//!
//! Activation: suspend the autoswitch policy, switch the card to telephony,
//! wait for the voice nodes (fatal), start the two bridges, wait for them to
//! run (best effort).  Any failure yields the error and a rollback
//! [`Teardown`] that undoes exactly what was acquired.  Release: kill the
//! bridges, settle, restore a music profile (best effort), resume the
//! policy; releasing twice does nothing the second time.

use vstd::prelude::*;
use vstd::string::*;

use crate::bt::{
    derive_node_names, voice_sink_name, voice_source_name, BridgeKind, BtError, HfpCodec,
};
use crate::profiles::{
    attempt_views, music_attempts, telephony_attempts, MusicSwitch, SwitchProgress,
    TelephonySwitch,
};
use crate::text::views_of;
use crate::watch::{NodeWait, WaitOutcome, WaitStep, NODE_WAIT_TIMEOUT_MS, POLL_INTERVAL_MS};

verus! {

/// The settle delay between killing the bridges and restoring the profile,
/// in milliseconds.
pub const SETTLE_DELAY_MS: u64 = 200;

/// A live call-audio session.
///
/// The bridge-process handles are either both present (a local voice channel
/// is held open) or both absent (the endpoint is its own gateway).
#[derive(Debug, PartialEq)]
pub struct HfpSession {
    pub card_name: String,
    pub codec: HfpCodec,
    pub bridges: Option<(u64, u64)>,
    pub released: bool,
}

impl HfpSession {
    /// A gateway session holds no bridges; every other session holds both.
    pub open spec fn wf(&self) -> bool {
        (self.codec is PhoneGateway) <==> (self.bridges is None)
    }

    /// Start releasing the session.  The first call marks it released and
    /// yields the teardown to run; any later call yields nothing, so no
    /// further external calls are made.
    pub fn begin_release(&mut self) -> (r: Option<Teardown>)
        ensures
            final(self).card_name == old(self).card_name,
            final(self).codec == old(self).codec,
            final(self).bridges == old(self).bridges,
            final(self).released,
            old(self).released ==> r is None && *final(self) == *old(self),
            !old(self).released ==> (r matches Some(td) && td.wf() && td.card_name == old(
                self,
            ).card_name && td.switch_music == (old(self).bridges is Some) && td.phase == (if old(
                self,
            ).bridges is Some {
                TdPhase::KillMic { also_speaker: true }
            } else {
                TdPhase::Resume
            })),
    {
        if self.released {
            None
        } else {
            self.released = true;
            let kill = self.bridges.is_some();
            Some(Teardown::new(self.card_name.clone(), kill, kill, kill))
        }
    }
}

/// One request to the outside world.
#[derive(Debug)]
pub enum BtAction {
    /// Set the daemon's automatic profile-reversion policy.
    SetAutoswitch(bool),
    /// Enumerate the advertised profiles of this card.
    QueryProfiles { card_name: String },
    /// Request this profile on the card; report whether the daemon accepted.
    SetProfile { profile: String },
    /// Report whether these voice nodes exist.
    CheckNodesExist { source: String, sink: String },
    /// Report whether these voice nodes are running (not suspended).
    CheckNodesRunning { source: String, sink: String },
    /// Sleep this many milliseconds.
    Sleep { ms: u64 },
    /// Start bridge #1: capture the voice input, play to default output.
    SpawnMicBridge { source: String },
    /// Start bridge #2: capture the default input, play to the voice output.
    SpawnSpeakerBridge { sink: String },
    /// Terminate bridge #1 and wait for it to exit.
    KillMicBridge,
    /// Terminate bridge #2 and wait for it to exit.
    KillSpeakerBridge,
}

/// The observed outcome of one [`BtAction`].
#[derive(Debug)]
pub enum BtEvent {
    AutoswitchSet,
    Profiles { available: Vec<String> },
    ProfileSet { ok: bool },
    NodesChecked { source_ok: bool, sink_ok: bool },
    Slept,
    BridgeSpawned { handle: Option<u64> },
    BridgeKilled,
}

/// Discriminant of a [`TdPhase`], for callers that drive the machine.
#[derive(Debug, Clone, Copy, PartialEq, Eq, Structural)]
pub enum TdTag {
    KillMic,
    KillSpeaker,
    Settle,
    Query,
    Music,
    Resume,
    Finished,
}

/// Phase of a [`Teardown`].
#[derive(Debug)]
pub enum TdPhase {
    KillMic { also_speaker: bool },
    KillSpeaker,
    Settle,
    Query,
    Music(MusicSwitch),
    Resume,
    Finished,
}

/// The teardown machine: kill whatever bridges were started, settle, restore
/// a music profile when one was displaced (best effort: a failure here is
/// tolerated), and resume the autoswitch policy.  It never fails.
#[derive(Debug)]
pub struct Teardown {
    pub card_name: String,
    pub switch_music: bool,
    pub phase: TdPhase,
}

impl Teardown {
    pub open spec fn wf(&self) -> bool {
        match self.phase {
            TdPhase::Music(ms) => ms.wf() && ms.card_name == self.card_name && ms.outcome
                is Pending,
            _ => true,
        }
    }

    /// Plan a teardown.  `kill_speaker` may only be set together with
    /// `kill_mic`: the bridges are started in order, so a partial start is
    /// always a mic-only start.
    pub fn new(card_name: String, kill_mic: bool, kill_speaker: bool, switch_music: bool) -> (r:
        Self)
        requires
            kill_speaker ==> kill_mic,
        ensures
            r.wf(),
            r.card_name == card_name,
            r.switch_music == switch_music,
            r.phase == (if kill_mic {
                TdPhase::KillMic { also_speaker: kill_speaker }
            } else if switch_music {
                TdPhase::Query
            } else {
                TdPhase::Resume
            }),
    {
        let phase = if kill_mic {
            TdPhase::KillMic { also_speaker: kill_speaker }
        } else if switch_music {
            TdPhase::Query
        } else {
            TdPhase::Resume
        };
        Teardown { card_name, switch_music, phase }
    }

    /// The event shape this machine expects next.
    pub open spec fn expects(&self, ev: BtEvent) -> bool {
        match self.phase {
            TdPhase::KillMic { .. } => ev is BridgeKilled,
            TdPhase::KillSpeaker => ev is BridgeKilled,
            TdPhase::Settle => ev is Slept,
            TdPhase::Query => ev is Profiles,
            TdPhase::Music(_) => ev is ProfileSet,
            TdPhase::Resume => ev is AutoswitchSet,
            TdPhase::Finished => false,
        }
    }

    /// Loop variant for callers that drive the machine to completion.
    pub open spec fn measure(&self) -> int {
        match self.phase {
            TdPhase::KillMic { .. } => 40,
            TdPhase::KillSpeaker => 30,
            TdPhase::Settle => 25,
            TdPhase::Query => 20,
            TdPhase::Music(ms) => 10 + ms.attempts@.len() - ms.next,
            TdPhase::Resume => 2,
            TdPhase::Finished => 0,
        }
    }

    pub fn is_finished(&self) -> (r: bool)
        ensures
            r == (self.phase is Finished),
    {
        match self.phase {
            TdPhase::Finished => true,
            _ => false,
        }
    }

    /// The discriminant of the current phase.
    pub open spec fn spec_tag(&self) -> TdTag {
        match self.phase {
            TdPhase::KillMic { .. } => TdTag::KillMic,
            TdPhase::KillSpeaker => TdTag::KillSpeaker,
            TdPhase::Settle => TdTag::Settle,
            TdPhase::Query => TdTag::Query,
            TdPhase::Music(_) => TdTag::Music,
            TdPhase::Resume => TdTag::Resume,
            TdPhase::Finished => TdTag::Finished,
        }
    }

    pub fn tag(&self) -> (t: TdTag)
        ensures
            t == self.spec_tag(),
    {
        match &self.phase {
            TdPhase::KillMic { .. } => TdTag::KillMic,
            TdPhase::KillSpeaker => TdTag::KillSpeaker,
            TdPhase::Settle => TdTag::Settle,
            TdPhase::Query => TdTag::Query,
            TdPhase::Music(_) => TdTag::Music,
            TdPhase::Resume => TdTag::Resume,
            TdPhase::Finished => TdTag::Finished,
        }
    }

    /// The next external action, or nothing once finished.
    pub fn current_action(&self) -> (r: Option<BtAction>)
        requires
            self.wf(),
        ensures
            self.phase is KillMic ==> (r matches Some(a) && a is KillMicBridge),
            self.phase is KillSpeaker ==> (r matches Some(a) && a is KillSpeakerBridge),
            self.phase is Settle ==> (r matches Some(a) && a matches BtAction::Sleep { ms } && ms
                == SETTLE_DELAY_MS),
            self.phase is Query ==> (r matches Some(a) && a matches BtAction::QueryProfiles {
                card_name,
            } && card_name == self.card_name),
            self.phase matches TdPhase::Music(ms) ==> (r matches Some(a) && a
                matches BtAction::SetProfile { profile } && profile@ == views_of(
                ms.attempts@,
            )[ms.next as int]),
            self.phase is Resume ==> (r matches Some(a) && a == BtAction::SetAutoswitch(true)),
            self.phase is Finished ==> r is None,
    {
        match &self.phase {
            TdPhase::KillMic { .. } => Some(BtAction::KillMicBridge),
            TdPhase::KillSpeaker => Some(BtAction::KillSpeakerBridge),
            TdPhase::Settle => Some(BtAction::Sleep { ms: SETTLE_DELAY_MS }),
            TdPhase::Query => Some(
                BtAction::QueryProfiles { card_name: self.card_name.clone() },
            ),
            TdPhase::Music(ms) => Some(BtAction::SetProfile { profile: ms.pending() }),
            TdPhase::Resume => Some(BtAction::SetAutoswitch(true)),
            TdPhase::Finished => None,
        }
    }

    /// Feed the outcome of the pending action.
    pub fn step(&mut self, ev: BtEvent)
        requires
            old(self).wf(),
            old(self).expects(ev),
        ensures
            final(self).wf(),
            final(self).card_name == old(self).card_name,
            final(self).switch_music == old(self).switch_music,
            old(self).phase matches TdPhase::KillMic { also_speaker } ==> final(self).phase == (if
            also_speaker {
                TdPhase::KillSpeaker
            } else {
                TdPhase::Settle
            }),
            old(self).phase is KillSpeaker ==> final(self).phase is Settle,
            old(self).phase is Settle ==> final(self).phase == (if old(self).switch_music {
                TdPhase::Query
            } else {
                TdPhase::Resume
            }),
            old(self).phase is Query ==> (ev matches BtEvent::Profiles { available } && {
                if music_attempts(views_of(available@)).len() == 0 {
                    final(self).phase is Resume
                } else {
                    final(self).phase matches TdPhase::Music(ms) && ms.wf() && ms.card_name == old(
                        self,
                    ).card_name && ms.available == available && ms.next == 0 && ms.outcome
                        is Pending
                }
            }),
            old(self).phase matches TdPhase::Music(ms0) ==> (ev matches BtEvent::ProfileSet { ok }
                && {
                if ok || ms0.next + 1 == ms0.attempts@.len() {
                    final(self).phase is Resume
                } else {
                    final(self).phase matches TdPhase::Music(ms1) && ms1.wf() && ms1.card_name
                        == ms0.card_name && ms1.available == ms0.available && ms1.attempts
                        == ms0.attempts && ms1.next == ms0.next + 1 && ms1.outcome is Pending
                }
            }),
            old(self).phase is Resume ==> final(self).phase is Finished,
            final(self).measure() < old(self).measure(),
    {
        let next: Option<TdPhase> = match &mut self.phase {
            TdPhase::KillMic { also_speaker } => {
                if *also_speaker {
                    Some(TdPhase::KillSpeaker)
                } else {
                    Some(TdPhase::Settle)
                }
            },
            TdPhase::KillSpeaker => Some(TdPhase::Settle),
            TdPhase::Settle => {
                if self.switch_music {
                    Some(TdPhase::Query)
                } else {
                    Some(TdPhase::Resume)
                }
            },
            TdPhase::Query => {
                match ev {
                    BtEvent::Profiles { available } => {
                        let ms = MusicSwitch::new(self.card_name.clone(), available);
                        if ms.done() {
                            Some(TdPhase::Resume)
                        } else {
                            Some(TdPhase::Music(ms))
                        }
                    },
                    _ => {
                        proof {
                            assert(false);
                        }
                        None
                    },
                }
            },
            TdPhase::Music(ms) => {
                match ev {
                    BtEvent::ProfileSet { ok } => {
                        ms.record(ok);
                        if ms.done() {
                            Some(TdPhase::Resume)
                        } else {
                            None
                        }
                    },
                    _ => {
                        proof {
                            assert(false);
                        }
                        None
                    },
                }
            },
            TdPhase::Resume => Some(TdPhase::Finished),
            TdPhase::Finished => {
                proof {
                    assert(false);
                }
                None
            },
        };
        match next {
            Some(p) => {
                self.phase = p;
            },
            None => {},
        }
    }
}

/// Discriminant of an [`ActPhase`], for callers that drive the machine.
#[derive(Debug, Clone, Copy, PartialEq, Eq, Structural)]
pub enum ActTag {
    Suspend,
    Query,
    Switch,
    GatewayResume,
    WaitNodes,
    SpawnMic,
    SpawnSpeaker,
    WaitRunning,
    Finished,
}

/// Phase of an [`Activation`].
#[derive(Debug)]
pub enum ActPhase {
    /// Suspend the autoswitch policy, so the daemon cannot revert the
    /// telephony profile before the bridges attach.
    Suspend,
    /// Enumerate the advertised profiles.
    Query,
    /// Try the telephony profiles in policy order.
    Switch(TelephonySwitch),
    /// Gateway endpoints hold no local voice channel: resume the policy at
    /// once and finish.
    GatewayResume,
    /// Wait for the voice nodes to appear (fatal on timeout).
    WaitNodes { wait: NodeWait, sleeping: bool, codec: HfpCodec },
    /// Start bridge #1.
    SpawnMic { codec: HfpCodec },
    /// Start bridge #2.
    SpawnSpeaker { codec: HfpCodec, mic: u64 },
    /// Wait for both nodes to leave the suspended state (best effort).
    WaitRunning { wait: NodeWait, sleeping: bool, codec: HfpCodec, mic: u64, speaker: u64 },
    /// Done: on failure, the rollback that undoes what was acquired.
    Finished { result: Result<HfpSession, BtError>, rollback: Option<Teardown> },
}

/// The activation machine.
#[derive(Debug)]
pub struct Activation {
    pub card_name: String,
    pub source_name: String,
    pub sink_name: String,
    /// Whether the voice channel was confirmed running before the wait
    /// budget ran out (informational; activation succeeds either way).
    pub sco_confirmed: bool,
    pub phase: ActPhase,
}

impl Activation {
    pub open spec fn wf(&self) -> bool {
        &&& self.source_name@ == voice_source_name(self.card_name@)
        &&& self.sink_name@ == voice_sink_name(self.card_name@)
        &&& match self.phase {
            ActPhase::Switch(sw) => sw.wf() && sw.card_name == self.card_name && sw.outcome
                is Pending,
            ActPhase::WaitNodes { wait, sleeping, codec } => wait.wf() && wait.interval_ms
                == POLL_INTERVAL_MS && wait.timeout_ms == NODE_WAIT_TIMEOUT_MS && wait.verdict
                is None && !(codec is PhoneGateway),
            ActPhase::SpawnMic { codec } => !(codec is PhoneGateway),
            ActPhase::SpawnSpeaker { codec, .. } => !(codec is PhoneGateway),
            ActPhase::WaitRunning { wait, sleeping, codec, .. } => wait.wf() && wait.interval_ms
                == POLL_INTERVAL_MS && wait.timeout_ms == NODE_WAIT_TIMEOUT_MS && wait.verdict
                is None && !(codec is PhoneGateway),
            ActPhase::Finished { result, rollback } => (result is Err <==> rollback is Some) && (
            match rollback {
                Some(td) => td.wf() && td.card_name == self.card_name,
                None => true,
            }) && (result matches Ok(s) ==> s.wf() && !s.released && s.card_name
                == self.card_name),
            _ => true,
        }
    }

    /// Begin an activation of this card.
    pub fn new(card_name: &str) -> (r: Self)
        ensures
            r.wf(),
            r.card_name@ == card_name@,
            r.phase is Suspend,
            !r.sco_confirmed,
    {
        let names = derive_node_names(card_name);
        Activation {
            card_name: String::from_str(card_name),
            source_name: names.0,
            sink_name: names.1,
            sco_confirmed: false,
            phase: ActPhase::Suspend,
        }
    }

    /// The event shape this machine expects next.
    pub open spec fn expects(&self, ev: BtEvent) -> bool {
        match self.phase {
            ActPhase::Suspend => ev is AutoswitchSet,
            ActPhase::Query => ev is Profiles,
            ActPhase::Switch(_) => ev is ProfileSet,
            ActPhase::GatewayResume => ev is AutoswitchSet,
            ActPhase::WaitNodes { sleeping, .. } => if sleeping {
                ev is Slept
            } else {
                ev is NodesChecked
            },
            ActPhase::SpawnMic { .. } => ev is BridgeSpawned,
            ActPhase::SpawnSpeaker { .. } => ev is BridgeSpawned,
            ActPhase::WaitRunning { sleeping, .. } => if sleeping {
                ev is Slept
            } else {
                ev is NodesChecked
            },
            ActPhase::Finished { .. } => false,
        }
    }

    /// Loop variant for callers that drive the machine to completion.
    pub open spec fn measure(&self) -> int {
        match self.phase {
            ActPhase::Suspend => 100000,
            ActPhase::Query => 90000,
            ActPhase::Switch(sw) => 80000 + sw.attempts@.len() - sw.next,
            ActPhase::WaitNodes { wait, sleeping, .. } => 60000 + 2 * (wait.timeout_ms
                + wait.interval_ms - wait.elapsed_ms) + (if sleeping {
                1int
            } else {
                0int
            }),
            ActPhase::SpawnMic { .. } => 50000,
            ActPhase::SpawnSpeaker { .. } => 40000,
            ActPhase::WaitRunning { wait, sleeping, .. } => 20000 + 2 * (wait.timeout_ms
                + wait.interval_ms - wait.elapsed_ms) + (if sleeping {
                1int
            } else {
                0int
            }),
            ActPhase::GatewayResume => 10000,
            ActPhase::Finished { .. } => 0,
        }
    }

    pub fn is_finished(&self) -> (r: bool)
        ensures
            r == (self.phase is Finished),
    {
        match self.phase {
            ActPhase::Finished { .. } => true,
            _ => false,
        }
    }

    /// The discriminant of the current phase.
    pub open spec fn spec_tag(&self) -> ActTag {
        match self.phase {
            ActPhase::Suspend => ActTag::Suspend,
            ActPhase::Query => ActTag::Query,
            ActPhase::Switch(_) => ActTag::Switch,
            ActPhase::GatewayResume => ActTag::GatewayResume,
            ActPhase::WaitNodes { .. } => ActTag::WaitNodes,
            ActPhase::SpawnMic { .. } => ActTag::SpawnMic,
            ActPhase::SpawnSpeaker { .. } => ActTag::SpawnSpeaker,
            ActPhase::WaitRunning { .. } => ActTag::WaitRunning,
            ActPhase::Finished { .. } => ActTag::Finished,
        }
    }

    pub fn tag(&self) -> (t: ActTag)
        ensures
            t == self.spec_tag(),
    {
        match &self.phase {
            ActPhase::Suspend => ActTag::Suspend,
            ActPhase::Query => ActTag::Query,
            ActPhase::Switch(_) => ActTag::Switch,
            ActPhase::GatewayResume => ActTag::GatewayResume,
            ActPhase::WaitNodes { .. } => ActTag::WaitNodes,
            ActPhase::SpawnMic { .. } => ActTag::SpawnMic,
            ActPhase::SpawnSpeaker { .. } => ActTag::SpawnSpeaker,
            ActPhase::WaitRunning { .. } => ActTag::WaitRunning,
            ActPhase::Finished { .. } => ActTag::Finished,
        }
    }

    /// The next external action, or nothing once finished.
    pub fn current_action(&self) -> (r: Option<BtAction>)
        requires
            self.wf(),
        ensures
            self.phase is Suspend ==> (r matches Some(a) && a == BtAction::SetAutoswitch(false)),
            self.phase is Query ==> (r matches Some(a) && a matches BtAction::QueryProfiles {
                card_name,
            } && card_name == self.card_name),
            self.phase matches ActPhase::Switch(sw) ==> (r matches Some(a) && a
                matches BtAction::SetProfile { profile } && profile@ == attempt_views(
                sw.attempts@,
            )[sw.next as int].0),
            self.phase is GatewayResume ==> (r matches Some(a) && a == BtAction::SetAutoswitch(
                true,
            )),
            self.phase matches ActPhase::WaitNodes { sleeping, .. } ==> (r matches Some(a) && (if
            sleeping {
                a matches BtAction::Sleep { ms } && ms == POLL_INTERVAL_MS
            } else {
                a matches BtAction::CheckNodesExist { source, sink } && source == self.source_name
                    && sink == self.sink_name
            })),
            self.phase is SpawnMic ==> (r matches Some(a) && a
                matches BtAction::SpawnMicBridge { source } && source == self.source_name),
            self.phase is SpawnSpeaker ==> (r matches Some(a) && a
                matches BtAction::SpawnSpeakerBridge { sink } && sink == self.sink_name),
            self.phase matches ActPhase::WaitRunning { sleeping, .. } ==> (r matches Some(a) && (if
            sleeping {
                a matches BtAction::Sleep { ms } && ms == POLL_INTERVAL_MS
            } else {
                a matches BtAction::CheckNodesRunning { source, sink } && source
                    == self.source_name && sink == self.sink_name
            })),
            self.phase is Finished ==> r is None,
    {
        match &self.phase {
            ActPhase::Suspend => Some(BtAction::SetAutoswitch(false)),
            ActPhase::Query => Some(
                BtAction::QueryProfiles { card_name: self.card_name.clone() },
            ),
            ActPhase::Switch(sw) => Some(BtAction::SetProfile { profile: sw.pending() }),
            ActPhase::GatewayResume => Some(BtAction::SetAutoswitch(true)),
            ActPhase::WaitNodes { sleeping, .. } => {
                if *sleeping {
                    Some(BtAction::Sleep { ms: POLL_INTERVAL_MS })
                } else {
                    Some(
                        BtAction::CheckNodesExist {
                            source: self.source_name.clone(),
                            sink: self.sink_name.clone(),
                        },
                    )
                }
            },
            ActPhase::SpawnMic { .. } => Some(
                BtAction::SpawnMicBridge { source: self.source_name.clone() },
            ),
            ActPhase::SpawnSpeaker { .. } => Some(
                BtAction::SpawnSpeakerBridge { sink: self.sink_name.clone() },
            ),
            ActPhase::WaitRunning { sleeping, .. } => {
                if *sleeping {
                    Some(BtAction::Sleep { ms: POLL_INTERVAL_MS })
                } else {
                    Some(
                        BtAction::CheckNodesRunning {
                            source: self.source_name.clone(),
                            sink: self.sink_name.clone(),
                        },
                    )
                }
            },
            ActPhase::Finished { .. } => None,
        }
    }

    /// Feed the outcome of the pending action.
    pub fn step(&mut self, ev: BtEvent)
        requires
            old(self).wf(),
            old(self).expects(ev),
        ensures
            final(self).wf(),
            final(self).card_name == old(self).card_name,
            final(self).source_name == old(self).source_name,
            final(self).sink_name == old(self).sink_name,
            final(self).measure() < old(self).measure(),
            // Suspending the policy leads to the profile query.
            old(self).phase is Suspend ==> final(self).phase is Query && final(self).sco_confirmed
                == old(self).sco_confirmed,
            // The query's answer fixes the attempt plan; an empty plan fails
            // at once, with a resume-only rollback.
            old(self).phase is Query ==> (ev matches BtEvent::Profiles { available } && {
                if telephony_attempts(views_of(available@)).len() == 0 {
                    final(self).phase matches ActPhase::Finished { result, rollback }
                        && result matches Err(e) && e matches BtError::NoTelephonyProfile {
                        card_name,
                        available: avail,
                    } && card_name@ == old(self).card_name@ && avail@ == available@ && (rollback
                        matches Some(td) && td.switch_music == false && td.phase is Resume)
                } else {
                    final(self).phase matches ActPhase::Switch(sw) && sw.card_name == old(self).card_name && sw.available == available && sw.next == 0 && sw.outcome
                        is Pending
                }
            }) && final(self).sco_confirmed == old(self).sco_confirmed,
            // Each accepted attempt fixes the codec; gateway endpoints skip
            // the voice channel, everything else goes on to the node wait.
            // A rejected last attempt fails with a resume-only rollback.
            old(self).phase matches ActPhase::Switch(sw0) ==> (ev
                matches BtEvent::ProfileSet { ok } && {
                let plan = attempt_views(sw0.attempts@);
                if ok {
                    if plan[sw0.next as int].1 is PhoneGateway {
                        final(self).phase is GatewayResume
                    } else {
                        final(self).phase matches ActPhase::WaitNodes { wait, sleeping, codec }
                            && !sleeping && wait.elapsed_ms == 0 && codec == plan[sw0.next as int].1
                    }
                } else if sw0.next + 1 == sw0.attempts@.len() {
                    final(self).phase matches ActPhase::Finished { result, rollback } && result
                        matches Err(e) && e matches BtError::NoTelephonyProfile {
                        card_name,
                        available,
                    } && card_name@ == sw0.card_name@ && available@ == sw0.available@ && (rollback
                        matches Some(td) && td.switch_music == false && td.phase is Resume)
                } else {
                    final(self).phase matches ActPhase::Switch(sw1) && sw1.card_name
                        == sw0.card_name && sw1.available == sw0.available && sw1.attempts
                        == sw0.attempts && sw1.next == sw0.next + 1 && sw1.outcome is Pending
                }
            }) && final(self).sco_confirmed == old(self).sco_confirmed,
            // A gateway session finishes as soon as the policy is resumed.
            old(self).phase is GatewayResume ==> (final(self).phase
                matches ActPhase::Finished { result, rollback } && result matches Ok(s) && s.codec
                is PhoneGateway && s.bridges is None && !s.released && s.card_name == old(self).card_name && rollback is None) && final(self).sco_confirmed == old(self).sco_confirmed,
            // The fatal node wait: presence advances to the bridges, running
            // out of budget fails with a rollback that also restores music,
            // otherwise sleep one interval and look again.
            old(self).phase matches ActPhase::WaitNodes { wait: w0, sleeping: sl0, codec: c0 }
                ==> final(self).sco_confirmed == old(self).sco_confirmed && (if sl0 {
                final(self).phase matches ActPhase::WaitNodes { wait, sleeping, codec } && wait
                    == w0 && !sleeping && codec == c0
            } else {
                ev matches BtEvent::NodesChecked { source_ok, sink_ok } && {
                    if source_ok && sink_ok {
                        final(self).phase matches ActPhase::SpawnMic { codec } && codec == c0
                    } else if w0.elapsed_ms >= w0.timeout_ms {
                        final(self).phase matches ActPhase::Finished { result, rollback } && result
                            matches Err(e) && e matches BtError::NodeTimeout { source, sink }
                            && source == old(self).source_name && sink == old(self).sink_name
                            && (rollback matches Some(td) && td.switch_music && td.phase is Query)
                    } else {
                        final(self).phase matches ActPhase::WaitNodes { wait, sleeping, codec }
                            && wait.elapsed_ms == w0.elapsed_ms + w0.interval_ms && sleeping
                            && codec == c0
                    }
                }
            }),
            // Bridge #1: on failure nothing was started, so the rollback
            // only restores music and resumes the policy.
            old(self).phase matches ActPhase::SpawnMic { codec: c0 } ==> (ev
                matches BtEvent::BridgeSpawned { handle } && {
                match handle {
                    Some(h) => final(self).phase matches ActPhase::SpawnSpeaker { codec, mic }
                        && codec == c0 && mic == h,
                    None => final(self).phase matches ActPhase::Finished { result, rollback }
                        && result == Err::<HfpSession, BtError>(
                        BtError::BridgeSpawnFailed { which: BridgeKind::Mic },
                    ) && (rollback matches Some(td) && td.switch_music && td.phase is Query),
                }
            }) && final(self).sco_confirmed == old(self).sco_confirmed,
            // Bridge #2: on failure, bridge #1 is killed by the rollback
            // before anything else happens.
            old(self).phase matches ActPhase::SpawnSpeaker { codec: c0, mic: m0 } ==> (ev
                matches BtEvent::BridgeSpawned { handle } && {
                match handle {
                    Some(h) => final(self).phase matches ActPhase::WaitRunning {
                        wait,
                        sleeping,
                        codec,
                        mic,
                        speaker,
                    } && !sleeping && wait.elapsed_ms == 0 && codec == c0 && mic == m0 && speaker
                        == h,
                    None => final(self).phase matches ActPhase::Finished { result, rollback }
                        && result == Err::<HfpSession, BtError>(
                        BtError::BridgeSpawnFailed { which: BridgeKind::Speaker },
                    ) && (rollback matches Some(td) && td.switch_music && td.phase == (
                    TdPhase::KillMic { also_speaker: false })),
                }
            }) && final(self).sco_confirmed == old(self).sco_confirmed,
            // The best-effort running wait: confirmation or a timeout both
            // yield the session; only the confirmation flag differs.
            old(self).phase matches ActPhase::WaitRunning {
                wait: w0,
                sleeping: sl0,
                codec: c0,
                mic: m0,
                speaker: p0,
            } ==> (if sl0 {
                final(self).phase matches ActPhase::WaitRunning {
                    wait,
                    sleeping,
                    codec,
                    mic,
                    speaker,
                } && wait == w0 && !sleeping && codec == c0 && mic == m0 && speaker == p0 && final(self).sco_confirmed == old(self).sco_confirmed
            } else {
                ev matches BtEvent::NodesChecked { source_ok, sink_ok } && {
                    if source_ok && sink_ok {
                        final(self).phase matches ActPhase::Finished { result, rollback } && result
                            matches Ok(s) && s.card_name == old(self).card_name && s.codec == c0
                            && s.bridges == Some((m0, p0)) && !s.released && rollback is None
                            && final(self).sco_confirmed
                    } else if w0.elapsed_ms >= w0.timeout_ms {
                        final(self).phase matches ActPhase::Finished { result, rollback } && result
                            matches Ok(s) && s.card_name == old(self).card_name && s.codec == c0
                            && s.bridges == Some((m0, p0)) && !s.released && rollback is None
                            && final(self).sco_confirmed == old(self).sco_confirmed
                    } else {
                        final(self).phase matches ActPhase::WaitRunning {
                            wait,
                            sleeping,
                            codec,
                            mic,
                            speaker,
                        } && wait.elapsed_ms == w0.elapsed_ms + w0.interval_ms && sleeping && codec
                            == c0 && mic == m0 && speaker == p0 && final(self).sco_confirmed == old(self).sco_confirmed
                    }
                }
            }),
    {
        let next: Option<ActPhase> = match &mut self.phase {
            ActPhase::Suspend => Some(ActPhase::Query),
            ActPhase::Query => {
                match ev {
                    BtEvent::Profiles { available } => {
                        let sw = TelephonySwitch::new(self.card_name.clone(), available);
                        if sw.done() {
                            let err = sw.failure_error();
                            Some(
                                ActPhase::Finished {
                                    result: Err(err),
                                    rollback: Some(
                                        Teardown::new(self.card_name.clone(), false, false, false),
                                    ),
                                },
                            )
                        } else {
                            Some(ActPhase::Switch(sw))
                        }
                    },
                    _ => {
                        proof {
                            assert(false);
                        }
                        None
                    },
                }
            },
            ActPhase::Switch(sw) => {
                match ev {
                    BtEvent::ProfileSet { ok } => {
                        sw.record(ok);
                        match sw.outcome {
                            SwitchProgress::Achieved(codec) => {
                                match codec {
                                    HfpCodec::PhoneGateway => Some(ActPhase::GatewayResume),
                                    _ => Some(
                                        ActPhase::WaitNodes {
                                            wait: NodeWait::new(NODE_WAIT_TIMEOUT_MS),
                                            sleeping: false,
                                            codec,
                                        },
                                    ),
                                }
                            },
                            SwitchProgress::Failed => {
                                let err = sw.failure_error();
                                Some(
                                    ActPhase::Finished {
                                        result: Err(err),
                                        rollback: Some(
                                            Teardown::new(
                                                self.card_name.clone(),
                                                false,
                                                false,
                                                false,
                                            ),
                                        ),
                                    },
                                )
                            },
                            SwitchProgress::Pending => None,
                        }
                    },
                    _ => {
                        proof {
                            assert(false);
                        }
                        None
                    },
                }
            },
            ActPhase::GatewayResume => Some(
                ActPhase::Finished {
                    result: Ok(
                        HfpSession {
                            card_name: self.card_name.clone(),
                            codec: HfpCodec::PhoneGateway,
                            bridges: None,
                            released: false,
                        },
                    ),
                    rollback: None,
                },
            ),
            ActPhase::WaitNodes { wait, sleeping, codec } => {
                if *sleeping {
                    *sleeping = false;
                    None
                } else {
                    match ev {
                        BtEvent::NodesChecked { source_ok, sink_ok } => {
                            match wait.observe(source_ok && sink_ok) {
                                WaitStep::Done(WaitOutcome::Satisfied { .. }) => Some(
                                    ActPhase::SpawnMic { codec: *codec },
                                ),
                                WaitStep::Done(WaitOutcome::TimedOut { .. }) => Some(
                                    ActPhase::Finished {
                                        result: Err(
                                            BtError::NodeTimeout {
                                                source: self.source_name.clone(),
                                                sink: self.sink_name.clone(),
                                            },
                                        ),
                                        rollback: Some(
                                            Teardown::new(self.card_name.clone(), false, false, true),
                                        ),
                                    },
                                ),
                                WaitStep::SleepRetry(_) => {
                                    *sleeping = true;
                                    None
                                },
                            }
                        },
                        _ => {
                            proof {
                                assert(false);
                            }
                            None
                        },
                    }
                }
            },
            ActPhase::SpawnMic { codec } => {
                match ev {
                    BtEvent::BridgeSpawned { handle } => {
                        match handle {
                            Some(h) => Some(ActPhase::SpawnSpeaker { codec: *codec, mic: h }),
                            None => Some(
                                ActPhase::Finished {
                                    result: Err(
                                        BtError::BridgeSpawnFailed { which: BridgeKind::Mic },
                                    ),
                                    rollback: Some(
                                        Teardown::new(self.card_name.clone(), false, false, true),
                                    ),
                                },
                            ),
                        }
                    },
                    _ => {
                        proof {
                            assert(false);
                        }
                        None
                    },
                }
            },
            ActPhase::SpawnSpeaker { codec, mic } => {
                match ev {
                    BtEvent::BridgeSpawned { handle } => {
                        match handle {
                            Some(h) => Some(
                                ActPhase::WaitRunning {
                                    wait: NodeWait::new(NODE_WAIT_TIMEOUT_MS),
                                    sleeping: false,
                                    codec: *codec,
                                    mic: *mic,
                                    speaker: h,
                                },
                            ),
                            None => Some(
                                ActPhase::Finished {
                                    result: Err(
                                        BtError::BridgeSpawnFailed { which: BridgeKind::Speaker },
                                    ),
                                    rollback: Some(
                                        Teardown::new(self.card_name.clone(), true, false, true),
                                    ),
                                },
                            ),
                        }
                    },
                    _ => {
                        proof {
                            assert(false);
                        }
                        None
                    },
                }
            },
            ActPhase::WaitRunning { wait, sleeping, codec, mic, speaker } => {
                if *sleeping {
                    *sleeping = false;
                    None
                } else {
                    match ev {
                        BtEvent::NodesChecked { source_ok, sink_ok } => {
                            match wait.observe(source_ok && sink_ok) {
                                WaitStep::Done(WaitOutcome::Satisfied { .. }) => {
                                    self.sco_confirmed = true;
                                    Some(
                                        ActPhase::Finished {
                                            result: Ok(
                                                HfpSession {
                                                    card_name: self.card_name.clone(),
                                                    codec: *codec,
                                                    bridges: Some((*mic, *speaker)),
                                                    released: false,
                                                },
                                            ),
                                            rollback: None,
                                        },
                                    )
                                },
                                WaitStep::Done(WaitOutcome::TimedOut { .. }) => Some(
                                    ActPhase::Finished {
                                        result: Ok(
                                            HfpSession {
                                                card_name: self.card_name.clone(),
                                                codec: *codec,
                                                bridges: Some((*mic, *speaker)),
                                                released: false,
                                            },
                                        ),
                                        rollback: None,
                                    },
                                ),
                                WaitStep::SleepRetry(_) => {
                                    *sleeping = true;
                                    None
                                },
                            }
                        },
                        _ => {
                            proof {
                                assert(false);
                            }
                            None
                        },
                    }
                }
            },
            ActPhase::Finished { .. } => {
                proof {
                    assert(false);
                }
                None
            },
        };
        match next {
            Some(p) => {
                self.phase = p;
            },
            None => {},
        }
    }

    /// Take the verdict and, on failure, the rollback to run.
    pub fn finish(self) -> (r: (Result<HfpSession, BtError>, Option<Teardown>))
        requires
            self.wf(),
            self.phase is Finished,
        ensures
            self.phase matches ActPhase::Finished { result, rollback } ==> r.0 == result && r.1
                == rollback,
            r.0 matches Ok(s) ==> (s.wf() && !s.released && s.card_name == self.card_name && r.1
                is None),
            r.0 is Err ==> (r.1 matches Some(td) && td.wf() && td.card_name == self.card_name),
    {
        match self.phase {
            ActPhase::Finished { result, rollback } => (result, rollback),
            _ => {
                proof {
                    assert(false);
                }
                (Err(BtError::PlatformUnsupported), None)
            },
        }
    }
}

} // verus!
