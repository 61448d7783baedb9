//! The lifecycle run against the model daemon.
//!
//! These functions drive the machines of the session module against
//! [`AudioServer`], performing each requested action on the model and
//! feeding the outcome back.  Their contracts state the end-to-end
//! behaviour: which codec a switch achieves and what it leaves the daemon
//! on, what activation acquires on each failure path, and what release
//! restores.  The process that talks to the real daemon runs the same
//! machines the same way.

use vstd::prelude::*;
use vstd::string::*;

use crate::bt::{voice_sink_name, voice_source_name, BridgeKind, BtError, HfpCodec};
use crate::profiles::{
    attempt_views, first_music_success, first_telephony_success, has_gateway_profile,
    lemma_attempt_codecs, lemma_music_hit, lemma_music_miss, lemma_telephony_hit,
    lemma_telephony_miss,
    lemma_voice_profile_is_headset, music_attempts, music_restore_target, narrowband_profile,
    telephony_attempts, wideband_profile, MusicProgress, MusicSwitch, SwitchProgress,
    TelephonySwitch,
};
use crate::server::AudioServer;
use crate::session::{
    ActPhase, ActTag, Activation, BtAction, BtEvent, HfpSession, Teardown, TdPhase, TdTag,
    SETTLE_DELAY_MS,
};
use crate::text::{starts_with_seq, views_of};

verus! {

/// Switch the card to the best available telephony profile.
///
/// Wideband voice is tried first, then the narrowband fallback, then the
/// remote-gateway profile; the first accepted profile fixes the codec.  When
/// none is accepted the daemon is left untouched and the error carries the
/// advertised profiles.
pub fn switch_to_hfp(server: &mut AudioServer, card_name: &str) -> (r: Result<HfpCodec, BtError>)
    ensures
        ({
            let ps = old(server).profiles_of(card_name@);
            &&& (match first_telephony_success(ps) {
                Some(pc) => r == Ok::<HfpCodec, BtError>(pc.1) && final(server).active_of(
                    card_name@,
                ) == Some(pc.0),
                None => (r matches Err(e) && e matches BtError::NoTelephonyProfile {
                    card_name: cn,
                    available,
                } && cn@ == card_name@ && views_of(available@) == ps) && final(server).active_of(
                    card_name@,
                ) == old(server).active_of(card_name@),
            })
            &&& (ps.contains(wideband_profile(ps)) ==> r == Ok::<HfpCodec, BtError>(HfpCodec::MSbc)
                && final(server).active_of(card_name@) == Some(wideband_profile(ps)))
            &&& (!ps.contains(wideband_profile(ps)) && ps.contains(narrowband_profile(ps)) ==> r
                == Ok::<HfpCodec, BtError>(HfpCodec::Cvsd) && final(server).active_of(card_name@)
                == Some(narrowband_profile(ps)))
            &&& (!ps.contains(wideband_profile(ps)) && !ps.contains(narrowband_profile(ps))
                && has_gateway_profile(ps) ==> r == Ok::<HfpCodec, BtError>(HfpCodec::PhoneGateway)
                && final(server).active_of(card_name@) == Some("audio-gateway"@))
            &&& (!ps.contains(wideband_profile(ps)) && !ps.contains(narrowband_profile(ps))
                && !has_gateway_profile(ps) ==> r is Err)
        }),
        forall|n: Seq<char>| #[trigger]
            final(server).profiles_of(n) == old(server).profiles_of(n),
        forall|n: Seq<char>|
            n != card_name@ ==> #[trigger] final(server).active_of(n) == old(server).active_of(n),
        final(server).autoswitch == old(server).autoswitch,
        final(server).voice_nodes_run == old(server).voice_nodes_run,
        final(server).mic_spawn_ok == old(server).mic_spawn_ok,
        final(server).speaker_spawn_ok == old(server).speaker_spawn_ok,
        final(server).mic_bridge_live == old(server).mic_bridge_live,
        final(server).speaker_bridge_live == old(server).speaker_bridge_live,
{
    let ghost s0 = *server;
    let ghost card = card_name@;
    let ghost ps = s0.profiles_of(card);
    let profiles = server.query_profiles(card_name);
    let mut sw = TelephonySwitch::new(String::from_str(card_name), profiles);
    proof {
        assert(views_of(sw.available@) == ps);
    }
    while !sw.done()
        invariant
            sw.wf(),
            sw.card_name@ == card,
            card == card_name@,
            views_of(sw.available@) == ps,
            ps == s0.profiles_of(card),
            !(sw.outcome is Achieved) ==> server.cards == s0.cards,
            sw.outcome is Pending ==> forall|j: int|
                0 <= j < sw.next ==> !ps.contains(#[trigger] attempt_views(sw.attempts@)[j].0),
            sw.outcome is Failed ==> forall|j: int|
                0 <= j < sw.attempts@.len() ==> !ps.contains(
                    #[trigger] attempt_views(sw.attempts@)[j].0,
                ),
            sw.outcome matches SwitchProgress::Achieved(c) ==> ({
                let plan = attempt_views(sw.attempts@);
                let k = sw.next as int;
                &&& 0 <= k < plan.len()
                &&& ps.contains(plan[k].0)
                &&& (forall|j: int| 0 <= j < k ==> !ps.contains(#[trigger] plan[j].0))
                &&& c == plan[k].1
                &&& server.active_of(card) == Some(plan[k].0)
            }),
            forall|n: Seq<char>| #[trigger] server.profiles_of(n) == s0.profiles_of(n),
            forall|n: Seq<char>|
                n != card ==> #[trigger] server.active_of(n) == s0.active_of(n),
            server.autoswitch == s0.autoswitch,
            server.voice_nodes_run == s0.voice_nodes_run,
            server.mic_spawn_ok == s0.mic_spawn_ok,
            server.speaker_spawn_ok == s0.speaker_spawn_ok,
            server.mic_bridge_live == s0.mic_bridge_live,
            server.speaker_bridge_live == s0.speaker_bridge_live,
        decreases sw.attempts@.len() - sw.next + (if sw.outcome is Pending {
            1int
        } else {
            0int
        }),
    {
        let ghost plan = attempt_views(sw.attempts@);
        let ghost k = sw.next as int;
        let ghost pre = *server;
        let p = sw.pending();
        proof {
            assert(p@ == plan[k].0);
            assert(pre.profiles_of(card) == ps);
        }
        let ok = server.set_profile(card_name, p.as_str());
        proof {
            assert(ok == pre.profiles_of(card_name@).contains(p@));
            assert(ok == ps.contains(plan[k].0));
        }
        sw.record(ok);
        proof {
            assert(attempt_views(sw.attempts@) == plan);
            if !ok {
                assert forall|j: int| 0 <= j < sw.next implies !ps.contains(
                    #[trigger] attempt_views(sw.attempts@)[j].0,
                ) by {
                    if j == k {
                        assert(!ps.contains(plan[k].0));
                    }
                }
            }
        }
    }
    proof {
        assert(attempt_views(sw.attempts@) == telephony_attempts(ps));
        lemma_voice_profile_is_headset(ps);
    }
    match sw.outcome {
        SwitchProgress::Achieved(c) => {
            proof {
                lemma_telephony_hit(ps, sw.next as int);
            }
            Ok(c)
        },
        _ => {
            proof {
                lemma_telephony_miss(ps);
            }
            Err(sw.failure_error())
        },
    }
}

/// Switch the card back to the best advertised stereo-music profile.
///
/// The candidates are tried best first; when enumeration yields nothing
/// every candidate is still attempted (permissive fallback).  When no
/// candidate is accepted the daemon is left untouched and the error carries
/// the advertised profiles.
pub fn switch_to_a2dp(server: &mut AudioServer, card_name: &str) -> (r: Result<(), BtError>)
    ensures
        ({
            let ps = old(server).profiles_of(card_name@);
            match first_music_success(ps) {
                Some(m) => r is Ok && final(server).active_of(card_name@) == Some(m),
                None => (r matches Err(e) && e matches BtError::NoMusicProfile {
                    card_name: cn,
                    available,
                } && cn@ == card_name@ && views_of(available@) == ps) && final(server).active_of(
                    card_name@,
                ) == old(server).active_of(card_name@),
            }
        }),
        forall|n: Seq<char>| #[trigger]
            final(server).profiles_of(n) == old(server).profiles_of(n),
        forall|n: Seq<char>|
            n != card_name@ ==> #[trigger] final(server).active_of(n) == old(server).active_of(n),
        final(server).autoswitch == old(server).autoswitch,
        final(server).voice_nodes_run == old(server).voice_nodes_run,
        final(server).mic_spawn_ok == old(server).mic_spawn_ok,
        final(server).speaker_spawn_ok == old(server).speaker_spawn_ok,
        final(server).mic_bridge_live == old(server).mic_bridge_live,
        final(server).speaker_bridge_live == old(server).speaker_bridge_live,
{
    let ghost s0 = *server;
    let ghost card = card_name@;
    let ghost ps = s0.profiles_of(card);
    let profiles = server.query_profiles(card_name);
    let mut ms = MusicSwitch::new(String::from_str(card_name), profiles);
    proof {
        assert(views_of(ms.available@) == ps);
    }
    while !ms.done()
        invariant
            ms.wf(),
            ms.card_name@ == card,
            card == card_name@,
            views_of(ms.available@) == ps,
            ps == s0.profiles_of(card),
            !(ms.outcome is Restored) ==> server.cards == s0.cards,
            ms.outcome is Pending ==> forall|j: int|
                0 <= j < ms.next ==> !ps.contains(#[trigger] views_of(ms.attempts@)[j]),
            ms.outcome is Failed ==> forall|j: int|
                0 <= j < ms.attempts@.len() ==> !ps.contains(#[trigger] views_of(ms.attempts@)[j]),
            ms.outcome is Restored ==> ({
                let plan = views_of(ms.attempts@);
                let k = ms.next as int;
                &&& 0 <= k < plan.len()
                &&& ps.contains(plan[k])
                &&& (forall|j: int| 0 <= j < k ==> !ps.contains(#[trigger] plan[j]))
                &&& server.active_of(card) == Some(plan[k])
            }),
            forall|n: Seq<char>| #[trigger] server.profiles_of(n) == s0.profiles_of(n),
            forall|n: Seq<char>|
                n != card ==> #[trigger] server.active_of(n) == s0.active_of(n),
            server.autoswitch == s0.autoswitch,
            server.voice_nodes_run == s0.voice_nodes_run,
            server.mic_spawn_ok == s0.mic_spawn_ok,
            server.speaker_spawn_ok == s0.speaker_spawn_ok,
            server.mic_bridge_live == s0.mic_bridge_live,
            server.speaker_bridge_live == s0.speaker_bridge_live,
        decreases ms.attempts@.len() - ms.next + (if ms.outcome is Pending {
            1int
        } else {
            0int
        }),
    {
        let ghost plan = views_of(ms.attempts@);
        let ghost k = ms.next as int;
        let p = ms.pending();
        let ok = server.set_profile(card_name, p.as_str());
        proof {
            assert(ok == ps.contains(plan[k]));
        }
        ms.record(ok);
        proof {
            assert(views_of(ms.attempts@) == plan);
            if !ok {
                assert forall|j: int| 0 <= j < ms.next implies !ps.contains(
                    #[trigger] views_of(ms.attempts@)[j],
                ) by {
                    if j == k {
                        assert(!ps.contains(plan[k]));
                    }
                }
            }
        }
    }
    proof {
        assert(views_of(ms.attempts@) == music_attempts(ps));
    }
    match ms.outcome {
        MusicProgress::Restored => {
            proof {
                lemma_music_hit(ps, ms.next as int);
            }
            Ok(())
        },
        _ => {
            proof {
                lemma_music_miss(ps);
            }
            Err(ms.failure_error())
        },
    }
}

/// Run a teardown to completion against the model daemon.
///
/// Whatever bridges the plan names are killed, a music profile is restored
/// when the plan asks for one and the daemon advertises one, and the
/// autoswitch policy is always resumed.  A failed restore is tolerated: the
/// teardown still completes.
pub fn run_teardown(server: &mut AudioServer, td: Teardown)
    requires
        td.wf(),
        td.phase is KillMic || td.phase is Query || td.phase is Resume,
        !(td.phase is Resume) ==> td.switch_music,
        td.phase is Resume ==> !td.switch_music,
    ensures
        final(server).autoswitch == true,
        final(server).mic_bridge_live == (old(server).mic_bridge_live && !(td.phase is KillMic)),
        final(server).speaker_bridge_live == (old(server).speaker_bridge_live && !(td.phase
            matches TdPhase::KillMic { also_speaker: true })),
        forall|n: Seq<char>| #[trigger]
            final(server).profiles_of(n) == old(server).profiles_of(n),
        forall|n: Seq<char>|
            n != td.card_name@ ==> #[trigger] final(server).active_of(n) == old(server).active_of(
                n,
            ),
        final(server).active_of(td.card_name@) == (if td.switch_music {
            music_restore_target(
                old(server).profiles_of(td.card_name@),
                old(server).active_of(td.card_name@),
            )
        } else {
            old(server).active_of(td.card_name@)
        }),
        final(server).voice_nodes_run == old(server).voice_nodes_run,
        final(server).mic_spawn_ok == old(server).mic_spawn_ok,
        final(server).speaker_spawn_ok == old(server).speaker_spawn_ok,
{
    let ghost s0 = *server;
    let ghost card = td.card_name@;
    let ghost ps = s0.profiles_of(card);
    let mut td = td;
    let switch_music = td.switch_music;
    let card_str = td.card_name.clone();
    let kill_mic = match &td.phase {
        TdPhase::KillMic { .. } => true,
        _ => false,
    };
    let kill_spk = match &td.phase {
        TdPhase::KillMic { also_speaker } => *also_speaker,
        _ => false,
    };
    if kill_mic {
        server.kill_bridge(BridgeKind::Mic);
        td.step(BtEvent::BridgeKilled);
        if kill_spk {
            server.kill_bridge(BridgeKind::Speaker);
            td.step(BtEvent::BridgeKilled);
        }
        server.sleep_ms(SETTLE_DELAY_MS);
        td.step(BtEvent::Slept);
    }
    if switch_music {
        let available = server.query_profiles(card_str.as_str());
        td.step(BtEvent::Profiles { available });
        proof {
            if td.spec_tag() == TdTag::Resume {
                assert(music_attempts(ps).len() == 0);
                assert(forall|j: int|
                    0 <= j < music_attempts(ps).len() ==> !ps.contains(
                        #[trigger] music_attempts(ps)[j],
                    ));
                lemma_music_miss(ps);
            }
        }
        while td.tag() == TdTag::Music
            invariant
                td.wf(),
                td.card_name@ == card,
                card_str@ == card,
                ps == s0.profiles_of(card),
                td.spec_tag() == TdTag::Music || td.spec_tag() == TdTag::Resume,
                td.spec_tag() == TdTag::Music ==> (td.phase matches TdPhase::Music(ms)
                    && views_of(ms.available@) == ps && (forall|j: int|
                    0 <= j < ms.next ==> !ps.contains(#[trigger] views_of(ms.attempts@)[j]))
                    && server.active_of(card) == s0.active_of(card) && server.cards == s0.cards),
                td.spec_tag() == TdTag::Resume ==> server.active_of(card) == music_restore_target(
                    ps,
                    s0.active_of(card),
                ),
                forall|n: Seq<char>| #[trigger] server.profiles_of(n) == s0.profiles_of(n),
                forall|n: Seq<char>|
                    n != card ==> #[trigger] server.active_of(n) == s0.active_of(n),
                server.autoswitch == s0.autoswitch,
                server.mic_bridge_live == (s0.mic_bridge_live && !kill_mic),
                server.speaker_bridge_live == (s0.speaker_bridge_live && !kill_spk),
                server.voice_nodes_run == s0.voice_nodes_run,
                server.mic_spawn_ok == s0.mic_spawn_ok,
                server.speaker_spawn_ok == s0.speaker_spawn_ok,
            decreases td.measure(),
        {
            let ghost plan = match &td.phase {
                TdPhase::Music(ms) => views_of(ms.attempts@),
                _ => Seq::<Seq<char>>::empty(),
            };
            let ghost k = match &td.phase {
                TdPhase::Music(ms) => ms.next as int,
                _ => 0int,
            };
            let a = td.current_action();
            match a {
                Some(BtAction::SetProfile { profile }) => {
                    let ghost pre = *server;
                    proof {
                        assert(profile@ == plan[k]);
                        assert(plan == music_attempts(ps));
                        assert(pre.profiles_of(card) == ps);
                    }
                    let ok = server.set_profile(card_str.as_str(), profile.as_str());
                    proof {
                        assert(ok == ps.contains(plan[k]));
                    }
                    td.step(BtEvent::ProfileSet { ok });
                    proof {
                        if ok {
                            lemma_music_hit(ps, k);
                        } else if td.spec_tag() == TdTag::Resume {
                            assert(forall|j: int|
                                0 <= j < music_attempts(ps).len() ==> !ps.contains(
                                    #[trigger] music_attempts(ps)[j],
                                ));
                            lemma_music_miss(ps);
                        } else {
                            assert(td.phase matches TdPhase::Music(ms1) && (forall|j: int|
                                0 <= j < ms1.next ==> !ps.contains(
                                    #[trigger] views_of(ms1.attempts@)[j],
                                )));
                        }
                    }
                },
                _ => {
                    proof {
                        assert(false);
                    }
                },
            }
        }
    }
    let ghost s_mid = *server;
    server.set_autoswitch(true);
    td.step(BtEvent::AutoswitchSet);
    proof {
        assert(server.cards == s_mid.cards);
        assert forall|n: Seq<char>| #[trigger]
        server.profiles_of(n) == s0.profiles_of(n) by {
            if !switch_music {
                assert(s_mid.cards == s0.cards);
            } else {
                assert(s_mid.profiles_of(n) == s0.profiles_of(n));
            }
            assert(server.profiles_of(n) == s_mid.profiles_of(n));
        }
        assert forall|n: Seq<char>| n != card implies #[trigger] server.active_of(n)
            == s0.active_of(n) by {
            if !switch_music {
                assert(s_mid.cards == s0.cards);
            } else {
                assert(s_mid.active_of(n) == s0.active_of(n));
            }
            assert(server.active_of(n) == s_mid.active_of(n));
        }
        assert(server.active_of(card) == s_mid.active_of(card));
    }
}

/// Activate call audio on the card: suspend the autoswitch policy, switch to
/// telephony, wait for the voice nodes, start both bridges, and confirm they
/// run (best effort).  Every failure path rolls back exactly what was
/// acquired before the error is returned; in particular, when the second
/// bridge fails to spawn the first is killed again, and the advertised
/// profiles are left untouched.
pub fn activate_hfp(server: &mut AudioServer, card_name: &str) -> (r: Result<HfpSession, BtError>)
    ensures
        ({
            let ps = old(server).profiles_of(card_name@);
            let fs = first_telephony_success(ps);
            let pc = fs.unwrap();
            &&& (fs is None ==> (r matches Err(e) && e matches BtError::NoTelephonyProfile {
                card_name: cn,
                available,
            } && cn@ == card_name@ && views_of(available@) == ps) && final(server).autoswitch
                == true && final(server).active_of(card_name@) == old(server).active_of(card_name@)
                && final(server).mic_bridge_live == old(server).mic_bridge_live && final(server).speaker_bridge_live == old(server).speaker_bridge_live)
            &&& (fs is Some && pc.1 is PhoneGateway ==> (r matches Ok(s) && s.wf()
                && s.codec is PhoneGateway && s.bridges is None && !s.released && s.card_name@
                == card_name@) && final(server).active_of(card_name@) == Some("audio-gateway"@)
                && final(server).autoswitch == true && final(server).mic_bridge_live == old(server).mic_bridge_live && final(server).speaker_bridge_live == old(server).speaker_bridge_live)
            &&& (fs is Some && !(pc.1 is PhoneGateway) && old(server).mic_spawn_ok && old(server).speaker_spawn_ok ==> (r matches Ok(s) && s.wf() && s.codec == pc.1 && s.bridges
                is Some && !s.released && s.card_name@ == card_name@) && final(server).active_of(
                card_name@,
            ) == Some(pc.0) && final(server).autoswitch == false && final(server).mic_bridge_live
                && final(server).speaker_bridge_live)
            &&& (fs is Some && !(pc.1 is PhoneGateway) && !old(server).mic_spawn_ok ==> r
                == Err::<HfpSession, BtError>(BtError::BridgeSpawnFailed { which: BridgeKind::Mic })
                && final(server).autoswitch == true && final(server).mic_bridge_live == old(server).mic_bridge_live && final(server).speaker_bridge_live == old(server).speaker_bridge_live && final(server).active_of(card_name@) == music_restore_target(
                ps,
                Some(pc.0),
            ))
            &&& (fs is Some && !(pc.1 is PhoneGateway) && old(server).mic_spawn_ok && !old(server).speaker_spawn_ok ==> r == Err::<HfpSession, BtError>(
                BtError::BridgeSpawnFailed { which: BridgeKind::Speaker },
            ) && final(server).autoswitch == true && final(server).mic_bridge_live == false
                && final(server).speaker_bridge_live == old(server).speaker_bridge_live && final(server).active_of(card_name@) == music_restore_target(ps, Some(pc.0)))
        }),
        forall|n: Seq<char>| #[trigger]
            final(server).profiles_of(n) == old(server).profiles_of(n),
        forall|n: Seq<char>|
            n != card_name@ ==> #[trigger] final(server).active_of(n) == old(server).active_of(n),
        final(server).voice_nodes_run == old(server).voice_nodes_run,
        final(server).mic_spawn_ok == old(server).mic_spawn_ok,
        final(server).speaker_spawn_ok == old(server).speaker_spawn_ok,
        r matches Ok(s) ==> (s.wf() && !s.released),
{
    let ghost s0 = *server;
    let ghost card = card_name@;
    let ghost ps = s0.profiles_of(card);
    let ghost fs = first_telephony_success(ps);
    let mut m = Activation::new(card_name);
    server.set_autoswitch(false);
    m.step(BtEvent::AutoswitchSet);
    let available = server.query_profiles(card_name);
    m.step(BtEvent::Profiles { available });
    proof {
        lemma_voice_profile_is_headset(ps);
        lemma_attempt_codecs(ps);
        if m.spec_tag() == ActTag::Finished {
            lemma_telephony_miss(ps);
        }
    }
    while m.tag() == ActTag::Switch
        invariant
            m.wf(),
            m.card_name@ == card,
            card == card_name@,
            ps == s0.profiles_of(card),
            fs == first_telephony_success(ps),
            m.spec_tag() == ActTag::Switch || m.spec_tag() == ActTag::GatewayResume
                || m.spec_tag() == ActTag::WaitNodes || m.spec_tag() == ActTag::Finished,
            m.spec_tag() == ActTag::Switch ==> (m.phase matches ActPhase::Switch(sw) && views_of(
                sw.available@,
            ) == ps && (forall|j: int|
                0 <= j < sw.next ==> !ps.contains(#[trigger] attempt_views(sw.attempts@)[j].0))
                && server.cards == s0.cards),
            m.spec_tag() == ActTag::GatewayResume ==> fs == Some(
                ("audio-gateway"@, HfpCodec::PhoneGateway),
            ) && server.active_of(card) == Some("audio-gateway"@),
            m.spec_tag() == ActTag::WaitNodes ==> (m.phase matches ActPhase::WaitNodes {
                wait,
                sleeping,
                codec,
            } && !sleeping && wait.verdict is None && (fs matches Some(pc) && codec == pc.1 && !(
            pc.1 is PhoneGateway) && server.active_of(card) == Some(pc.0) && starts_with_seq(
                pc.0,
                "headset-head-unit"@,
            ))),
            m.spec_tag() == ActTag::Finished ==> (m.phase matches ActPhase::Finished {
                result,
                rollback,
            } && fs is None && (result matches Err(e) && e matches BtError::NoTelephonyProfile {
                card_name: cn,
                available: av,
            } && cn@ == card && views_of(av@) == ps) && (rollback matches Some(td) && td.wf()
                && td.card_name@ == card && !td.switch_music && td.phase is Resume)
                && server.cards == s0.cards),
            forall|n: Seq<char>| #[trigger] server.profiles_of(n) == s0.profiles_of(n),
            forall|n: Seq<char>|
                n != card ==> #[trigger] server.active_of(n) == s0.active_of(n),
            server.autoswitch == false,
            server.voice_nodes_run == s0.voice_nodes_run,
            server.mic_spawn_ok == s0.mic_spawn_ok,
            server.speaker_spawn_ok == s0.speaker_spawn_ok,
            server.mic_bridge_live == s0.mic_bridge_live,
            server.speaker_bridge_live == s0.speaker_bridge_live,
        decreases m.measure(),
    {
        let ghost plan = match &m.phase {
            ActPhase::Switch(sw) => attempt_views(sw.attempts@),
            _ => Seq::<(Seq<char>, HfpCodec)>::empty(),
        };
        let ghost k = match &m.phase {
            ActPhase::Switch(sw) => sw.next as int,
            _ => 0int,
        };
        let a = m.current_action();
        match a {
            Some(BtAction::SetProfile { profile }) => {
                let ghost pre = *server;
                proof {
                    assert(profile@ == plan[k].0);
                    assert(plan == telephony_attempts(ps));
                    assert(pre.profiles_of(card) == ps);
                }
                let ok = server.set_profile(card_name, profile.as_str());
                proof {
                    assert(ok == ps.contains(plan[k].0));
                }
                m.step(BtEvent::ProfileSet { ok });
                proof {
                    lemma_attempt_codecs(ps);
                    if ok {
                        lemma_telephony_hit(ps, k);
                    } else if m.spec_tag() == ActTag::Finished {
                        lemma_telephony_miss(ps);
                    } else {
                        assert(m.phase matches ActPhase::Switch(sw1) && (forall|j: int|
                            0 <= j < sw1.next ==> !ps.contains(
                                #[trigger] attempt_views(sw1.attempts@)[j].0,
                            )));
                    }
                }
            },
            _ => {
                proof {
                    assert(false);
                }
            },
        }
    }
    let ghost s1 = *server;
    if m.tag() == ActTag::Finished {
        let ghost s_pre = *server;
        let (r, rollback) = m.finish();
        match rollback {
            Some(td) => {
                run_teardown(server, td);
            },
            None => {
                proof {
                    assert(false);
                }
            },
        }
        proof {
            assert(s_pre.cards == s1.cards);
            assert forall|n: Seq<char>| #[trigger]
            server.profiles_of(n) == s0.profiles_of(n) by {
                assert(server.profiles_of(n) == s_pre.profiles_of(n));
                assert(s_pre.profiles_of(n) == s1.profiles_of(n));
                assert(s1.profiles_of(n) == s0.profiles_of(n));
            }
            assert forall|n: Seq<char>| n != card implies #[trigger] server.active_of(n)
                == s0.active_of(n) by {
                assert(server.active_of(n) == s_pre.active_of(n));
                assert(s_pre.active_of(n) == s1.active_of(n));
                assert(s1.active_of(n) == s0.active_of(n));
            }
            assert(s_pre.profiles_of(card) == s1.profiles_of(card));
            assert(s1.profiles_of(card) == ps);
            assert(s_pre.active_of(card) == s1.active_of(card));
        }
        return r;
    }
    if m.tag() == ActTag::GatewayResume {
        let ghost s_mid = *server;
        server.set_autoswitch(true);
        m.step(BtEvent::AutoswitchSet);
        proof {
            assert(server.cards == s_mid.cards);
            assert(server.active_of(card) == s_mid.active_of(card));
            assert forall|n: Seq<char>| #[trigger]
            server.profiles_of(n) == s0.profiles_of(n) by {
                assert(s_mid.profiles_of(n) == s0.profiles_of(n));
                assert(server.profiles_of(n) == s_mid.profiles_of(n));
            }
            assert forall|n: Seq<char>| n != card implies #[trigger] server.active_of(n)
                == s0.active_of(n) by {
                assert(s_mid.active_of(n) == s0.active_of(n));
                assert(server.active_of(n) == s_mid.active_of(n));
            }
        }
        let (r, _rollback) = m.finish();
        return r;
    }
    // The voice nodes of the freshly switched card are present at once in
    // the model, so the fatal wait is satisfied on its first sample.
    let a = m.current_action();
    match a {
        Some(BtAction::CheckNodesExist { source, sink }) => {
            let ghost pre = *server;
            let rr = server.check_nodes_exist(source.as_str(), sink.as_str());
            proof {
                let i = pre.card_idx(card);
                crate::server::lemma_find_card(pre.cards@, card);
                assert(pre.active_of(card) matches Some(p) && starts_with_seq(
                    p,
                    "headset-head-unit"@,
                ));
                assert(pre.has_card(card));
                assert(crate::server::card_voice_active(pre.cards@[i]));
                assert(pre.cards@[i].name@ == card);
                assert(source@ == voice_source_name(pre.cards@[i].name@));
                assert(pre.source_node_present(source@));
                assert(sink@ == voice_sink_name(pre.cards@[i].name@));
                assert(pre.sink_node_present(sink@));
                assert(rr.0 && rr.1);
            }
            m.step(BtEvent::NodesChecked { source_ok: rr.0, sink_ok: rr.1 });
        },
        _ => {
            proof {
                assert(false);
            }
        },
    }
    // Bridge #1.
    let ok1 = server.spawn_bridge(BridgeKind::Mic);
    m.step(BtEvent::BridgeSpawned { handle: if ok1 { Some(1) } else { None } });
    if m.tag() == ActTag::Finished {
        let ghost s_pre = *server;
        let (r, rollback) = m.finish();
        match rollback {
            Some(td) => {
                run_teardown(server, td);
            },
            None => {
                proof {
                    assert(false);
                }
            },
        }
        proof {
            assert(s_pre.cards == s1.cards);
            assert forall|n: Seq<char>| #[trigger]
            server.profiles_of(n) == s0.profiles_of(n) by {
                assert(server.profiles_of(n) == s_pre.profiles_of(n));
                assert(s_pre.profiles_of(n) == s1.profiles_of(n));
                assert(s1.profiles_of(n) == s0.profiles_of(n));
            }
            assert forall|n: Seq<char>| n != card implies #[trigger] server.active_of(n)
                == s0.active_of(n) by {
                assert(server.active_of(n) == s_pre.active_of(n));
                assert(s_pre.active_of(n) == s1.active_of(n));
                assert(s1.active_of(n) == s0.active_of(n));
            }
            assert(s_pre.profiles_of(card) == s1.profiles_of(card));
            assert(s1.profiles_of(card) == ps);
            assert(s_pre.active_of(card) == s1.active_of(card));
        }
        return r;
    }
    // Bridge #2; when it fails, the rollback kills bridge #1 again.
    let ok2 = server.spawn_bridge(BridgeKind::Speaker);
    m.step(BtEvent::BridgeSpawned { handle: if ok2 { Some(2) } else { None } });
    if m.tag() == ActTag::Finished {
        let ghost s_pre = *server;
        let (r, rollback) = m.finish();
        match rollback {
            Some(td) => {
                run_teardown(server, td);
            },
            None => {
                proof {
                    assert(false);
                }
            },
        }
        proof {
            assert(s_pre.cards == s1.cards);
            assert forall|n: Seq<char>| #[trigger]
            server.profiles_of(n) == s0.profiles_of(n) by {
                assert(server.profiles_of(n) == s_pre.profiles_of(n));
                assert(s_pre.profiles_of(n) == s1.profiles_of(n));
                assert(s1.profiles_of(n) == s0.profiles_of(n));
            }
            assert forall|n: Seq<char>| n != card implies #[trigger] server.active_of(n)
                == s0.active_of(n) by {
                assert(server.active_of(n) == s_pre.active_of(n));
                assert(s_pre.active_of(n) == s1.active_of(n));
                assert(s1.active_of(n) == s0.active_of(n));
            }
            assert(s_pre.profiles_of(card) == s1.profiles_of(card));
            assert(s1.profiles_of(card) == ps);
            assert(s_pre.active_of(card) == s1.active_of(card));
        }
        return r;
    }
    // Best-effort confirmation that the voice channel is running.
    proof {
        assert(server.cards == s1.cards);
        assert forall|n: Seq<char>| #[trigger]
        server.profiles_of(n) == s0.profiles_of(n) by {
            assert(server.profiles_of(n) == s1.profiles_of(n));
            assert(s1.profiles_of(n) == s0.profiles_of(n));
        }
        assert forall|n: Seq<char>| n != card implies #[trigger] server.active_of(n)
            == s0.active_of(n) by {
            assert(server.active_of(n) == s1.active_of(n));
            assert(s1.active_of(n) == s0.active_of(n));
        }
        assert(server.active_of(card) == s1.active_of(card));
    }
    while m.tag() == ActTag::WaitRunning
        invariant
            m.wf(),
            m.card_name@ == card,
            card == card_name@,
            ps == s0.profiles_of(card),
            fs == first_telephony_success(ps),
            m.spec_tag() == ActTag::WaitRunning || m.spec_tag() == ActTag::Finished,
            m.spec_tag() == ActTag::WaitRunning ==> (m.phase matches ActPhase::WaitRunning {
                wait,
                sleeping,
                codec,
                mic,
                speaker,
            } && wait.verdict is None && (fs matches Some(pc) && codec == pc.1 && !(pc.1
                is PhoneGateway))),
            m.spec_tag() == ActTag::Finished ==> (m.phase matches ActPhase::Finished {
                result,
                rollback,
            } && (result matches Ok(s) && s.wf() && !s.released && s.card_name@ == card && (fs
                matches Some(pc) && s.codec == pc.1) && s.bridges is Some) && rollback is None),
            fs matches Some(pc) ==> server.active_of(card) == Some(pc.0),
            forall|n: Seq<char>| #[trigger] server.profiles_of(n) == s0.profiles_of(n),
            forall|n: Seq<char>|
                n != card ==> #[trigger] server.active_of(n) == s0.active_of(n),
            server.autoswitch == false,
            server.voice_nodes_run == s0.voice_nodes_run,
            server.mic_spawn_ok == s0.mic_spawn_ok,
            server.speaker_spawn_ok == s0.speaker_spawn_ok,
            server.mic_bridge_live,
            server.speaker_bridge_live,
        decreases m.measure(),
    {
        let ghost h = *server;
        let a = m.current_action();
        match a {
            Some(BtAction::CheckNodesRunning { source, sink }) => {
                let rr = server.check_nodes_running(source.as_str(), sink.as_str());
                m.step(BtEvent::NodesChecked { source_ok: rr.0, sink_ok: rr.1 });
            },
            Some(BtAction::Sleep { ms }) => {
                server.sleep_ms(ms);
                m.step(BtEvent::Slept);
            },
            _ => {
                proof {
                    assert(false);
                }
            },
        }
        proof {
            assert(server.cards == h.cards);
            assert forall|n: Seq<char>| #[trigger]
            server.profiles_of(n) == s0.profiles_of(n) by {
                assert(server.profiles_of(n) == h.profiles_of(n));
                assert(h.profiles_of(n) == s0.profiles_of(n));
            }
            assert forall|n: Seq<char>| n != card implies #[trigger] server.active_of(n)
                == s0.active_of(n) by {
                assert(server.active_of(n) == h.active_of(n));
                assert(h.active_of(n) == s0.active_of(n));
            }
            assert(server.active_of(card) == h.active_of(card));
        }
    }
    let (r, _rollback) = m.finish();
    r
}

/// Release a session: kill the bridges when the session holds any, settle,
/// restore a music profile (best effort), and resume the autoswitch policy.
/// Releasing an already-released session performs no external calls at all.
pub fn release(server: &mut AudioServer, session: &mut HfpSession)
    requires
        old(session).wf(),
    ensures
        final(session).released,
        final(session).wf(),
        final(session).card_name == old(session).card_name,
        final(session).codec == old(session).codec,
        final(session).bridges == old(session).bridges,
        old(session).released ==> *final(server) == *old(server) && *final(session) == *old(
            session,
        ),
        !old(session).released ==> ({
            let card = old(session).card_name@;
            let ps = old(server).profiles_of(card);
            &&& final(server).autoswitch == true
            &&& (old(session).bridges is Some ==> final(server).mic_bridge_live == false && final(server).speaker_bridge_live == false && final(server).active_of(card) == music_restore_target(
                ps,
                old(server).active_of(card),
            ))
            &&& (old(session).bridges is None ==> final(server).mic_bridge_live == old(server).mic_bridge_live && final(server).speaker_bridge_live == old(server).speaker_bridge_live && final(server).active_of(card) == old(server).active_of(card))
            &&& (forall|n: Seq<char>| #[trigger]
                final(server).profiles_of(n) == old(server).profiles_of(n))
            &&& (forall|n: Seq<char>|
                n != card ==> #[trigger] final(server).active_of(n) == old(server).active_of(n))
            &&& final(server).voice_nodes_run == old(server).voice_nodes_run
            &&& final(server).mic_spawn_ok == old(server).mic_spawn_ok
            &&& final(server).speaker_spawn_ok == old(server).speaker_spawn_ok
        }),
{
    match session.begin_release() {
        None => {},
        Some(td) => {
            run_teardown(server, td);
        },
    }
}

} // verus!
