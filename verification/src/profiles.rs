//! Profile-selection policy.
//!
//! Two naming families exist for the telephony profiles.  One advertises an
//! explicit `headset-head-unit-cvsd` fallback beside `headset-head-unit`
//! (there, the unsuffixed name is the wideband one); the other advertises
//! `headset-head-unit-msbc` beside `headset-head-unit` (there, the unsuffixed
//! name is the narrowband fallback).  The policy detects the family by
//! looking for the `-cvsd` variant, then tries wideband, narrowband and
//! finally the remote-gateway profile, in that order.
//!
//! The actual `set-profile` calls are external; [`TelephonySwitch`] and
//! [`MusicSwitch`] are fed the outcome of each attempt and decide what to try
//! next, so that the caller performs the calls without holding any policy.

use vstd::prelude::*;
use vstd::string::*;

use crate::bt::{BtError, HfpCodec};
use crate::text::{clone_string_vec, starts_with_seq, str_eq, str_starts_with, views_of};

verus! {

/// The advertised profile set contains the explicit `-cvsd` fallback name,
/// which identifies the naming family.
pub open spec fn has_cvsd_variant(ps: Seq<Seq<char>>) -> bool {
    ps.contains("headset-head-unit-cvsd"@)
}

/// Some telephony (headset) profile is advertised.
pub open spec fn has_headset_profile(ps: Seq<Seq<char>>) -> bool {
    exists|i: int|
        0 <= i < ps.len() && starts_with_seq(#[trigger] ps[i], "headset-head-unit"@)
}

/// The remote-gateway profile is advertised.
pub open spec fn has_gateway_profile(ps: Seq<Seq<char>>) -> bool {
    ps.contains("audio-gateway"@)
}

/// The name of the wideband-voice profile for the detected naming family.
pub open spec fn wideband_profile(ps: Seq<Seq<char>>) -> Seq<char> {
    if has_cvsd_variant(ps) {
        "headset-head-unit"@
    } else {
        "headset-head-unit-msbc"@
    }
}

/// The name of the narrowband-voice fallback for the detected naming family.
pub open spec fn narrowband_profile(ps: Seq<Seq<char>>) -> Seq<char> {
    if has_cvsd_variant(ps) {
        "headset-head-unit-cvsd"@
    } else {
        "headset-head-unit"@
    }
}

/// The ordered telephony attempts for an advertised profile set, paired with
/// the codec that each attempt would achieve.
pub open spec fn telephony_attempts(ps: Seq<Seq<char>>) -> Seq<(Seq<char>, HfpCodec)> {
    (if has_headset_profile(ps) {
        seq![
            (wideband_profile(ps), HfpCodec::MSbc),
            (narrowband_profile(ps), HfpCodec::Cvsd),
        ]
    } else {
        Seq::<(Seq<char>, HfpCodec)>::empty()
    }) + (if has_gateway_profile(ps) {
        seq![("audio-gateway"@, HfpCodec::PhoneGateway)]
    } else {
        Seq::<(Seq<char>, HfpCodec)>::empty()
    })
}

/// The first telephony attempt that an advertised-profiles-only daemon would
/// accept, i.e. the profile the switch achieves and the codec it reports.
pub open spec fn first_telephony_success(ps: Seq<Seq<char>>) -> Option<(Seq<char>, HfpCodec)> {
    if has_headset_profile(ps) && ps.contains(wideband_profile(ps)) {
        Some((wideband_profile(ps), HfpCodec::MSbc))
    } else if has_headset_profile(ps) && ps.contains(narrowband_profile(ps)) {
        Some((narrowband_profile(ps), HfpCodec::Cvsd))
    } else if has_gateway_profile(ps) {
        Some(("audio-gateway"@, HfpCodec::PhoneGateway))
    } else {
        None
    }
}

/// The stereo-music candidates, best first.
pub open spec fn music_candidates() -> Seq<Seq<char>> {
    seq!["a2dp-sink"@, "a2dp-sink-aac"@, "a2dp-sink-sbc_xq"@, "a2dp-sink-sbc"@]
}

/// The ordered music attempts: every candidate when enumeration yielded
/// nothing (permissive fallback), otherwise only the advertised ones.
pub open spec fn music_attempts(ps: Seq<Seq<char>>) -> Seq<Seq<char>> {
    if ps.len() == 0 {
        music_candidates()
    } else {
        (if ps.contains("a2dp-sink"@) {
            seq!["a2dp-sink"@]
        } else {
            Seq::<Seq<char>>::empty()
        }) + (if ps.contains("a2dp-sink-aac"@) {
            seq!["a2dp-sink-aac"@]
        } else {
            Seq::<Seq<char>>::empty()
        }) + (if ps.contains("a2dp-sink-sbc_xq"@) {
            seq!["a2dp-sink-sbc_xq"@]
        } else {
            Seq::<Seq<char>>::empty()
        }) + (if ps.contains("a2dp-sink-sbc"@) {
            seq!["a2dp-sink-sbc"@]
        } else {
            Seq::<Seq<char>>::empty()
        })
    }
}

/// The music profile that an advertised-profiles-only daemon ends up on.
pub open spec fn first_music_success(ps: Seq<Seq<char>>) -> Option<Seq<char>> {
    if ps.contains("a2dp-sink"@) {
        Some("a2dp-sink"@)
    } else if ps.contains("a2dp-sink-aac"@) {
        Some("a2dp-sink-aac"@)
    } else if ps.contains("a2dp-sink-sbc_xq"@) {
        Some("a2dp-sink-sbc_xq"@)
    } else if ps.contains("a2dp-sink-sbc"@) {
        Some("a2dp-sink-sbc"@)
    } else {
        None
    }
}

/// The profile a card is left on after a best-effort music restore: the
/// best advertised music candidate, or the old profile when none is
/// advertised.
pub open spec fn music_restore_target(ps: Seq<Seq<char>>, active: Option<Seq<char>>) -> Option<
    Seq<char>,
> {
    match first_music_success(ps) {
        Some(m) => Some(m),
        None => active,
    }
}

/// A successful attempt, preceded only by failed ones, is the policy's
/// first success.
pub proof fn lemma_telephony_hit(ps: Seq<Seq<char>>, k: int)
    requires
        0 <= k < telephony_attempts(ps).len(),
        ps.contains(telephony_attempts(ps)[k].0),
        forall|j: int| 0 <= j < k ==> !ps.contains(#[trigger] telephony_attempts(ps)[j].0),
    ensures
        first_telephony_success(ps) == Some(telephony_attempts(ps)[k]),
{
    lemma_voice_profile_is_headset(ps);
    let atts = telephony_attempts(ps);
    if has_headset_profile(ps) {
        assert(atts[0] == (wideband_profile(ps), HfpCodec::MSbc));
        assert(atts[1] == (narrowband_profile(ps), HfpCodec::Cvsd));
        if has_gateway_profile(ps) {
            assert(atts.len() == 3);
            assert(atts[2] == ("audio-gateway"@, HfpCodec::PhoneGateway));
        } else {
            assert(atts.len() == 2);
        }
    } else {
        if has_gateway_profile(ps) {
            assert(atts.len() == 1);
            assert(atts[0] == ("audio-gateway"@, HfpCodec::PhoneGateway));
        } else {
            assert(atts.len() == 0);
        }
    }
}

/// When every attempt fails, the policy has no success to offer.
pub proof fn lemma_telephony_miss(ps: Seq<Seq<char>>)
    requires
        forall|j: int|
            0 <= j < telephony_attempts(ps).len() ==> !ps.contains(
                #[trigger] telephony_attempts(ps)[j].0,
            ),
    ensures
        first_telephony_success(ps) is None,
{
    lemma_voice_profile_is_headset(ps);
    let atts = telephony_attempts(ps);
    if has_headset_profile(ps) {
        assert(atts[0] == (wideband_profile(ps), HfpCodec::MSbc));
        assert(atts[1] == (narrowband_profile(ps), HfpCodec::Cvsd));
        assert(!ps.contains(atts[0].0));
        assert(!ps.contains(atts[1].0));
        if has_gateway_profile(ps) {
            assert(atts[2] == ("audio-gateway"@, HfpCodec::PhoneGateway));
            assert(!ps.contains(atts[2].0));
            assert(false);
        }
    } else {
        if has_gateway_profile(ps) {
            assert(atts[0] == ("audio-gateway"@, HfpCodec::PhoneGateway));
            assert(!ps.contains(atts[0].0));
            assert(false);
        }
    }
}

/// A successful music attempt, preceded only by failed ones, is the best
/// advertised candidate.
pub proof fn lemma_music_hit(ps: Seq<Seq<char>>, k: int)
    requires
        0 <= k < music_attempts(ps).len(),
        ps.contains(music_attempts(ps)[k]),
        forall|j: int| 0 <= j < k ==> !ps.contains(#[trigger] music_attempts(ps)[j]),
    ensures
        first_music_success(ps) == Some(music_attempts(ps)[k]),
{
    let atts = music_attempts(ps);
    if ps.len() == 0 {
        assert(!ps.contains(atts[k]));
    } else {
        if ps.contains("a2dp-sink"@) {
            assert(atts[0] == "a2dp-sink"@);
        } else if ps.contains("a2dp-sink-aac"@) {
            assert(atts[0] == "a2dp-sink-aac"@);
        } else if ps.contains("a2dp-sink-sbc_xq"@) {
            assert(atts[0] == "a2dp-sink-sbc_xq"@);
        } else if ps.contains("a2dp-sink-sbc"@) {
            assert(atts[0] == "a2dp-sink-sbc"@);
        } else {
            assert(atts.len() == 0);
        }
        assert(ps.contains(atts[0]));
        if k > 0 {
            assert(!ps.contains(atts[0]));
            assert(false);
        }
    }
}

/// When every music attempt fails, nothing is advertised to restore.
pub proof fn lemma_music_miss(ps: Seq<Seq<char>>)
    requires
        forall|j: int|
            0 <= j < music_attempts(ps).len() ==> !ps.contains(#[trigger] music_attempts(ps)[j]),
    ensures
        first_music_success(ps) is None,
{
    let atts = music_attempts(ps);
    if ps.len() == 0 {
    } else {
        if ps.contains("a2dp-sink"@) {
            assert(atts[0] == "a2dp-sink"@);
            assert(!ps.contains(atts[0]));
            assert(false);
        } else if ps.contains("a2dp-sink-aac"@) {
            assert(atts[0] == "a2dp-sink-aac"@);
            assert(!ps.contains(atts[0]));
            assert(false);
        } else if ps.contains("a2dp-sink-sbc_xq"@) {
            assert(atts[0] == "a2dp-sink-sbc_xq"@);
            assert(!ps.contains(atts[0]));
            assert(false);
        } else if ps.contains("a2dp-sink-sbc"@) {
            assert(atts[0] == "a2dp-sink-sbc"@);
            assert(!ps.contains(atts[0]));
            assert(false);
        }
    }
}

/// In a telephony attempt plan, exactly the remote-gateway attempt carries
/// the gateway codec; every other attempt names a headset profile.
pub proof fn lemma_attempt_codecs(ps: Seq<Seq<char>>)
    ensures
        forall|j: int|
            0 <= j < telephony_attempts(ps).len() ==> ((#[trigger] telephony_attempts(ps)[j].1
                is PhoneGateway) <==> telephony_attempts(ps)[j].0 == "audio-gateway"@),
        forall|j: int|
            0 <= j < telephony_attempts(ps).len() && !(telephony_attempts(ps)[j].1
                is PhoneGateway) ==> starts_with_seq(
                #[trigger] telephony_attempts(ps)[j].0,
                "headset-head-unit"@,
            ),
{
    lemma_headset_literals();
    reveal_strlit("audio-gateway");
    reveal_strlit("headset-head-unit");
    reveal_strlit("headset-head-unit-msbc");
    reveal_strlit("headset-head-unit-cvsd");
    assert("audio-gateway"@.len() == 13);
    assert("headset-head-unit"@.len() == 17);
    assert("headset-head-unit-msbc"@.len() == 22);
    assert("headset-head-unit-cvsd"@.len() == 22);
    let atts = telephony_attempts(ps);
    if has_headset_profile(ps) {
        assert(atts[0] == (wideband_profile(ps), HfpCodec::MSbc));
        assert(atts[1] == (narrowband_profile(ps), HfpCodec::Cvsd));
        assert(wideband_profile(ps) != "audio-gateway"@);
        assert(narrowband_profile(ps) != "audio-gateway"@);
        if has_gateway_profile(ps) {
            assert(atts[2] == ("audio-gateway"@, HfpCodec::PhoneGateway));
        }
    } else {
        if has_gateway_profile(ps) {
            assert(atts[0] == ("audio-gateway"@, HfpCodec::PhoneGateway));
        }
    }
}

/// Whenever the endpoint advertises any stereo-music candidate, the
/// best-effort restore lands on an advertised music profile, whatever
/// profile was active before.
pub proof fn lemma_release_restores_music(ps: Seq<Seq<char>>, active: Option<Seq<char>>)
    requires
        ps.contains("a2dp-sink"@) || ps.contains("a2dp-sink-aac"@) || ps.contains(
            "a2dp-sink-sbc_xq"@,
        ) || ps.contains("a2dp-sink-sbc"@),
    ensures
        music_restore_target(ps, active) matches Some(m) && music_candidates().contains(m)
            && ps.contains(m),
{
    if ps.contains("a2dp-sink"@) {
        assert(music_candidates()[0] == "a2dp-sink"@);
    } else if ps.contains("a2dp-sink-aac"@) {
        assert(music_candidates()[1] == "a2dp-sink-aac"@);
    } else if ps.contains("a2dp-sink-sbc_xq"@) {
        assert(music_candidates()[2] == "a2dp-sink-sbc_xq"@);
    } else {
        assert(music_candidates()[3] == "a2dp-sink-sbc"@);
    }
}

/// The telephony profile names all share the `headset-head-unit` stem.
pub proof fn lemma_headset_literals()
    ensures
        starts_with_seq("headset-head-unit"@, "headset-head-unit"@),
        starts_with_seq("headset-head-unit-msbc"@, "headset-head-unit"@),
        starts_with_seq("headset-head-unit-cvsd"@, "headset-head-unit"@),
{
    reveal_strlit("headset-head-unit");
    reveal_strlit("headset-head-unit-msbc");
    reveal_strlit("headset-head-unit-cvsd");
    assert("headset-head-unit"@.subrange(0, "headset-head-unit"@.len() as int) =~=
        "headset-head-unit"@);
    assert("headset-head-unit-msbc"@.subrange(0, "headset-head-unit"@.len() as int) =~=
        "headset-head-unit"@);
    assert("headset-head-unit-cvsd"@.subrange(0, "headset-head-unit"@.len() as int) =~=
        "headset-head-unit"@);
}

/// Whichever voice profile the family rule picks, having it advertised means
/// a headset profile is advertised.
pub proof fn lemma_voice_profile_is_headset(ps: Seq<Seq<char>>)
    ensures
        ps.contains(wideband_profile(ps)) ==> has_headset_profile(ps),
        ps.contains(narrowband_profile(ps)) ==> has_headset_profile(ps),
        starts_with_seq(wideband_profile(ps), "headset-head-unit"@),
        starts_with_seq(narrowband_profile(ps), "headset-head-unit"@),
{
    lemma_headset_literals();
    if ps.contains(wideband_profile(ps)) {
        let i = choose|i: int| 0 <= i < ps.len() && ps[i] == wideband_profile(ps);
        assert(starts_with_seq(ps[i], "headset-head-unit"@));
    }
    if ps.contains(narrowband_profile(ps)) {
        let i = choose|i: int| 0 <= i < ps.len() && ps[i] == narrowband_profile(ps);
        assert(starts_with_seq(ps[i], "headset-head-unit"@));
    }
}

/// Whether `v` holds a string whose view is `s@`.
pub fn vec_contains_str(v: &Vec<String>, s: &str) -> (r: bool)
    ensures
        r == views_of(v@).contains(s@),
{
    let n = v.len();
    let mut i: usize = 0;
    while i < n
        invariant
            0 <= i <= n,
            n == v@.len(),
            forall|j: int| 0 <= j < i ==> views_of(v@)[j] != s@,
        decreases n - i,
    {
        if str_eq(v[i].as_str(), s) {
            assert(views_of(v@)[i as int] == s@);
            return true;
        }
        i += 1;
    }
    false
}

fn any_headset_profile(v: &Vec<String>) -> (r: bool)
    ensures
        r == has_headset_profile(views_of(v@)),
{
    let n = v.len();
    let mut i: usize = 0;
    while i < n
        invariant
            0 <= i <= n,
            n == v@.len(),
            forall|j: int|
                0 <= j < i ==> !starts_with_seq(#[trigger] views_of(v@)[j], "headset-head-unit"@),
        decreases n - i,
    {
        if str_starts_with(v[i].as_str(), "headset-head-unit") {
            assert(starts_with_seq(views_of(v@)[i as int], "headset-head-unit"@));
            return true;
        }
        i += 1;
    }
    false
}

/// One entry of a switch plan: the profile to request and the codec that a
/// success would mean.
#[derive(Debug, Clone)]
pub struct SwitchAttempt {
    pub profile: String,
    pub codec: HfpCodec,
}

/// The views of a sequence of attempts.
pub open spec fn attempt_views(s: Seq<SwitchAttempt>) -> Seq<(Seq<char>, HfpCodec)> {
    s.map_values(|a: SwitchAttempt| (a.profile@, a.codec))
}

/// Progress of a telephony switch.
#[derive(Debug, Clone, Copy, PartialEq, Eq, Structural)]
pub enum SwitchProgress {
    /// More attempts remain.
    Pending,
    /// Every attempt failed.
    Failed,
    /// An attempt succeeded, achieving this codec.
    Achieved(HfpCodec),
}

/// The telephony profile switch, as a machine: the caller requests
/// [`TelephonySwitch::pending`] from the daemon and reports the outcome via
/// [`TelephonySwitch::record`]; the machine decides what to try next.
#[derive(Debug)]
pub struct TelephonySwitch {
    pub card_name: String,
    pub available: Vec<String>,
    pub attempts: Vec<SwitchAttempt>,
    pub next: usize,
    pub outcome: SwitchProgress,
}

impl TelephonySwitch {
    /// Structural well-formedness: the plan is the policy's plan for the
    /// advertised profiles, and progress stays within it.
    pub open spec fn wf(&self) -> bool {
        &&& attempt_views(self.attempts@) == telephony_attempts(views_of(self.available@))
        &&& self.next <= self.attempts@.len()
        &&& (self.outcome is Pending ==> self.next < self.attempts@.len())
    }

    /// Build the attempt plan for the advertised profiles of `card_name`.
    pub fn new(card_name: String, available: Vec<String>) -> (r: Self)
        ensures
            r.wf(),
            r.card_name == card_name,
            r.available == available,
            r.next == 0,
            r.outcome == (if telephony_attempts(views_of(available@)).len() == 0 {
                SwitchProgress::Failed
            } else {
                SwitchProgress::Pending
            }),
    {
        let has_cvsd = vec_contains_str(&available, "headset-head-unit-cvsd");
        let has_headset = any_headset_profile(&available);
        let has_gw = vec_contains_str(&available, "audio-gateway");
        let mut attempts: Vec<SwitchAttempt> = Vec::new();
        if has_headset {
            if has_cvsd {
                attempts.push(
                    SwitchAttempt {
                        profile: String::from_str("headset-head-unit"),
                        codec: HfpCodec::MSbc,
                    },
                );
                attempts.push(
                    SwitchAttempt {
                        profile: String::from_str("headset-head-unit-cvsd"),
                        codec: HfpCodec::Cvsd,
                    },
                );
            } else {
                attempts.push(
                    SwitchAttempt {
                        profile: String::from_str("headset-head-unit-msbc"),
                        codec: HfpCodec::MSbc,
                    },
                );
                attempts.push(
                    SwitchAttempt {
                        profile: String::from_str("headset-head-unit"),
                        codec: HfpCodec::Cvsd,
                    },
                );
            }
        }
        if has_gw {
            attempts.push(
                SwitchAttempt {
                    profile: String::from_str("audio-gateway"),
                    codec: HfpCodec::PhoneGateway,
                },
            );
        }
        proof {
            assert(attempt_views(attempts@) =~= telephony_attempts(views_of(available@)));
        }
        let pending = attempts.len() > 0;
        TelephonySwitch {
            card_name,
            available,
            attempts,
            next: 0,
            outcome: if pending {
                SwitchProgress::Pending
            } else {
                SwitchProgress::Failed
            },
        }
    }

    /// Whether the switch has reached a verdict.
    pub fn done(&self) -> (r: bool)
        ensures
            r == !(self.outcome is Pending),
    {
        match self.outcome {
            SwitchProgress::Pending => false,
            _ => true,
        }
    }

    /// The profile name to request next.
    pub fn pending(&self) -> (p: String)
        requires
            self.wf(),
            self.outcome is Pending,
        ensures
            p@ == attempt_views(self.attempts@)[self.next as int].0,
    {
        self.attempts[self.next].profile.clone()
    }

    /// Report whether the daemon accepted the pending profile.
    pub fn record(&mut self, ok: bool)
        requires
            old(self).wf(),
            old(self).outcome is Pending,
        ensures
            final(self).wf(),
            final(self).card_name == old(self).card_name,
            final(self).available == old(self).available,
            final(self).attempts == old(self).attempts,
            ok ==> final(self).next == old(self).next && final(self).outcome
                == SwitchProgress::Achieved(
                attempt_views(old(self).attempts@)[old(self).next as int].1,
            ),
            !ok ==> final(self).next == old(self).next + 1 && final(self).outcome == (if old(
                self,
            ).next + 1 == old(self).attempts@.len() {
                SwitchProgress::Failed
            } else {
                SwitchProgress::Pending
            }),
    {
        if ok {
            self.outcome = SwitchProgress::Achieved(self.attempts[self.next].codec);
        } else {
            let n = self.attempts.len();
            self.next += 1;
            if self.next == n {
                self.outcome = SwitchProgress::Failed;
            }
        }
    }

    /// The error to surface when every attempt failed.
    pub fn failure_error(&self) -> (e: BtError)
        requires
            self.outcome is Failed,
        ensures
            e matches BtError::NoTelephonyProfile { card_name, available } && card_name@
                == self.card_name@ && available@ == self.available@,
    {
        BtError::NoTelephonyProfile {
            card_name: self.card_name.clone(),
            available: clone_string_vec(&self.available),
        }
    }
}

/// Progress of a music restore.
#[derive(Debug, Clone, Copy, PartialEq, Eq, Structural)]
pub enum MusicProgress {
    Pending,
    Failed,
    Restored,
}

/// The stereo-music restore, as a machine, mirroring [`TelephonySwitch`].
#[derive(Debug)]
pub struct MusicSwitch {
    pub card_name: String,
    pub available: Vec<String>,
    pub attempts: Vec<String>,
    pub next: usize,
    pub outcome: MusicProgress,
}

impl MusicSwitch {
    pub open spec fn wf(&self) -> bool {
        &&& views_of(self.attempts@) == music_attempts(views_of(self.available@))
        &&& self.next <= self.attempts@.len()
        &&& (self.outcome is Pending ==> self.next < self.attempts@.len())
    }

    /// Build the restore plan for the advertised profiles of `card_name`.
    pub fn new(card_name: String, available: Vec<String>) -> (r: Self)
        ensures
            r.wf(),
            r.card_name == card_name,
            r.available == available,
            r.next == 0,
            r.outcome == (if music_attempts(views_of(available@)).len() == 0 {
                MusicProgress::Failed
            } else {
                MusicProgress::Pending
            }),
    {
        let mut attempts: Vec<String> = Vec::new();
        if available.len() == 0 {
            attempts.push(String::from_str("a2dp-sink"));
            attempts.push(String::from_str("a2dp-sink-aac"));
            attempts.push(String::from_str("a2dp-sink-sbc_xq"));
            attempts.push(String::from_str("a2dp-sink-sbc"));
        } else {
            if vec_contains_str(&available, "a2dp-sink") {
                attempts.push(String::from_str("a2dp-sink"));
            }
            if vec_contains_str(&available, "a2dp-sink-aac") {
                attempts.push(String::from_str("a2dp-sink-aac"));
            }
            if vec_contains_str(&available, "a2dp-sink-sbc_xq") {
                attempts.push(String::from_str("a2dp-sink-sbc_xq"));
            }
            if vec_contains_str(&available, "a2dp-sink-sbc") {
                attempts.push(String::from_str("a2dp-sink-sbc"));
            }
        }
        proof {
            assert(views_of(attempts@) =~= music_attempts(views_of(available@)));
        }
        let pending = attempts.len() > 0;
        MusicSwitch {
            card_name,
            available,
            attempts,
            next: 0,
            outcome: if pending {
                MusicProgress::Pending
            } else {
                MusicProgress::Failed
            },
        }
    }

    pub fn done(&self) -> (r: bool)
        ensures
            r == !(self.outcome is Pending),
    {
        match self.outcome {
            MusicProgress::Pending => false,
            _ => true,
        }
    }

    pub fn pending(&self) -> (p: String)
        requires
            self.wf(),
            self.outcome is Pending,
        ensures
            p@ == views_of(self.attempts@)[self.next as int],
    {
        self.attempts[self.next].clone()
    }

    pub fn record(&mut self, ok: bool)
        requires
            old(self).wf(),
            old(self).outcome is Pending,
        ensures
            final(self).wf(),
            final(self).card_name == old(self).card_name,
            final(self).available == old(self).available,
            final(self).attempts == old(self).attempts,
            ok ==> final(self).next == old(self).next && final(self).outcome
                == MusicProgress::Restored,
            !ok ==> final(self).next == old(self).next + 1 && final(self).outcome == (if old(
                self,
            ).next + 1 == old(self).attempts@.len() {
                MusicProgress::Failed
            } else {
                MusicProgress::Pending
            }),
    {
        if ok {
            self.outcome = MusicProgress::Restored;
        } else {
            let n = self.attempts.len();
            self.next += 1;
            if self.next == n {
                self.outcome = MusicProgress::Failed;
            }
        }
    }

    /// The error to surface when no music profile could be restored.
    pub fn failure_error(&self) -> (e: BtError)
        requires
            self.outcome is Failed,
        ensures
            e matches BtError::NoMusicProfile { card_name, available } && card_name@
                == self.card_name@ && available@ == self.available@,
    {
        BtError::NoMusicProfile {
            card_name: self.card_name.clone(),
            available: clone_string_vec(&self.available),
        }
    }
}

} // verus!
