//! The player record: resources, the daily death check, promotions, and
//! the bounded history log.
//!
//! Every state change is a deterministic function of the old record and,
//! where chance is involved, of explicit percentage rolls, so the whole
//! behaviour is stated as spec-level transitions.  The rolling variants
//! (`check_death`, `attempt_promotion`) draw their rolls from the process
//! randomness and promise that some pair of rolls explains the outcome.

use vstd::prelude::*;
use vstd::string::StringExecFns;

use crate::realm::{realm_name, realm_of_experience, Realm};
use crate::text::{dec_str, delta_str, format_delta, push_i32_signed, push_u64_decimal, signed_str};

verus! {

/// `a + b` held within the `u32` range from above.
pub open spec fn sat_add_u32(a: int, b: int) -> int {
    if a + b > u32::MAX {
        u32::MAX as int
    } else {
        a + b
    }
}

/// `a + b` held within the `i32` range from both sides.
pub open spec fn sat_add_i32(a: int, b: int) -> int {
    if a + b > i32::MAX {
        i32::MAX as int
    } else if a + b < i32::MIN {
        i32::MIN as int
    } else {
        a + b
    }
}

/// Stress is clamped to the closed band [0, 100].
pub open spec fn clamp_stress(v: int) -> int {
    if v < 0 {
        0
    } else if v > 100 {
        100
    } else {
        v
    }
}

/// Half of `v`, rounded toward zero.
pub open spec fn half_toward_zero(v: int) -> int {
    if v >= 0 {
        v / 2
    } else {
        -((-v) / 2)
    }
}

/// The player record.  Stress stays in [0, 100]; experience only ever
/// grows; `realm_level` is the separately tracked promotion counter, not
/// the experience-derived rank.
#[derive(Debug)]
pub struct PlayerState {
    pub name: String,
    pub experience: u32,
    pub skills: i32,
    pub pressure: i32,
    pub days_played: u32,
    pub is_alive: bool,
    pub realm_level: u32,
    pub promotion_attempts: u32,
    pub history: Vec<String>,
    pub zero_pressure_streak: u32,
    pub died_from_zero_pressure: bool,
}

/// Field-wise equality of two records (history compared by its lines).
pub open spec fn same_player(a: PlayerState, b: PlayerState) -> bool {
    &&& a.name == b.name
    &&& a.experience == b.experience
    &&& a.skills == b.skills
    &&& a.pressure == b.pressure
    &&& a.days_played == b.days_played
    &&& a.is_alive == b.is_alive
    &&& a.realm_level == b.realm_level
    &&& a.promotion_attempts == b.promotion_attempts
    &&& a.history@ == b.history@
    &&& a.zero_pressure_streak == b.zero_pressure_streak
    &&& a.died_from_zero_pressure == b.died_from_zero_pressure
}

impl Clone for PlayerState {
    fn clone(&self) -> (r: Self)
        ensures
            same_player(r, *self),
    {
        let r = PlayerState {
            name: self.name.clone(),
            experience: self.experience,
            skills: self.skills,
            pressure: self.pressure,
            days_played: self.days_played,
            is_alive: self.is_alive,
            realm_level: self.realm_level,
            promotion_attempts: self.promotion_attempts,
            history: self.history.clone(),
            zero_pressure_streak: self.zero_pressure_streak,
            died_from_zero_pressure: self.died_from_zero_pressure,
        };
        proof {
            assert(r.history@ =~= self.history@);
        }
        r
    }
}

/// The record after one reward: skill moves by the (saturated) delta,
/// experience grows by strictly positive skill deltas only, stress is
/// clamped to [0, 100].
pub open spec fn gain_transition(p: PlayerState, skill_delta: int, stress_delta: int) -> PlayerState {
    PlayerState {
        experience: (if skill_delta > 0 {
            sat_add_u32(p.experience as int, skill_delta)
        } else {
            p.experience as int
        }) as u32,
        skills: sat_add_i32(p.skills as int, skill_delta) as i32,
        pressure: clamp_stress(p.pressure + stress_delta) as i32,
        ..p
    }
}

/// The fixed death-chance step table over the stress value, in percent.
pub open spec fn death_chance_percent(pressure: int) -> int {
    if 0 <= pressure <= 19 {
        0
    } else if 20 <= pressure <= 29 {
        5
    } else if 30 <= pressure <= 49 {
        8
    } else if 50 <= pressure <= 69 {
        20
    } else if 70 <= pressure <= 100 {
        40
    } else {
        25
    }
}

/// The record after the daily death check, given the two percentage rolls:
/// first the zero-stress streak is updated, then — in this fixed order —
/// the zero-stress death, the negative-skill dismissal, and the
/// stress-table death are tried; the first that fires wins.
pub open spec fn death_transition(p: PlayerState, zero_roll: int, stress_roll: int) -> PlayerState {
    let streak = if p.pressure == 0 {
        sat_add_u32(p.zero_pressure_streak as int, 1)
    } else {
        0
    };
    let q = PlayerState {
        died_from_zero_pressure: false,
        zero_pressure_streak: streak as u32,
        ..p
    };
    if streak >= 2 && zero_roll < 15 {
        PlayerState { is_alive: false, died_from_zero_pressure: true, ..q }
    } else if p.skills < 0 {
        PlayerState { is_alive: false, ..q }
    } else if stress_roll < death_chance_percent(p.pressure as int) {
        PlayerState { is_alive: false, ..q }
    } else {
        q
    }
}

/// The cause-specific message matching the record a death check left
/// behind.
pub open spec fn death_message(p: PlayerState) -> Seq<char> {
    if p.died_from_zero_pressure {
        "你这样子天天都没有压力，跟咸鱼有什么分别？？？？"@
    } else if p.skills < 0 {
        "你小子被开除了，一个技能点都没有还他妈都来应聘，啥也不会"@
    } else if 20 <= p.pressure <= 29 {
        "脆弱的弟弟，这就死了"@
    } else if 30 <= p.pressure <= 49 {
        "啊？就这就累死了？还差得远呢，投胎去吧"@
    } else if 50 <= p.pressure <= 69 {
        "辛苦了，但是还不够努力，死的太慢了呢"@
    } else if 70 <= p.pressure <= 100 {
        "该你去死了啊，这么卷不要命了啊"@
    } else {
        "游戏结束"@
    }
}

/// Skill required before a promotion attempt is allowed, keyed by the
/// promotion counter; counters past the ladder demand an unreachable
/// amount.
pub open spec fn promotion_requirement(level: int) -> int {
    if level == 1 {
        50
    } else if level == 2 {
        150
    } else if level == 3 {
        300
    } else if level == 4 {
        500
    } else {
        9999
    }
}

/// Chance that a promotion attempt fails, in percent: 5% per attempt made
/// so far plus the base 5%, capped at 95%.
pub open spec fn failure_percent(attempts: int) -> int {
    if 5 * (attempts + 1) >= 95 {
        95
    } else {
        5 * (attempts + 1)
    }
}

/// The record after a promotion attempt with the given roll: failure
/// halves skill (toward zero) and counts the attempt; success climbs the
/// ladder and resets the counter.
pub open spec fn promotion_transition(p: PlayerState, roll: int) -> PlayerState {
    if roll < failure_percent(p.promotion_attempts as int) {
        PlayerState {
            skills: (p.skills - half_toward_zero(p.skills as int)) as i32,
            promotion_attempts: (p.promotion_attempts + 1) as u32,
            ..p
        }
    } else {
        PlayerState { realm_level: (p.realm_level + 1) as u32, promotion_attempts: 0u32, ..p }
    }
}

/// Message reported after a failed promotion that cost `lost` skill.
pub open spec fn promotion_failure_message(lost: int) -> Seq<char> {
    "小垃圾 根本没有这个水平还想晋升\n失去了"@ + signed_str(lost) + "技能点"@
}

/// Message reported after a successful promotion of record `p`.
pub open spec fn promotion_success_message(p: PlayerState) -> Seq<char> {
    "恭喜晋升到"@ + realm_name(realm_of_experience(p.experience as nat)) + "阶！"@
}

/// One history line: the day about to be played, the record text, and the
/// signed deltas.
pub open spec fn history_line(day: int, record: Seq<char>, skill: int, stress: int) -> Seq<char> {
    "第"@ + dec_str(day as nat) + "天: "@ + record + " [技能"@ + delta_str(skill) + "|压力"@
        + delta_str(stress) + "]"@
}

/// Appends a line to the log, evicting the oldest once the length passes
/// 100.
pub open spec fn capped_push(log: Seq<Seq<char>>, line: Seq<char>) -> Seq<Seq<char>> {
    let pushed = log.push(line);
    if pushed.len() > 100 {
        pushed.drop_first()
    } else {
        pushed
    }
}

impl PlayerState {
    /// The history log as a sequence of lines.
    pub open spec fn history_lines(&self) -> Seq<Seq<char>> {
        self.history.deep_view()
    }

    /// The standing invariant: stress in band, log bounded.
    pub open spec fn well_formed(&self) -> bool {
        &&& 0 <= self.pressure <= 100
        &&& self.history@.len() <= 100
    }

    /// A fresh record: nothing earned, nothing suffered, alive at level 1.
    pub fn new(name: String) -> (p: PlayerState)
        ensures
            p.name == name,
            p.experience == 0,
            p.skills == 0,
            p.pressure == 0,
            p.days_played == 0,
            p.is_alive,
            p.realm_level == 1,
            p.promotion_attempts == 0,
            p.history@.len() == 0,
            p.zero_pressure_streak == 0,
            !p.died_from_zero_pressure,
            p.well_formed(),
    {
        PlayerState {
            name,
            experience: 0,
            skills: 0,
            pressure: 0,
            days_played: 0,
            is_alive: true,
            realm_level: 1,
            promotion_attempts: 0,
            history: Vec::new(),
            zero_pressure_streak: 0,
            died_from_zero_pressure: false,
        }
    }

    /// The experience-derived rank.
    pub fn get_realm(&self) -> (r: Realm)
        ensures
            r == realm_of_experience(self.experience as nat),
    {
        Realm::from_experience(self.experience)
    }

    /// Applies one reward.
    pub fn gain_reward(&mut self, skill_points: i32, pressure_change: i32)
        ensures
            *final(self) == gain_transition(
                *old(self),
                skill_points as int,
                pressure_change as int,
            ),
            old(self).well_formed() ==> final(self).well_formed(),
    {
        if skill_points > 0 {
            self.experience = self.experience.saturating_add(skill_points as u32);
        }
        let skill_sum: i64 = self.skills as i64 + skill_points as i64;
        self.skills = if skill_sum > i32::MAX as i64 {
            i32::MAX
        } else if skill_sum < i32::MIN as i64 {
            i32::MIN
        } else {
            skill_sum as i32
        };
        let stress_sum: i64 = self.pressure as i64 + pressure_change as i64;
        self.pressure = if stress_sum < 0 {
            0
        } else if stress_sum > 100 {
            100
        } else {
            stress_sum as i32
        };
    }

    /// The daily death check with explicit percentage rolls, for callers
    /// that inject their own randomness.
    pub fn check_death_with_rolls(&mut self, zero_roll: u32, stress_roll: u32)
        ensures
            *final(self) == death_transition(*old(self), zero_roll as int, stress_roll as int),
    {
        self.died_from_zero_pressure = false;

        if self.pressure == 0 {
            self.zero_pressure_streak = self.zero_pressure_streak.saturating_add(1);
        } else {
            self.zero_pressure_streak = 0;
        }

        if self.zero_pressure_streak >= 2 && zero_roll < 15 {
            self.is_alive = false;
            self.died_from_zero_pressure = true;
            return ;
        }

        if self.skills < 0 {
            self.is_alive = false;
            return ;
        }

        let chance: u32 = if 0 <= self.pressure && self.pressure <= 19 {
            0
        } else if 20 <= self.pressure && self.pressure <= 29 {
            5
        } else if 30 <= self.pressure && self.pressure <= 49 {
            8
        } else if 50 <= self.pressure && self.pressure <= 69 {
            20
        } else if 70 <= self.pressure && self.pressure <= 100 {
            40
        } else {
            25
        };

        if stress_roll < chance {
            self.is_alive = false;
        }
    }

    /// The daily death check: some pair of percentage rolls explains the
    /// outcome.
    pub fn check_death(&mut self)
        ensures
            exists|zr: int, pr: int|
                0 <= zr < 100 && 0 <= pr < 100 && *final(self) == death_transition(
                    *old(self),
                    zr,
                    pr,
                ),
    {
        let zero_roll = crate::rng::rand_percent();
        let stress_roll = crate::rng::rand_percent();
        self.check_death_with_rolls(zero_roll, stress_roll);
        proof {
            assert(0 <= zero_roll < 100 && 0 <= stress_roll < 100 && *self == death_transition(
                *old(self),
                zero_roll as int,
                stress_roll as int,
            ));
        }
    }

    /// The cause-specific message for the record a death check left
    /// behind.
    pub fn get_death_message(&self) -> (m: &'static str)
        ensures
            m@ == death_message(*self),
    {
        if self.died_from_zero_pressure {
            return "你这样子天天都没有压力，跟咸鱼有什么分别？？？？";
        }
        if self.skills < 0 {
            return "你小子被开除了，一个技能点都没有还他妈都来应聘，啥也不会";
        }
        if 20 <= self.pressure && self.pressure <= 29 {
            "脆弱的弟弟，这就死了"
        } else if 30 <= self.pressure && self.pressure <= 49 {
            "啊？就这就累死了？还差得远呢，投胎去吧"
        } else if 50 <= self.pressure && self.pressure <= 69 {
            "辛苦了，但是还不够努力，死的太慢了呢"
        } else if 70 <= self.pressure && self.pressure <= 100 {
            "该你去死了啊，这么卷不要命了啊"
        } else {
            "游戏结束"
        }
    }

    /// Whether the skill on hand meets the requirement of the current
    /// promotion level.
    pub fn can_promote(&self) -> (b: bool)
        ensures
            b == (self.skills as int >= promotion_requirement(self.realm_level as int)),
    {
        let skill_requirement: i32 = if self.realm_level == 1 {
            50
        } else if self.realm_level == 2 {
            150
        } else if self.realm_level == 3 {
            300
        } else if self.realm_level == 4 {
            500
        } else {
            9999
        };
        self.skills >= skill_requirement
    }

    /// A promotion attempt with an explicit percentage roll, for callers
    /// that inject their own randomness.  Returns whether it succeeded and
    /// the message to show.
    pub fn attempt_promotion_with_roll(&mut self, roll: u32) -> (res: (bool, String))
        requires
            old(self).promotion_attempts < u32::MAX,
            old(self).realm_level < u32::MAX,
        ensures
            *final(self) == promotion_transition(*old(self), roll as int),
            res.0 == !((roll as int) < failure_percent(old(self).promotion_attempts as int)),
            res.0 ==> res.1@ == promotion_success_message(*final(self)),
            !res.0 ==> res.1@ == promotion_failure_message(
                half_toward_zero(old(self).skills as int),
            ),
    {
        let fp: u32 = if self.promotion_attempts >= 18 {
            95
        } else {
            5 * (self.promotion_attempts + 1)
        };

        if roll < fp {
            let lost = half_i32(self.skills);
            self.skills = self.skills - lost;
            self.promotion_attempts = self.promotion_attempts + 1;
            let mut m = String::from_str("小垃圾 根本没有这个水平还想晋升\n失去了");
            push_i32_signed(&mut m, lost);
            m.append("技能点");
            proof {
                assert(m@ =~= promotion_failure_message(half_toward_zero(old(self).skills as int)));
            }
            (false, m)
        } else {
            self.realm_level = self.realm_level + 1;
            self.promotion_attempts = 0;
            let mut m = String::from_str("恭喜晋升到");
            m.append(self.get_realm().display_name());
            m.append("阶！");
            proof {
                assert(m@ =~= promotion_success_message(*self));
            }
            (true, m)
        }
    }

    /// A promotion attempt: some percentage roll explains the outcome.
    pub fn attempt_promotion(&mut self) -> (res: (bool, String))
        requires
            old(self).promotion_attempts < u32::MAX,
            old(self).realm_level < u32::MAX,
        ensures
            exists|roll: int|
                {
                    &&& 0 <= roll < 100
                    &&& *final(self) == promotion_transition(*old(self), roll)
                    &&& res.0 == !(roll < failure_percent(old(self).promotion_attempts as int))
                },
            res.0 ==> res.1@ == promotion_success_message(*final(self)),
            !res.0 ==> res.1@ == promotion_failure_message(
                half_toward_zero(old(self).skills as int),
            ),
    {
        let roll = crate::rng::rand_percent();
        let res = self.attempt_promotion_with_roll(roll);
        proof {
            let r = roll as int;
            assert(0 <= r < 100 && *self == promotion_transition(*old(self), r) && res.0 == !(r
                < failure_percent(old(self).promotion_attempts as int)));
        }
        res
    }

    /// Appends a line to the bounded history log, tagged with the day
    /// about to be played and the signed deltas.
    pub fn add_history(&mut self, record: String, skill_change: i32, pressure_change: i32)
        requires
            old(self).days_played < u32::MAX,
        ensures
            *final(self) == (PlayerState { history: final(self).history, ..*old(self) }),
            final(self).history_lines() == capped_push(
                old(self).history_lines(),
                history_line(
                    old(self).days_played + 1,
                    record@,
                    skill_change as int,
                    pressure_change as int,
                ),
            ),
            old(self).history@.len() <= 100 ==> final(self).history@.len() <= 100,
    {
        let day: u64 = self.days_played as u64 + 1;
        let mut line = String::from_str("第");
        push_u64_decimal(&mut line, day);
        line.append("天: ");
        line.append(record.as_str());
        line.append(" [技能");
        let skill_text = format_delta(skill_change);
        line.append(skill_text.as_str());
        line.append("|压力");
        let pressure_text = format_delta(pressure_change);
        line.append(pressure_text.as_str());
        line.append("]");
        proof {
            assert(line@ =~= history_line(
                old(self).days_played + 1,
                record@,
                skill_change as int,
                pressure_change as int,
            ));
        }
        self.history.push(line);
        if self.history.len() > 100 {
            self.history.remove(0);
        }
        proof {
            assert(self.history.deep_view() =~= capped_push(
                old(self).history.deep_view(),
                history_line(
                    old(self).days_played + 1,
                    record@,
                    skill_change as int,
                    pressure_change as int,
                ),
            ));
        }
    }
}

fn half_i32(v: i32) -> (h: i32)
    ensures
        h as int == half_toward_zero(v as int),
{
    if v >= 0 {
        (v as u32 / 2) as i32
    } else {
        let m: u64 = (-(v as i64)) as u64;
        (-((m / 2) as i64)) as i32
    }
}

/// The sum of the skill deltas of a reward sequence.
pub open spec fn sum_skill_deltas(ds: Seq<(int, int)>) -> int
    decreases ds.len(),
{
    if ds.len() == 0 {
        0
    } else {
        ds[0].0 + sum_skill_deltas(ds.drop_first())
    }
}

/// The sum of only the strictly positive skill deltas.
pub open spec fn sum_positive_skill_deltas(ds: Seq<(int, int)>) -> int
    decreases ds.len(),
{
    if ds.len() == 0 {
        0
    } else {
        (if ds[0].0 > 0 {
            ds[0].0
        } else {
            0
        }) + sum_positive_skill_deltas(ds.drop_first())
    }
}

/// The record after a whole sequence of rewards.
pub open spec fn apply_gains(p: PlayerState, ds: Seq<(int, int)>) -> PlayerState
    decreases ds.len(),
{
    if ds.len() == 0 {
        p
    } else {
        apply_gains(gain_transition(p, ds[0].0, ds[0].1), ds.drop_first())
    }
}

/// No reward of the sequence runs into a numeric bound along the way.
pub open spec fn gains_unsaturated(p: PlayerState, ds: Seq<(int, int)>) -> bool
    decreases ds.len(),
{
    if ds.len() == 0 {
        true
    } else {
        &&& i32::MIN <= p.skills + ds[0].0 <= i32::MAX
        &&& (ds[0].0 > 0 ==> p.experience + ds[0].0 <= u32::MAX)
        &&& gains_unsaturated(gain_transition(p, ds[0].0, ds[0].1), ds.drop_first())
    }
}

/// Over any sequence of rewards, experience never decreases; and while no
/// numeric bound is hit, skill moves by exactly the sum of the deltas and
/// experience by exactly the sum of the strictly positive skill deltas.
pub proof fn lemma_gain_rewards_sum(p: PlayerState, ds: Seq<(int, int)>)
    ensures
        apply_gains(p, ds).experience >= p.experience,
        gains_unsaturated(p, ds) ==> apply_gains(p, ds).skills == p.skills + sum_skill_deltas(ds),
        gains_unsaturated(p, ds) ==> apply_gains(p, ds).experience == p.experience
            + sum_positive_skill_deltas(ds),
    decreases ds.len(),
{
    if ds.len() > 0 {
        lemma_gain_rewards_sum(gain_transition(p, ds[0].0, ds[0].1), ds.drop_first());
    }
}

/// A player whose stress was zero with a streak already running is open to
/// the zero-stress death whatever the skill score says: the low roll kills
/// and marks the zero-stress cause.
pub proof fn lemma_zero_stress_death_ignores_skill(p: PlayerState, stress_roll: int)
    requires
        p.pressure == 0,
        p.zero_pressure_streak >= 1,
    ensures
        !death_transition(p, 0, stress_roll).is_alive,
        death_transition(p, 0, stress_roll).died_from_zero_pressure,
{
}

/// A player with negative skill never survives a death check, and unless
/// the zero-stress branch fired first, the death is not marked as a
/// zero-stress one.
pub proof fn lemma_negative_skill_is_fatal(p: PlayerState, zero_roll: int, stress_roll: int)
    requires
        p.skills < 0,
    ensures
        !death_transition(p, zero_roll, stress_roll).is_alive,
        !(p.pressure == 0 && sat_add_u32(p.zero_pressure_streak as int, 1) >= 2 && zero_roll < 15)
            ==> !death_transition(p, zero_roll, stress_roll).died_from_zero_pressure,
{
}

/// The failure chance of a promotion starts at exactly 5%, climbs strictly
/// with each further attempt, and sits at exactly 95% from the eighteenth
/// attempt on.
pub proof fn lemma_failure_percent_escalates(attempts: int)
    requires
        attempts >= 0,
    ensures
        failure_percent(0) == 5,
        attempts < 18 ==> failure_percent(attempts) < failure_percent(attempts + 1),
        attempts >= 18 ==> failure_percent(attempts) == 95,
{
}

/// The log after appending each line of `lines` in turn.
pub open spec fn push_all(log: Seq<Seq<char>>, lines: Seq<Seq<char>>) -> Seq<Seq<char>>
    decreases lines.len(),
{
    if lines.len() == 0 {
        log
    } else {
        push_all(capped_push(log, lines[0]), lines.drop_first())
    }
}

/// The history log is a sliding window: after any number of appends it
/// holds exactly the lines past the first `len - 100`, in their original
/// order — so it never exceeds 100 lines, and once it is full each append
/// evicts exactly the oldest line.
pub proof fn lemma_history_keeps_last_lines(log: Seq<Seq<char>>, lines: Seq<Seq<char>>)
    requires
        log.len() <= 100,
    ensures
        push_all(log, lines) == (log + lines).skip(
            if log.len() + lines.len() <= 100 {
                0
            } else {
                log.len() + lines.len() - 100
            },
        ),
    decreases lines.len(),
{
    if lines.len() == 0 {
        assert(push_all(log, lines) =~= (log + lines).skip(0));
    } else {
        let first = lines[0];
        let rest = lines.drop_first();
        let stepped = capped_push(log, first);
        assert(lines =~= seq![first] + rest);
        lemma_history_keeps_last_lines(stepped, rest);
        if log.len() < 100 {
            assert(stepped + rest =~= log + lines);
        } else {
            assert(stepped + rest =~= (log + lines).skip(1));
            assert(push_all(log, lines) =~= (log + lines).skip(
                log.len() + lines.len() - 100,
            ));
        }
    }
}

} // verus!
