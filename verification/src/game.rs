//! The progression controller: owns the player record, the content
//! catalog, today's drawn daily and weekly events, today's NPC subset, and
//! the transient NPC prompt; it rotates all of "today" when the day
//! advances.

use vstd::prelude::*;
use vstd::string::StringExecFns;

use crate::catalog::{
    create_daily_events, create_npcs, create_weekly_events, DAILY_EVENT_COUNT, NPC_COUNT,
    WEEKLY_EVENT_COUNT,
};
use crate::events::{same_daily_content, same_weekly_content, DailyEvent, WeeklyEvent};
use crate::npc::{
    same_npc_role, valid_prompt, NpcActiveEvent, NpcDecision, NpcEncounter, NpcOption,
};
use crate::player::{capped_push, gain_transition, history_line, PlayerState};
use crate::text::{delta_str, format_clock, format_delta};

verus! {

/// Advisory shown when the player is gone and an NPC interaction is
/// attempted anyway.
pub open spec fn npc_dead_message() -> Seq<char> {
    "你已离开公司，无法继续和 NPC 交互。"@
}

/// Advisory shown when a probed NPC was already handled today.
pub open spec fn npc_done_message(name: Seq<char>) -> Seq<char> {
    name + " 今天的请求已经处理完。"@
}

/// Advisory shown when a resolution targets an NPC already handled today.
pub open spec fn npc_closed_message(name: Seq<char>) -> Seq<char> {
    name + " 今天已经结束沟通。"@
}

/// The probe message: name, model label, the chosen prompt line, and both
/// option summaries.
pub open spec fn npc_probe_message(npc: NpcEncounter, prompt: Seq<char>) -> Seq<char> {
    npc.name@ + " · "@ + npc.ai_model@ + "："@ + prompt + "\n\n同意："@
        + npc.accept_option.summary@ + "\n拒绝："@ + npc.reject_option.summary@
}

/// The resolution message: name, the chosen option's summary, and the
/// signed deltas.
pub open spec fn npc_resolve_message(npc: NpcEncounter, opt: NpcOption, skill: int, stress: int) -> Seq<
    char,
> {
    npc.name@ + "："@ + opt.summary@ + " | 技能"@ + delta_str(skill) + " | 压力"@ + delta_str(
        stress,
    )
}

/// The history record of a resolved NPC interaction.
pub open spec fn npc_history_record(npc: NpcEncounter, opt: NpcOption, label: Seq<char>) -> Seq<
    char,
> {
    "【NPC】"@ + npc.name@ + " - "@ + opt.detail@ + " ("@ + label + ")"@
}

/// `w` lists one roster index per entry of `today`, the indices pairwise
/// distinct, each entry playing the role of its witnessed roster NPC.
pub open spec fn distinct_roster_witness(
    master: Seq<NpcEncounter>,
    today: Seq<NpcEncounter>,
    w: Seq<int>,
) -> bool {
    &&& w.len() == today.len()
    &&& forall|a: int, b: int| 0 <= a < b < w.len() ==> w[a] != w[b]
    &&& forall|a: int|
        0 <= a < w.len() ==> 0 <= #[trigger] w[a] < master.len() && same_npc_role(
            today[a],
            master[w[a]],
        )
}

/// Today's subset is drawn from the roster without replacement: its
/// entries come from pairwise distinct roster NPCs.
pub open spec fn drawn_without_replacement(
    master: Seq<NpcEncounter>,
    today: Seq<NpcEncounter>,
) -> bool {
    exists|w: Seq<int>| distinct_roster_witness(master, today, w)
}

/// One play session's state.
pub struct GameState {
    pub player: PlayerState,
    pub current_day: u32,
    pub current_week: u32,
    pub daily_events: Vec<DailyEvent>,
    pub weekly_events: Vec<WeeklyEvent>,
    pub start_time: instant::Instant,
    pub today_event: DailyEvent,
    pub today_weekly_event: Option<WeeklyEvent>,
    pub event_chosen_today: bool,
    pub weekly_event_chosen_today: bool,
    pub npc_master: Vec<NpcEncounter>,
    pub today_npcs: Vec<NpcEncounter>,
    pub npc_interaction_message: String,
    pub npc_active_event: Option<NpcActiveEvent>,
}

/// Relates a state to the one it was advanced from by one `next_day`
/// call: counters moved, guards cleared, fresh draws made, catalog and
/// player resources untouched.
pub open spec fn advanced_by_one_day(g2: GameState, g1: GameState) -> bool {
    &&& g2.current_day == g1.current_day + 1
    &&& g2.player == (PlayerState {
        days_played: (g1.player.days_played + 1) as u32,
        ..g1.player
    })
    &&& !g2.event_chosen_today
    &&& !g2.weekly_event_chosen_today
    &&& g2.current_week == if (g1.current_day + 1) % (7int) == 0 {
        g1.current_week + 1
    } else {
        g1.current_week as int
    }
    &&& ((g1.current_day + 1) % (7int) == 0) <==> (g2.today_weekly_event is Some)
    &&& g2.daily_events == g1.daily_events
    &&& g2.weekly_events == g1.weekly_events
    &&& g2.npc_master == g1.npc_master
    &&& g2.start_time == g1.start_time
    &&& exists|i: int|
        0 <= i < g1.daily_events@.len() && same_daily_content(
            g2.today_event,
            #[trigger] g1.daily_events@[i],
        )
    &&& (g2.today_weekly_event matches Some(w) ==> exists|i: int|
        0 <= i < g1.weekly_events@.len() && same_weekly_content(
            w,
            #[trigger] g1.weekly_events@[i],
        ))
    &&& 1 <= g2.today_npcs@.len() <= 3
    &&& g2.today_npcs@.len() <= g1.npc_master@.len()
    &&& forall|i: int|
        0 <= i < g2.today_npcs@.len() ==> !(#[trigger] g2.today_npcs@[i]).interacted
    &&& drawn_without_replacement(g1.npc_master@, g2.today_npcs@)
    &&& g2.npc_active_event is None
    &&& g2.npc_interaction_message@.len() == 0
}

impl GameState {
    /// The standing invariant of a session.
    pub open spec fn well_formed(&self) -> bool {
        &&& self.player.well_formed()
        &&& self.daily_events@.len() > 0
        &&& self.weekly_events@.len() > 0
        &&& self.npc_master@.len() > 0
        &&& forall|i: int|
            0 <= i < self.daily_events@.len() ==> (
            #[trigger] self.daily_events@[i]).options_shuffled()
        &&& forall|i: int|
            0 <= i < self.weekly_events@.len() ==> (
            #[trigger] self.weekly_events@[i]).options_shuffled()
        &&& forall|i: int|
            0 <= i < self.npc_master@.len() ==> (#[trigger] self.npc_master@[i]).well_formed()
                && !self.npc_master@[i].interacted
        &&& self.today_event.options_shuffled()
        &&& (self.today_weekly_event matches Some(w) ==> w.options_shuffled())
        &&& self.today_npcs@.len() <= 3
        &&& forall|i: int|
            0 <= i < self.today_npcs@.len() ==> (#[trigger] self.today_npcs@[i]).well_formed()
    }

    /// Opens a session: builds the catalog, draws and reshuffles the first
    /// day's event, leaves the weekly slot empty, and draws the first NPC
    /// subset.
    pub fn new(name: String) -> (g: GameState)
        ensures
            g.well_formed(),
            g.player.name == name,
            g.player.experience == 0,
            g.player.skills == 0,
            g.player.pressure == 0,
            g.player.days_played == 0,
            g.player.is_alive,
            g.player.realm_level == 1,
            g.player.promotion_attempts == 0,
            g.player.history@.len() == 0,
            g.player.zero_pressure_streak == 0,
            !g.player.died_from_zero_pressure,
            g.current_day == 1,
            g.current_week == 1,
            g.today_weekly_event is None,
            !g.event_chosen_today,
            !g.weekly_event_chosen_today,
            g.daily_events@.len() == DAILY_EVENT_COUNT,
            g.weekly_events@.len() == WEEKLY_EVENT_COUNT,
            g.npc_master@.len() == NPC_COUNT,
            1 <= g.today_npcs@.len() <= 3,
            forall|i: int|
                0 <= i < g.today_npcs@.len() ==> !(#[trigger] g.today_npcs@[i]).interacted,
            drawn_without_replacement(g.npc_master@, g.today_npcs@),
            g.npc_active_event is None,
            g.npc_interaction_message@.len() == 0,
            exists|i: int|
                0 <= i < g.daily_events@.len() && same_daily_content(
                    g.today_event,
                    #[trigger] g.daily_events@[i],
                ),
    {
        let daily_events = create_daily_events();
        let weekly_events = create_weekly_events();
        let npc_master = create_npcs();

        let idx = crate::rng::rand_index(daily_events.len());
        let mut today_event = daily_events[idx].clone();
        today_event.reshuffle();

        let mut state = GameState {
            player: PlayerState::new(name),
            current_day: 1,
            current_week: 1,
            daily_events,
            weekly_events,
            start_time: crate::clock::instant_now(),
            today_event,
            today_weekly_event: None,
            event_chosen_today: false,
            weekly_event_chosen_today: false,
            npc_master,
            today_npcs: Vec::new(),
            npc_interaction_message: String::new(),
            npc_active_event: None,
        };
        state.refresh_today_npcs();
        state
    }

    /// Rotates the NPC side of "today": shuffles the roster order, takes
    /// a random count between 1 and 3 of pairwise distinct roster NPCs,
    /// clears every flag and any prompt in progress.
    fn refresh_today_npcs(&mut self)
        requires
            old(self).npc_master@.len() > 0,
            forall|i: int|
                0 <= i < old(self).npc_master@.len() ==> (
                #[trigger] old(self).npc_master@[i]).well_formed(),
        ensures
            *final(self) == (GameState {
                today_npcs: final(self).today_npcs,
                npc_interaction_message: final(self).npc_interaction_message,
                npc_active_event: None,
                ..*old(self)
            }),
            final(self).npc_interaction_message@.len() == 0,
            1 <= final(self).today_npcs@.len() <= 3,
            final(self).today_npcs@.len() <= old(self).npc_master@.len(),
            forall|i: int|
                0 <= i < final(self).today_npcs@.len() ==> !(
                #[trigger] final(self).today_npcs@[i]).interacted
                    && final(self).today_npcs@[i].well_formed(),
            drawn_without_replacement(old(self).npc_master@, final(self).today_npcs@),
    {
        let master_len = self.npc_master.len();
        let mut order: Vec<usize> = Vec::new();
        let mut k: usize = 0;
        while k < master_len
            invariant
                k <= master_len,
                order@.len() == k,
                forall|j: int| 0 <= j < k ==> #[trigger] order@[j] == j,
            decreases master_len - k,
        {
            order.push(k);
            k = k + 1;
        }
        let ghost roster_order = order@;
        crate::rng::shuffle_vec(&mut order);
        proof {
            broadcast use vstd::seq_lib::group_to_multiset_ensures;

            assert(roster_order.no_duplicates());
            roster_order.lemma_multiset_has_no_duplicates();
            order@.lemma_multiset_has_no_duplicates_conv();
            assert forall|c: int| 0 <= c < order@.len() implies #[trigger] order@[c]
                < master_len by {
                assert(order@.contains(order@[c]));
                assert(roster_order.to_multiset().count(order@[c]) > 0);
                assert(roster_order.contains(order@[c]));
                let j = choose|j: int|
                    0 <= j < roster_order.len() && roster_order[j] == order@[c];
                assert(roster_order[j] == j);
            }
        }
        let max_take = if master_len < 3 {
            master_len
        } else {
            3
        };
        let take = 1 + crate::rng::rand_index(max_take);
        let mut today: Vec<NpcEncounter> = Vec::new();
        let mut i: usize = 0;
        while i < take
            invariant
                *self == *old(self),
                master_len == self.npc_master@.len(),
                forall|j: int|
                    0 <= j < old(self).npc_master@.len() ==> (
                    #[trigger] old(self).npc_master@[j]).well_formed(),
                i <= take,
                take <= 3,
                take <= master_len,
                order@.len() == master_len,
                order@.no_duplicates(),
                forall|c: int| 0 <= c < order@.len() ==> #[trigger] order@[c] < master_len,
                today@.len() == i,
                forall|c: int|
                    0 <= c < i ==> !(#[trigger] today@[c]).interacted && today@[c].well_formed()
                        && same_npc_role(today@[c], old(self).npc_master@[order@[c] as int]),
            decreases take - i,
        {
            let roster_index = order[i];
            let mut n = self.npc_master[roster_index].clone();
            n.interacted = false;
            today.push(n);
            i = i + 1;
        }
        self.today_npcs = today;
        self.npc_interaction_message = String::new();
        self.npc_active_event = None;
        proof {
            let w = Seq::<int>::new(self.today_npcs@.len(), |a: int| order@[a] as int);
            assert(distinct_roster_witness(old(self).npc_master@, self.today_npcs@, w));
        }
    }

    /// Probes an NPC of today's subset: a no-op advisory when the player
    /// is gone or the NPC was already handled; otherwise it stores an
    /// active prompt with a randomly chosen prompt line and reports it.
    /// Probing never changes the player or the subset.
    pub fn trigger_npc_event(&mut self, index: usize) -> (r: Option<String>)
        ensures
            *final(self) == (GameState {
                npc_interaction_message: final(self).npc_interaction_message,
                npc_active_event: final(self).npc_active_event,
                ..*old(self)
            }),
            !old(self).player.is_alive ==> {
                &&& final(self).npc_active_event is None
                &&& final(self).npc_interaction_message@ == npc_dead_message()
                &&& (r matches Some(m) && m@ == npc_dead_message())
            },
            old(self).player.is_alive && index >= old(self).today_npcs@.len() ==> *final(self)
                == *old(self) && r is None,
            old(self).player.is_alive && index < old(self).today_npcs@.len() && old(self).today_npcs@[index as int].interacted ==> {
                &&& final(self).npc_active_event is None
                &&& final(self).npc_interaction_message@ == npc_done_message(
                    old(self).today_npcs@[index as int].name@,
                )
                &&& (r matches Some(m) && m@ == npc_done_message(
                    old(self).today_npcs@[index as int].name@,
                ))
            },
            old(self).player.is_alive && index < old(self).today_npcs@.len() && !old(self).today_npcs@[index as int].interacted ==> {
                &&& (final(self).npc_active_event matches Some(a) && a.npc_index == index
                    && valid_prompt(old(self).today_npcs@[index as int], a.prompt@) && final(self).npc_interaction_message@ == npc_probe_message(
                    old(self).today_npcs@[index as int],
                    a.prompt@,
                ))
                &&& (r matches Some(m) && m@ == final(self).npc_interaction_message@)
            },
    {
        if !self.player.is_alive {
            self.npc_active_event = None;
            self.npc_interaction_message = String::from_str("你已离开公司，无法继续和 NPC 交互。");
            return Some(self.npc_interaction_message.clone());
        }

        if index >= self.today_npcs.len() {
            return None;
        }
        let npc = self.today_npcs[index].clone();

        if npc.interacted {
            let mut m = npc.name.clone();
            m.append(" 今天的请求已经处理完。");
            self.npc_interaction_message = m;
            self.npc_active_event = None;
            return Some(self.npc_interaction_message.clone());
        }

        let dialogue = npc.random_dialogue();
        proof {
            assert(valid_prompt(old(self).today_npcs@[index as int], dialogue@));
        }
        self.npc_active_event = Some(
            NpcActiveEvent { npc_index: index, prompt: dialogue.clone() },
        );
        let mut m = npc.name.clone();
        m.append(" · ");
        m.append(npc.ai_model.as_str());
        m.append("：");
        m.append(dialogue.as_str());
        m.append("\n\n同意：");
        m.append(npc.accept_option.summary.as_str());
        m.append("\n拒绝：");
        m.append(npc.reject_option.summary.as_str());
        proof {
            assert(m@ =~= npc_probe_message(old(self).today_npcs@[index as int], dialogue@));
        }
        self.npc_interaction_message = m;
        Some(self.npc_interaction_message.clone())
    }

    /// Resolves the active NPC prompt with a decision: marks the NPC
    /// handled for today, applies the chosen option's reward, logs it,
    /// clears the prompt, and reports the outcome.  Without an active
    /// prompt there is nothing to resolve.
    pub fn resolve_active_npc_event(&mut self, decision: NpcDecision) -> (r: Option<String>)
        requires
            old(self).player.days_played < u32::MAX,
        ensures
            *final(self) == (GameState {
                player: final(self).player,
                today_npcs: final(self).today_npcs,
                npc_interaction_message: final(self).npc_interaction_message,
                npc_active_event: final(self).npc_active_event,
                ..*old(self)
            }),
            !old(self).player.is_alive ==> {
                &&& final(self).player == old(self).player
                &&& final(self).today_npcs == old(self).today_npcs
                &&& final(self).npc_active_event is None
                &&& final(self).npc_interaction_message@ == npc_dead_message()
                &&& (r matches Some(m) && m@ == npc_dead_message())
            },
            old(self).player.is_alive && old(self).npc_active_event is None ==> *final(self)
                == *old(self) && r is None,
            old(self).player.is_alive && (old(self).npc_active_event matches Some(a)
                && a.npc_index >= old(self).today_npcs@.len()) ==> *final(self) == *old(self)
                && r is None,
            old(self).player.is_alive && (old(self).npc_active_event matches Some(a)
                && a.npc_index < old(self).today_npcs@.len() && old(self).today_npcs@[a.npc_index as int].interacted) ==> {
                &&& final(self).player == old(self).player
                &&& final(self).today_npcs == old(self).today_npcs
                &&& final(self).npc_active_event is None
                &&& final(self).npc_interaction_message@ == npc_closed_message(
                    old(self).today_npcs@[old(self).npc_active_event->Some_0.npc_index as int].name@,
                )
                &&& (r matches Some(m) && m@ == final(self).npc_interaction_message@)
            },
            old(self).player.is_alive && (old(self).npc_active_event matches Some(a)
                && a.npc_index < old(self).today_npcs@.len() && !old(self).today_npcs@[a.npc_index as int].interacted) ==> ({
                let idx = old(self).npc_active_event->Some_0.npc_index as int;
                let npc = old(self).today_npcs@[idx];
                let opt = if decision == NpcDecision::Accept {
                    npc.accept_option
                } else {
                    npc.reject_option
                };
                let label = if decision == NpcDecision::Accept {
                    "同意"@
                } else {
                    "拒绝"@
                };
                let rewarded = gain_transition(
                    old(self).player,
                    opt.reward.0 as int,
                    opt.reward.1 as int,
                );
                &&& final(self).player == (PlayerState {
                    history: final(self).player.history,
                    ..rewarded
                })
                &&& final(self).player.history_lines() == capped_push(
                    old(self).player.history_lines(),
                    history_line(
                        old(self).player.days_played + 1,
                        npc_history_record(npc, opt, label),
                        opt.reward.0 as int,
                        opt.reward.1 as int,
                    ),
                )
                &&& final(self).today_npcs@.len() == old(self).today_npcs@.len()
                &&& forall|j: int|
                    0 <= j < old(self).today_npcs@.len() && j != idx ==> final(self).today_npcs@[j] == old(self).today_npcs@[j]
                &&& same_npc_role(final(self).today_npcs@[idx], npc)
                &&& final(self).today_npcs@[idx].interacted
                &&& final(self).npc_active_event is None
                &&& final(self).npc_interaction_message@ == npc_resolve_message(
                    npc,
                    opt,
                    opt.reward.0 as int,
                    opt.reward.1 as int,
                )
                &&& (r matches Some(m) && m@ == final(self).npc_interaction_message@)
            }),
    {
        if !self.player.is_alive {
            self.npc_active_event = None;
            self.npc_interaction_message = String::from_str("你已离开公司，无法继续和 NPC 交互。");
            return Some(self.npc_interaction_message.clone());
        }

        let active = match &self.npc_active_event {
            Some(a) => a.clone(),
            None => {
                return None;
            },
        };
        if active.npc_index >= self.today_npcs.len() {
            return None;
        }
        let npc = self.today_npcs[active.npc_index].clone();

        if npc.interacted {
            self.npc_active_event = None;
            let mut m = npc.name.clone();
            m.append(" 今天已经结束沟通。");
            self.npc_interaction_message = m;
            return Some(self.npc_interaction_message.clone());
        }

        let (label, option): (&str, NpcOption) = match decision {
            NpcDecision::Accept => ("同意", npc.accept_option.clone()),
            NpcDecision::Reject => ("拒绝", npc.reject_option.clone()),
        };

        let mut handled = self.today_npcs[active.npc_index].clone();
        handled.interacted = true;
        self.today_npcs.set(active.npc_index, handled);

        let skill = option.reward.0;
        let pressure = option.reward.1;
        self.player.gain_reward(skill, pressure);

        let mut record = String::from_str("【NPC】");
        record.append(npc.name.as_str());
        record.append(" - ");
        record.append(option.detail.as_str());
        record.append(" (");
        record.append(label);
        record.append(")");
        proof {
            reveal_strlit("同意");
            reveal_strlit("拒绝");
            let idx = old(self).npc_active_event->Some_0.npc_index as int;
            let the_npc = old(self).today_npcs@[idx];
            let the_opt = if decision == NpcDecision::Accept {
                the_npc.accept_option
            } else {
                the_npc.reject_option
            };
            let the_label = if decision == NpcDecision::Accept {
                "同意"@
            } else {
                "拒绝"@
            };
            assert(record@ =~= npc_history_record(the_npc, the_opt, the_label));
        }
        self.player.add_history(record, skill, pressure);

        let mut m = npc.name.clone();
        m.append("：");
        m.append(option.summary.as_str());
        m.append(" | 技能");
        let skill_text = format_delta(skill);
        m.append(skill_text.as_str());
        m.append(" | 压力");
        let pressure_text = format_delta(pressure);
        m.append(pressure_text.as_str());
        proof {
            let idx = old(self).npc_active_event->Some_0.npc_index as int;
            let the_npc = old(self).today_npcs@[idx];
            let the_opt = if decision == NpcDecision::Accept {
                the_npc.accept_option
            } else {
                the_npc.reject_option
            };
            assert(m@ =~= npc_resolve_message(
                the_npc,
                the_opt,
                the_opt.reward.0 as int,
                the_opt.reward.1 as int,
            ));
        }
        self.npc_interaction_message = m;
        self.npc_active_event = None;
        Some(self.npc_interaction_message.clone())
    }

    /// Today's daily event.
    pub fn get_today_event(&self) -> (e: &DailyEvent)
        ensures
            *e == self.today_event,
    {
        &self.today_event
    }

    /// Today's weekly event, present only on each seventh day before it
    /// is completed.
    pub fn get_weekly_event(&self) -> (w: Option<&WeeklyEvent>)
        ensures
            w is Some <==> self.today_weekly_event is Some,
            w matches Some(e) ==> *e == self.today_weekly_event->Some_0,
    {
        self.today_weekly_event.as_ref()
    }

    /// Rotates to the next day: moves the counters, clears the choice
    /// guards, draws and reshuffles a fresh daily event, draws a weekly
    /// event exactly on each seventh day, and refreshes the NPC subset.
    pub fn next_day(&mut self)
        requires
            old(self).well_formed(),
            old(self).current_day < u32::MAX,
            old(self).current_week < u32::MAX,
            old(self).player.days_played < u32::MAX,
        ensures
            final(self).well_formed(),
            advanced_by_one_day(*final(self), *old(self)),
    {
        self.current_day = self.current_day + 1;
        self.player.days_played = self.player.days_played + 1;
        self.event_chosen_today = false;
        self.weekly_event_chosen_today = false;

        if self.current_day % 7 == 0 {
            self.current_week = self.current_week + 1;
        }

        let idx = crate::rng::rand_index(self.daily_events.len());
        self.today_event = self.daily_events[idx].clone();
        self.today_event.reshuffle();

        if self.current_day % 7 == 0 {
            let widx = crate::rng::rand_index(self.weekly_events.len());
            let mut weekly = self.weekly_events[widx].clone();
            weekly.reshuffle();
            self.today_weekly_event = Some(weekly);
        } else {
            self.today_weekly_event = None;
        }

        self.refresh_today_npcs();
    }

    /// Whole seconds since the session began; the value depends on the
    /// clock.
    pub fn get_elapsed_seconds(&self) -> u64 {
        crate::clock::elapsed_whole_seconds(&self.start_time)
    }

    /// The session duration rendered as `H:MM:SS`; the seconds value
    /// depends on the clock, the rendering is exact for whatever it was.
    pub fn format_time(&self) -> (s: String)
        ensures
            exists|secs: int| 0 <= secs && s@ == #[trigger] crate::text::clock_str(secs as nat),
    {
        let seconds = self.get_elapsed_seconds();
        let s = format_clock(seconds);
        proof {
            let gs: int = seconds as int;
            assert(0 <= gs && s@ == crate::text::clock_str(gs as nat));
        }
        s
    }
}

} // verus!
