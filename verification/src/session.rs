//! The session controller: the four externally visible phases, the guard
//! checks around daily and weekly choices, the day-advance sequence
//! (death check, promotion gate, rotation), and the advisory messages
//! shown to the player.

use vstd::prelude::*;
use vstd::string::StringExecFns;

use crate::events::{DailyEvent, OptionInfo, WeeklyEvent};
use crate::game::{advanced_by_one_day, GameState};
use crate::player::{
    capped_push, death_message, death_transition, failure_percent, gain_transition, half_toward_zero,
    history_line, promotion_failure_message, promotion_requirement, promotion_success_message,
    promotion_transition, PlayerState,
};
use crate::realm::{realm_name, realm_of_experience};
use crate::text::{
    clock_str, dec_str, first_line, first_line_of, is_blank, is_blank_str, push_i32_signed,
    push_u64_decimal, signed_str,
};

verus! {

/// The phase the session shows to the outside.
#[derive(Debug, Clone, Copy, PartialEq, Eq, Structural)]
pub enum GamePhase {
    Start,
    EventDisplay,
    WeeklyEventDisplay,
    PromotionConfirm,
    GameOver,
}

/// Advisory shown when today's daily choice was already made.
pub open spec fn already_chosen_message() -> Seq<char> {
    "今天已经选择过了！\n按 \"进入下一天\" 继续"@
}

/// Advisory shown when this week's event was already completed.
pub open spec fn weekly_done_message() -> Seq<char> {
    "本周事件已完成！\n点击 \"进入下一天\" 继续"@
}

/// The story shown after a daily choice; a pending weekly event is
/// announced with it.
pub open spec fn daily_story_message(story: Seq<char>, weekly: Option<WeeklyEvent>) -> Seq<char> {
    match weekly {
        Some(w) => "📖 "@ + story + "\n\n⚠️ 周事件触发："@ + w.name@,
        None => "📖 "@ + story + "\n\n点击 \"进入下一天\" 继续"@,
    }
}

/// The story shown after a weekly choice.
pub open spec fn weekly_story_message(story: Seq<char>) -> Seq<char> {
    "📖 "@ + story + "\n\n周事件完成！点击 \"进入下一天\" 继续"@
}

/// The record line of a daily choice: event name, the first line of the
/// chosen option, and its story.
pub open spec fn daily_choice_record(e: DailyEvent, o: OptionInfo) -> Seq<char> {
    e.name@ + " - "@ + first_line(o.desc@) + "\n💬 "@ + o.story@
}

/// The record line of a weekly choice.
pub open spec fn weekly_choice_record(w: WeeklyEvent, o: OptionInfo) -> Seq<char> {
    "【周事件】"@ + w.name@ + " - "@ + first_line(o.desc@) + "\n💬 "@ + o.story@
}

/// The game-over report: cause, session clock, days, resources, rank.
pub open spec fn game_over_message(p: PlayerState, clock: Seq<char>) -> Seq<char> {
    "【"@ + death_message(p) + "】\n\n游玩时间: "@ + clock + "\n天数: "@ + dec_str(
        p.days_played as nat,
    ) + "\n技能点: "@ + signed_str(p.skills as int) + "\n压力值: "@ + signed_str(p.pressure as int)
        + "\n修仙境界: "@ + realm_name(realm_of_experience(p.experience as nat))
}

/// The prompt shown when a promotion decision is pending.
pub open spec fn promotion_prompt_message(attempts: int) -> Seq<char> {
    "你已积累足够经验！\n是否选择晋升？\n(失败率: "@ + dec_str(failure_percent(attempts) as nat)
        + "%)\n点击下方按钮进行选择"@
}

/// The tail appended to a failed promotion's message.
pub open spec fn retry_promotion_suffix() -> Seq<char> {
    "\n\n点击 \"进入下一天\" 继续努力"@
}

/// A play session as the presentation layer drives it: the phase, the
/// engine state once a session started, and the last advisory or story
/// message.
pub struct GameApp {
    pub phase: GamePhase,
    pub game_state: Option<GameState>,
    pub result_message: String,
}

impl GameApp {
    /// The standing invariant: a started session is well formed, and
    /// before any session starts the phase is `Start`.
    pub open spec fn well_formed(&self) -> bool {
        &&& (self.game_state matches Some(g) ==> g.well_formed())
        &&& (self.game_state is None ==> self.phase == GamePhase::Start)
    }

    /// A fresh controller, no session yet.
    pub fn new() -> (a: GameApp)
        ensures
            a.well_formed(),
            a.phase == GamePhase::Start,
            a.game_state is None,
            a.result_message@.len() == 0,
    {
        GameApp { phase: GamePhase::Start, game_state: None, result_message: String::new() }
    }

    /// Starts a session under the given name; a name of nothing but
    /// white space is refused without any change.
    pub fn start_game(&mut self, name: String)
        requires
            old(self).well_formed(),
        ensures
            final(self).well_formed(),
            is_blank(name@) ==> *final(self) == *old(self),
            !is_blank(name@) ==> {
                &&& final(self).phase == GamePhase::EventDisplay
                &&& (final(self).game_state matches Some(g) && g.player.name == name
                    && g.current_day == 1 && g.current_week == 1 && g.player.skills == 0
                    && g.player.pressure == 0 && g.player.experience == 0 && g.player.is_alive
                    && !g.event_chosen_today && !g.weekly_event_chosen_today
                    && g.today_weekly_event is None && g.player.days_played == 0)
                &&& final(self).result_message@.len() == 0
            },
    {
        if !is_blank_str(name.as_str()) {
            self.game_state = Some(GameState::new(name));
            self.phase = GamePhase::EventDisplay;
            self.result_message = String::new();
        }
    }

    /// Discards the session and returns to the start screen.
    pub fn restart(&mut self)
        ensures
            final(self).well_formed(),
            final(self).phase == GamePhase::Start,
            final(self).game_state is None,
            final(self).result_message@.len() == 0,
    {
        *self = GameApp::new();
    }

    /// Whether a daily choice may be applied now.
    pub fn can_make_daily_choice(&self) -> (b: bool)
        ensures
            b == (self.game_state matches Some(g) && !g.event_chosen_today),
    {
        match &self.game_state {
            Some(g) => !g.event_chosen_today,
            None => false,
        }
    }

    /// Whether a weekly choice may be applied now.
    pub fn can_make_weekly_choice(&self) -> (b: bool)
        ensures
            b == (self.game_state matches Some(g) && g.today_weekly_event is Some
                && !g.weekly_event_chosen_today),
    {
        match &self.game_state {
            Some(g) => g.today_weekly_event.is_some() && !g.weekly_event_chosen_today,
            None => false,
        }
    }

    /// Applies a choice by its 1-based display position, against today's
    /// daily event or — in the weekly phase — the pending weekly event.
    /// Each is allowed once; a position that names no presented option
    /// (0, or past the three shown) changes nothing; a repeated attempt
    /// only updates the advisory message.
    pub fn apply_choice(&mut self, choice: u8)
        requires
            old(self).well_formed(),
            old(self).game_state matches Some(g) ==> g.player.days_played < u32::MAX,
        ensures
            final(self).well_formed(),
            old(self).game_state is None || !(old(self).phase == GamePhase::EventDisplay || old(self).phase == GamePhase::WeeklyEventDisplay) ==> *final(self) == *old(self),
            old(self).game_state matches Some(g) ==> {
                &&& (old(self).phase == GamePhase::EventDisplay && g.event_chosen_today) ==> {
                    &&& final(self).game_state == old(self).game_state
                    &&& final(self).phase == old(self).phase
                    &&& final(self).result_message@ == already_chosen_message()
                }
                &&& (old(self).phase == GamePhase::EventDisplay && !g.event_chosen_today && (
                choice == 0 || choice as int - 1 >= g.today_event.shuffled_options@.len()))
                    ==> *final(self) == *old(self)
                &&& (old(self).phase == GamePhase::EventDisplay && !g.event_chosen_today && 1
                    <= choice && choice as int - 1 < g.today_event.shuffled_options@.len()) ==> ({
                    let idx = choice as int - 1;
                    let o = g.today_event.shuffled_options@[idx];
                    let rewarded = gain_transition(g.player, o.value.0 as int, o.value.1 as int);
                    &&& (final(self).game_state matches Some(g2) && {
                        &&& g2 == (GameState {
                            player: g2.player,
                            event_chosen_today: true,
                            ..g
                        })
                        &&& g2.player == (PlayerState { history: g2.player.history, ..rewarded })
                        &&& g2.player.history_lines() == capped_push(
                            g.player.history_lines(),
                            history_line(
                                g.player.days_played + 1,
                                daily_choice_record(g.today_event, o),
                                o.value.0 as int,
                                o.value.1 as int,
                            ),
                        )
                    })
                    &&& (g.today_weekly_event is Some ==> final(self).phase
                        == GamePhase::WeeklyEventDisplay)
                    &&& (g.today_weekly_event is None ==> final(self).phase
                        == GamePhase::EventDisplay)
                    &&& final(self).result_message@ == daily_story_message(
                        o.story@,
                        g.today_weekly_event,
                    )
                })
                &&& (old(self).phase == GamePhase::WeeklyEventDisplay
                    && g.weekly_event_chosen_today) ==> {
                    &&& final(self).game_state == old(self).game_state
                    &&& final(self).phase == old(self).phase
                    &&& final(self).result_message@ == weekly_done_message()
                }
                &&& (old(self).phase == GamePhase::WeeklyEventDisplay
                    && !g.weekly_event_chosen_today && g.today_weekly_event is None) ==> *final(self) == *old(self)
                &&& (old(self).phase == GamePhase::WeeklyEventDisplay
                    && !g.weekly_event_chosen_today && (g.today_weekly_event matches Some(w) && (
                choice == 0 || choice as int - 1 >= w.shuffled_options@.len()))) ==> *final(self)
                    == *old(self)
                &&& (old(self).phase == GamePhase::WeeklyEventDisplay
                    && !g.weekly_event_chosen_today && (g.today_weekly_event matches Some(w) && 1
                    <= choice && choice as int - 1 < w.shuffled_options@.len())) ==> ({
                    let idx = choice as int - 1;
                    let w = g.today_weekly_event->Some_0;
                    let o = w.shuffled_options@[idx];
                    let rewarded = gain_transition(g.player, o.value.0 as int, o.value.1 as int);
                    &&& (final(self).game_state matches Some(g2) && {
                        &&& g2 == (GameState {
                            player: g2.player,
                            weekly_event_chosen_today: true,
                            today_weekly_event: None,
                            ..g
                        })
                        &&& g2.player == (PlayerState { history: g2.player.history, ..rewarded })
                        &&& g2.player.history_lines() == capped_push(
                            g.player.history_lines(),
                            history_line(
                                g.player.days_played + 1,
                                weekly_choice_record(w, o),
                                o.value.0 as int,
                                o.value.1 as int,
                            ),
                        )
                    })
                    &&& final(self).phase == GamePhase::EventDisplay
                    &&& final(self).result_message@ == weekly_story_message(o.story@)
                })
            },
    {
        if self.phase == GamePhase::EventDisplay {
            let game = match &mut self.game_state {
                Some(g) => g,
                None => {
                    return ;
                },
            };
            if game.event_chosen_today {
                self.result_message = String::from_str(
                    "今天已经选择过了！\n按 \"进入下一天\" 继续",
                );
                return ;
            }
            if choice == 0 {
                return ;
            }
            let idx = (choice - 1) as usize;
            if idx >= game.today_event.shuffled_options.len() {
                return ;
            }
            let option = game.today_event.shuffled_options[idx].clone();
            let skill_reward = option.value.0;
            let pressure_change = option.value.1;

            game.player.gain_reward(skill_reward, pressure_change);

            let mut record = game.today_event.name.clone();
            record.append(" - ");
            let choice_text = first_line_of(&option.desc);
            record.append(choice_text.as_str());
            record.append("\n💬 ");
            record.append(option.story.as_str());
            proof {
                assert(record@ =~= daily_choice_record(
                    old(self).game_state->Some_0.today_event,
                    option,
                ));
            }
            game.player.add_history(record, skill_reward, pressure_change);

            game.event_chosen_today = true;

            let mut msg = String::from_str("📖 ");
            msg.append(option.story.as_str());
            match &game.today_weekly_event {
                Some(weekly) => {
                    msg.append("\n\n⚠️ 周事件触发：");
                    msg.append(weekly.name.as_str());
                    proof {
                        assert(msg@ =~= daily_story_message(
                            option.story@,
                            old(self).game_state->Some_0.today_weekly_event,
                        ));
                    }
                    self.phase = GamePhase::WeeklyEventDisplay;
                },
                None => {
                    msg.append("\n\n点击 \"进入下一天\" 继续");
                    proof {
                        assert(msg@ =~= daily_story_message(option.story@, None));
                    }
                },
            }
            self.result_message = msg;
        } else if self.phase == GamePhase::WeeklyEventDisplay {
            let game = match &mut self.game_state {
                Some(g) => g,
                None => {
                    return ;
                },
            };
            if game.weekly_event_chosen_today {
                self.result_message = String::from_str(
                    "本周事件已完成！\n点击 \"进入下一天\" 继续",
                );
                return ;
            }
            let weekly = match &game.today_weekly_event {
                Some(w) => w.clone(),
                None => {
                    return ;
                },
            };
            if choice == 0 {
                return ;
            }
            let idx = (choice - 1) as usize;
            if idx >= weekly.shuffled_options.len() {
                return ;
            }
            let option = weekly.shuffled_options[idx].clone();
            let skill_reward = option.value.0;
            let pressure_change = option.value.1;

            game.player.gain_reward(skill_reward, pressure_change);

            let mut record = String::from_str("【周事件】");
            record.append(weekly.name.as_str());
            record.append(" - ");
            let choice_text = first_line_of(&option.desc);
            record.append(choice_text.as_str());
            record.append("\n💬 ");
            record.append(option.story.as_str());
            proof {
                assert(record@ =~= weekly_choice_record(
                    old(self).game_state->Some_0.today_weekly_event->Some_0,
                    option,
                ));
            }
            game.player.add_history(record, skill_reward, pressure_change);

            game.weekly_event_chosen_today = true;
            game.today_weekly_event = None;

            let mut msg = String::from_str("📖 ");
            msg.append(option.story.as_str());
            msg.append("\n\n周事件完成！点击 \"进入下一天\" 继续");
            proof {
                assert(msg@ =~= weekly_story_message(option.story@));
            }
            self.phase = GamePhase::EventDisplay;
            self.result_message = msg;
        }
    }

    /// Ends the current day: runs the death check first; a dead player
    /// moves the session to game over with the full report, a promotable
    /// one to the pending promotion decision, and otherwise the day
    /// rotates.
    pub fn next_day(&mut self)
        requires
            old(self).well_formed(),
            old(self).game_state matches Some(g) ==> g.current_day < u32::MAX && g.current_week
                < u32::MAX && g.player.days_played < u32::MAX,
        ensures
            final(self).well_formed(),
            old(self).game_state is None ==> *final(self) == *old(self),
            old(self).game_state matches Some(g) ==> exists|zr: int, pr: int|
                {
                    &&& 0 <= zr < 100
                    &&& 0 <= pr < 100
                    &&& ({
                        let p2 = #[trigger] death_transition(g.player, zr, pr);
                        if !p2.is_alive {
                            &&& final(self).phase == GamePhase::GameOver
                            &&& (final(self).game_state matches Some(g2) && g2 == (GameState {
                                player: p2,
                                ..g
                            }))
                            &&& exists|secs: int|
                                0 <= secs && final(self).result_message@ == game_over_message(
                                    p2,
                                    #[trigger] clock_str(secs as nat),
                                )
                        } else if p2.skills >= promotion_requirement(p2.realm_level as int) {
                            &&& final(self).phase == GamePhase::PromotionConfirm
                            &&& (final(self).game_state matches Some(g2) && g2 == (GameState {
                                player: p2,
                                ..g
                            }))
                            &&& final(self).result_message@ == promotion_prompt_message(
                                p2.promotion_attempts as int,
                            )
                        } else {
                            &&& final(self).phase == GamePhase::EventDisplay
                            &&& (final(self).game_state matches Some(g2) && advanced_by_one_day(
                                g2,
                                GameState { player: p2, ..g },
                            ) && g2.well_formed())
                            &&& final(self).result_message@.len() == 0
                        }
                    })
                },
    {
        let game = match &mut self.game_state {
            Some(g) => g,
            None => {
                return ;
            },
        };
        game.player.check_death();

        if !game.player.is_alive {
            let clock = game.format_time();
            let mut m = String::from_str("【");
            m.append(game.player.get_death_message());
            m.append("】\n\n游玩时间: ");
            m.append(clock.as_str());
            m.append("\n天数: ");
            push_u64_decimal(&mut m, game.player.days_played as u64);
            m.append("\n技能点: ");
            push_i32_signed(&mut m, game.player.skills);
            m.append("\n压力值: ");
            push_i32_signed(&mut m, game.player.pressure);
            m.append("\n修仙境界: ");
            m.append(game.player.get_realm().display_name());
            self.phase = GamePhase::GameOver;
            self.result_message = m;
        } else if game.player.can_promote() {
            let attempts = game.player.promotion_attempts;
            let fp: u64 = if attempts >= 18 {
                95
            } else {
                5 * (attempts as u64 + 1)
            };
            let mut m = String::from_str("你已积累足够经验！\n是否选择晋升？\n(失败率: ");
            push_u64_decimal(&mut m, fp);
            m.append("%)\n点击下方按钮进行选择");
            self.phase = GamePhase::PromotionConfirm;
            self.result_message = m;
        } else {
            game.next_day();
            self.phase = GamePhase::EventDisplay;
            self.result_message = String::new();
        }
    }

    /// Accepts a pending promotion: on success the day also rotates; on
    /// failure the report carries the skill lost and the session stays
    /// where it was.
    pub fn promote_yes(&mut self)
        requires
            old(self).well_formed(),
            old(self).game_state matches Some(g) ==> g.current_day < u32::MAX && g.current_week
                < u32::MAX && g.player.days_played < u32::MAX && g.player.promotion_attempts
                < u32::MAX && g.player.realm_level < u32::MAX,
        ensures
            final(self).well_formed(),
            old(self).game_state is None ==> *final(self) == *old(self),
            old(self).game_state matches Some(g) ==> exists|roll: int|
                {
                    &&& 0 <= roll < 100
                    &&& ({
                        let p2 = #[trigger] promotion_transition(g.player, roll);
                        if roll >= failure_percent(g.player.promotion_attempts as int) {
                            &&& final(self).phase == GamePhase::EventDisplay
                            &&& (final(self).game_state matches Some(g2) && advanced_by_one_day(
                                g2,
                                GameState { player: p2, ..g },
                            ) && g2.well_formed())
                            &&& final(self).result_message@ == promotion_success_message(p2)
                        } else {
                            &&& final(self).phase == old(self).phase
                            &&& (final(self).game_state matches Some(g2) && g2 == (GameState {
                                player: p2,
                                ..g
                            }))
                            &&& final(self).result_message@ == promotion_failure_message(
                                half_toward_zero(g.player.skills as int),
                            ) + retry_promotion_suffix()
                        }
                    })
                },
    {
        let game = match &mut self.game_state {
            Some(g) => g,
            None => {
                return ;
            },
        };
        let (success, msg) = game.player.attempt_promotion();
        if success {
            game.next_day();
            self.phase = GamePhase::EventDisplay;
            self.result_message = msg;
        } else {
            let mut m = msg;
            m.append("\n\n点击 \"进入下一天\" 继续努力");
            self.result_message = m;
        }
    }

    /// Declines a pending promotion: the day simply rotates.
    pub fn promote_no(&mut self)
        requires
            old(self).well_formed(),
            old(self).game_state matches Some(g) ==> g.current_day < u32::MAX && g.current_week
                < u32::MAX && g.player.days_played < u32::MAX,
        ensures
            final(self).well_formed(),
            old(self).game_state is None ==> *final(self) == *old(self),
            old(self).game_state matches Some(g) ==> {
                &&& final(self).phase == GamePhase::EventDisplay
                &&& (final(self).game_state matches Some(g2) && advanced_by_one_day(g2, g)
                    && g2.well_formed())
                &&& final(self).result_message@.len() == 0
            },
    {
        let game = match &mut self.game_state {
            Some(g) => g,
            None => {
                return ;
            },
        };
        game.next_day();
        self.phase = GamePhase::EventDisplay;
        self.result_message = String::new();
    }

    /// The event panel to show now: title, description, the presented
    /// options, and whether it is the weekly event.
    pub fn current_event_metadata(&self) -> (r: Option<(String, String, Vec<OptionInfo>, bool)>)
        ensures
            self.game_state is None ==> r is None,
            self.game_state matches Some(g) ==> {
                &&& self.phase == GamePhase::WeeklyEventDisplay ==> match g.today_weekly_event {
                    Some(w) => r matches Some(t) && t.0@ == "【周事件】"@ + w.name@ && t.1
                        == w.description && t.2@ == w.shuffled_options@ && t.3,
                    None => r is None,
                }
                &&& self.phase != GamePhase::WeeklyEventDisplay ==> (r matches Some(t) && t.0@
                    == "【日常事件】"@ + g.today_event.name@ && t.1 == g.today_event.description
                    && t.2@ == g.today_event.shuffled_options@ && !t.3)
            },
    {
        let game = match &self.game_state {
            Some(g) => g,
            None => {
                return None;
            },
        };
        if self.phase == GamePhase::WeeklyEventDisplay {
            match &game.today_weekly_event {
                Some(weekly) => {
                    let mut title = String::from_str("【周事件】");
                    title.append(weekly.name.as_str());
                    let options = weekly.shuffled_options.clone();
                    proof {
                        assert(options@ =~= weekly.shuffled_options@);
                    }
                    Some((title, weekly.description.clone(), options, true))
                },
                None => None,
            }
        } else {
            let mut title = String::from_str("【日常事件】");
            title.append(game.today_event.name.as_str());
            let options = game.today_event.shuffled_options.clone();
            proof {
                assert(options@ =~= game.today_event.shuffled_options@);
            }
            Some((title, game.today_event.description.clone(), options, false))
        }
    }
}

} // verus!
