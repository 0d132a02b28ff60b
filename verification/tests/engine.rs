use xiuxian::catalog::{create_daily_events, create_npcs, create_weekly_events, make_daily_event};
use xiuxian::game::GameState;
use xiuxian::npc::NpcDecision;

#[test]
fn new_session_shape() {
    let g = GameState::new("修仙者".to_string());
    assert_eq!(g.player.name, "修仙者");
    assert_eq!(g.current_day, 1);
    assert_eq!(g.current_week, 1);
    assert!(g.today_weekly_event.is_none());
    assert!(!g.event_chosen_today);
    assert!(!g.weekly_event_chosen_today);
    assert_eq!(g.daily_events.len(), 39);
    assert_eq!(g.weekly_events.len(), 8);
    assert_eq!(g.npc_master.len(), 10);
    assert!(!g.today_npcs.is_empty() && g.today_npcs.len() <= 3);
    assert!(g.today_npcs.iter().all(|n| !n.interacted));
    assert!(g.npc_active_event.is_none());
    assert!(g.npc_interaction_message.is_empty());
    assert_eq!(g.today_event.shuffled_options.len(), 3);
}

#[test]
fn catalog_shape_is_contractual() {
    let daily = create_daily_events();
    assert_eq!(daily.len(), 39);
    for (i, e) in daily.iter().enumerate() {
        assert_eq!(e.id, i);
        assert_eq!(e.shuffled_options.len(), 3);
        let mut origins: Vec<u32> = e.shuffled_options.iter().map(|o| o.original_index).collect();
        origins.sort();
        assert_eq!(origins, vec![0, 1, 2]);
    }
    let weekly = create_weekly_events();
    assert_eq!(weekly.len(), 8);
    for (i, e) in weekly.iter().enumerate() {
        assert_eq!(e.id, i);
        assert_eq!(e.shuffled_options.len(), 3);
    }
    let npcs = create_npcs();
    assert_eq!(npcs.len(), 10);
    for n in npcs.iter() {
        assert!(!n.prompt_templates.is_empty());
        assert!(!n.interacted);
        assert!(!n.name.is_empty());
    }
}

#[test]
fn reshuffle_is_a_permutation_of_the_authored_options() {
    let mut e = make_daily_event(0);
    let authored = [
        (e.option_a, e.option_a_desc.clone(), 0u32),
        (e.option_b, e.option_b_desc.clone(), 1u32),
        (e.option_c, e.option_c_desc.clone(), 2u32),
    ];
    let mut seen = [0usize; 6];
    for _ in 0..1000 {
        e.reshuffle();
        assert_eq!(e.shuffled_options.len(), 3);
        // same three options, identified by their authored slot
        let mut presented: Vec<(i32, i32, u32)> = e
            .shuffled_options
            .iter()
            .map(|o| (o.value.0, o.value.1, o.original_index))
            .collect();
        presented.sort();
        let mut expected: Vec<(i32, i32, u32)> =
            authored.iter().map(|(v, _, k)| (v.0, v.1, *k)).collect();
        expected.sort();
        assert_eq!(presented, expected);
        for o in e.shuffled_options.iter() {
            let (value, desc, _) = &authored[o.original_index as usize];
            assert_eq!(o.value, *value);
            assert_eq!(&o.desc, desc);
        }
        let key = (
            e.shuffled_options[0].original_index,
            e.shuffled_options[1].original_index,
            e.shuffled_options[2].original_index,
        );
        let slot = match key {
            (0, 1, 2) => 0,
            (0, 2, 1) => 1,
            (1, 0, 2) => 2,
            (1, 2, 0) => 3,
            (2, 0, 1) => 4,
            (2, 1, 0) => 5,
            _ => panic!("not a permutation: {:?}", key),
        };
        seen[slot] += 1;
    }
    for (i, count) in seen.iter().enumerate() {
        assert!(
            *count >= 20,
            "ordering {} appeared only {} times in 1000 reshuffles",
            i,
            count
        );
    }
}

#[test]
fn next_day_rolls_the_week_on_day_seven() {
    let mut g = GameState::new("T".to_string());
    while g.current_day < 6 {
        g.next_day();
    }
    assert_eq!(g.current_day, 6);
    assert_eq!(g.current_week, 1);
    assert!(g.today_weekly_event.is_none());
    g.next_day();
    assert_eq!(g.current_day, 7);
    assert_eq!(g.current_week, 2);
    assert!(g.today_weekly_event.is_some());
    assert_eq!(g.today_weekly_event.as_ref().unwrap().shuffled_options.len(), 3);
    g.next_day();
    assert_eq!(g.current_day, 8);
    assert_eq!(g.current_week, 2);
    assert!(g.today_weekly_event.is_none());
}

#[test]
fn next_day_resets_guards_and_counts_days() {
    let mut g = GameState::new("T".to_string());
    g.event_chosen_today = true;
    g.weekly_event_chosen_today = true;
    let days = g.player.days_played;
    g.next_day();
    assert!(!g.event_chosen_today);
    assert!(!g.weekly_event_chosen_today);
    assert_eq!(g.player.days_played, days + 1);
    assert!(!g.today_npcs.is_empty() && g.today_npcs.len() <= 3);
    assert!(g.today_npcs.iter().all(|n| !n.interacted));
}

#[test]
fn npc_probe_shows_a_known_prompt() {
    let mut g = GameState::new("T".to_string());
    let npc = g.today_npcs[0].clone();
    let msg = g.trigger_npc_event(0).expect("probe must answer");
    let candidates: Vec<String> = npc
        .prompt_templates
        .iter()
        .map(|prompt| {
            format!(
                "{} · {}：{}\n\n同意：{}\n拒绝：{}",
                npc.name,
                npc.ai_model,
                prompt,
                npc.accept_option.summary,
                npc.reject_option.summary
            )
        })
        .collect();
    assert!(
        candidates.contains(&msg),
        "probe message was not built from a known prompt line: {}",
        msg
    );
    let active = g.npc_active_event.as_ref().expect("prompt must be active");
    assert_eq!(active.npc_index, 0);
    assert!(npc.prompt_templates.contains(&active.prompt));
}

#[test]
fn npc_resolve_grants_the_reward_once() {
    let mut g = GameState::new("T".to_string());
    let npc = g.today_npcs[0].clone();
    g.trigger_npc_event(0).expect("probe must answer");
    let msg = g.resolve_active_npc_event(NpcDecision::Accept).expect("resolve must answer");
    let (skill, stress) = npc.accept_option.reward;
    assert_eq!(g.player.skills, skill);
    assert_eq!(g.player.pressure, stress.clamp(0, 100));
    let delta = |v: i32| if v >= 0 { format!("+{}", v) } else { v.to_string() };
    assert_eq!(
        msg,
        format!(
            "{}：{} | 技能{} | 压力{}",
            npc.name,
            npc.accept_option.summary,
            delta(skill),
            delta(stress)
        )
    );
    assert!(g.today_npcs[0].interacted);
    assert!(g.npc_active_event.is_none());
    assert_eq!(g.player.history.len(), 1);
}

#[test]
fn probed_twice_reports_already_handled_without_changes() {
    let mut g = GameState::new("T".to_string());
    g.trigger_npc_event(0).expect("probe must answer");
    g.resolve_active_npc_event(NpcDecision::Reject).expect("resolve must answer");
    let skills = g.player.skills;
    let pressure = g.player.pressure;
    let history_len = g.player.history.len();
    let name = g.today_npcs[0].name.clone();
    let msg = g.trigger_npc_event(0).expect("second probe must answer");
    assert_eq!(msg, format!("{} 今天的请求已经处理完。", name));
    assert!(g.npc_active_event.is_none());
    assert_eq!(g.player.skills, skills);
    assert_eq!(g.player.pressure, pressure);
    assert_eq!(g.player.history.len(), history_len);
}

#[test]
fn resolve_without_a_prompt_is_a_no_op() {
    let mut g = GameState::new("T".to_string());
    let before_skills = g.player.skills;
    assert!(g.resolve_active_npc_event(NpcDecision::Accept).is_none());
    assert_eq!(g.player.skills, before_skills);
    assert_eq!(g.player.history.len(), 0);
}

#[test]
fn probe_out_of_range_is_a_no_op() {
    let mut g = GameState::new("T".to_string());
    assert!(g.trigger_npc_event(99).is_none());
    assert!(g.npc_active_event.is_none());
}

#[test]
fn dead_player_cannot_interact() {
    let mut g = GameState::new("T".to_string());
    g.player.is_alive = false;
    let msg = g.trigger_npc_event(0).expect("an advisory is returned");
    assert_eq!(msg, "你已离开公司，无法继续和 NPC 交互。");
    let msg = g.resolve_active_npc_event(NpcDecision::Accept).expect("an advisory is returned");
    assert_eq!(msg, "你已离开公司，无法继续和 NPC 交互。");
    assert_eq!(g.player.skills, 0);
}

#[test]
fn npc_subset_is_drawn_without_replacement() {
    // roster names are unique, so distinct roster entries mean distinct names
    for _ in 0..200 {
        let g = GameState::new("T".to_string());
        for a in 0..g.today_npcs.len() {
            for b in (a + 1)..g.today_npcs.len() {
                assert_ne!(
                    g.today_npcs[a].name, g.today_npcs[b].name,
                    "the same NPC was drawn twice for one day"
                );
            }
        }
    }
}

#[test]
fn npc_subset_size_varies_over_sessions() {
    let mut sizes = [0usize; 4];
    for _ in 0..200 {
        let g = GameState::new("T".to_string());
        let n = g.today_npcs.len();
        assert!((1..=3).contains(&n));
        sizes[n] += 1;
    }
    assert!(sizes[1] > 0 && sizes[2] > 0 && sizes[3] > 0, "sizes seen: {:?}", sizes);
}

#[test]
fn daily_draw_varies_over_days() {
    let mut g = GameState::new("T".to_string());
    let mut seen = std::collections::HashSet::new();
    for _ in 0..120 {
        seen.insert(g.today_event.id);
        g.next_day();
    }
    assert!(seen.len() > 5, "only events {:?} were drawn", seen);
}

#[test]
fn session_clock_formats_as_h_mm_ss() {
    let g = GameState::new("T".to_string());
    let _ = g.get_elapsed_seconds();
    let t = g.format_time();
    let parts: Vec<&str> = t.split(':').collect();
    assert_eq!(parts.len(), 3);
    assert_eq!(parts[1].len(), 2);
    assert_eq!(parts[2].len(), 2);
    assert!(t.starts_with("0:00:"), "a fresh session reads {}", t);
}

#[test]
fn getters_expose_todays_events() {
    let mut g = GameState::new("T".to_string());
    assert_eq!(g.get_today_event().id, g.today_event.id);
    assert!(g.get_weekly_event().is_none());
    while g.current_day < 7 {
        g.next_day();
    }
    let w = g.get_weekly_event().expect("day seven has a weekly event");
    assert_eq!(w.shuffled_options.len(), 3);
}
