use xiuxian::session::{GameApp, GamePhase};

#[test]
fn empty_name_does_not_start() {
    let mut app = GameApp::new();
    assert_eq!(app.phase, GamePhase::Start);
    app.start_game(String::new());
    assert_eq!(app.phase, GamePhase::Start);
    assert!(app.game_state.is_none());
}

#[test]
fn blank_name_does_not_start() {
    let mut app = GameApp::new();
    app.start_game("   ".to_string());
    assert_eq!(app.phase, GamePhase::Start);
    assert!(app.game_state.is_none());
    app.start_game("\t\n ".to_string());
    assert_eq!(app.phase, GamePhase::Start);
    // full-width (ideographic) space is white space too
    app.start_game("\u{3000}\u{3000}".to_string());
    assert_eq!(app.phase, GamePhase::Start);
    // a name with spaces around it is not blank and is stored as given
    app.start_game(" 侠 ".to_string());
    assert_eq!(app.phase, GamePhase::EventDisplay);
    assert_eq!(app.game_state.as_ref().unwrap().player.name, " 侠 ");
}

#[test]
fn starting_opens_day_one() {
    let mut app = GameApp::new();
    app.start_game("凌霄程序侠".to_string());
    assert_eq!(app.phase, GamePhase::EventDisplay);
    let g = app.game_state.as_ref().expect("a session is open");
    assert_eq!(g.player.name, "凌霄程序侠");
    assert_eq!(g.current_day, 1);
    assert_eq!(g.current_week, 1);
    assert!(app.result_message.is_empty());
}

#[test]
fn daily_choice_applies_reward_and_guards() {
    let mut app = GameApp::new();
    app.start_game("T".to_string());
    let option = app.game_state.as_ref().unwrap().today_event.shuffled_options[1].clone();
    app.apply_choice(2);
    let g = app.game_state.as_ref().unwrap();
    assert!(g.event_chosen_today);
    assert_eq!(g.player.skills, option.value.0);
    assert_eq!(g.player.pressure, option.value.1.clamp(0, 100));
    assert_eq!(g.player.history.len(), 1);
    assert_eq!(app.phase, GamePhase::EventDisplay);
    assert_eq!(
        app.result_message,
        format!("📖 {}\n\n点击 \"进入下一天\" 继续", option.story)
    );
}

#[test]
fn daily_choice_logs_the_first_line_of_the_option() {
    let mut app = GameApp::new();
    app.start_game("T".to_string());
    let g = app.game_state.as_ref().unwrap();
    let event_name = g.today_event.name.clone();
    let option = g.today_event.shuffled_options[0].clone();
    app.apply_choice(1);
    let g = app.game_state.as_ref().unwrap();
    let first_line = option.desc.split('\n').next().unwrap_or("");
    let expected = format!(
        "第1天: {} - {}\n💬 {} [技能{}|压力{}]",
        event_name,
        first_line,
        option.story,
        if option.value.0 >= 0 { format!("+{}", option.value.0) } else { option.value.0.to_string() },
        if option.value.1 >= 0 { format!("+{}", option.value.1) } else { option.value.1.to_string() },
    );
    assert_eq!(g.player.history[0], expected);
}

#[test]
fn second_daily_choice_is_refused() {
    let mut app = GameApp::new();
    app.start_game("T".to_string());
    app.apply_choice(1);
    let skills = app.game_state.as_ref().unwrap().player.skills;
    let history_len = app.game_state.as_ref().unwrap().player.history.len();
    app.apply_choice(3);
    assert_eq!(app.result_message, "今天已经选择过了！\n按 \"进入下一天\" 继续");
    let g = app.game_state.as_ref().unwrap();
    assert_eq!(g.player.skills, skills);
    assert_eq!(g.player.history.len(), history_len);
}

#[test]
fn out_of_range_choice_changes_nothing() {
    let mut app = GameApp::new();
    app.start_game("T".to_string());
    let before_msg = app.result_message.clone();
    app.apply_choice(9);
    let g = app.game_state.as_ref().unwrap();
    assert!(!g.event_chosen_today);
    assert_eq!(g.player.skills, 0);
    assert_eq!(g.player.history.len(), 0);
    assert_eq!(app.result_message, before_msg);
}

#[test]
fn position_zero_names_no_option_and_changes_nothing() {
    let mut app = GameApp::new();
    app.start_game("T".to_string());
    let before_msg = app.result_message.clone();
    app.apply_choice(0);
    let g = app.game_state.as_ref().unwrap();
    assert!(!g.event_chosen_today);
    assert_eq!(g.player.skills, 0);
    assert_eq!(g.player.pressure, 0);
    assert_eq!(g.player.history.len(), 0);
    assert_eq!(app.phase, GamePhase::EventDisplay);
    assert_eq!(app.result_message, before_msg);
}

#[test]
fn surviving_next_day_rotates() {
    let mut app = GameApp::new();
    app.start_game("T".to_string());
    app.next_day();
    assert_eq!(app.phase, GamePhase::EventDisplay);
    let g = app.game_state.as_ref().unwrap();
    assert_eq!(g.current_day, 2);
    assert!(g.player.is_alive);
    assert!(app.result_message.is_empty());
}

#[test]
fn promotion_gate_interrupts_the_day() {
    let mut app = GameApp::new();
    app.start_game("T".to_string());
    app.game_state.as_mut().unwrap().player.gain_reward(60, 10);
    app.next_day();
    assert_eq!(app.phase, GamePhase::PromotionConfirm);
    assert_eq!(
        app.result_message,
        "你已积累足够经验！\n是否选择晋升？\n(失败率: 5%)\n点击下方按钮进行选择"
    );
    let g = app.game_state.as_ref().unwrap();
    assert_eq!(g.current_day, 1, "the day must not rotate while the decision is pending");
    app.promote_no();
    assert_eq!(app.phase, GamePhase::EventDisplay);
    assert_eq!(app.game_state.as_ref().unwrap().current_day, 2);
}

#[test]
fn promote_yes_settles_the_attempt() {
    let mut app = GameApp::new();
    app.start_game("T".to_string());
    app.game_state.as_mut().unwrap().player.gain_reward(60, 10);
    app.next_day();
    assert_eq!(app.phase, GamePhase::PromotionConfirm);
    app.promote_yes();
    let g = app.game_state.as_ref().unwrap();
    if app.phase == GamePhase::EventDisplay {
        assert_eq!(g.player.realm_level, 2);
        assert_eq!(g.player.promotion_attempts, 0);
        assert_eq!(g.current_day, 2);
        assert_eq!(app.result_message, "恭喜晋升到炼气期阶！");
    } else {
        assert_eq!(app.phase, GamePhase::PromotionConfirm);
        assert_eq!(g.player.realm_level, 1);
        assert_eq!(g.player.promotion_attempts, 1);
        assert_eq!(g.player.skills, 30);
        assert_eq!(g.current_day, 1);
        assert_eq!(
            app.result_message,
            "小垃圾 根本没有这个水平还想晋升\n失去了30技能点\n\n点击 \"进入下一天\" 继续努力"
        );
    }
}

#[test]
fn insolvency_ends_the_game() {
    let mut app = GameApp::new();
    app.start_game("T".to_string());
    app.game_state.as_mut().unwrap().player.gain_reward(-5, 0);
    app.next_day();
    assert_eq!(app.phase, GamePhase::GameOver);
    assert!(app
        .result_message
        .starts_with("【你小子被开除了，一个技能点都没有还他妈都来应聘，啥也不会】"));
    assert!(app.result_message.contains("\n天数: 0\n技能点: -5\n压力值: 0\n修仙境界: 凡人境"));
    let g = app.game_state.as_ref().unwrap();
    assert!(!g.player.is_alive);
    assert_eq!(g.current_day, 1, "a dead player's day does not rotate");
}

#[test]
fn restart_returns_to_the_start_screen() {
    let mut app = GameApp::new();
    app.start_game("T".to_string());
    app.game_state.as_mut().unwrap().player.gain_reward(-5, 0);
    app.next_day();
    assert_eq!(app.phase, GamePhase::GameOver);
    app.restart();
    assert_eq!(app.phase, GamePhase::Start);
    assert!(app.game_state.is_none());
    assert!(app.result_message.is_empty());
}

#[test]
fn metadata_shows_the_daily_panel() {
    let mut app = GameApp::new();
    app.start_game("T".to_string());
    let (title, desc, options, is_weekly) =
        app.current_event_metadata().expect("a panel is shown");
    let g = app.game_state.as_ref().unwrap();
    assert_eq!(title, format!("【日常事件】{}", g.today_event.name));
    assert_eq!(desc, g.today_event.description);
    assert_eq!(options.len(), 3);
    assert!(!is_weekly);
    assert!(app.can_make_daily_choice());
    assert!(!app.can_make_weekly_choice());
}

#[test]
fn weekly_flow_on_day_seven() {
    let mut app = GameApp::new();
    app.start_game("T".to_string());
    // zero stress builds a streak, so a run can randomly die on the way to
    // day seven; start over until one survives
    loop {
        let day = app.game_state.as_ref().unwrap().current_day;
        if day == 7 {
            break;
        }
        app.next_day();
        if app.phase == GamePhase::PromotionConfirm {
            app.promote_no();
        }
        if app.phase == GamePhase::GameOver {
            // a random death ended this run; start over
            app.restart();
            app.start_game("T".to_string());
        }
    }
    let g = app.game_state.as_ref().unwrap();
    assert!(g.today_weekly_event.is_some());
    // apply the daily choice, then the weekly one
    app.apply_choice(1);
    assert_eq!(app.phase, GamePhase::WeeklyEventDisplay);
    let weekly = app
        .game_state
        .as_ref()
        .unwrap()
        .today_weekly_event
        .as_ref()
        .unwrap()
        .clone();
    let option = weekly.shuffled_options[0].clone();
    let (title, _, _, is_weekly) = app.current_event_metadata().expect("weekly panel");
    assert!(is_weekly);
    assert_eq!(title, format!("【周事件】{}", weekly.name));
    let skills_before = app.game_state.as_ref().unwrap().player.skills;
    app.apply_choice(1);
    let g = app.game_state.as_ref().unwrap();
    assert_eq!(app.phase, GamePhase::EventDisplay);
    assert!(g.weekly_event_chosen_today);
    assert!(g.today_weekly_event.is_none());
    assert_eq!(
        g.player.skills,
        skills_before.saturating_add(option.value.0)
    );
    assert_eq!(
        app.result_message,
        format!("📖 {}\n\n周事件完成！点击 \"进入下一天\" 继续", option.story)
    );
}
