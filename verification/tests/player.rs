use xiuxian::player::PlayerState;
use xiuxian::realm::Realm;

fn fresh(name: &str) -> PlayerState {
    PlayerState::new(name.to_string())
}

#[test]
fn new_player_is_blank() {
    let p = fresh("小卢");
    assert_eq!(p.name, "小卢");
    assert_eq!(p.experience, 0);
    assert_eq!(p.skills, 0);
    assert_eq!(p.pressure, 0);
    assert_eq!(p.days_played, 0);
    assert!(p.is_alive);
    assert_eq!(p.realm_level, 1);
    assert_eq!(p.promotion_attempts, 0);
    assert!(p.history.is_empty());
    assert_eq!(p.zero_pressure_streak, 0);
    assert!(!p.died_from_zero_pressure);
}

#[test]
fn gain_reward_sums_deltas() {
    let mut p = fresh("T");
    let deltas = [(6, 4), (-5, -6), (3, 2), (0, 7), (-1, -20)];
    let mut skill_sum = 0i32;
    let mut exp_sum = 0u32;
    for (s, c) in deltas {
        p.gain_reward(s, c);
        skill_sum += s;
        if s > 0 {
            exp_sum += s as u32;
        }
    }
    assert_eq!(p.skills, skill_sum);
    assert_eq!(p.experience, exp_sum);
}

#[test]
fn gain_reward_experience_only_rises_on_positive_skill() {
    let mut p = fresh("T");
    p.gain_reward(-50, 0);
    assert_eq!(p.skills, -50);
    assert_eq!(p.experience, 0);
    p.gain_reward(0, 0);
    assert_eq!(p.experience, 0);
    p.gain_reward(7, 0);
    assert_eq!(p.experience, 7);
}

#[test]
fn gain_reward_saturates_at_bounds() {
    let mut p = fresh("T");
    p.gain_reward(i32::MAX, 0);
    p.gain_reward(i32::MAX, 0);
    assert_eq!(p.skills, i32::MAX);
    assert_eq!(p.experience, (i32::MAX as u32) * 2);
    p.gain_reward(i32::MAX, 0);
    assert_eq!(p.experience, u32::MAX);
    p.gain_reward(i32::MIN, 0);
    p.gain_reward(i32::MIN, 0);
    assert_eq!(p.skills, i32::MIN);
    assert_eq!(p.experience, u32::MAX);
}

#[test]
fn stress_is_clamped_to_band() {
    let mut p = fresh("T");
    p.gain_reward(0, 250);
    assert_eq!(p.pressure, 100);
    p.gain_reward(0, -30);
    assert_eq!(p.pressure, 70);
    p.gain_reward(0, -200);
    assert_eq!(p.pressure, 0);
}

#[test]
fn history_line_format_is_exact() {
    let mut p = fresh("T");
    p.add_history("写周报".to_string(), 5, -3);
    assert_eq!(p.history.len(), 1);
    assert_eq!(p.history[0], "第1天: 写周报 [技能+5|压力-3]");
    p.days_played = 9;
    p.add_history("开会".to_string(), -2, 0);
    assert_eq!(p.history[1], "第10天: 开会 [技能-2|压力+0]");
}

#[test]
fn history_keeps_last_hundred_in_order() {
    let mut p = fresh("T");
    for i in 0..101 {
        p.add_history(format!("事件{}", i), 1, 1);
    }
    assert_eq!(p.history.len(), 100);
    assert_eq!(p.history[0], "第1天: 事件1 [技能+1|压力+1]");
    assert_eq!(p.history[99], "第1天: 事件100 [技能+1|压力+1]");
    for i in 0..100 {
        assert_eq!(p.history[i], format!("第1天: 事件{} [技能+1|压力+1]", i + 1));
    }
}

#[test]
fn zero_stress_death_needs_a_streak_of_two() {
    let mut p = fresh("T");
    p.check_death_with_rolls(0, 99);
    assert!(p.is_alive);
    assert_eq!(p.zero_pressure_streak, 1);
    p.check_death_with_rolls(0, 99);
    assert!(!p.is_alive);
    assert!(p.died_from_zero_pressure);
    assert_eq!(
        p.get_death_message(),
        "你这样子天天都没有压力，跟咸鱼有什么分别？？？？"
    );
}

#[test]
fn zero_stress_death_ignores_skill() {
    let mut p = fresh("T");
    p.gain_reward(500, 0);
    p.zero_pressure_streak = 1;
    p.check_death_with_rolls(14, 99);
    assert!(!p.is_alive);
    assert!(p.died_from_zero_pressure);
}

#[test]
fn zero_stress_roll_of_fifteen_spares() {
    let mut p = fresh("T");
    p.zero_pressure_streak = 1;
    p.check_death_with_rolls(15, 99);
    assert!(p.is_alive);
    assert_eq!(p.zero_pressure_streak, 2);
}

#[test]
fn negative_skill_is_always_fatal() {
    let mut p = fresh("T");
    p.gain_reward(-5, 30);
    p.check_death_with_rolls(99, 99);
    assert!(!p.is_alive);
    assert!(!p.died_from_zero_pressure);
    assert_eq!(
        p.get_death_message(),
        "你小子被开除了，一个技能点都没有还他妈都来应聘，啥也不会"
    );
}

#[test]
fn zero_stress_death_precedes_insolvency() {
    let mut p = fresh("T");
    p.gain_reward(-5, 0);
    p.zero_pressure_streak = 1;
    p.check_death_with_rolls(0, 99);
    assert!(!p.is_alive);
    assert!(p.died_from_zero_pressure);
}

#[test]
fn stress_table_thresholds() {
    // 5% band: [20, 29]
    let mut p = fresh("T");
    p.gain_reward(1, 25);
    p.check_death_with_rolls(99, 4);
    assert!(!p.is_alive);
    assert_eq!(p.get_death_message(), "脆弱的弟弟，这就死了");

    let mut p = fresh("T");
    p.gain_reward(1, 25);
    p.check_death_with_rolls(99, 5);
    assert!(p.is_alive);

    // 0% band: [0, 19]
    let mut p = fresh("T");
    p.gain_reward(1, 19);
    p.check_death_with_rolls(0, 0);
    assert!(p.is_alive);

    // 40% band: [70, 100]
    let mut p = fresh("T");
    p.gain_reward(1, 70);
    p.check_death_with_rolls(99, 39);
    assert!(!p.is_alive);
    assert_eq!(p.get_death_message(), "该你去死了啊，这么卷不要命了啊");

    let mut p = fresh("T");
    p.gain_reward(1, 70);
    p.check_death_with_rolls(99, 40);
    assert!(p.is_alive);

    // out-of-band stress falls back to 25%
    let mut p = fresh("T");
    p.pressure = 101;
    p.check_death_with_rolls(99, 24);
    assert!(!p.is_alive);
    assert_eq!(p.get_death_message(), "游戏结束");
}

#[test]
fn can_promote_thresholds() {
    let mut p = fresh("T");
    p.gain_reward(49, 0);
    assert!(!p.can_promote());
    p.gain_reward(1, 0);
    assert!(p.can_promote());
    p.realm_level = 4;
    assert!(!p.can_promote());
    p.gain_reward(450, 0);
    assert!(p.can_promote());
    p.realm_level = 5;
    assert!(!p.can_promote());
}

#[test]
fn promotion_failure_is_five_percent_at_first() {
    let mut p = fresh("T");
    p.gain_reward(101, 0);
    let (ok, msg) = p.attempt_promotion_with_roll(4);
    assert!(!ok);
    assert_eq!(msg, "小垃圾 根本没有这个水平还想晋升\n失去了50技能点");
    assert_eq!(p.skills, 51);
    assert_eq!(p.promotion_attempts, 1);

    let mut p = fresh("T");
    p.gain_reward(101, 0);
    let (ok, msg) = p.attempt_promotion_with_roll(5);
    assert!(ok);
    assert_eq!(msg, "恭喜晋升到炼气期阶！");
    assert_eq!(p.realm_level, 2);
    assert_eq!(p.promotion_attempts, 0);
}

#[test]
fn promotion_failure_caps_at_ninety_five() {
    let mut p = fresh("T");
    p.promotion_attempts = 18;
    let (ok, _) = p.attempt_promotion_with_roll(94);
    assert!(!ok);
    assert_eq!(p.promotion_attempts, 19);

    let mut p = fresh("T");
    p.promotion_attempts = 40;
    let (ok, _) = p.attempt_promotion_with_roll(95);
    assert!(ok);
}

#[test]
fn promotion_failure_chance_escalates() {
    // at k attempts the highest failing roll is 5 * (k + 1) - 1, up to the cap
    for attempts in 0..18u32 {
        let mut p = fresh("T");
        p.promotion_attempts = attempts;
        let threshold = 5 * (attempts + 1);
        let (ok, _) = p.attempt_promotion_with_roll(threshold - 1);
        assert!(!ok, "roll just below the threshold must fail at {} attempts", attempts);
        let mut p = fresh("T");
        p.promotion_attempts = attempts;
        let (ok, _) = p.attempt_promotion_with_roll(threshold);
        assert!(ok, "roll at the threshold must succeed at {} attempts", attempts);
    }
}

#[test]
fn failed_promotion_halves_toward_zero() {
    let mut p = fresh("T");
    p.skills = -7;
    let (ok, msg) = p.attempt_promotion_with_roll(0);
    assert!(!ok);
    assert_eq!(p.skills, -4);
    assert_eq!(msg, "小垃圾 根本没有这个水平还想晋升\n失去了-3技能点");
}

#[test]
fn scenario_big_daily_reward_reaches_promotion() {
    let mut p = fresh("Test");
    assert_eq!(p.skills, 0);
    assert_eq!(p.pressure, 0);
    p.gain_reward(60, 10);
    assert_eq!(p.skills, 60);
    assert_eq!(p.pressure, 10);
    assert_eq!(p.experience, 60);
    assert_eq!(p.get_realm(), Realm::QiRefining);
    assert!(p.can_promote());
}

#[test]
fn randomized_death_check_obeys_the_table() {
    // stress 10 and positive skill can never kill, whatever the rolls
    for _ in 0..200 {
        let mut p = fresh("T");
        p.gain_reward(1, 10);
        p.check_death();
        assert!(p.is_alive);
    }
}
