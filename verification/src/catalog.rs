//! The content catalog: the hand-authored daily events, weekly events,
//! and NPC roster.  This is pure data held as one record per index, so the
//! tables can be audited and extended without touching the engine; the
//! contracts pin only the catalog's shape (counts, three options per
//! event, a non-empty prompt set per NPC).

use vstd::prelude::*;

use crate::events::{DailyEvent, WeeklyEvent};
use crate::npc::{NpcEncounter, NpcOption};

verus! {

/// Number of authored daily events.
pub const DAILY_EVENT_COUNT: usize = 39;

/// Number of authored weekly events.
pub const WEEKLY_EVENT_COUNT: usize = 8;

/// Number of authored NPC encounters.
pub const NPC_COUNT: usize = 10;

/// Authored name of the daily event at index `i`.
pub open spec fn daily_event_name(i: int) -> Seq<char> {
    if i == 0 {
        "智眼数据劫"@
    } else if i == 1 {
        "智寻推荐迷障"@
    } else if i == 2 {
        "风控漏网之鱼"@
    } else if i == 3 {
        "物流面单失踪案"@
    } else if i == 4 {
        "智眼图像迷障"@
    } else if i == 5 {
        "智寻冷启动劫"@
    } else if i == 6 {
        "风控误伤劫"@
    } else if i == 7 {
        "物流面单爆单劫"@
    } else if i == 8 {
        "智眼性能劫"@
    } else if i == 9 {
        "智寻热词劫"@
    } else if i == 10 {
        "Java程序突然卡顿"@
    } else if i == 11 {
        "Rust代码无法运行"@
    } else if i == 12 {
        "C语言程序崩溃"@
    } else if i == 13 {
        "Python函数逻辑混乱"@
    } else if i == 14 {
        "Java线程卡死"@
    } else if i == 15 {
        "Rust编译失败"@
    } else if i == 16 {
        "老板突然喊你去开会"@
    } else if i == 17 {
        "客户临时加需求"@
    } else if i == 18 {
        "同事问你一个问题"@
    } else if i == 19 {
        "老板说'你最近挺忙'"@
    } else if i == 20 {
        "会议劫"@
    } else if i == 21 {
        "需求劫"@
    } else if i == 22 {
        "同事劫"@
    } else if i == 23 {
        "老板劫"@
    } else if i == 24 {
        "休假劫"@
    } else if i == 25 {
        "评审劫"@
    } else if i == 26 {
        "竞品劫"@
    } else if i == 27 {
        "产品劫"@
    } else if i == 28 {
        "会议劫（升级版）"@
    } else if i == 29 {
        "跨部门劫"@
    } else if i == 30 {
        "老板生日劫"@
    } else if i == 31 {
        "发布会劫"@
    } else if i == 32 {
        "离职劫"@
    } else if i == 33 {
        "汇报劫"@
    } else if i == 34 {
        "上班堵车劫"@
    } else if i == 35 {
        "手机没电劫"@
    } else if i == 36 {
        "天气反转劫"@
    } else if i == 37 {
        "遇见熟人劫"@
    } else {
        "通勤意外劫"@
    }
}

/// Authored reward tuples (slots A, B, C) of the daily event at index `i`.
pub open spec fn daily_event_rewards(i: int) -> ((i32, i32), (i32, i32), (i32, i32)) {
    if i == 0 {
        ((6i32, 4i32), (2i32, 5i32), (3i32, -3i32))
    } else if i == 1 {
        ((7i32, 4i32), (4i32, 1i32), (-5i32, -6i32))
    } else if i == 2 {
        ((8i32, 5i32), (3i32, 2i32), (-2i32, 7i32))
    } else if i == 3 {
        ((6i32, 4i32), (-1i32, 5i32), (3i32, 3i32))
    } else if i == 4 {
        ((7i32, 4i32), (4i32, 2i32), (-2i32, 6i32))
    } else if i == 5 {
        ((8i32, 5i32), (3i32, 1i32), (-2i32, 7i32))
    } else if i == 6 {
        ((6i32, 3i32), (4i32, 2i32), (-1i32, 5i32))
    } else if i == 7 {
        ((8i32, 4i32), (5i32, 3i32), (-1i32, 5i32))
    } else if i == 8 {
        ((9i32, 5i32), (4i32, 2i32), (-2i32, 6i32))
    } else if i == 9 {
        ((7i32, 4i32), (3i32, 2i32), (-2i32, 6i32))
    } else if i == 10 {
        ((8i32, 5i32), (3i32, 2i32), (-1i32, -3i32))
    } else if i == 11 {
        ((7i32, 4i32), (3i32, 2i32), (-1i32, -1i32))
    } else if i == 12 {
        ((7i32, 4i32), (3i32, 2i32), (-1i32, 1i32))
    } else if i == 13 {
        ((6i32, 3i32), (3i32, 1i32), (-1i32, -5i32))
    } else if i == 14 {
        ((8i32, 4i32), (3i32, 2i32), (-1i32, -3i32))
    } else if i == 15 {
        ((7i32, 4i32), (3i32, 2i32), (-4i32, -10i32))
    } else if i == 16 {
        ((5i32, 4i32), (2i32, 1i32), (-1i32, -5i32))
    } else if i == 17 {
        ((6i32, 5i32), (2i32, 2i32), (-1i32, -2i32))
    } else if i == 18 {
        ((4i32, 2i32), (1i32, 1i32), (-1i32, -4i32))
    } else if i == 19 {
        ((2i32, 1i32), (3i32, -3i32), (5i32, 5i32))
    } else if i == 20 {
        ((3i32, 5i32), (1i32, 2i32), (-3i32, 5i32))
    } else if i == 21 {
        ((3i32, 5i32), (0i32, 6i32), (-3i32, -3i32))
    } else if i == 22 {
        ((4i32, 1i32), (0i32, 4i32), (-1i32, -2i32))
    } else if i == 23 {
        ((2i32, 5i32), (1i32, -1i32), (-5i32, 6i32))
    } else if i == 24 {
        ((2i32, -3i32), (0i32, 2i32), (-2i32, 5i32))
    } else if i == 25 {
        ((3i32, -2i32), (1i32, -4i32), (3i32, 10i32))
    } else if i == 26 {
        ((4i32, -3i32), (0i32, 4i32), (-2i32, 5i32))
    } else if i == 27 {
        ((5i32, 3i32), (1i32, 3i32), (-3i32, 4i32))
    } else if i == 28 {
        ((1i32, 1i32), (0i32, 2i32), (0i32, 4i32))
    } else if i == 29 {
        ((3i32, 1i32), (0i32, -3i32), (-1i32, 2i32))
    } else if i == 30 {
        ((3i32, -5i32), (0i32, 4i32), (-2i32, 4i32))
    } else if i == 31 {
        ((6i32, -5i32), (2i32, -1i32), (-4i32, 7i32))
    } else if i == 32 {
        ((2i32, -5i32), (3i32, 3i32), (-2i32, 8i32))
    } else if i == 33 {
        ((3i32, 4i32), (1i32, -5i32), (-2i32, -8i32))
    } else if i == 34 {
        ((3i32, -2i32), (1i32, -3i32), (-1i32, -4i32))
    } else if i == 35 {
        ((2i32, -2i32), (0i32, 5i32), (-1i32, -1i32))
    } else if i == 36 {
        ((2i32, -1i32), (1i32, 4i32), (-2i32, -5i32))
    } else if i == 37 {
        ((5i32, 3i32), (0i32, 2i32), (1i32, -3i32))
    } else {
        ((2i32, 1i32), (0i32, 4i32), (-1i32, -5i32))
    }
}

/// Authored name of the weekly event at index `i`.
pub open spec fn weekly_event_name(i: int) -> Seq<char> {
    if i == 0 {
        "智眼上线劫"@
    } else if i == 1 {
        "智寻冷启动大考"@
    } else if i == 2 {
        "风控漏洞大考"@
    } else if i == 3 {
        "物流面单优化大考"@
    } else if i == 4 {
        "智眼数据大考"@
    } else if i == 5 {
        "智寻推荐大考"@
    } else if i == 6 {
        "风控策略大考"@
    } else {
        "物流面单灾备大考"@
    }
}

/// Authored reward tuples (slots A, B, C) of the weekly event at index `i`.
pub open spec fn weekly_event_rewards(i: int) -> ((i32, i32), (i32, i32), (i32, i32)) {
    if i == 0 {
        ((20i32, 15i32), (12i32, 6i32), (-8i32, -14i32))
    } else if i == 1 {
        ((25i32, 4i32), (15i32, 10i32), (-8i32, -6i32))
    } else if i == 2 {
        ((30i32, 6i32), (18i32, 5i32), (-5i32, -8i32))
    } else if i == 3 {
        ((22i32, 5i32), (12i32, 3i32), (1i32, -8i32))
    } else if i == 4 {
        ((25i32, 5i32), (15i32, 3i32), (-8i32, -6i32))
    } else if i == 5 {
        ((25i32, 5i32), (15i32, 3i32), (-4i32, -5i32))
    } else if i == 6 {
        ((28i32, 5i32), (16i32, 3i32), (-5i32, -2i32))
    } else {
        ((25i32, 5i32), (15i32, 3i32), (-8i32, -3i32))
    }
}

/// Authored name of the NPC at index `i`.
pub open spec fn npc_encounter_name(i: int) -> Seq<char> {
    if i == 0 {
        "摸鱼王大壮"@
    } else if i == 1 {
        "内卷仙子阿卷"@
    } else if i == 2 {
        "运维老李"@
    } else if i == 3 {
        "产品许愿师"@
    } else if i == 4 {
        "咖啡机器人007"@
    } else if i == 5 {
        "玄学大师林玄"@
    } else if i == 6 {
        "HR郭"@
    } else if i == 7 {
        "行政陈"@
    } else if i == 8 {
        "后勤林"@
    } else {
        "仓库卢"@
    }
}

/// Authored (accept, reject) reward tuples of the NPC at index `i`.
pub open spec fn npc_encounter_rewards(i: int) -> ((i32, i32), (i32, i32)) {
    if i == 0 {
        ((2i32, -4i32), (0i32, 2i32))
    } else if i == 1 {
        ((4i32, 5i32), (1i32, -2i32))
    } else if i == 2 {
        ((3i32, 1i32), (-1i32, -3i32))
    } else if i == 3 {
        ((2i32, 3i32), (0i32, -1i32))
    } else if i == 4 {
        ((1i32, -3i32), (0i32, 1i32))
    } else if i == 5 {
        ((5i32, 5i32), (2i32, 0i32))
    } else if i == 6 {
        ((2i32, -3i32), (0i32, 3i32))
    } else if i == 7 {
        ((3i32, 2i32), (-1i32, -2i32))
    } else if i == 8 {
        ((3i32, 4i32), (-2i32, -5i32))
    } else {
        ((2i32, 1i32), (-1i32, -1i32))
    }
}


/// The daily event authored at index `i`, its options laid out in a fresh
/// random order.
pub fn make_daily_event(i: usize) -> (e: DailyEvent)
    requires
        i < DAILY_EVENT_COUNT,
    ensures
        e.id == i,
        e.options_shuffled(),
        e.name@ == daily_event_name(i as int),
        (e.option_a, e.option_b, e.option_c) == daily_event_rewards(i as int),
{
    match i {
        0 => {
            DailyEvent::new_shuffled(
                0,
                "智眼数据劫".to_owned(),
                "智眼项目突然出现数据异常，需紧急排查。".to_owned(),
                (6, 4),
                "调试到崩溃\n用日志淹没整个服务器，终于找到脏数据。".to_owned(),
                "你盯着屏幕12小时，终于发现是实习生把'0'写成了'O'。你默默点了根烟，虽然你不抽烟。".to_owned(),
                (2, 5),
                "甩锅运维\n说'数据库配置有问题'。".to_owned(),
                "运维小哥看了你一眼，默默打开了你上周的提交记录。空气突然安静。".to_owned(),
                (3, -3),
                "暂停项目\n申请延期，假装在优化算法。".to_owned(),
                "你打开B站，假装在'调研竞品'。老板路过时你迅速切到IDE，结果切到了游戏。".to_owned(),
            )
        },
        1 => {
            DailyEvent::new_shuffled(
                1,
                "智寻推荐迷障".to_owned(),
                "智寻推荐算法突然推荐了'马桶刷'，用户投诉暴涨。".to_owned(),
                (7, 4),
                "重构模型\n重写推荐逻辑，把'马桶刷'踢出候选集。".to_owned(),
                "你花了3天重写算法，现在推荐的是'马桶塞'。进步了，至少换了个品类。".to_owned(),
                (4, 1),
                "随机推荐\n改用随机函数，用户反而满意。".to_owned(),
                "random()拯救世界！用户说'推荐很有惊喜感'。你决定以后都用随机数。".to_owned(),
                (-5, -6),
                "拒绝优化\n说'用户口味难调，需求不合理'。".to_owned(),
                "产品经理记下了你的工号。你的年终奖也记住了你。".to_owned(),
            )
        },
        2 => {
            DailyEvent::new_shuffled(
                2,
                "风控漏网之鱼".to_owned(),
                "风控系统漏掉一批高风险交易，需紧急拦截。".to_owned(),
                (8, 5),
                "深夜排查\n通宵修改规则，终于堵住漏洞，手指敲到起泡。".to_owned(),
                "凌晨4点，你终于修好了。然后发现明天还要开早会。你开始思考人生。".to_owned(),
                (3, 2),
                "临时封号\n直接拉黑所有可疑账号，误伤无辜用户。".to_owned(),
                "你封了500个账号，其中包括老板的小号。老板正在用它给女朋友转账。".to_owned(),
                (-2, 7),
                "推给同事\n说'前端代码有问题，我这没问题'。".to_owned(),
                "同事默默把你从午饭群踢了。你中午只能吃自己带的隔夜饭。".to_owned(),
            )
        },
        3 => {
            DailyEvent::new_shuffled(
                3,
                "物流面单失踪案".to_owned(),
                "物流面单系统突然丢失1000张订单，需紧急恢复。".to_owned(),
                (6, 4),
                "数据回滚\n手动恢复数据，手指敲到起泡（内卷到极致）。".to_owned(),
                "你恢复了999张，还有1张找不到。那张恰好是CEO给他妈买的生日礼物。".to_owned(),
                (-1, 5),
                "甩锅接口\n说'是第三方接口故障'（老板：'你也是接口之一'）。".to_owned(),
                "第三方发来了完整的调用日志。上面清清楚楚写着是你的bug。尴尬。".to_owned(),
                (3, 3),
                "放弃治疗\n重启服务器，问题暂时消失。".to_owned(),
                "重启大法好！问题消失了。当然，那1000张订单也消失了。".to_owned(),
            )
        },
        4 => {
            DailyEvent::new_shuffled(
                4,
                "智眼图像迷障".to_owned(),
                "智眼图像识别误将'猫'识别为'老虎'，用户投诉。".to_owned(),
                (7, 4),
                "重训练模型\n加1000张猫图，模型终于学会区分。".to_owned(),
                "模型学会了区分猫和老虎，但现在把所有狗都识别成'毛茸茸的猫'。".to_owned(),
                (4, 2),
                "加黑白名单\n把'老虎'加入黑名单。".to_owned(),
                "动物园的老虎直播被你的系统全部屏蔽了。动物园发来律师函。".to_owned(),
                (-2, 6),
                "拒绝优化\n说'用户分不清猫和虎，需求不合理'。".to_owned(),
                "用户截图发到微博：'这公司的程序员是不是没见过猫？'转发量10万+。".to_owned(),
            )
        },
        5 => {
            DailyEvent::new_shuffled(
                5,
                "智寻冷启动劫".to_owned(),
                "新用户冷启动推荐失败，点击率暴跌。".to_owned(),
                (8, 5),
                "重构策略\n用历史数据训练新模型（但推荐了'马桶刷'）。".to_owned(),
                "新模型上线后，给所有新用户推荐了殡葬用品。用户体验部门集体沉默。".to_owned(),
                (3, 1),
                "默认推荐\n全推热门内容，用户反而满意（但被领导骂'没创新'）。".to_owned(),
                "你说'热门就是最好的推荐'。领导说'那要你何用'。你无言以对。".to_owned(),
                (-2, 7),
                "拒绝优化\n说'冷启动本来就不容易'。".to_owned(),
                "你在技术群里发了一篇《论冷启动的不可能三角》，然后被群主禁言了。".to_owned(),
            )
        },
        6 => {
            DailyEvent::new_shuffled(
                6,
                "风控误伤劫".to_owned(),
                "风控系统误封正常用户账号，需紧急解封。".to_owned(),
                (6, 3),
                "人工复核\n手动审核每条规则，恢复用户（但误放了黑产）。".to_owned(),
                "你解封了一个'正常用户'，结果他转走了100万。你的KPI也转走了。".to_owned(),
                (4, 2),
                "降低阈值\n放宽规则，误伤减少。".to_owned(),
                "误伤减少了80%，但漏掉的坏人增加了200%。你觉得这是个数学问题。".to_owned(),
                (-1, 5),
                "推给客服\n说'这是客服的问题'。".to_owned(),
                "客服小姐姐在茶水间遇到你，微笑着往你咖啡里多加了三勺盐。".to_owned(),
            )
        },
        7 => {
            DailyEvent::new_shuffled(
                7,
                "物流面单爆单劫".to_owned(),
                "物流面单系统因大促爆单，需紧急扩容。".to_owned(),
                (8, 4),
                "水平扩容\n加10台服务器，扛住洪峰。".to_owned(),
                "服务器扛住了，但这个月的云服务账单也扛不住了。财务找你谈话。".to_owned(),
                (5, 3),
                "限流降级\n限制每秒请求量，用户抱怨。".to_owned(),
                "用户说'双11抢购比春运抢票还难'。你觉得这是一种夸奖。".to_owned(),
                (-1, 5),
                "放弃治疗\n重启服务器，问题暂时消失。".to_owned(),
                "重启后系统恢复了5分钟，然后又崩了。你开始思考'重启哲学'。".to_owned(),
            )
        },
        8 => {
            DailyEvent::new_shuffled(
                8,
                "智眼性能劫".to_owned(),
                "智眼图像处理延迟暴涨，用户体验下降。".to_owned(),
                (9, 5),
                "优化算法\n用GPU加速，延迟降低80%。".to_owned(),
                "GPU跑得飞快，电费也飞快。老板看着电费单，眼角抽搐。".to_owned(),
                (4, 2),
                "压缩图片\n强制压缩图片大小。".to_owned(),
                "图片压缩到10KB，用户说'这像素比我家座机还糊'。".to_owned(),
                (-2, 6),
                "甩锅硬件\n说'服务器太老了，换台新的吧'。".to_owned(),
                "老板说'服务器去年刚换的，要不你先换个工作？'".to_owned(),
            )
        },
        9 => {
            DailyEvent::new_shuffled(
                9,
                "智寻热词劫".to_owned(),
                "热门搜索词'奶茶'突然消失，用户搜索失败。".to_owned(),
                (7, 4),
                "修复索引\n重建搜索引擎索引（但'奶茶'变成'奶茶渣'）。".to_owned(),
                "用户搜'奶茶'出来的全是'奶茶渣男鉴定指南'。阴差阳错，点击率暴涨。".to_owned(),
                (3, 2),
                "添加关键词\n手动添加'奶茶'到热门词。".to_owned(),
                "你加了'奶茶'，顺便加了'咖啡''可乐'。老板问'你是不是渴了？'".to_owned(),
                (-2, 6),
                "拒绝优化\n说'用户不会记得这个'。".to_owned(),
                "用户记得很清楚，还专门建了个群叫'奶茶受害者联盟'，群里500人。".to_owned(),
            )
        },
        10 => {
            DailyEvent::new_shuffled(
                10,
                "Java程序突然卡顿".to_owned(),
                "Java程序运行时频繁卡顿，疑似内存问题。".to_owned(),
                (8, 5),
                "通宵排查\n逐行检查代码，发现未关闭的数据库连接。".to_owned(),
                "你找到了泄漏点，是三年前离职同事写的。你默默给他发了条微信：'？'".to_owned(),
                (3, 2),
                "增加内存\n把JVM堆内存调大，暂时解决问题。".to_owned(),
                "内存从8G调到64G，程序不卡了。服务器卡了。".to_owned(),
                (-1, -3),
                "拒绝优化\n说'Java本来就不稳定'。".to_owned(),
                "隔壁Go语言组的同事投来鄙夷的目光，然后他们的服务也崩了。".to_owned(),
            )
        },
        11 => {
            DailyEvent::new_shuffled(
                11,
                "Rust代码无法运行".to_owned(),
                "Rust代码编译报错，提示'无法借用变量'。".to_owned(),
                (7, 4),
                "重构代码\n用clone()解决所有权问题。".to_owned(),
                "你clone了37次，编译通过了。内存占用也涨了37倍。Rust编译器在哭泣。".to_owned(),
                (3, 2),
                "强制转换\n加as强制类型转换，代码勉强能跑。".to_owned(),
                "代码跑起来了，但你收到了unsafe警告。Rust编译器骂你不配写Rust。".to_owned(),
                (-1, -1),
                "拒绝优化\n说'Rust太严格了，换Python吧'。".to_owned(),
                "你换了Python，结果运行时类型错误。这就是人生。".to_owned(),
            )
        },
        12 => {
            DailyEvent::new_shuffled(
                12,
                "C语言程序崩溃".to_owned(),
                "C语言程序运行时突然崩溃，无报错信息。".to_owned(),
                (7, 4),
                "调试到崩溃\n用GDB定位到野指针位置。".to_owned(),
                "你找到了野指针，它指向了一个你半年前删除的变量。时空穿越了属于是。".to_owned(),
                (3, 2),
                "用valgrind\n运行valgrind发现内存泄漏。".to_owned(),
                "valgrind报告显示泄漏了2GB内存。你的程序总共才用1GB。这很科学。".to_owned(),
                (-1, 1),
                "放弃治疗\n重启程序，问题暂时消失。".to_owned(),
                "重启后程序跑了3分钟又崩了。你决定写个定时重启脚本，美其名曰'自愈系统'。".to_owned(),
            )
        },
        13 => {
            DailyEvent::new_shuffled(
                13,
                "Python函数逻辑混乱".to_owned(),
                "Python函数执行结果与预期不符。".to_owned(),
                (6, 3),
                "重构逻辑\n重新设计函数流程，代码更清晰。".to_owned(),
                "你重构完发现原来的逻辑是对的，是你的预期错了。沉默。".to_owned(),
                (3, 1),
                "打印调试\n加print语句逐步排查问题。".to_owned(),
                "你加了47个print，找到bug后忘记删了。上线后日志文件一天涨了100GB。".to_owned(),
                (-1, -5),
                "拒绝优化\n说'Python本来就不容易'。".to_owned(),
                "你说Python难，被Python之父转发并评论：'这人怕是没学过编程'。".to_owned(),
            )
        },
        14 => {
            DailyEvent::new_shuffled(
                14,
                "Java线程卡死".to_owned(),
                "多线程程序运行时线程卡死。".to_owned(),
                (8, 4),
                "用jstack\n分析线程堆栈，找到死锁。".to_owned(),
                "死锁原因：线程A等线程B，线程B等线程C，线程C等线程A。经典三角恋。".to_owned(),
                (3, 2),
                "随机重试\n加随机sleep让线程偶尔能跑。".to_owned(),
                "随机sleep生效了！程序有时能跑有时不能，薛定谔的多线程。".to_owned(),
                (-1, -3),
                "单线程运行\n说'单线程更稳定'。".to_owned(),
                "性能下降了90%，但至少不会死锁。你称之为'稳定性优化'。".to_owned(),
            )
        },
        15 => {
            DailyEvent::new_shuffled(
                15,
                "Rust编译失败".to_owned(),
                "Rust代码编译报错，提示'类型不匹配'。".to_owned(),
                (7, 4),
                "重构代码\n用match处理枚举类型。".to_owned(),
                "你写了20个match分支，每个分支都返回不同类型。编译器哭了，你也哭了。".to_owned(),
                (3, 2),
                "强制转换\n加as强制转换类型。".to_owned(),
                "编译通过了，运行时panic了。Rust说：'我早就提醒过你了。'".to_owned(),
                (-4, -10),
                "拒绝优化\n说'Rust太难用了'。".to_owned(),
                "你决定回去写JavaScript。一周后，你怀念起了Rust的编译器错误提示。".to_owned(),
            )
        },
        16 => {
            DailyEvent::new_shuffled(
                16,
                "老板突然喊你去开会".to_owned(),
                "老板临时通知全体会议，讨论一个'紧急需求'。".to_owned(),
                (5, 4),
                "拼命解释\n熬夜写PPT，会上讲到口干舌燥。".to_owned(),
                "你讲了2小时，老板说'很好，但这不是我要的'。你开始怀疑人生。".to_owned(),
                (2, 1),
                "模糊回应\n说'我们先看看资源'，实际啥也没做。".to_owned(),
                "老板说'好的那你先评估'。一周后他忘了这事。你躲过一劫。".to_owned(),
                (-1, -5),
                "躲进厕所\n借口上厕所，偷偷刷短视频。".to_owned(),
                "你在厕所刷了半小时抖音，出来发现会已经开完了。老板问'你肠胃不好？'".to_owned(),
            )
        },
        17 => {
            DailyEvent::new_shuffled(
                17,
                "客户临时加需求".to_owned(),
                "客户临时提出一个'简单需求'，但要求明天上线。".to_owned(),
                (6, 5),
                "拼命改代码\n通宵修改，代码鬼畜，客户说'很好'。".to_owned(),
                "你通宵写完了，客户第二天说'我想了想还是不要了'。你的眼眶红了。".to_owned(),
                (2, 2),
                "拖延战术\n说'这需求需要评估'，实际啥也没干。".to_owned(),
                "你评估了三天，写了份10页的可行性报告。客户看完说'那算了'。".to_owned(),
                (-1, -2),
                "推给实习生\n说'让新人做'，自己摸鱼。".to_owned(),
                "实习生做完了，比你做得还好。老板开始考虑你的性价比。".to_owned(),
            )
        },
        18 => {
            DailyEvent::new_shuffled(
                18,
                "同事问你一个问题".to_owned(),
                "同事突然跑来问一个'简单问题'，打断你的思路。".to_owned(),
                (4, 2),
                "详细解答\n耐心讲解10分钟，自己也学到了。".to_owned(),
                "你讲完后同事说'谢谢，但我问的不是这个'。你们面面相觑。".to_owned(),
                (1, 1),
                "甩锅文档\n说'看文档'，同事一脸懵。".to_owned(),
                "同事去看文档了，那是你半年前写的。文档开头写着：'TODO: 补充内容'。".to_owned(),
                (-1, -4),
                "装作没听见\n假装敲代码，同事尴尬离开。".to_owned(),
                "同事走了。然后你发现他问的问题你也不会。".to_owned(),
            )
        },
        19 => {
            DailyEvent::new_shuffled(
                19,
                "老板说'你最近挺忙'".to_owned(),
                "老板突然说：'你最近挺忙，要不要接点新任务？'".to_owned(),
                (2, 1),
                "拒绝接活\n说'目前任务已经排满，你小子给我闭嘴吧'。".to_owned(),
                "老板微微一笑，把任务转给了你旁边的同事。同事用眼神杀死了你。".to_owned(),
                (3, -3),
                "接一半任务\n说'可以接，但需要延期'。".to_owned(),
                "老板同意延期，然后每天问你进度。你后悔了。".to_owned(),
                (5, 5),
                "全盘接受\n说'没问题'，实际熬夜干活。".to_owned(),
                "你连续加班一周，瘦了5斤。老板说'你最近气色不错啊'。".to_owned(),
            )
        },
        20 => {
            DailyEvent::new_shuffled(
                20,
                "会议劫".to_owned(),
                "老板突然喊你参加'紧急会议'，讨论'下周要上线的功能'。".to_owned(),
                (3, 5),
                "提前写好PPT，会上讲到口干舌燥。".to_owned(),
                "老板说\"讲得不错\"，但会议开到晚上8点。".to_owned(),
                (1, 2),
                "说'需求需要评估'，实际啥也没做。".to_owned(),
                "会议结束，需求还在，同事说'你没参与'。".to_owned(),
                (-3, 5),
                "假装家里有事情，到门口抽根烟冷静一下。".to_owned(),
                "被老板抓包，第二天被拉黑。".to_owned(),
            )
        },
        21 => {
            DailyEvent::new_shuffled(
                21,
                "需求劫".to_owned(),
                "客户临时说想做一个app，能够实时判断他女朋友心情好坏。".to_owned(),
                (3, 5),
                "通宵写代码，功能上线后客户说'很好'。".to_owned(),
                "客户点赞，但你黑眼圈严重，而且根本判断不出女朋友心情。".to_owned(),
                (0, 6),
                "直接怼客户，你提的什么鬼需求？？？？".to_owned(),
                "客户生气取消订单，差点被老板开除，托了关系才留下。".to_owned(),
                (-3, -3),
                "推给实习生：'你来搞'，自己摸鱼。".to_owned(),
                "实习生搞砸，老板来问你。".to_owned(),
            )
        },
        22 => {
            DailyEvent::new_shuffled(
                22,
                "同事劫".to_owned(),
                "女同事突然跑来问'为什么这个服务端怎么搞？'".to_owned(),
                (4, 1),
                "耐心讲解10分钟，从清朝讲到解放。".to_owned(),
                "同事感谢，你成了技术大牛。".to_owned(),
                (0, 4),
                "甩锅文档：'看文档啊'。".to_owned(),
                "同事一脸懵，说'文档看不懂'，还谣传你是gay。".to_owned(),
                (-1, -2),
                "假装没听见，继续敲代码。".to_owned(),
                "女同事生气，找了你同事卢博士。".to_owned(),
            )
        },
        23 => {
            DailyEvent::new_shuffled(
                23,
                "老板劫".to_owned(),
                "老板说给你10块去帮我买包中华。".to_owned(),
                (2, 5),
                "垫钱买烟，直接人情世故。".to_owned(),
                "任务完成，老板说'你真棒'，顺便问你找的钱呢？".to_owned(),
                (1, -1),
                "买不了，钱不够，直说搞不定。".to_owned(),
                "老板叫你滚出办公室。".to_owned(),
                (-5, 6),
                "把任务丢给新来的实习生小卢。".to_owned(),
                "老板很赏识小卢，他变成了你的上司。".to_owned(),
            )
        },
        24 => {
            DailyEvent::new_shuffled(
                24,
                "休假劫".to_owned(),
                "你终于排到年假，老板突然说近期有新项目，加个班吧，在家里干也行。".to_owned(),
                (2, -3),
                "处理完需求，假期还剩2天。".to_owned(),
                "老板说'辛苦'，假期还能用。".to_owned(),
                (0, 2),
                "说'需求明天再搞'，假期照常。".to_owned(),
                "需求没处理，被同事埋怨。".to_owned(),
                (-2, 5),
                "说'我假期不工作'，被拉黑。".to_owned(),
                "老板记小本本，下次不给你假。".to_owned(),
            )
        },
        25 => {
            DailyEvent::new_shuffled(
                25,
                "评审劫".to_owned(),
                "代码评审时，同事说'这个逻辑太复杂'。".to_owned(),
                (3, -2),
                "重构代码，熬掉一半的头发。".to_owned(),
                "评审通过，代码更易维护。".to_owned(),
                (1, -4),
                "说'先这样，后面优化'。".to_owned(),
                "后续bug多被追责，但你已经在考虑换公司了。".to_owned(),
                (3, 10),
                "说'你不懂技术'，直接吵起来。".to_owned(),
                "团队关系破裂，被孤立，但因为过于独立反而学了很多新技能。".to_owned(),
            )
        },
        26 => {
            DailyEvent::new_shuffled(
                26,
                "竞品劫".to_owned(),
                "竞品突然上线新功能，老板说'我们也要做'。".to_owned(),
                (4, -3),
                "快速开发，功能上线后用户点赞。".to_owned(),
                "竞品被超越，老板高兴。".to_owned(),
                (0, 4),
                "说'需要调研'，实际啥也没做。".to_owned(),
                "竞品持续领先，老板生气。".to_owned(),
                (-2, 5),
                "拒绝做：'没必要'。".to_owned(),
                "老板说'你没大局观'。".to_owned(),
            )
        },
        27 => {
            DailyEvent::new_shuffled(
                27,
                "产品劫".to_owned(),
                "产品经理说'这个需求很简单，你帮忙实现一下'。".to_owned(),
                (5, 3),
                "按需求做。".to_owned(),
                "结果发现要改100处，加班完成，但需求依旧不全。".to_owned(),
                (1, 3),
                "问'具体要什么'，产品说'你懂的'。".to_owned(),
                "需求模糊，人家要商城你开发了个陌陌交友软件。".to_owned(),
                (-3, 4),
                "说'太复杂'，直接拒绝。".to_owned(),
                "产品甩锅，你被批评。".to_owned(),
            )
        },
        28 => {
            DailyEvent::new_shuffled(
                28,
                "会议劫（升级版）".to_owned(),
                "会议开到下午4点，老板说'再讨论10分钟'。".to_owned(),
                (1, 1),
                "坚持到5点下班，不加班。".to_owned(),
                "老板说'有原则'，同事佩服。".to_owned(),
                (0, 2),
                "说'有急事'，提前溜走。".to_owned(),
                "老板追问，被记小过。".to_owned(),
                (0, 4),
                "继续坐，结果会议开到6点。".to_owned(),
                "回家晚差点被公交车创飞。".to_owned(),
            )
        },
        29 => {
            DailyEvent::new_shuffled(
                29,
                "跨部门劫".to_owned(),
                "隔壁部门要数据，说'就10分钟，马上领导要来看了'。".to_owned(),
                (3, 1),
                "快速整理数据。".to_owned(),
                "部门合作变好，下次互帮互助。".to_owned(),
                (0, -3),
                "拖他3个月再说。".to_owned(),
                "对方等不及，自己处理。".to_owned(),
                (-1, 2),
                "说'没空'，出门抽根烟。".to_owned(),
                "跨部门关系变差，大家怀疑你有自闭症。".to_owned(),
            )
        },
        30 => {
            DailyEvent::new_shuffled(
                30,
                "老板生日劫".to_owned(),
                "老板生日，领导说'你来组织个庆祝'。".to_owned(),
                (3, -5),
                "组织惊喜派对，邀请美女。".to_owned(),
                "老板说'你真会办事'。".to_owned(),
                (0, 4),
                "说'让行政搞'。".to_owned(),
                "派对乱糟糟，老板不高兴，行政说全是你搞的。".to_owned(),
                (-2, 4),
                "邀请老板死对头来参加。".to_owned(),
                "死对头当众宣布他要上市，老板被送急救。".to_owned(),
            )
        },
        31 => {
            DailyEvent::new_shuffled(
                31,
                "发布会劫".to_owned(),
                "产品发布会前1小时，发现重大Bug。".to_owned(),
                (6, -5),
                "连喝15杯咖啡，硬修到底。".to_owned(),
                "发布会成功，你成英雄。".to_owned(),
                (2, -1),
                "说'先发布会，再修复'。".to_owned(),
                "发布会当场黑屏，你解释说没电了。".to_owned(),
                (-4, 7),
                "说'不修了，发布会照常'。".to_owned(),
                "老板亲自演示结果卡住，差点要杀了你。".to_owned(),
            )
        },
        32 => {
            DailyEvent::new_shuffled(
                32,
                "离职劫".to_owned(),
                "同事突然说'我要离职了'。".to_owned(),
                (2, -5),
                "帮他交接。".to_owned(),
                "离职后他把他在公司的女朋友介绍给你。".to_owned(),
                (3, 3),
                "没空交接，让他快点走。".to_owned(),
                "新同事接手难，你被埋怨，只好硬着头皮加一周班。".to_owned(),
                (-2, 8),
                "打听他去哪了。".to_owned(),
                "人事收到消息你要跑路，直接给你降薪。".to_owned(),
            )
        },
        33 => {
            DailyEvent::new_shuffled(
                33,
                "汇报劫".to_owned(),
                "老板要求你下周汇报'项目进展'。".to_owned(),
                (3, 4),
                "提前写好报告，汇报很顺利。".to_owned(),
                "老板说'你很专业'，还让你汇报所有工作。".to_owned(),
                (1, -5),
                "说'还在做'，实际没进度。".to_owned(),
                "汇报时你开始表演节目，汇报失败但大家很喜欢。".to_owned(),
                (-2, -8),
                "说'不用汇报'，没什么好搞的。".to_owned(),
                "老板让人事招备用人选。".to_owned(),
            )
        },
        34 => {
            DailyEvent::new_shuffled(
                34,
                "上班堵车劫".to_owned(),
                "早高峰地铁故障，你被困在车厢里。".to_owned(),
                (3, -2),
                "耐心等待维修，顺便刷新闻。".to_owned(),
                "维修后发现车厢里有公司高管，他记住了你。".to_owned(),
                (1, -3),
                "换乘公交，结果堵在高架桥上。".to_owned(),
                "堵车偶遇大学同学，他刚升职，主动约你喝咖啡。".to_owned(),
                (-1, -4),
                "直接打车绕开拥堵。".to_owned(),
                "司机是猎头前员工，顺便给你推了个高薪岗位。".to_owned(),
            )
        },
        35 => {
            DailyEvent::new_shuffled(
                35,
                "手机没电劫".to_owned(),
                "上班途中手机突然关机，你找不到公司位置。".to_owned(),
                (2, -2),
                "打开地图步行导航，边走边看路标。".to_owned(),
                "误入小巷，发现隐藏咖啡馆，后来成了团队据点。".to_owned(),
                (0, 5),
                "向路人求助，结果对方是竞争对手。".to_owned(),
                "对方热情指路，却拍下你公司招牌发到竞品群。".to_owned(),
                (-1, -1),
                "直接打车到公司，假装什么都没发生。".to_owned(),
                "司机问你是不是又加班到凌晨。".to_owned(),
            )
        },
        36 => {
            DailyEvent::new_shuffled(
                36,
                "天气反转劫".to_owned(),
                "下班时突然下大雨，你没带伞。".to_owned(),
                (2, -1),
                "冲进便利店躲雨，顺便买杯奶茶。".to_owned(),
                "奶茶店老板认出你，送你限量新品，朋友圈爆火。".to_owned(),
                (1, 4),
                "硬撑着跑回家，衣服全湿透。".to_owned(),
                "回家后感冒发烧，第二天请假但老板夸你拼。".to_owned(),
                (-2, -5),
                "在公司楼下等雨停，刷短视频。".to_owned(),
                "视频里的博主是前老板，评论区问你还在那家公司。".to_owned(),
            )
        },
        37 => {
            DailyEvent::new_shuffled(
                37,
                "遇见熟人劫".to_owned(),
                "下班路上遇到大学室友，他现在是某大厂总监。".to_owned(),
                (5, 3),
                "热情寒暄，分享工作近况。".to_owned(),
                "他当场说'下周来我公司做个技术分享吧'。".to_owned(),
                (0, 2),
                "假装没看见，快步离开。".to_owned(),
                "他发微信：'刚才那个背影像你？'你被迫加回好友。".to_owned(),
                (1, -3),
                "主动聊起他创业失败的事，试图安慰。".to_owned(),
                "他沉默半晌，说'你倒是过得不错'。".to_owned(),
            )
        },
        _ => {
            DailyEvent::new_shuffled(
                38,
                "通勤意外劫".to_owned(),
                "骑电动车上班，刹车时发现轮胎漏气。".to_owned(),
                (2, 1),
                "推车到修车点，顺便买瓶水。".to_owned(),
                "修车师傅是技术大牛，聊完把你拉进技术群。".to_owned(),
                (0, 4),
                "临时打车，结果司机绕路多收钱。".to_owned(),
                "你投诉后司机被封号，他电话里说'下次别坐我的车'。".to_owned(),
                (-1, -5),
                "强行骑行，结果摔倒刮伤。".to_owned(),
                "同事看到你瘸着进门，立刻给你请病假还送创可贴。".to_owned(),
            )
        },
    }
}

/// The weekly event authored at index `i`, its options laid out in a fresh
/// random order.
pub fn make_weekly_event(i: usize) -> (e: WeeklyEvent)
    requires
        i < WEEKLY_EVENT_COUNT,
    ensures
        e.id == i,
        e.options_shuffled(),
        e.name@ == weekly_event_name(i as int),
        (e.option_a, e.option_b, e.option_c) == weekly_event_rewards(i as int),
{
    match i {
        0 => {
            WeeklyEvent::new_shuffled(
                0,
                "智眼上线劫".to_owned(),
                "智眼项目上线验收，客户要求实时监控。".to_owned(),
                (20, 15),
                "全力保障\n24小时值守，系统稳定运行。".to_owned(),
                "你连续值守72小时，眼睛都快瞎了。客户说'不错'，你差点感动哭了——直到你发现工资条上没有加班费。".to_owned(),
                (12, 6),
                "临时扩容\n加3台服务器，客户点头。".to_owned(),
                "服务器加完了，账单也来了。财务问你'这钱谁批的'，你指了指老板办公室。".to_owned(),
                (-8, -14),
                "甩锅运维\n说'服务器不稳定'。".to_owned(),
                "运维组长走过来，默默把你拉进了'需要重点关注的人'名单。".to_owned(),
            )
        },
        1 => {
            WeeklyEvent::new_shuffled(
                1,
                "智寻冷启动大考".to_owned(),
                "新用户冷启动策略被客户质疑无效。".to_owned(),
                (25, 4),
                "重构模型\n用新数据重新训练模型。".to_owned(),
                "新模型效果提升了50%！但你发现训练数据里混入了测试集。学术不端警告！".to_owned(),
                (15, 10),
                "模拟数据\n伪造数据证明效果。".to_owned(),
                "客户被你的PPT忽悠住了，但产品经理偷偷记下了这一幕。".to_owned(),
                (-8, -6),
                "拒绝优化\n说'冷启动本来就不容易'。".to_owned(),
                "你在全员大会上被点名批评：'某些同事责任心不够'。全场都知道说的是谁。".to_owned(),
            )
        },
        2 => {
            WeeklyEvent::new_shuffled(
                2,
                "风控漏洞大考".to_owned(),
                "风控系统被黑客攻击，需紧急修复。".to_owned(),
                (30, 6),
                "重构规则\n用AI检测攻击模式。".to_owned(),
                "你的AI模型成功拦截了99%的攻击。剩下1%把公司账户清空了。".to_owned(),
                (18, 5),
                "临时封号\n拉黑所有可疑IP。".to_owned(),
                "你封了1万个IP，其中包括公司自己的办公网络。全公司断网2小时。".to_owned(),
                (-5, -8),
                "推给安全组\n说'这是安全组的问题'。".to_owned(),
                "安全组写了份详细的责任划分报告，你的名字出现了47次。".to_owned(),
            )
        },
        3 => {
            WeeklyEvent::new_shuffled(
                3,
                "物流面单优化大考".to_owned(),
                "物流面单系统需优化配送效率。".to_owned(),
                (22, 5),
                "算法重构\n用最短路径算法优化路线。".to_owned(),
                "配送时间缩短了30%！但最短路径经过了一条收费高速，运费翻倍。".to_owned(),
                (12, 3),
                "手动调整\n让运营手动优化。".to_owned(),
                "运营同事开始手动优化，他们的键盘敲得比你写代码还快。".to_owned(),
                (1, -8),
                "拒绝优化\n说'用户不会抱怨'。".to_owned(),
                "用户投诉量翻了3倍，客服部门集体申请调岗，目标岗位是你的工位旁边。".to_owned(),
            )
        },
        4 => {
            WeeklyEvent::new_shuffled(
                4,
                "智眼数据大考".to_owned(),
                "智眼项目数据泄露，需紧急修复。".to_owned(),
                (25, 5),
                "加密存储\n用AES加密所有数据。".to_owned(),
                "数据加密了，密钥存在了代码注释里。安全审计的人看完沉默了。".to_owned(),
                (15, 3),
                "限制权限\n关闭所有外部访问。".to_owned(),
                "外部访问关了，客户也访问不了了。客户问'这是什么操作'。".to_owned(),
                (-8, -6),
                "推给法务\n说'这是法务的问题'。".to_owned(),
                "法务发来律师函，不是给黑客的，是给你的——要求你配合调查。".to_owned(),
            )
        },
        5 => {
            WeeklyEvent::new_shuffled(
                5,
                "智寻推荐大考".to_owned(),
                "智寻推荐系统被客户质疑无效。".to_owned(),
                (25, 5),
                "重构模型\n用协同过滤+深度学习。".to_owned(),
                "你用了最先进的算法，推荐准确率提升了0.3%。老板问'就这？'".to_owned(),
                (15, 3),
                "加热门推荐\n全推热门内容。".to_owned(),
                "全站都在推同一款产品，库存一天卖光。仓库问'你们是不是搞传销的'。".to_owned(),
                (-4, -5),
                "拒绝优化\n说'用户不会记得'。".to_owned(),
                "用户记住了，还专门在应用商店给了一星好评，内容是你的工号。".to_owned(),
            )
        },
        6 => {
            WeeklyEvent::new_shuffled(
                6,
                "风控策略大考".to_owned(),
                "风控策略被黑客绕过，需紧急升级。".to_owned(),
                (28, 5),
                "AI检测\n用机器学习识别攻击模式。".to_owned(),
                "你的AI成功识别了攻击模式，但也把老板的正常操作识别成了'可疑行为'。".to_owned(),
                (16, 3),
                "临时封号\n拉黑所有可疑账户。".to_owned(),
                "你封了5000个账户，其中3000个来投诉。客服说'你自己接'。".to_owned(),
                (-5, -2),
                "推给法务\n说'这是法律问题'。".to_owned(),
                "法务回复：'这是技术问题，我们只负责打官司'。你又被踢了回来。".to_owned(),
            )
        },
        _ => {
            WeeklyEvent::new_shuffled(
                7,
                "物流面单灾备大考".to_owned(),
                "物流面单系统需应对服务器宕机。".to_owned(),
                (25, 5),
                "双活部署\n搭建双活数据中心。".to_owned(),
                "双活部署成功了！两个数据中心完美地同时宕机。这就是'双活'的真正含义。".to_owned(),
                (15, 3),
                "临时扩容\n加10台服务器。".to_owned(),
                "10台服务器加完了，运维发现机房电力不够用，需要拉专线。工期：3个月。".to_owned(),
                (-8, -3),
                "放弃治疗\n重启服务器，问题暂时消失。".to_owned(),
                "你写了个脚本每小时自动重启服务器，美其名曰'主动健康检查'。".to_owned(),
            )
        },
    }
}

/// The NPC authored at index `i`, with today's flag cleared.
pub fn make_npc(i: usize) -> (n: NpcEncounter)
    requires
        i < NPC_COUNT,
    ensures
        n.well_formed(),
        !n.interacted,
        n.name@ == npc_encounter_name(i as int),
        (n.accept_option.reward, n.reject_option.reward) == npc_encounter_rewards(i as int),
{
    match i {
        0 => {
            build_npc(
                "摸鱼王大壮",
                "据说掌握办公室摸鱼的72种姿势，声称不被老板发现是基本功。",
                "摸鱼姿势生成模型",
                "大壮的AI雷达检测到公司监控盲区，建议今天去茶水间开展'灵感站会'。",
                "摸鱼模型推演出下午会有突击检查，你要不要加入他的隐秘排班？",
                "加入摸鱼联盟，获取灵感 + 保命技巧",
                "你共享了自动摸鱼脚本，团队暗自感谢你。",
                (2, -4),
                "谢绝联盟，保持正经坐姿",
                "你假装没看见，结果被排到最无聊的会议。",
                (0, 2),
            )
        },
        1 => {
            build_npc(
                "内卷仙子阿卷",
                "每天凌晨四点还在写需求，自称'不卷会死'。",
                "加班激励语言模型",
                "阿卷的AI助手生成了一份48小时冲刺路线图，等你签字。",
                "模型预测竞品今晚发版本，她想拉你一起连夜上线",
                "同意连夜冲刺，换取曝光机会",
                "你们线上连麦到天亮，产品经理感动落泪。",
                (4, 5),
                "拒绝加班，守住生活底线",
                "你婉拒后，她给你发来励志语录合集。",
                (1, -2),
            )
        },
        2 => {
            build_npc(
                "运维老李",
                "机房常驻嘉宾，随身携带一包螺丝刀和枸杞保温杯。",
                "故障预测模型",
                "老李的故障AI预警到晚高峰会有磁盘告警，问你要不要提前回滚。",
                "模型建议你们追加自愈脚本，他需要你一起写",
                "配合运维写自愈脚本",
                "你和老李把脚本上线，晚上群里安静得出奇。",
                (3, 1),
                "忽略预警，祈祷没事",
                "老李凌晨@你：'我就知道你不会信AI。'",
                (-1, -3),
            )
        },
        3 => {
            build_npc(
                "产品许愿师",
                "声称只要对着 PRD 许愿，需求就会自己长出来。",
                "需求幻觉模型",
                "许愿师的AI生成了三版互相矛盾的PRD，想让你选一个。",
                "模型预测用户最想要'智能许愿按钮'，他请你验证",
                "同意试做原型，探索黑科技",
                "你做了交互demo，运营群里刷屏点赞。",
                (2, 3),
                "拒绝魔改，守住当前范围",
                "你把PRD退回去，许愿师说要去拜访更懂技术的神仙。",
                (0, -1),
            )
        },
        4 => {
            build_npc(
                "咖啡机器人007",
                "AI 咖啡机，能根据心情自动调配浓度。",
                "情绪配方模型",
                "007检测到你心率过高，推荐'低压拿铁'。",
                "模型建议开通订阅制咖啡，为项目成员补给",
                "接受特调，顺便打包一桶给团队",
                "咖啡香味弥漫，大家自动加了两个小时班。",
                (1, -3),
                "拒绝咖啡，改喝白开水",
                "007发来一封长邮件，分析你水肿的风险。",
                (0, 1),
            )
        },
        5 => {
            build_npc(
                "玄学大师林玄",
                "擅长在发布会前做仪式，据说成功率+80%。",
                "发布会玄学大模型",
                "林玄的AI算卦认为今晚需要'零BUG咒语'，要你配合。",
                "模型推演：若加班磨代码+贴符，崩溃概率降到5%",
                "配合仪式并全量自测",
                "你边贴符边跑测试，发布会真的稳了。",
                (5, 5),
                "拒绝玄学，坚持科学流程",
                "林玄摇头说：'那今晚不要看群。'",
                (2, 0),
            )
        },
        6 => {
            build_npc(
                "HR郭",
                "负责全员情绪体检，最懂谁在偷偷崩溃。",
                "情绪洞察AI",
                "HR郭的模型检测到你组压力指数爆表，建议安排'午后复位会'。",
                "AI分析有人准备闪辞，她需要你一起做留人方案",
                "配合开展心理访谈",
                "你设计匿名问卷，团队士气回升。",
                (2, -3),
                "推迟访谈，先做项目",
                "郭在群里@你说'我们等你的反馈'，压力马上上来。",
                (0, 3),
            )
        },
        7 => {
            build_npc(
                "行政陈",
                "掌管工位、预算、零食补给，座右铭是'流程即正义'。",
                "资源编排模型",
                "行政陈用AI算出最优座位重排方案，想请你当试点。",
                "模型建议举办线下团建，但需要你的技术演讲撑场面",
                "同意配合重排与团建",
                "你写脚本控制抽奖机，活动效果炸裂。",
                (3, 2),
                "拒绝折腾，维持现状",
                "陈把物资优先级调低，你的工位降温器被回收。",
                (-1, -2),
            )
        },
        8 => {
            build_npc(
                "后勤林",
                "全公司最会修打印机的人，也会焊主板。",
                "设备自愈模型",
                "后勤林的模型报警：服务器机柜电流异常，想让你协助巡检。",
                "AI记录表明茶水间插排要爆，你要不要支援",
                "加入巡检，顺手写巡检脚本",
                "你把异常日志可视化，后勤林夸你靠谱。",
                (3, 4),
                "拒绝支援，只求运气",
                "晚上机柜真跳闸，你被临时叫醒救火。",
                (-2, -5),
            )
        },
        _ => {
            build_npc(
                "仓库卢",
                "管理所有硬件库存，知道每根网线的归宿。",
                "库存预测模型",
                "仓库卢的AI预测下周笔记本会缺货，问你要不要提前锁几台。",
                "模型提示线上活动要送周边，他想借你脚本数据做分配",
                "同意协助分配与锁货",
                "你导出需求清单，仓库给你留了一台顶配。",
                (2, 1),
                "拒绝加单，照旧申请",
                "卢把你排在审批队尾，说'AI推荐不支持你'。",
                (-1, -1),
            )
        },
    }
}

fn build_npc(
    name: &str,
    description: &str,
    ai_model: &str,
    prompt_1: &str,
    prompt_2: &str,
    accept_summary: &str,
    accept_detail: &str,
    accept_reward: (i32, i32),
    reject_summary: &str,
    reject_detail: &str,
    reject_reward: (i32, i32),
) -> (n: NpcEncounter)
    ensures
        n.well_formed(),
        !n.interacted,
        n.name@ == name@,
        n.accept_option.reward == accept_reward,
        n.reject_option.reward == reject_reward,
{
    let mut prompt_templates: Vec<String> = Vec::new();
    prompt_templates.push(prompt_1.to_owned());
    prompt_templates.push(prompt_2.to_owned());
    NpcEncounter {
        name: name.to_owned(),
        description: description.to_owned(),
        ai_model: ai_model.to_owned(),
        prompt_templates,
        accept_option: NpcOption {
            summary: accept_summary.to_owned(),
            detail: accept_detail.to_owned(),
            reward: accept_reward,
        },
        reject_option: NpcOption {
            summary: reject_summary.to_owned(),
            detail: reject_detail.to_owned(),
            reward: reject_reward,
        },
        interacted: false,
    }
}

/// Builds the full daily-event table.
pub fn create_daily_events() -> (v: Vec<DailyEvent>)
    ensures
        v@.len() == DAILY_EVENT_COUNT,
        forall|i: int|
            0 <= i < v@.len() ==> (#[trigger] v@[i]).options_shuffled() && v@[i].id == i
                && v@[i].name@ == daily_event_name(i) && (
            v@[i].option_a,
            v@[i].option_b,
            v@[i].option_c,
            ) == daily_event_rewards(i),
{
    let mut v: Vec<DailyEvent> = Vec::new();
    let mut i: usize = 0;
    while i < DAILY_EVENT_COUNT
        invariant
            i <= DAILY_EVENT_COUNT,
            v@.len() == i,
            forall|j: int|
                0 <= j < i ==> (#[trigger] v@[j]).options_shuffled() && v@[j].id == j
                    && v@[j].name@ == daily_event_name(j) && (
                v@[j].option_a,
                v@[j].option_b,
                v@[j].option_c,
                ) == daily_event_rewards(j),
        decreases DAILY_EVENT_COUNT - i,
    {
        let e = make_daily_event(i);
        v.push(e);
        i = i + 1;
    }
    v
}

/// Builds the full weekly-event table.
pub fn create_weekly_events() -> (v: Vec<WeeklyEvent>)
    ensures
        v@.len() == WEEKLY_EVENT_COUNT,
        forall|i: int|
            0 <= i < v@.len() ==> (#[trigger] v@[i]).options_shuffled() && v@[i].id == i
                && v@[i].name@ == weekly_event_name(i) && (
            v@[i].option_a,
            v@[i].option_b,
            v@[i].option_c,
            ) == weekly_event_rewards(i),
{
    let mut v: Vec<WeeklyEvent> = Vec::new();
    let mut i: usize = 0;
    while i < WEEKLY_EVENT_COUNT
        invariant
            i <= WEEKLY_EVENT_COUNT,
            v@.len() == i,
            forall|j: int|
                0 <= j < i ==> (#[trigger] v@[j]).options_shuffled() && v@[j].id == j
                    && v@[j].name@ == weekly_event_name(j) && (
                v@[j].option_a,
                v@[j].option_b,
                v@[j].option_c,
                ) == weekly_event_rewards(j),
        decreases WEEKLY_EVENT_COUNT - i,
    {
        let e = make_weekly_event(i);
        v.push(e);
        i = i + 1;
    }
    v
}

/// Builds the full NPC roster, nobody interacted with yet.
pub fn create_npcs() -> (v: Vec<NpcEncounter>)
    ensures
        v@.len() == NPC_COUNT,
        forall|i: int|
            0 <= i < v@.len() ==> (#[trigger] v@[i]).well_formed() && !v@[i].interacted
                && v@[i].name@ == npc_encounter_name(i) && (
            v@[i].accept_option.reward,
            v@[i].reject_option.reward,
            ) == npc_encounter_rewards(i),
{
    let mut v: Vec<NpcEncounter> = Vec::new();
    let mut i: usize = 0;
    while i < NPC_COUNT
        invariant
            i <= NPC_COUNT,
            v@.len() == i,
            forall|j: int|
                0 <= j < i ==> (#[trigger] v@[j]).well_formed() && !v@[j].interacted
                    && v@[j].name@ == npc_encounter_name(j) && (
                v@[j].accept_option.reward,
                v@[j].reject_option.reward,
                ) == npc_encounter_rewards(j),
        decreases NPC_COUNT - i,
    {
        let n = make_npc(i);
        v.push(n);
        i = i + 1;
    }
    v
}

} // verus!
