use desk_widget::{
    close_steps, display_from_groups, feed_text, first_title, is_in_dead_zone, move_window,
    timer_finished_alert, weather_display, weather_text, Clock, CloseStep, DragController,
    DragState, FetchError, LogicalPosition, Pattern, PhysicalPosition, DEAD_ZONE,
    LOAD_FAILED_TEXT, NO_MATCH_TEXT, PLACEHOLDER_TEXT, SECONDS_PER_DAY, UNITS_PER_LOGICAL,
    WEATHER_PATTERN,
};

fn feed(items: &str) -> Vec<u8> {
    format!(
        "<?xml version=\"1.0\" encoding=\"UTF-8\"?><rss version=\"2.0\"><channel>\
         <title>forecast</title><link>https://example.org/</link>\
         <description>weather</description>{}</channel></rss>",
        items
    )
    .into_bytes()
}

#[test]
fn small_moves_are_ignored() {
    let here = Some(LogicalPosition { x: 5_000_000, y: 7_000_000 });
    assert_eq!(move_window(here, 0, 0), None);
    assert_eq!(move_window(here, DEAD_ZONE - 1, -(DEAD_ZONE - 1)), None);
    assert_eq!(move_window(here, -99_999, 50_000), None);
    assert!(is_in_dead_zone(99_999, -99_999));
}

#[test]
fn large_moves_add_the_delta_once() {
    let here = Some(LogicalPosition { x: 5_000_000, y: 7_000_000 });
    assert_eq!(
        move_window(here, DEAD_ZONE, 0),
        Some(LogicalPosition { x: 5_100_000, y: 7_000_000 })
    );
    assert_eq!(
        move_window(here, 10, -2 * UNITS_PER_LOGICAL),
        Some(LogicalPosition { x: 5_000_010, y: 5_000_000 })
    );
    assert_eq!(
        move_window(here, -DEAD_ZONE, -DEAD_ZONE),
        Some(LogicalPosition { x: 4_900_000, y: 6_900_000 })
    );
    assert!(!is_in_dead_zone(0, -DEAD_ZONE));
}

#[test]
fn move_without_window_does_nothing() {
    assert_eq!(move_window(None, 3 * UNITS_PER_LOGICAL, 0), None);
}

#[test]
fn last_drag_start_wins() {
    let mut drag = DragController::new();
    assert_eq!(drag.state(), None);
    for i in 1..=5i32 {
        drag.start_drag(
            Some(PhysicalPosition { x: 10 * i, y: 20 * i }),
            LogicalPosition { x: i as i64, y: -(i as i64) },
            100 * i as u64,
        );
    }
    assert_eq!(
        drag.state(),
        Some(DragState {
            origin: PhysicalPosition { x: 50, y: 100 },
            press: LogicalPosition { x: 5, y: -5 },
            pressed_at: 500,
        })
    );
}

#[test]
fn drag_start_without_window_keeps_state() {
    let mut drag = DragController::new();
    drag.start_drag(None, LogicalPosition { x: 1, y: 1 }, 1);
    assert_eq!(drag.state(), None);
    drag.start_drag(Some(PhysicalPosition { x: 3, y: 4 }), LogicalPosition { x: 1, y: 2 }, 9);
    drag.start_drag(None, LogicalPosition { x: 7, y: 7 }, 10);
    assert_eq!(
        drag.state(),
        Some(DragState {
            origin: PhysicalPosition { x: 3, y: 4 },
            press: LogicalPosition { x: 1, y: 2 },
            pressed_at: 9,
        })
    );
}

#[test]
fn weather_summary_is_extracted() {
    assert_eq!(
        weather_text("溫度: 18 ~ 22 ... 降雨機率: 30%"),
        "温度:18 ~ 22,降水概率:30%"
    );
}

#[test]
fn weather_without_match_shows_no_match_text() {
    assert_eq!(weather_text("晴時多雲"), NO_MATCH_TEXT);
    assert_eq!(weather_text(""), "正则失败");
}

#[test]
fn pattern_captures_groups() {
    let p = Pattern::new(WEATHER_PATTERN).unwrap();
    let groups = p.captures("新北市 溫度:3~5 攝氏 降雨機率: 100%").unwrap();
    assert_eq!(groups.len(), 3);
    assert_eq!(groups[1].as_deref(), Some("3~5"));
    assert_eq!(groups[2].as_deref(), Some("100%"));
    assert!(p.captures("降雨機率: 30%").is_none());
    assert!(Pattern::new("(").is_none());
}

#[test]
fn groups_give_summary_or_no_match() {
    let full = Some(vec![
        Some("whole".to_string()),
        Some("1 ~ 2".to_string()),
        Some("0%".to_string()),
    ]);
    assert_eq!(display_from_groups(full), "温度:1 ~ 2,降水概率:0%");
    assert_eq!(display_from_groups(None), NO_MATCH_TEXT);
    assert_eq!(display_from_groups(Some(vec![Some("a".to_string())])), NO_MATCH_TEXT);
    assert_eq!(
        display_from_groups(Some(vec![Some("a".to_string()), None, Some("1%".to_string())])),
        NO_MATCH_TEXT
    );
}

#[test]
fn feed_gives_first_title() {
    let body = feed(
        "<item><title>溫度: 18 ~ 22 降雨機率: 30%</title></item><item><title>second</title></item>",
    );
    let text = feed_text(&body).unwrap();
    assert_eq!(text, "溫度: 18 ~ 22 降雨機率: 30%");
    assert_eq!(weather_display(Ok(text)), "温度:18 ~ 22,降水概率:30%");
}

#[test]
fn empty_feed_gives_placeholder_then_no_match() {
    let text = feed_text(&feed("")).unwrap();
    assert_eq!(text, "暂无数据");
    assert_eq!(text, PLACEHOLDER_TEXT);
    let shown = weather_display(Ok(text));
    assert_eq!(shown, NO_MATCH_TEXT);
    assert_ne!(shown, LOAD_FAILED_TEXT);
}

#[test]
fn untitled_first_item_gives_placeholder() {
    let body = feed("<item><description>x</description></item><item><title>t</title></item>");
    assert_eq!(feed_text(&body).unwrap(), PLACEHOLDER_TEXT);
    assert_eq!(first_title(vec![]), PLACEHOLDER_TEXT);
    assert_eq!(first_title(vec![None, Some("b".to_string())]), PLACEHOLDER_TEXT);
    assert_eq!(first_title(vec![Some("a".to_string()), None]), "a");
}

#[test]
fn malformed_feed_is_a_feed_error() {
    assert_eq!(feed_text(b"not a feed"), Err(FetchError::Feed));
    assert_eq!(weather_display(Err(FetchError::Feed)), LOAD_FAILED_TEXT);
}

#[test]
fn network_failure_shows_load_failed() {
    assert_eq!(weather_display(Err(FetchError::Network)), "加载失败");
}

#[test]
fn three_ticks_add_three_seconds() {
    let mut clock = Clock::at(12 * 3600 + 34 * 60 + 56).unwrap();
    assert_eq!(clock.text(), "12:34:56");
    clock.tick();
    clock.tick();
    clock.tick();
    assert_eq!(clock.text(), "12:34:59");
    assert_eq!(clock.seconds(), 12 * 3600 + 34 * 60 + 59);
}

#[test]
fn ticks_roll_over_midnight() {
    let mut clock = Clock::at(SECONDS_PER_DAY - 2).unwrap();
    assert_eq!(clock.text(), "23:59:58");
    clock.tick();
    clock.tick();
    clock.tick();
    assert_eq!(clock.text(), "00:00:01");
    assert!(Clock::at(SECONDS_PER_DAY).is_none());
    assert_eq!(Clock::at(0).unwrap().text(), "00:00:00");
}

#[test]
fn clock_now_is_within_a_day() {
    let now = Clock::now();
    assert!(now.seconds() < SECONDS_PER_DAY);
    let text = now.text();
    assert_eq!(text.len(), 8);
    assert_eq!(&text[2..3], ":");
}

#[test]
fn close_hides_then_exits() {
    assert_eq!(close_steps(true), vec![CloseStep::Hide, CloseStep::Exit]);
    assert_eq!(close_steps(false), vec![CloseStep::Exit]);
}

#[test]
fn timer_alert_stays_until_dismissed() {
    let alert = timer_finished_alert();
    assert_eq!(alert.summary, "雪球");
    assert_eq!(alert.body, "定时任务结束！");
    assert_eq!(alert.icon, "thunderbird");
    assert_eq!(alert.app_name, "thunderbird");
    assert_eq!(alert.sound, "Alarm");
    assert_eq!(alert.timeout_ms, 0);
}
