use salary_ticker::calendar::Date;
use salary_ticker::clock::LocalDateTime;
use salary_ticker::money::Money;
use salary_ticker::salary::{calculate_salary, WorkStatus};
use salary_ticker::ticker::{engine_ready, overrides_for, today_overrides, tray_title, TickerState};
use salary_ticker::tray::{
    check_menubar_frontmost, frames, idle_icon, next_frame, refresh_icon_theme, update_icon_state,
    update_menu_check_states, MenuCommand, TrayState,
};
use salary_ticker::types::{
    check_filename, compose_nickname, generate_random_company, generate_random_nickname,
    validate_filename, validate_pay_day, validate_salary, validate_string_input, validate_theme,
    AppPreferences, MenubarDisplayMode, MenubarIconTheme, RecoveryError, SalaryType, UserSettings,
};

fn settings(mode: MenubarDisplayMode) -> UserSettings {
    UserSettings {
        salary_type: SalaryType::Monthly,
        salary_amount: 3_000_000,
        pay_day: 25,
        work_days: vec![1, 2, 3, 4, 5],
        work_start_time: "09:00".to_string(),
        work_end_time: "18:00".to_string(),
        onboarding_completed: true,
        menubar_display_mode: mode,
        menubar_icon_theme: MenubarIconTheme::Light,
    }
}

fn at(y: i32, m: u32, d: u32, h: u32) -> LocalDateTime {
    LocalDateTime::from_hms(Date::from_ymd(y, m, d).unwrap(), h, 0, 0).unwrap()
}

#[test]
fn title_follows_the_display_mode() {
    let s = settings(MenubarDisplayMode::Daily);
    let p = calculate_salary(&s, false, None, at(2025, 2, 10, 18)).unwrap();
    // Completed: the whole daily rate, 3,000,000 / 21 = 142,857.14...
    assert_eq!(tray_title(MenubarDisplayMode::Daily, &p).unwrap(), " 142,857원");
    // Ten completed days before today plus today.
    assert_eq!(tray_title(MenubarDisplayMode::Accumulated, &p).unwrap(), " 1,571,428원");
    assert!(tray_title(MenubarDisplayMode::Hidden, &p).is_none());
    let off = calculate_salary(&s, false, None, at(2025, 2, 9, 12)).unwrap();
    assert_eq!(off.work_status, WorkStatus::DayOff);
    assert!(tray_title(MenubarDisplayMode::Daily, &off).is_none());
    assert!(tray_title(MenubarDisplayMode::Accumulated, &off).is_none());
}

#[test]
fn ticker_acts_only_on_change() {
    let s = settings(MenubarDisplayMode::Daily);
    let mut state = TickerState::new();
    let none = state.on_tick(MenubarDisplayMode::Daily, None);
    assert!(none.set_title.is_none() && none.set_working.is_none() && none.publish.is_none());

    let p = calculate_salary(&s, false, None, at(2025, 2, 10, 12)).unwrap();
    let first = state.on_tick(MenubarDisplayMode::Daily, Some(p));
    assert_eq!(first.set_title, Some(Some(" 47,619원".to_string())));
    assert_eq!(first.set_working, Some(true));
    assert_eq!(first.publish, Some(p));

    let again = state.on_tick(MenubarDisplayMode::Daily, Some(p));
    assert!(again.set_title.is_none());
    assert!(again.set_working.is_none());
    assert_eq!(again.publish, Some(p));

    let off = calculate_salary(&s, false, None, at(2025, 2, 9, 12)).unwrap();
    let later = state.on_tick(MenubarDisplayMode::Daily, Some(off));
    assert_eq!(later.set_title, Some(None));
    assert_eq!(later.set_working, Some(false));
}

#[test]
fn overrides_apply_only_on_their_day() {
    let r = today_overrides("2025-02-10", Some("2025-02-10"), Some(("2025-02-09", "10:00", "12:00")));
    assert!(r.is_on_vacation);
    assert!(r.schedule.is_none());
    let r = today_overrides("2025-02-09", None, Some(("2025-02-09", "10:00", "12:00")));
    assert!(!r.is_on_vacation);
    assert_eq!(r.schedule, Some(("10:00".to_string(), "12:00".to_string())));
}

#[test]
fn overrides_are_keyed_by_the_iso_date() {
    let today = Date::from_ymd(2025, 2, 9).unwrap();
    let r = overrides_for(&today, Some("2025-02-09"), Some(("2025-02-09", "10:00", "12:00")));
    assert!(r.is_on_vacation);
    assert!(r.schedule.is_some());
    let r = overrides_for(&today, Some("2025-2-9"), Some(("2025-02-10", "10:00", "12:00")));
    assert!(!r.is_on_vacation);
    assert!(r.schedule.is_none());
    let early = Date::from_ymd(7, 1, 5).unwrap();
    assert!(overrides_for(&early, Some("0007-01-05"), None).is_on_vacation);
}

#[test]
fn engine_waits_for_onboarding() {
    assert!(!engine_ready(&None));
    let mut s = settings(MenubarDisplayMode::Daily);
    assert!(engine_ready(&Some(s.clone())));
    s.onboarding_completed = false;
    assert!(!engine_ready(&Some(s)));
}

#[test]
fn default_settings_are_weekdays_nine_to_six() {
    let s = UserSettings::default();
    assert_eq!(s.work_days, vec![1, 2, 3, 4, 5]);
    assert_eq!(s.work_start_time, "09:00");
    assert_eq!(s.work_end_time, "18:00");
    assert_eq!(s.pay_day, 25);
    assert!(!s.onboarding_completed);
    let p = AppPreferences::default();
    assert_eq!(p.theme, "system");
    assert!(p.quick_pane_shortcut.is_none() && p.language.is_none());
}

#[test]
fn icon_animation_starts_once_and_stops() {
    let mut state = TrayState::new(MenubarIconTheme::Light);
    assert!(update_icon_state(&mut state, true));
    assert!(state.animating);
    assert!(!update_icon_state(&mut state, true));
    assert!(!update_icon_state(&mut state, false));
    assert!(!state.animating);
    assert!(!state.set_icon_theme(MenubarIconTheme::Dark) == false);
    assert!(update_icon_state(&mut state, true));
    assert!(!state.set_icon_theme(MenubarIconTheme::Light));
}

#[test]
fn icon_assets_follow_the_theme() {
    let mut state = TrayState::new(MenubarIconTheme::Light);
    assert_eq!(idle_icon(&state), "tray-idle.png");
    let f = frames(&state);
    assert_eq!(f.len(), 14);
    assert_eq!(f[0], "tray-frame-0.png");
    assert_eq!(f[13], "tray-frame-13.png");
    let mut dark = settings(MenubarDisplayMode::Daily);
    dark.menubar_icon_theme = MenubarIconTheme::Dark;
    refresh_icon_theme(&mut state, &dark);
    assert!(!state.is_light_icon);
    assert_eq!(idle_icon(&state), "tray-idle-light.png");
    assert_eq!(frames(&state)[7], "tray-frame-light-7.png");
    assert_eq!(next_frame(0), 1);
    assert_eq!(next_frame(13), 0);
}

#[test]
fn menu_reflects_and_reads_settings() {
    let c = update_menu_check_states(&settings(MenubarDisplayMode::Accumulated));
    assert!(!c.display_none && !c.display_daily && c.display_accumulated);
    assert!(c.icon_light && !c.icon_dark);
    assert_eq!(MenuCommand::from_id("quit"), MenuCommand::Quit);
    assert_eq!(MenuCommand::from_id("salary_work_settings"), MenuCommand::OpenSalarySettings);
    assert_eq!(MenuCommand::from_id("display_none"), MenuCommand::SetDisplayMode(MenubarDisplayMode::Hidden));
    assert_eq!(MenuCommand::from_id("display_daily"), MenuCommand::SetDisplayMode(MenubarDisplayMode::Daily));
    assert_eq!(
        MenuCommand::from_id("display_accumulated"),
        MenuCommand::SetDisplayMode(MenubarDisplayMode::Accumulated)
    );
    assert_eq!(MenuCommand::from_id("icon_dark"), MenuCommand::SetIconTheme(MenubarIconTheme::Dark));
    assert_eq!(MenuCommand::from_id("icon_light"), MenuCommand::SetIconTheme(MenubarIconTheme::Light));
    assert_eq!(MenuCommand::from_id("other"), MenuCommand::Ignore);
    assert!(check_menubar_frontmost(42, 42));
    assert!(!check_menubar_frontmost(42, 7));
}

#[test]
fn file_names_are_validated() {
    assert!(validate_filename("settings.json").is_ok());
    assert!(validate_filename("my-file_1").is_ok());
    assert_eq!(validate_filename("").unwrap_err(), "Filename cannot be empty");
    assert_eq!(validate_filename(&"a".repeat(101)).unwrap_err(), "Filename too long (max 100 characters)");
    assert!(validate_filename(&"a".repeat(100)).is_ok());
    let invalid = "Invalid filename: only alphanumeric characters, dashes, underscores, and dots allowed";
    assert_eq!(validate_filename("../etc").unwrap_err(), invalid);
    assert_eq!(validate_filename("a.b.c").unwrap_err(), invalid);
    assert_eq!(validate_filename("name.").unwrap_err(), invalid);
    assert_eq!(validate_filename("a\n").unwrap_err(), invalid);
    assert_eq!(validate_filename(".hidden").unwrap_err(), invalid);
    assert_eq!(validate_filename("a.b_c").unwrap_err(), invalid);
    assert_eq!(validate_filename("Ärger.txt").unwrap_err(), invalid);
    assert!(validate_filename("A-b_9.Z1").is_ok());
    assert_eq!(check_filename("x", false).unwrap_err(), invalid);
    assert!(check_filename("x", true).is_ok());
}

#[test]
fn text_inputs_and_choices_are_validated() {
    assert!(validate_string_input("가나다", 3, "Name").is_ok());
    assert_eq!(validate_string_input("가나다라", 3, "Name").unwrap_err(), "Name too long (max 3 characters)");
    assert!(validate_theme("dark").is_ok());
    assert!(validate_theme("light").is_ok());
    assert!(validate_theme("system").is_ok());
    assert_eq!(validate_theme("blue").unwrap_err(), "Invalid theme: must be 'light', 'dark', or 'system'");
    assert!(validate_salary(1).is_ok());
    assert_eq!(validate_salary(0).unwrap_err(), "월 실수령액은 0보다 커야 합니다");
    assert!(validate_pay_day(1).is_ok() && validate_pay_day(31).is_ok());
    assert_eq!(validate_pay_day(0).unwrap_err(), "월급날은 1~31 사이여야 합니다");
    assert!(validate_pay_day(32).is_err());
}

#[test]
fn recovery_errors_read_as_text() {
    assert_eq!(RecoveryError::FileNotFound.display_text(), "File not found");
    assert_eq!(
        RecoveryError::ValidationError { message: "bad".to_string() }.display_text(),
        "Validation error: bad"
    );
    assert_eq!(
        RecoveryError::DataTooLarge { max_bytes: 10_485_760 }.display_text(),
        "Data too large (max 10485760 bytes)"
    );
    assert_eq!(RecoveryError::IoError { message: "x".to_string() }.display_text(), "IO error: x");
    assert_eq!(RecoveryError::ParseError { message: "y".to_string() }.display_text(), "Parse error: y");
}

#[test]
fn random_names_come_from_the_lists() {
    let adjectives = ["성실한", "부지런한", "열정적인", "꼼꼼한", "유능한", "프로"];
    let characters = ["뚱이", "징징이", "다람이", "핑핑이", "보노보노", "포차코"];
    for _ in 0..20 {
        let n = generate_random_nickname();
        let (a, c) = n.split_once(' ').unwrap();
        assert!(adjectives.contains(&a) && characters.contains(&c), "{n}");
    }
    let companies = ["집게리아", "버거왕국", "초코파이공장", "별다방", "감자튀김연구소", "햄버거학교", "피자왕국", "치킨나라"];
    for _ in 0..20 {
        assert!(companies.contains(&generate_random_company().as_str()));
    }
    assert_eq!(compose_nickname("프로", "뚱이"), "프로 뚱이");
}

#[test]
fn money_floors_to_whole_units() {
    assert_eq!(Money::new(7, 2).floor(), 3);
    assert_eq!(Money::new(0, 5).floor(), 0);
}
