use ibxrust::config::{
    flag_from, parse_flag, parse_i32_setting, parse_u16_setting, parse_u64_setting, validate, EnvTexts,
    LoggingConfig, Settings, TwsConfig, UiConfig,
};
use ibxrust::error::Failure;

fn tws(port: u16) -> TwsConfig {
    TwsConfig { host: "10.0.0.8".to_string(), port, client_id: 3, paper_trading: false }
}

fn ui(refresh_rate_ms: u64) -> UiConfig {
    UiConfig { refresh_rate_ms, show_colors: false, clear_screen: true }
}

fn rejected(result: Result<(), Failure>) -> String {
    match result {
        Err(failure) => failure.to_string(),
        Ok(()) => panic!("the settings should have been refused"),
    }
}

fn unset() -> EnvTexts {
    EnvTexts {
        tws_host: None,
        tws_port: None,
        tws_client_id: None,
        paper_trading: None,
        default_position_size: None,
        max_position_size: None,
        require_confirmation: None,
        ui_refresh_rate_ms: None,
        show_colors: None,
        log_level: None,
        log_dir: None,
    }
}

fn text(value: &str) -> Option<String> {
    Some(value.to_string())
}

fn refused(env: EnvTexts) -> String {
    match Settings::load(env) {
        Err(failure) => failure.to_string(),
        Ok(settings) => panic!("unexpected settings {:?}", settings),
    }
}

fn assert_defaults(settings: &Settings) {
    assert_eq!(settings.tws.host, "127.0.0.1");
    assert_eq!(settings.tws.port, 7500);
    assert_eq!(settings.tws.client_id, 1);
    assert!(settings.tws.paper_trading);
    assert_eq!(settings.default_position_size, 100);
    assert_eq!(settings.max_position_size, 1000);
    assert!(settings.require_confirmation);
    assert!(!settings.auto_close_on_target);
    assert_eq!(settings.ui.refresh_rate_ms, 1000);
    assert!(settings.ui.show_colors);
    assert!(settings.ui.clear_screen);
    assert_eq!(settings.logging.level, "info");
    assert!(settings.logging.file_output);
    assert_eq!(settings.logging.log_dir, "logs");
}

#[test]
fn default_settings() {
    let tws = TwsConfig::default();
    assert_eq!(tws.host, "127.0.0.1");
    assert_eq!(tws.port, 7500);
    assert_eq!(tws.client_id, 1);
    assert!(tws.paper_trading);
    let ui = UiConfig::default();
    assert_eq!(ui.refresh_rate_ms, 1000);
    assert!(ui.show_colors);
    assert!(ui.clear_screen);
    let logging = LoggingConfig::default();
    assert_eq!(logging.level, "info");
    assert!(logging.file_output);
    assert_eq!(logging.log_dir, "logs");
    assert!(validate(&tws, 100, 1000, true, true, &ui).is_ok());
}

#[test]
fn settings_clone_keeps_every_field() {
    let t = tws(4001).clone();
    assert_eq!(t.host, "10.0.0.8");
    assert_eq!(t.port, 4001);
    assert_eq!(t.client_id, 3);
    assert!(!t.paper_trading);
    let u = ui(250).clone();
    assert_eq!(u.refresh_rate_ms, 250);
    assert!(!u.show_colors);
    assert!(u.clear_screen);
    let l = LoggingConfig { level: "debug".to_string(), file_output: false, log_dir: "/var/log".to_string() }.clone();
    assert_eq!(l.level, "debug");
    assert!(!l.file_output);
    assert_eq!(l.log_dir, "/var/log");
}

#[test]
fn connection_url_is_host_colon_port() {
    assert_eq!(tws(4001).connection_url(), "10.0.0.8:4001");
    assert_eq!(tws(0).connection_url(), "10.0.0.8:0");
    assert_eq!(tws(65535).connection_url(), "10.0.0.8:65535");
    assert_eq!(TwsConfig::default().connection_url(), "127.0.0.1:7500");
}

#[test]
fn valid_settings_pass() {
    assert!(validate(&tws(1), 100, 100, true, true, &ui(1)).is_ok());
    assert!(validate(&tws(65535), -5, 0, true, true, &ui(u64::MAX)).is_ok());
    assert!(validate(&tws(7500), i32::MIN, i32::MAX, true, true, &ui(1000)).is_ok());
}

#[test]
fn port_zero_is_rejected() {
    assert_eq!(rejected(validate(&tws(0), 100, 1000, true, true, &ui(1000))), "TWS port cannot be 0");
}

#[test]
fn max_position_below_default_is_rejected() {
    assert_eq!(
        rejected(validate(&tws(7500), 1000, 999, true, true, &ui(1000))),
        "Max position size must be >= default position size"
    );
}

#[test]
fn profit_target_must_be_positive() {
    assert_eq!(
        rejected(validate(&tws(7500), 100, 1000, false, true, &ui(1000))),
        "Target profit percent must be positive"
    );
}

#[test]
fn stop_loss_must_be_positive() {
    assert_eq!(
        rejected(validate(&tws(7500), 100, 1000, true, false, &ui(1000))),
        "Stop loss percent must be positive"
    );
}

#[test]
fn refresh_rate_zero_is_rejected() {
    assert_eq!(
        rejected(validate(&tws(7500), 100, 1000, true, true, &ui(0))),
        "UI refresh rate must be positive"
    );
}

#[test]
fn the_first_broken_rule_is_reported() {
    assert_eq!(rejected(validate(&tws(0), 10, 1, false, false, &ui(0))), "TWS port cannot be 0");
    assert_eq!(
        rejected(validate(&tws(1), 10, 1, false, false, &ui(0))),
        "Max position size must be >= default position size"
    );
    assert_eq!(
        rejected(validate(&tws(1), 1, 1, false, false, &ui(0))),
        "Target profit percent must be positive"
    );
    assert_eq!(rejected(validate(&tws(1), 1, 1, true, false, &ui(0))), "Stop loss percent must be positive");
}

#[test]
fn flags_are_on_for_true_and_one() {
    for on in ["true", "TRUE", "True", "tRuE", "1"] {
        assert!(parse_flag(on), "{:?} should switch on", on);
    }
    for off in ["", "0", "false", "yes", "on", " true", "true ", "11", "01", "t", "truee", "１"] {
        assert!(!parse_flag(off), "{:?} should switch off", off);
    }
}

#[test]
fn flag_from_compares_the_lowered_text() {
    assert!(flag_from("true", "TRUE"));
    assert!(flag_from("true", "anything"));
    assert!(flag_from("no", "1"));
    assert!(!flag_from("TRUE", "TRUE"));
    assert!(!flag_from("1", "2"));
    assert!(!flag_from("", ""));
}

#[test]
fn port_settings() {
    assert_eq!(parse_u16_setting("TWS_PORT", "7500").unwrap(), 7500);
    assert_eq!(parse_u16_setting("TWS_PORT", "0").unwrap(), 0);
    assert_eq!(parse_u16_setting("TWS_PORT", "65535").unwrap(), 65535);
    assert_eq!(parse_u16_setting("TWS_PORT", "+4002").unwrap(), 4002);
    assert_eq!(parse_u16_setting("TWS_PORT", "0007").unwrap(), 7);
    for bad in ["", "+", "-", "65536", "-1", "-0", "12a", " 12", "12 ", "1_000", "++1", "0x10", "１２"] {
        assert_eq!(rejected(parse_u16_setting("TWS_PORT", bad).map(|_| ())), "Invalid TWS_PORT value");
    }
}

#[test]
fn signed_settings() {
    assert_eq!(parse_i32_setting("TWS_CLIENT_ID", "1").unwrap(), 1);
    assert_eq!(parse_i32_setting("TWS_CLIENT_ID", "-12").unwrap(), -12);
    assert_eq!(parse_i32_setting("TWS_CLIENT_ID", "+12").unwrap(), 12);
    assert_eq!(parse_i32_setting("TWS_CLIENT_ID", "-0").unwrap(), 0);
    assert_eq!(parse_i32_setting("MAX_POSITION_SIZE", "2147483647").unwrap(), i32::MAX);
    assert_eq!(parse_i32_setting("MAX_POSITION_SIZE", "-2147483648").unwrap(), i32::MIN);
    for bad in ["", "+", "-", "2147483648", "-2147483649", "--1", "+-1", "1.0", "ten"] {
        assert_eq!(
            rejected(parse_i32_setting("DEFAULT_POSITION_SIZE", bad).map(|_| ())),
            "Invalid DEFAULT_POSITION_SIZE value"
        );
    }
}

#[test]
fn wide_settings() {
    assert_eq!(parse_u64_setting("UI_REFRESH_RATE_MS", "1000").unwrap(), 1000);
    assert_eq!(parse_u64_setting("UI_REFRESH_RATE_MS", "18446744073709551615").unwrap(), u64::MAX);
    assert_eq!(parse_u64_setting("UI_REFRESH_RATE_MS", "+0").unwrap(), 0);
    for bad in ["", "18446744073709551616", "-5", "5ms"] {
        assert_eq!(
            rejected(parse_u64_setting("UI_REFRESH_RATE_MS", bad).map(|_| ())),
            "Invalid UI_REFRESH_RATE_MS value"
        );
    }
}

#[test]
fn a_written_port_reads_back() {
    for port in [0u16, 1, 9, 10, 443, 7500, 65535] {
        let url = tws(port).connection_url();
        let written = url.rsplit(':').next().unwrap();
        assert_eq!(parse_u16_setting("TWS_PORT", written).unwrap(), port);
    }
}

#[test]
fn log_file_is_named_after_the_start_of_the_session() {
    let logging = LoggingConfig { level: "info".to_string(), file_output: true, log_dir: "logs".to_string() };
    assert_eq!(logging.log_file_path("20240131_235959"), "logs/ibxrust_20240131_235959.log");
    let bare = LoggingConfig { level: String::new(), file_output: false, log_dir: String::new() };
    assert_eq!(bare.log_file_path(""), "/ibxrust_.log");
}

#[test]
fn unset_environment_gives_the_defaults() {
    assert_defaults(&Settings::load(unset()).unwrap());
    assert_defaults(&Settings::default());
}

#[test]
fn every_variable_sets_its_own_setting() {
    let env = EnvTexts {
        tws_host: text("10.1.2.3"),
        tws_port: text("4002"),
        tws_client_id: text("-7"),
        paper_trading: text("false"),
        default_position_size: text("250"),
        max_position_size: text("+5000"),
        require_confirmation: text("0"),
        ui_refresh_rate_ms: text("50"),
        show_colors: text("no"),
        log_level: text("trace"),
        log_dir: text("/tmp/ib"),
    };
    let settings = Settings::load(env).unwrap();
    assert_eq!(settings.tws.host, "10.1.2.3");
    assert_eq!(settings.tws.port, 4002);
    assert_eq!(settings.tws.client_id, -7);
    assert!(!settings.tws.paper_trading);
    assert_eq!(settings.default_position_size, 250);
    assert_eq!(settings.max_position_size, 5000);
    assert!(!settings.require_confirmation);
    assert!(!settings.auto_close_on_target);
    assert_eq!(settings.ui.refresh_rate_ms, 50);
    assert!(!settings.ui.show_colors);
    assert!(settings.ui.clear_screen);
    assert_eq!(settings.logging.level, "trace");
    assert!(settings.logging.file_output);
    assert_eq!(settings.logging.log_dir, "/tmp/ib");
}

#[test]
fn one_variable_leaves_the_other_settings_alone() {
    let mut env = unset();
    env.tws_port = text("4001");
    let settings = Settings::load(env).unwrap();
    assert_eq!(settings.tws.port, 4001);
    assert_eq!(settings.tws.host, "127.0.0.1");
    assert_eq!(settings.tws.client_id, 1);
    assert_eq!(settings.ui.refresh_rate_ms, 1000);

    let mut env = unset();
    env.show_colors = text("TRUE");
    env.paper_trading = text("1");
    env.require_confirmation = text("off");
    let settings = Settings::load(env).unwrap();
    assert!(settings.ui.show_colors);
    assert!(settings.tws.paper_trading);
    assert!(!settings.require_confirmation);
    assert_eq!(settings.tws.port, 7500);

    let mut env = unset();
    env.tws_host = text("");
    env.log_level = text("");
    let settings = Settings::load(env).unwrap();
    assert_eq!(settings.tws.host, "");
    assert_eq!(settings.logging.level, "");
    assert_eq!(settings.logging.log_dir, "logs");
}

#[test]
fn port_out_of_range_is_refused_by_name() {
    let mut env = unset();
    env.tws_port = text("70000");
    assert_eq!(refused(env), "Invalid TWS_PORT value");
}

#[test]
fn each_unreadable_number_is_refused_by_name() {
    let mut env = unset();
    env.tws_port = text("");
    assert_eq!(refused(env), "Invalid TWS_PORT value");
    let mut env = unset();
    env.tws_client_id = text("one");
    assert_eq!(refused(env), "Invalid TWS_CLIENT_ID value");
    let mut env = unset();
    env.default_position_size = text("1e3");
    assert_eq!(refused(env), "Invalid DEFAULT_POSITION_SIZE value");
    let mut env = unset();
    env.max_position_size = text("2147483648");
    assert_eq!(refused(env), "Invalid MAX_POSITION_SIZE value");
    let mut env = unset();
    env.ui_refresh_rate_ms = text("-1");
    assert_eq!(refused(env), "Invalid UI_REFRESH_RATE_MS value");
}

#[test]
fn the_first_unreadable_number_is_reported() {
    let all_bad = || EnvTexts {
        tws_host: text("h"),
        tws_port: text("x"),
        tws_client_id: text("x"),
        paper_trading: text("x"),
        default_position_size: text("x"),
        max_position_size: text("x"),
        require_confirmation: text("x"),
        ui_refresh_rate_ms: text("x"),
        show_colors: text("x"),
        log_level: text("x"),
        log_dir: text("x"),
    };
    assert_eq!(refused(all_bad()), "Invalid TWS_PORT value");
    let mut env = all_bad();
    env.tws_port = text("1");
    assert_eq!(refused(env), "Invalid TWS_CLIENT_ID value");
    let mut env = all_bad();
    env.tws_port = None;
    env.tws_client_id = text("1");
    assert_eq!(refused(env), "Invalid DEFAULT_POSITION_SIZE value");
    let mut env = all_bad();
    env.tws_port = text("1");
    env.tws_client_id = text("1");
    env.default_position_size = text("1");
    assert_eq!(refused(env), "Invalid MAX_POSITION_SIZE value");
    let mut env = all_bad();
    env.tws_port = text("1");
    env.tws_client_id = text("1");
    env.default_position_size = text("1");
    env.max_position_size = None;
    assert_eq!(refused(env), "Invalid UI_REFRESH_RATE_MS value");
    let mut env = all_bad();
    env.tws_port = text("1");
    env.tws_client_id = text("1");
    env.default_position_size = text("1");
    env.max_position_size = text("1");
    env.ui_refresh_rate_ms = text("1");
    assert!(Settings::load(env).is_ok());
}

#[test]
fn port_zero_and_refresh_zero_report_the_port() {
    let mut tws = TwsConfig::default();
    tws.port = 0;
    let mut ui = UiConfig::default();
    ui.refresh_rate_ms = 0;
    let failure = validate(&tws, 100, 1000, true, true, &ui).unwrap_err();
    assert_eq!(failure.to_string(), "TWS port cannot be 0");
}
