//! Settings of the application: how they are read from text, and the rules
//! they must meet.

use crate::error::Failure;
use crate::text::{append_decimal, decimal, integer_within};
use vstd::prelude::*;
use vstd::string::*;

verus! {

/// How to reach the gateway.
#[derive(Debug)]
pub struct TwsConfig {
    pub host: String,
    pub port: u16,
    pub client_id: i32,
    pub paper_trading: bool,
}

/// How the screen is kept up to date.
#[derive(Debug)]
pub struct UiConfig {
    pub refresh_rate_ms: u64,
    pub show_colors: bool,
    pub clear_screen: bool,
}

/// Where the log goes and how much of it there is.
#[derive(Debug)]
pub struct LoggingConfig {
    pub level: String,
    pub file_output: bool,
    pub log_dir: String,
}

impl Clone for TwsConfig {
    fn clone(&self) -> (copy: Self)
        ensures
            copy.host@ == self.host@,
            copy.port == self.port,
            copy.client_id == self.client_id,
            copy.paper_trading == self.paper_trading,
    {
        TwsConfig {
            host: self.host.clone(),
            port: self.port,
            client_id: self.client_id,
            paper_trading: self.paper_trading,
        }
    }
}

impl Clone for UiConfig {
    fn clone(&self) -> (copy: Self)
        ensures
            copy == *self,
    {
        UiConfig {
            refresh_rate_ms: self.refresh_rate_ms,
            show_colors: self.show_colors,
            clear_screen: self.clear_screen,
        }
    }
}

impl Clone for LoggingConfig {
    fn clone(&self) -> (copy: Self)
        ensures
            copy.level@ == self.level@,
            copy.file_output == self.file_output,
            copy.log_dir@ == self.log_dir@,
    {
        LoggingConfig {
            level: self.level.clone(),
            file_output: self.file_output,
            log_dir: self.log_dir.clone(),
        }
    }
}

impl Default for TwsConfig {
    /// The local gateway on port 7500, as client 1, in paper trading.
    fn default() -> (config: Self)
        ensures
            config.host@ == "127.0.0.1"@,
            config.port == 7500,
            config.client_id == 1,
            config.paper_trading,
    {
        TwsConfig { host: "127.0.0.1".to_owned(), port: 7500, client_id: 1, paper_trading: true }
    }
}

impl Default for UiConfig {
    /// One refresh a second, with colours, on a cleared screen.
    fn default() -> (config: Self)
        ensures
            config == (UiConfig { refresh_rate_ms: 1000, show_colors: true, clear_screen: true }),
    {
        UiConfig { refresh_rate_ms: 1000, show_colors: true, clear_screen: true }
    }
}

impl Default for LoggingConfig {
    /// Level `info`, written to files under `logs`.
    fn default() -> (config: Self)
        ensures
            config.level@ == "info"@,
            config.file_output,
            config.log_dir@ == "logs"@,
    {
        LoggingConfig { level: "info".to_owned(), file_output: true, log_dir: "logs".to_owned() }
    }
}

impl TwsConfig {
    /// The address of the gateway: the host, a colon, the port in decimal.
    pub fn connection_url(&self) -> (url: String)
        ensures
            url@ == self.host@ + seq![':'] + decimal(self.port as nat),
    {
        let mut url = self.host.clone();
        proof {
            reveal_strlit(":");
        }
        url.append(":");
        assert(url@ =~= self.host@ + seq![':']);
        append_decimal(&mut url, self.port as u64);
        url
    }
}

impl LoggingConfig {
    /// The path of the log file of a session that started at `timestamp`:
    /// in the log directory, named after the application and the time.
    pub fn log_file_path(&self, timestamp: &str) -> (path: String)
        ensures
            path@ == self.log_dir@ + "/ibxrust_"@ + timestamp@ + ".log"@,
    {
        let mut path = self.log_dir.clone();
        path.append("/ibxrust_");
        path.append(timestamp);
        path.append(".log");
        path
    }
}

/// The first rule that the settings break, by its text; `None` where they
/// break none. The rules, in the order in which they are tried: the port is
/// not zero; the largest position is no smaller than the default one; the
/// profit target is positive; the stop loss is positive; the refresh rate is
/// not zero.
pub open spec fn broken_rule(
    port: u16,
    default_position_size: i32,
    max_position_size: i32,
    target_profit_positive: bool,
    stop_loss_positive: bool,
    refresh_rate_ms: u64,
) -> Option<Seq<char>> {
    if port == 0 {
        Some("TWS port cannot be 0"@)
    } else if max_position_size < default_position_size {
        Some("Max position size must be >= default position size"@)
    } else if !target_profit_positive {
        Some("Target profit percent must be positive"@)
    } else if !stop_loss_positive {
        Some("Stop loss percent must be positive"@)
    } else if refresh_rate_ms == 0 {
        Some("UI refresh rate must be positive"@)
    } else {
        None
    }
}

/// Checks the settings against the rules and reports the first one broken:
/// the failure reads as the rule does. The two percentages come as the answer
/// to "is it positive".
pub fn validate(
    tws: &TwsConfig,
    default_position_size: i32,
    max_position_size: i32,
    target_profit_positive: bool,
    stop_loss_positive: bool,
    ui: &UiConfig,
) -> (checked: Result<(), Failure>)
    ensures
        match broken_rule(
            tws.port,
            default_position_size,
            max_position_size,
            target_profit_positive,
            stop_loss_positive,
            ui.refresh_rate_ms,
        ) {
            Some(rule) => checked matches Err(failure) && failure@ == rule,
            None => checked is Ok,
        },
{
    if tws.port == 0 {
        return Err(Failure::new("TWS port cannot be 0".to_owned()));
    }
    if max_position_size < default_position_size {
        return Err(Failure::new("Max position size must be >= default position size".to_owned()));
    }
    if !target_profit_positive {
        return Err(Failure::new("Target profit percent must be positive".to_owned()));
    }
    if !stop_loss_positive {
        return Err(Failure::new("Stop loss percent must be positive".to_owned()));
    }
    if ui.refresh_rate_ms == 0 {
        return Err(Failure::new("UI refresh rate must be positive".to_owned()));
    }
    Ok(())
}

/// The lower-case form of `text`, as `str::to_lowercase` gives it.
pub uninterp spec fn lowercase(text: Seq<char>) -> Seq<char>;

/// `str::to_lowercase`: the text with each character replaced by its
/// lower-case form.
#[verifier::external_body]
fn lowered(value: &str) -> (lowered: String)
    ensures
        lowered@ == lowercase(value@),
{
    value.to_lowercase()
}

/// `str::parse::<u16>`: the number that the text reads as, where it is made
/// of decimal digits, with a `+` before them or without, and is at most
/// 65535. Any other text gives nothing.
#[verifier::external_body]
fn read_u16(value: &str) -> (number: Option<u16>)
    ensures
        match integer_within(value@, 0, u16::MAX as int) {
            Some(v) => number == Some(v as u16),
            None => number is None,
        },
{
    value.parse::<u16>().ok()
}

/// `str::parse::<i32>`: the number that the text reads as, where it is made
/// of decimal digits, with a `+` or a `-` before them or without, and fits in
/// 32 bits with a sign. Any other text gives nothing.
#[verifier::external_body]
fn read_i32(value: &str) -> (number: Option<i32>)
    ensures
        match integer_within(value@, i32::MIN as int, i32::MAX as int) {
            Some(v) => number == Some(v as i32),
            None => number is None,
        },
{
    value.parse::<i32>().ok()
}

/// `str::parse::<u64>`: the number that the text reads as, where it is made
/// of decimal digits, with a `+` before them or without, and fits in 64
/// bits. Any other text gives nothing.
#[verifier::external_body]
fn read_u64(value: &str) -> (number: Option<u64>)
    ensures
        match integer_within(value@, 0, u64::MAX as int) {
            Some(v) => number == Some(v as u64),
            None => number is None,
        },
{
    value.parse::<u64>().ok()
}

fn same_text(a: &str, b: &str) -> (same: bool)
    ensures
        same == (a@ == b@),
{
    a.to_owned() == b.to_owned()
}

/// Whether a setting that reads `value`, and `lowered` in lower case, is
/// switched on: it is where it spells `true` in any case, or is `1`.
pub open spec fn flag_value(lowered: Seq<char>, value: Seq<char>) -> bool {
    lowered == "true"@ || value == "1"@
}

/// Decides a switch from its text `value` and the lower-case form of that
/// text.
pub fn flag_from(lowered: &str, value: &str) -> (flag: bool)
    ensures
        flag == flag_value(lowered@, value@),
{
    same_text(lowered, "true") || same_text(value, "1")
}

/// Reads a switch: on for `true` in any case and for `1`, off for anything
/// else.
pub fn parse_flag(value: &str) -> (flag: bool)
    ensures
        flag == flag_value(lowercase(value@), value@),
{
    let lower = lowered(value);
    flag_from(lower.as_str(), value)
}

/// The text of the failure for a setting `name` whose value cannot be read.
pub open spec fn invalid_value_message(name: Seq<char>) -> Seq<char> {
    "Invalid "@ + name + " value"@
}

fn invalid_value(name: &str) -> (failure: Failure)
    ensures
        failure@ == invalid_value_message(name@),
{
    let mut text = "Invalid ".to_owned();
    text.append(name);
    text.append(" value");
    Failure::new(text)
}

/// Reads the setting `name` as a number from 0 to 65535, such as a port.
/// A value that is no such number is a failure that names the setting.
pub fn parse_u16_setting(name: &str, value: &str) -> (setting: Result<u16, Failure>)
    ensures
        match integer_within(value@, 0, u16::MAX as int) {
            Some(v) => setting == Ok::<u16, Failure>(v as u16),
            None => setting matches Err(failure) && failure@ == invalid_value_message(name@),
        },
{
    match read_u16(value) {
        Some(number) => Ok(number),
        None => Err(invalid_value(name)),
    }
}

/// Reads the setting `name` as a number of 32 bits with a sign. A value that
/// is no such number is a failure that names the setting.
pub fn parse_i32_setting(name: &str, value: &str) -> (setting: Result<i32, Failure>)
    ensures
        match integer_within(value@, i32::MIN as int, i32::MAX as int) {
            Some(v) => setting == Ok::<i32, Failure>(v as i32),
            None => setting matches Err(failure) && failure@ == invalid_value_message(name@),
        },
{
    match read_i32(value) {
        Some(number) => Ok(number),
        None => Err(invalid_value(name)),
    }
}

/// Reads the setting `name` as a number of 64 bits without a sign. A value
/// that is no such number is a failure that names the setting.
pub fn parse_u64_setting(name: &str, value: &str) -> (setting: Result<u64, Failure>)
    ensures
        match integer_within(value@, 0, u64::MAX as int) {
            Some(v) => setting == Ok::<u64, Failure>(v as u64),
            None => setting matches Err(failure) && failure@ == invalid_value_message(name@),
        },
{
    match read_u64(value) {
        Some(number) => Ok(number),
        None => Err(invalid_value(name)),
    }
}

/// The texts that the environment gives for the settings it can set, each
/// under the name of its variable in lower case; `None` where the variable is
/// not set.
#[derive(Debug)]
pub struct EnvTexts {
    pub tws_host: Option<String>,
    pub tws_port: Option<String>,
    pub tws_client_id: Option<String>,
    pub paper_trading: Option<String>,
    pub default_position_size: Option<String>,
    pub max_position_size: Option<String>,
    pub require_confirmation: Option<String>,
    pub ui_refresh_rate_ms: Option<String>,
    pub show_colors: Option<String>,
    pub log_level: Option<String>,
    pub log_dir: Option<String>,
}

/// What an `EnvTexts` holds.
pub struct EnvModel {
    pub tws_host: Option<Seq<char>>,
    pub tws_port: Option<Seq<char>>,
    pub tws_client_id: Option<Seq<char>>,
    pub paper_trading: Option<Seq<char>>,
    pub default_position_size: Option<Seq<char>>,
    pub max_position_size: Option<Seq<char>>,
    pub require_confirmation: Option<Seq<char>>,
    pub ui_refresh_rate_ms: Option<Seq<char>>,
    pub show_colors: Option<Seq<char>>,
    pub log_level: Option<Seq<char>>,
    pub log_dir: Option<Seq<char>>,
}

/// What a text that may be missing holds.
pub open spec fn text_of(text: Option<String>) -> Option<Seq<char>> {
    match text {
        Some(t) => Some(t@),
        None => None,
    }
}

impl View for EnvTexts {
    type V = EnvModel;

    open spec fn view(&self) -> EnvModel {
        EnvModel {
            tws_host: text_of(self.tws_host),
            tws_port: text_of(self.tws_port),
            tws_client_id: text_of(self.tws_client_id),
            paper_trading: text_of(self.paper_trading),
            default_position_size: text_of(self.default_position_size),
            max_position_size: text_of(self.max_position_size),
            require_confirmation: text_of(self.require_confirmation),
            ui_refresh_rate_ms: text_of(self.ui_refresh_rate_ms),
            show_colors: text_of(self.show_colors),
            log_level: text_of(self.log_level),
            log_dir: text_of(self.log_dir),
        }
    }
}

/// The settings that are whole numbers, switches and texts: all of them but
/// the two percentages.
#[derive(Debug)]
pub struct Settings {
    pub tws: TwsConfig,
    pub default_position_size: i32,
    pub max_position_size: i32,
    pub require_confirmation: bool,
    pub auto_close_on_target: bool,
    pub ui: UiConfig,
    pub logging: LoggingConfig,
}

/// What a `Settings` holds.
pub struct SettingsModel {
    pub host: Seq<char>,
    pub port: u16,
    pub client_id: i32,
    pub paper_trading: bool,
    pub default_position_size: i32,
    pub max_position_size: i32,
    pub require_confirmation: bool,
    pub auto_close_on_target: bool,
    pub refresh_rate_ms: u64,
    pub show_colors: bool,
    pub clear_screen: bool,
    pub level: Seq<char>,
    pub file_output: bool,
    pub log_dir: Seq<char>,
}

impl View for Settings {
    type V = SettingsModel;

    open spec fn view(&self) -> SettingsModel {
        SettingsModel {
            host: self.tws.host@,
            port: self.tws.port,
            client_id: self.tws.client_id,
            paper_trading: self.tws.paper_trading,
            default_position_size: self.default_position_size,
            max_position_size: self.max_position_size,
            require_confirmation: self.require_confirmation,
            auto_close_on_target: self.auto_close_on_target,
            refresh_rate_ms: self.ui.refresh_rate_ms,
            show_colors: self.ui.show_colors,
            clear_screen: self.ui.clear_screen,
            level: self.logging.level@,
            file_output: self.logging.file_output,
            log_dir: self.logging.log_dir@,
        }
    }
}

impl SettingsModel {
    /// The settings where the environment sets nothing.
    pub open spec fn default() -> Self {
        SettingsModel {
            host: "127.0.0.1"@,
            port: 7500,
            client_id: 1,
            paper_trading: true,
            default_position_size: 100,
            max_position_size: 1000,
            require_confirmation: true,
            auto_close_on_target: false,
            refresh_rate_ms: 1000,
            show_colors: true,
            clear_screen: true,
            level: "info"@,
            file_output: true,
            log_dir: "logs"@,
        }
    }
}

/// A text setting: the text of its variable, or `default` where that is not
/// set.
pub open spec fn text_or(text: Option<Seq<char>>, default: Seq<char>) -> Seq<char> {
    match text {
        Some(t) => t,
        None => default,
    }
}

/// A switch: what the text of its variable reads as, or `default` where that
/// is not set. No text is refused.
pub open spec fn flag_or(text: Option<Seq<char>>, default: bool) -> bool {
    match text {
        Some(t) => flag_value(lowercase(t), t),
        None => default,
    }
}

/// A number from `min` to `max`: what the text of its variable reads as, or
/// `default` where that is not set; nothing where the text is no such number.
pub open spec fn number_or(text: Option<Seq<char>>, default: int, min: int, max: int) -> Option<
    int,
> {
    match text {
        Some(t) => integer_within(t, min, max),
        None => Some(default),
    }
}

/// The variable of the first number that cannot be read, in the order port,
/// client identifier, default position, largest position, refresh rate;
/// `None` where every number that is set can be read.
pub open spec fn first_unreadable(env: EnvModel) -> Option<Seq<char>> {
    if number_or(env.tws_port, 0, 0, u16::MAX as int) is None {
        Some("TWS_PORT"@)
    } else if number_or(env.tws_client_id, 0, i32::MIN as int, i32::MAX as int) is None {
        Some("TWS_CLIENT_ID"@)
    } else if number_or(env.default_position_size, 0, i32::MIN as int, i32::MAX as int) is None {
        Some("DEFAULT_POSITION_SIZE"@)
    } else if number_or(env.max_position_size, 0, i32::MIN as int, i32::MAX as int) is None {
        Some("MAX_POSITION_SIZE"@)
    } else if number_or(env.ui_refresh_rate_ms, 0, 0, u64::MAX as int) is None {
        Some("UI_REFRESH_RATE_MS"@)
    } else {
        None
    }
}

/// The settings that the environment `env` gives: each setting from the text
/// of its own variable, or its default where that is not set. Where a number
/// cannot be read there are no settings, and the failure names the first
/// such variable.
pub open spec fn loaded(env: EnvModel) -> Result<SettingsModel, Seq<char>> {
    let d = SettingsModel::default();
    match first_unreadable(env) {
        Some(name) => Err(invalid_value_message(name)),
        None => Ok(
            SettingsModel {
                host: text_or(env.tws_host, d.host),
                port: number_or(env.tws_port, d.port as int, 0, u16::MAX as int)->0 as u16,
                client_id: number_or(
                    env.tws_client_id,
                    d.client_id as int,
                    i32::MIN as int,
                    i32::MAX as int,
                )->0 as i32,
                paper_trading: flag_or(env.paper_trading, d.paper_trading),
                default_position_size: number_or(
                    env.default_position_size,
                    d.default_position_size as int,
                    i32::MIN as int,
                    i32::MAX as int,
                )->0 as i32,
                max_position_size: number_or(
                    env.max_position_size,
                    d.max_position_size as int,
                    i32::MIN as int,
                    i32::MAX as int,
                )->0 as i32,
                require_confirmation: flag_or(env.require_confirmation, d.require_confirmation),
                auto_close_on_target: d.auto_close_on_target,
                refresh_rate_ms: number_or(
                    env.ui_refresh_rate_ms,
                    d.refresh_rate_ms as int,
                    0,
                    u64::MAX as int,
                )->0 as u64,
                show_colors: flag_or(env.show_colors, d.show_colors),
                clear_screen: d.clear_screen,
                level: text_or(env.log_level, d.level),
                file_output: d.file_output,
                log_dir: text_or(env.log_dir, d.log_dir),
            },
        ),
    }
}

/// An environment that sets nothing gives the default settings.
pub proof fn lemma_unset_environment_gives_defaults(env: EnvModel)
    requires
        env.tws_host is None,
        env.tws_port is None,
        env.tws_client_id is None,
        env.paper_trading is None,
        env.default_position_size is None,
        env.max_position_size is None,
        env.require_confirmation is None,
        env.ui_refresh_rate_ms is None,
        env.show_colors is None,
        env.log_level is None,
        env.log_dir is None,
    ensures
        loaded(env) == Ok::<SettingsModel, Seq<char>>(SettingsModel::default()),
{
}

/// A switch can be set to anything and a text to anything: only a number
/// that cannot be read makes loading fail.
pub proof fn lemma_only_numbers_fail(env: EnvModel)
    ensures
        loaded(env) is Err <==> number_or(env.tws_port, 0, 0, u16::MAX as int) is None
            || number_or(env.tws_client_id, 0, i32::MIN as int, i32::MAX as int) is None
            || number_or(env.default_position_size, 0, i32::MIN as int, i32::MAX as int) is None
            || number_or(env.max_position_size, 0, i32::MIN as int, i32::MAX as int) is None
            || number_or(env.ui_refresh_rate_ms, 0, 0, u64::MAX as int) is None,
{
}

impl Default for Settings {
    fn default() -> (settings: Self)
        ensures
            settings@ == SettingsModel::default(),
    {
        Settings {
            tws: TwsConfig::default(),
            default_position_size: 100,
            max_position_size: 1000,
            require_confirmation: true,
            auto_close_on_target: false,
            ui: UiConfig::default(),
            logging: LoggingConfig::default(),
        }
    }
}

impl Settings {
    /// The settings that the environment gives: the defaults, with each
    /// setting whose variable is set taken from its text. The first number
    /// that cannot be read makes the whole fail, with a failure that names
    /// its variable.
    pub fn load(env: EnvTexts) -> (settings: Result<Settings, Failure>)
        ensures
            match loaded(env@) {
                Ok(model) => settings matches Ok(s) && s@ == model,
                Err(text) => settings matches Err(failure) && failure@ == text,
            },
    {
        let mut settings = Settings::default();
        if let Some(host) = env.tws_host {
            settings.tws.host = host;
        }
        if let Some(port) = env.tws_port {
            match parse_u16_setting("TWS_PORT", port.as_str()) {
                Ok(number) => {
                    settings.tws.port = number;
                },
                Err(failure) => {
                    return Err(failure);
                },
            }
        }
        if let Some(client_id) = env.tws_client_id {
            match parse_i32_setting("TWS_CLIENT_ID", client_id.as_str()) {
                Ok(number) => {
                    settings.tws.client_id = number;
                },
                Err(failure) => {
                    return Err(failure);
                },
            }
        }
        if let Some(paper) = env.paper_trading {
            settings.tws.paper_trading = parse_flag(paper.as_str());
        }
        if let Some(position_size) = env.default_position_size {
            match parse_i32_setting("DEFAULT_POSITION_SIZE", position_size.as_str()) {
                Ok(number) => {
                    settings.default_position_size = number;
                },
                Err(failure) => {
                    return Err(failure);
                },
            }
        }
        if let Some(max_position) = env.max_position_size {
            match parse_i32_setting("MAX_POSITION_SIZE", max_position.as_str()) {
                Ok(number) => {
                    settings.max_position_size = number;
                },
                Err(failure) => {
                    return Err(failure);
                },
            }
        }
        if let Some(confirmation) = env.require_confirmation {
            settings.require_confirmation = parse_flag(confirmation.as_str());
        }
        if let Some(refresh_rate) = env.ui_refresh_rate_ms {
            match parse_u64_setting("UI_REFRESH_RATE_MS", refresh_rate.as_str()) {
                Ok(number) => {
                    settings.ui.refresh_rate_ms = number;
                },
                Err(failure) => {
                    return Err(failure);
                },
            }
        }
        if let Some(colors) = env.show_colors {
            settings.ui.show_colors = parse_flag(colors.as_str());
        }
        if let Some(log_level) = env.log_level {
            settings.logging.level = log_level;
        }
        if let Some(log_dir) = env.log_dir {
            settings.logging.log_dir = log_dir;
        }
        Ok(settings)
    }
}

} // verus!
