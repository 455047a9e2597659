use ibxrust::error::{classify, AppError, AppResult, DefaultErrorHandler, ErrorAction, ErrorHandler, ErrorKind};
use ibxrust::text::append_decimal;

fn every_error() -> Vec<(AppError, ErrorKind, &'static str)> {
    vec![
        (AppError::ConnectionError("c".to_string()), ErrorKind::Connection, "Connection error: c"),
        (AppError::TwsApiError("t".to_string()), ErrorKind::TwsApi, "TWS API error: t"),
        (AppError::ConfigError("f".to_string()), ErrorKind::Config, "Configuration error: f"),
        (AppError::TradingError("r".to_string()), ErrorKind::Trading, "Trading error: r"),
        (AppError::MarketDataError("m".to_string()), ErrorKind::MarketData, "Market data error: m"),
        (AppError::OrderError("o".to_string()), ErrorKind::Order, "Order error: o"),
        (AppError::PositionError("p".to_string()), ErrorKind::Position, "Position error: p"),
        (AppError::InvalidSymbol("XYZ".to_string()), ErrorKind::InvalidSymbol, "Invalid symbol: XYZ"),
        (AppError::InsufficientFunds, ErrorKind::InsufficientFunds, "Insufficient funds"),
        (AppError::MarketClosed, ErrorKind::MarketClosed, "Market closed"),
        (AppError::RateLimitExceeded, ErrorKind::RateLimitExceeded, "Rate limit exceeded"),
        (AppError::UserCancelled, ErrorKind::UserCancelled, "User cancelled operation"),
        (
            AppError::IoError(std::io::Error::new(std::io::ErrorKind::Other, "disk on fire")),
            ErrorKind::Io,
            "IO error: disk on fire",
        ),
        (AppError::ParseError("bad".to_string()), ErrorKind::Parse, "Parse error: bad"),
        (
            AppError::TimeoutError(45),
            ErrorKind::Timeout,
            "Timeout error: operation timed out after 45 seconds",
        ),
        (AppError::Unknown("?".to_string()), ErrorKind::Unknown, "Unknown error: ?"),
    ]
}

#[test]
fn policy_table_by_kind() {
    assert_eq!(classify(ErrorKind::Connection), ErrorAction::Reconnect);
    assert_eq!(classify(ErrorKind::TwsApi), ErrorAction::RetryWithDelay(5));
    assert_eq!(classify(ErrorKind::RateLimitExceeded), ErrorAction::RetryWithDelay(60));
    assert_eq!(classify(ErrorKind::MarketClosed), ErrorAction::Abort);
    assert_eq!(classify(ErrorKind::InsufficientFunds), ErrorAction::Abort);
    assert_eq!(classify(ErrorKind::UserCancelled), ErrorAction::Abort);
    assert_eq!(classify(ErrorKind::Timeout), ErrorAction::Retry);
    for kind in [
        ErrorKind::Config,
        ErrorKind::Trading,
        ErrorKind::MarketData,
        ErrorKind::Order,
        ErrorKind::Position,
        ErrorKind::InvalidSymbol,
        ErrorKind::Io,
        ErrorKind::Parse,
        ErrorKind::Unknown,
    ] {
        assert_eq!(classify(kind), ErrorAction::Abort);
    }
}

#[test]
fn default_handler_follows_the_table() {
    let handler = DefaultErrorHandler;
    let mut seen = 0;
    for (error, kind, _) in every_error() {
        assert_eq!(error.kind(), kind);
        assert_eq!(handler.handle_error(&error), classify(kind));
        seen += 1;
    }
    assert_eq!(seen, 16);
    assert_eq!(handler.handle_error(&AppError::ConnectionError(String::new())), ErrorAction::Reconnect);
    assert_eq!(handler.handle_error(&AppError::TwsApiError("x".to_string())), ErrorAction::RetryWithDelay(5));
    assert_eq!(handler.handle_error(&AppError::RateLimitExceeded), ErrorAction::RetryWithDelay(60));
    assert_eq!(handler.handle_error(&AppError::MarketClosed), ErrorAction::Abort);
    assert_eq!(handler.handle_error(&AppError::TimeoutError(0)), ErrorAction::Retry);
    assert_eq!(handler.handle_error(&AppError::TimeoutError(u64::MAX)), ErrorAction::Retry);
    assert_eq!(handler.handle_error(&AppError::Unknown("new".to_string())), ErrorAction::Abort);
}

#[test]
fn default_handler_never_continues_or_asks() {
    let handler = DefaultErrorHandler;
    for (error, _, _) in every_error() {
        let action = handler.handle_error(&error);
        assert_ne!(action, ErrorAction::Continue);
        assert_ne!(action, ErrorAction::AskUser);
    }
}

struct Patient;

impl ErrorHandler for Patient {
    fn handle_error(&self, error: &AppError) -> ErrorAction {
        match error {
            AppError::MarketClosed => ErrorAction::Continue,
            _ => ErrorAction::AskUser,
        }
    }
}

#[test]
fn a_handler_of_ones_own() {
    assert_eq!(Patient.handle_error(&AppError::MarketClosed), ErrorAction::Continue);
    assert_eq!(Patient.handle_error(&AppError::InsufficientFunds), ErrorAction::AskUser);
}

#[test]
fn error_text_of_every_variant() {
    for (error, _, text) in every_error() {
        assert_eq!(error.to_string(), text);
    }
    assert_eq!(AppError::ConnectionError(String::new()).to_string(), "Connection error: ");
}

#[test]
fn timeout_text_has_the_seconds_in_decimal() {
    assert_eq!(AppError::TimeoutError(0).to_string(), "Timeout error: operation timed out after 0 seconds");
    assert_eq!(AppError::TimeoutError(9).to_string(), "Timeout error: operation timed out after 9 seconds");
    assert_eq!(AppError::TimeoutError(10).to_string(), "Timeout error: operation timed out after 10 seconds");
    assert_eq!(
        AppError::TimeoutError(u64::MAX).to_string(),
        "Timeout error: operation timed out after 18446744073709551615 seconds"
    );
}

#[test]
fn decimal_numerals() {
    for (n, text) in [
        (0u64, "0"),
        (7, "7"),
        (10, "10"),
        (99, "99"),
        (100, "100"),
        (1234567890, "1234567890"),
        (u64::MAX, "18446744073709551615"),
    ] {
        let mut out = String::from("n=");
        append_decimal(&mut out, n);
        assert_eq!(out, format!("n={}", text));
    }
}

#[test]
fn io_error_converts_to_io_variant() {
    let error: AppError = std::io::Error::new(std::io::ErrorKind::NotFound, "missing").into();
    match &error {
        AppError::IoError(source) => assert_eq!(source.kind(), std::io::ErrorKind::NotFound),
        other => panic!("unexpected error {:?}", other),
    }
    assert_eq!(error.to_string(), "IO error: missing");
    assert_eq!(DefaultErrorHandler.handle_error(&error), ErrorAction::Abort);
}

#[test]
fn gateway_error_converts_to_api_variant() {
    let error = AppError::from(ibapi::Error::Simple("no route".to_string()));
    match &error {
        AppError::TwsApiError(text) => assert_eq!(text, "error occurred: no route"),
        other => panic!("unexpected error {:?}", other),
    }
    assert_eq!(error.to_string(), "TWS API error: error occurred: no route");
    assert_eq!(DefaultErrorHandler.handle_error(&error), ErrorAction::RetryWithDelay(5));
    match AppError::from(ibapi::Error::ConnectionFailed) {
        AppError::TwsApiError(text) => assert_eq!(text, "ConnectionFailed"),
        other => panic!("unexpected error {:?}", other),
    }
}

#[test]
fn any_error_converts_to_unknown() {
    let error = AppError::from(anyhow::Error::msg("something else"));
    match &error {
        AppError::Unknown(text) => assert_eq!(text, "something else"),
        other => panic!("unexpected error {:?}", other),
    }
    assert_eq!(error.to_string(), "Unknown error: something else");
    assert_eq!(DefaultErrorHandler.handle_error(&error), ErrorAction::Abort);
}

fn read_denied() -> AppResult<u8> {
    let failed: Result<u8, std::io::Error> =
        Err(std::io::Error::new(std::io::ErrorKind::PermissionDenied, "no"));
    Ok(failed?)
}

#[test]
fn question_mark_converts_io_errors() {
    assert!(matches!(read_denied(), Err(AppError::IoError(_))));
}
