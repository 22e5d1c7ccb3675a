use std::time::Duration;
use toml::value::Table;
use toml::Value;
use tower_request::adaptive_concurrency::AdaptiveConcurrencySettings;
use tower_request::concurrency::{
    concurrency_is_none, Concurrency, ConcurrencyError, ConcurrencyValue,
};
use tower_request::config::{
    TowerRequestConfig, CONCURRENCY_DEFAULT, RATE_LIMIT_DURATION_SECONDS_DEFAULT,
    RATE_LIMIT_NUM_DEFAULT, RETRY_ATTEMPTS_DEFAULT, RETRY_INITIAL_BACKOFF_SECONDS_DEFAULT,
    RETRY_MAX_DURATION_SECONDS_DEFAULT, TIMEOUT_SECONDS_DEFAULT,
};

fn unset() -> TowerRequestConfig {
    TowerRequestConfig {
        concurrency: Concurrency::Unset,
        timeout_secs: None,
        rate_limit_duration_secs: None,
        rate_limit_num: None,
        retry_attempts: None,
        retry_max_duration_secs: None,
        retry_initial_backoff_secs: None,
        adaptive_concurrency: AdaptiveConcurrencySettings::const_default(),
    }
}

fn read_number(table: &Table, key: &str) -> Result<Option<u64>, String> {
    match table.get(key) {
        None => Ok(None),
        Some(Value::Integer(number)) if *number >= 0 => Ok(Some(*number as u64)),
        Some(other) => Err(format!("{} is not a number: {:?}", key, other)),
    }
}

fn read(document: &str) -> Result<TowerRequestConfig, String> {
    let table: Table = toml::from_str(document).map_err(|error| error.to_string())?;
    let concurrency = match table.get("concurrency") {
        None => None,
        Some(Value::Integer(value)) => Some(ConcurrencyValue::Integer(*value)),
        Some(Value::String(text)) => Some(ConcurrencyValue::Text(text.clone())),
        Some(_) => Some(ConcurrencyValue::Other),
    };
    Ok(TowerRequestConfig {
        concurrency: Concurrency::from_value(&concurrency)
            .map_err(|error| format!("{:?}", error))?,
        timeout_secs: read_number(&table, "timeout_secs")?,
        rate_limit_duration_secs: read_number(&table, "rate_limit_duration_secs")?,
        rate_limit_num: read_number(&table, "rate_limit_num")?,
        retry_attempts: read_number(&table, "retry_attempts")?.map(|number| number as usize),
        retry_max_duration_secs: read_number(&table, "retry_max_duration_secs")?,
        retry_initial_backoff_secs: read_number(&table, "retry_initial_backoff_secs")?,
        adaptive_concurrency: AdaptiveConcurrencySettings::const_default(),
    })
}

fn write_number(table: &mut Table, key: &str, number: Option<u64>) {
    if let Some(number) = number {
        let number = i64::try_from(number).expect("a TOML integer");
        table.insert(key.to_string(), Value::Integer(number));
    }
}

fn write(config: &TowerRequestConfig) -> Result<String, String> {
    let mut table = Table::new();
    match config.concurrency.to_value().map_err(|error| format!("{:?}", error))? {
        None => (),
        Some(ConcurrencyValue::Integer(value)) => {
            table.insert("concurrency".to_string(), Value::Integer(value));
        }
        Some(ConcurrencyValue::Text(text)) => {
            table.insert("concurrency".to_string(), Value::String(text));
        }
        Some(ConcurrencyValue::Other) => return Err("not a concurrency".to_string()),
    }
    write_number(&mut table, "timeout_secs", config.timeout_secs);
    write_number(&mut table, "rate_limit_duration_secs", config.rate_limit_duration_secs);
    write_number(&mut table, "rate_limit_num", config.rate_limit_num);
    write_number(&mut table, "retry_attempts", config.retry_attempts.map(|number| number as u64));
    write_number(&mut table, "retry_max_duration_secs", config.retry_max_duration_secs);
    write_number(&mut table, "retry_initial_backoff_secs", config.retry_initial_backoff_secs);
    toml::to_string(&table).map_err(|error| error.to_string())
}

#[test]
fn concurrency_param_works() {
    let cfg = TowerRequestConfig::default();
    let toml = write(&cfg).unwrap();
    read(&toml).expect("Default config failed");

    let cfg = read("").expect("Empty config failed");
    assert_eq!(cfg.concurrency, Concurrency::Unset);

    let cfg = read("concurrency = 10").expect("Fixed concurrency failed");
    assert_eq!(cfg.concurrency, Concurrency::Fixed(10));

    let cfg = read(r#"concurrency = "adaptive""#).expect("Adaptive concurrency setting failed");
    assert_eq!(cfg.concurrency, Concurrency::Adaptive);

    read(r#"concurrency = "broken""#).expect_err("Invalid concurrency setting didn't fail");

    read(r#"concurrency = 0"#).expect_err("Invalid concurrency setting didn't fail on zero");

    read(r#"concurrency = -9"#)
        .expect_err("Invalid concurrency setting didn't fail on negative number");
}

#[test]
fn config_merging_defaults_concurrency_to_none_if_unset() {
    let cfg = TowerRequestConfig::default().unwrap_with(&TowerRequestConfig::default());

    assert_eq!(cfg.concurrency, None);
}

#[test]
fn default_config_is_read_back_as_it_was_written() {
    let written = TowerRequestConfig::default();
    let document = write(&written).unwrap();
    assert!(!document.contains("concurrency"));
    let cfg = read(&document).unwrap();
    assert_eq!(cfg.concurrency, written.concurrency);
    assert_eq!(cfg.timeout_secs, Some(60));
    assert_eq!(cfg.rate_limit_duration_secs, Some(1));
    assert_eq!(cfg.rate_limit_num, Some(i64::MAX as u64));
    assert_eq!(cfg.retry_attempts, Some(isize::MAX as usize));
    assert_eq!(cfg.retry_max_duration_secs, Some(3_600));
    assert_eq!(cfg.retry_initial_backoff_secs, Some(1));
}

#[test]
fn constants() {
    assert_eq!(CONCURRENCY_DEFAULT, Concurrency::Unset);
    assert_eq!(Concurrency::default(), Concurrency::Unset);
    assert_eq!(RATE_LIMIT_DURATION_SECONDS_DEFAULT, 1);
    assert_eq!(RATE_LIMIT_NUM_DEFAULT, i64::MAX as u64);
    assert_eq!(RETRY_ATTEMPTS_DEFAULT, isize::MAX as usize);
    assert_eq!(RETRY_MAX_DURATION_SECONDS_DEFAULT, 3_600);
    assert_eq!(RETRY_INITIAL_BACKOFF_SECONDS_DEFAULT, 1);
    assert_eq!(TIMEOUT_SECONDS_DEFAULT, 60);
}

#[test]
fn adaptive_tuning_defaults() {
    let settings = AdaptiveConcurrencySettings::default();
    assert_eq!(f64::from_bits(settings.decrease_ratio_bits), 0.9);
    assert_eq!(f64::from_bits(settings.ewma_alpha_bits), 0.4);
    assert_eq!(f64::from_bits(settings.rtt_deviation_scale_bits), 2.5);
    assert_eq!(settings, AdaptiveConcurrencySettings::const_default());
    assert_eq!(AdaptiveConcurrencySettings::max_concurrency(), 200);
}

#[test]
fn new_keeps_the_concurrency() {
    let cfg = TowerRequestConfig::new(Concurrency::Fixed(7));
    assert_eq!(cfg.concurrency, Concurrency::Fixed(7));
    assert_eq!(cfg.timeout_secs, Some(60));
    let cfg = TowerRequestConfig::const_default();
    assert_eq!(cfg.concurrency, Concurrency::Unset);
    assert_eq!(cfg.retry_attempts, Some(isize::MAX as usize));
}

#[test]
fn open_values_come_from_the_defaults() {
    let defaults = TowerRequestConfig::new(Concurrency::Fixed(3))
        .timeout_secs(2)
        .rate_limit_duration_secs(4)
        .rate_limit_num(5)
        .retry_attempts(6)
        .retry_max_duration_secs(7)
        .retry_initial_backoff_secs(8);
    let settings = unset().unwrap_with(&defaults);
    assert_eq!(settings.concurrency, Some(3));
    assert_eq!(settings.timeout, Duration::from_secs(2));
    assert_eq!(settings.rate_limit_duration, Duration::from_secs(4));
    assert_eq!(settings.rate_limit_num, 5);
    assert_eq!(settings.retry_attempts, 6);
    assert_eq!(settings.retry_max_duration_secs, Duration::from_secs(7));
    assert_eq!(settings.retry_initial_backoff_secs, Duration::from_secs(8));
}

#[test]
fn own_values_win() {
    let own = TowerRequestConfig::new(Concurrency::Fixed(30))
        .timeout_secs(20)
        .rate_limit_duration_secs(40)
        .rate_limit_num(50)
        .retry_attempts(60)
        .retry_max_duration_secs(70)
        .retry_initial_backoff_secs(80);
    let defaults = TowerRequestConfig::new(Concurrency::Fixed(3))
        .timeout_secs(2)
        .rate_limit_duration_secs(4)
        .rate_limit_num(5)
        .retry_attempts(6)
        .retry_max_duration_secs(7)
        .retry_initial_backoff_secs(8);
    let settings = own.unwrap_with(&defaults);
    assert_eq!(settings.concurrency, Some(30));
    assert_eq!(settings.timeout, Duration::from_secs(20));
    assert_eq!(settings.rate_limit_duration, Duration::from_secs(40));
    assert_eq!(settings.rate_limit_num, 50);
    assert_eq!(settings.retry_attempts, 60);
    assert_eq!(settings.retry_max_duration_secs, Duration::from_secs(70));
    assert_eq!(settings.retry_initial_backoff_secs, Duration::from_secs(80));
}

#[test]
fn constants_are_the_last_resort() {
    for defaults in [unset(), TowerRequestConfig::default()] {
        let settings = unset().unwrap_with(&defaults);
        assert_eq!(settings.concurrency, None);
        assert_eq!(settings.timeout, Duration::from_secs(60));
        assert_eq!(settings.rate_limit_duration, Duration::from_secs(1));
        assert_eq!(settings.rate_limit_num, i64::MAX as u64);
        assert_eq!(settings.retry_attempts, isize::MAX as usize);
        assert_eq!(settings.retry_max_duration_secs, Duration::from_secs(3_600));
        assert_eq!(settings.retry_initial_backoff_secs, Duration::from_secs(1));
        assert!(settings.has_valid_rate_limit());
    }
}

#[test]
fn tuning_is_never_merged() {
    let tuning = AdaptiveConcurrencySettings {
        decrease_ratio_bits: 0.5f64.to_bits(),
        ewma_alpha_bits: 0.25f64.to_bits(),
        rtt_deviation_scale_bits: 1.0f64.to_bits(),
    };
    let tuned = TowerRequestConfig { adaptive_concurrency: tuning, ..TowerRequestConfig::default() };
    let plain = TowerRequestConfig::default();
    assert_eq!(tuned.unwrap_with(&plain).adaptive_concurrency, tuning);
    assert_eq!(
        plain.unwrap_with(&tuned).adaptive_concurrency,
        AdaptiveConcurrencySettings::const_default()
    );
}

#[test]
fn adaptive_concurrency_hides_the_default_one() {
    let own = TowerRequestConfig::new(Concurrency::Adaptive);
    let defaults = TowerRequestConfig::new(Concurrency::Fixed(3));
    assert_eq!(own.unwrap_with(&defaults).concurrency, None);
    assert_eq!(Concurrency::Unset.parse_concurrency(Concurrency::Adaptive), None);
    assert_eq!(Concurrency::Unset.parse_concurrency(Concurrency::Fixed(3)), Some(3));
    assert_eq!(Concurrency::Fixed(4).parse_concurrency(Concurrency::Fixed(3)), Some(4));
}

#[test]
fn setters_change_one_value() {
    let changed = TowerRequestConfig::default().timeout_secs(9).timeout_secs(11);
    assert_eq!(changed.timeout_secs, Some(11));
    assert_eq!(changed.rate_limit_duration_secs, Some(1));
    assert_eq!(changed.retry_initial_backoff_secs, Some(1));
    assert_eq!(changed.concurrency, Concurrency::Unset);
}

#[test]
fn rate_limits_with_a_zero_are_invalid() {
    let defaults = TowerRequestConfig::default();
    assert!(!defaults.rate_limit_num(0).unwrap_with(&defaults).has_valid_rate_limit());
    assert!(!defaults.rate_limit_duration_secs(0).unwrap_with(&defaults).has_valid_rate_limit());
    let zeros = defaults.rate_limit_num(0).rate_limit_duration_secs(0);
    assert!(!unset().unwrap_with(&zeros).has_valid_rate_limit());
    assert!(defaults.unwrap_with(&zeros).has_valid_rate_limit());
    assert!(defaults
        .rate_limit_num(1)
        .rate_limit_duration_secs(1)
        .unwrap_with(&defaults)
        .has_valid_rate_limit());
}

#[test]
fn concurrency_errors() {
    assert!(matches!(
        Concurrency::from_value(&Some(ConcurrencyValue::Integer(0))),
        Err(ConcurrencyError::NotPositive { value: 0 })
    ));
    assert!(matches!(
        Concurrency::from_value(&Some(ConcurrencyValue::Integer(-9))),
        Err(ConcurrencyError::NotPositive { value: -9 })
    ));
    match Concurrency::from_value(&Some(ConcurrencyValue::Text("broken".to_string()))) {
        Err(ConcurrencyError::UnknownName { name }) => assert_eq!(name, "broken"),
        other => panic!("{:?}", other),
    }
    assert!(matches!(
        Concurrency::from_value(&Some(ConcurrencyValue::Other)),
        Err(ConcurrencyError::InvalidType)
    ));
    // Only a `usize` of less than 64 bits is too small for a TOML integer.
    match Concurrency::from_value(&Some(ConcurrencyValue::Integer(i64::MAX))) {
        Ok(Concurrency::Fixed(limit)) => assert_eq!(limit as u64, i64::MAX as u64),
        Err(ConcurrencyError::TooLarge { value }) => {
            assert!(usize::BITS < 64);
            assert_eq!(value, i64::MAX);
        }
        other => panic!("{:?}", other),
    }
    if usize::BITS == 64 {
        assert!(matches!(
            Concurrency::Fixed(usize::MAX).to_value(),
            Err(ConcurrencyError::Unrepresentable { limit: usize::MAX })
        ));
    }
}

#[test]
fn concurrency_is_read_back() {
    for concurrency in [
        Concurrency::Unset,
        Concurrency::Adaptive,
        Concurrency::Fixed(1),
        Concurrency::Fixed(10),
        Concurrency::Fixed(isize::MAX as usize),
    ] {
        let value = concurrency.to_value().unwrap();
        assert_eq!(concurrency_is_none(&concurrency), value.is_none());
        assert_eq!(Concurrency::from_value(&value).unwrap(), concurrency);
    }
}
