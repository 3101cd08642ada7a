use vas_got_vision::config::{Cli, Command, Config, ConfigError, LanguageTag, VisionType, parse_u32};

const ARGS: [&str; 9] = [
    "run",
    "--pv-api-key", "",
    "--pv-model-path", "model.rhn",
    "--mic-index", "0",
    "--vision-type", "none"];

fn cli_of(args: &[&str]) -> Cli {
    Cli::new(args.iter().map(|s| s.to_string()).collect::<Vec<String>>())
}

#[test]
fn cli_parse_command() {
    let cli = Cli::new(ARGS.iter().map(|s| s.to_string()).collect::<Vec<String>>());
    assert_eq!(cli.parse_command().unwrap(), Command::Run);
}

#[test]
fn cli_parse_config() {
    let cli = Cli::new(ARGS.iter().map(|s| s.to_string()).collect::<Vec<String>>());
    assert_eq!(cli.parse_config("/home/cook").unwrap(), Config::new());
}

#[test]
fn cli_help_and_unknown_commands() {
    assert_eq!(cli_of(&["help"]).parse_command(), Ok(Command::Help));
    assert_eq!(cli_of(&["cook"]).parse_command(), Err(ConfigError::NoMatchedCommand));
}

#[test]
fn cli_reads_every_option() {
    let cli = cli_of(&[
        "run", "--pv-api-key", "KEY", "--mic-index", "+12", "--vision-type", "CaM", "--debug", "--vision",
        "--zmq-in-endpoint", "tcp://in", "--stream-out-endpoint", "tcp://out", "--language", "ko",
        "--pv-ppn-model-path", "models/wake.ppn", "--pv-rhn-model-path", "/abs/intent.rhn",
    ]);
    let config = cli.parse_config("/home/cook").unwrap();
    assert_eq!(config.pico_voice_api_key, "KEY");
    assert_eq!(config.mic_index, 12);
    assert_eq!(config.vision_type, VisionType::BuiltInCamera);
    assert!(config.debug);
    assert!(config.vision);
    assert_eq!(config.zmq_in_endpoint, "tcp://in");
    assert_eq!(config.stream_out_endpoint, "tcp://out");
    assert_eq!(config.language, LanguageTag::Korean);
    assert_eq!(config.pico_voice_ppn_model_path, "/home/cook/models/wake.ppn");
    assert_eq!(config.pico_voice_rhn_model_path, "/abs/intent.rhn");
}

#[test]
fn cli_refuses_bad_values() {
    assert_eq!(cli_of(&["run", "--mic-index", "one"]).parse_config("/"), Err(ConfigError::InvalidNumber));
    assert_eq!(cli_of(&["run", "--mic-index", "4294967296"]).parse_config("/"), Err(ConfigError::InvalidNumber));
    assert_eq!(cli_of(&["run", "--vision-type", "eyes"]).parse_config("/"), Err(ConfigError::InvalidVisionType));
    // the first refused value ends the reading
    assert_eq!(cli_of(&["run", "--vision-type", "eyes", "--mic-index"]).try_parse_config("/"),
        Some(Err(ConfigError::InvalidVisionType)));
}

#[test]
fn cli_option_without_value() {
    assert_eq!(cli_of(&["run", "--mic-index"]).try_parse_config("/"), None);
    assert!(cli_of(&["run", "--debug"]).try_parse_config("/").unwrap().unwrap().debug);
}

#[test]
fn language_tags() {
    assert_eq!(LanguageTag::English.to_str(), "en-US");
    assert_eq!(LanguageTag::Japanese.to_str(), "ja-JP");
    assert_eq!(LanguageTag::Chinese.to_str(), "zh-CN");
    assert_eq!(LanguageTag::Korean.to_str(), "ko-KR");
    for l in [LanguageTag::English, LanguageTag::Japanese, LanguageTag::Chinese, LanguageTag::Korean] {
        assert_eq!(LanguageTag::from_str(l.to_str()), l);
    }
    assert_eq!(LanguageTag::from_str("ja"), LanguageTag::Japanese);
    assert_eq!(LanguageTag::from_str("fr"), LanguageTag::English);
}

#[test]
fn vision_type_names() {
    assert_eq!(VisionType::parse("None"), Ok(VisionType::Nothing));
    assert_eq!(VisionType::parse("FALSE"), Ok(VisionType::Nothing));
    assert_eq!(VisionType::parse("Pupil"), Ok(VisionType::Pupil));
    assert_eq!(VisionType::parse("built-in-camera"), Ok(VisionType::BuiltInCamera));
    assert_eq!(VisionType::parse("webcam"), Err(ConfigError::InvalidVisionType));
    assert_eq!("cam".parse::<VisionType>(), Ok(VisionType::BuiltInCamera));
}

#[test]
fn parse_numbers() {
    assert_eq!(parse_u32("0"), Some(0));
    assert_eq!(parse_u32("4294967295"), Some(4294967295));
    assert_eq!(parse_u32("+7"), Some(7));
    assert_eq!(parse_u32("+"), None);
    assert_eq!(parse_u32("-1"), None);
    assert_eq!(parse_u32(""), None);
    for n in [0u32, 9, 10, 123456, u32::MAX] {
        assert_eq!(parse_u32(&n.to_string()), Some(n));
    }
}
