use vstd::prelude::*;
use vstd::string::*;
use crate::text::{ascii_lowercase, lowercase_eq, str_eq, lower_ascii, digit_char, nat_digits, decimal};

verus! {

/// The command given as the first argument.
#[derive(Debug, Clone, Copy, PartialEq, Eq, Structural)]
pub enum Command {
    Run,
    Help,
}

/// Why the command line was refused.
#[derive(Debug, Clone, Copy, PartialEq, Eq, Structural)]
pub enum ConfigError {
    /// The first argument names no known command.
    NoMatchedCommand,
    /// The value of `--mic-index` is not a `u32`.
    InvalidNumber,
    /// The value of `--vision-type` names no vision type.
    InvalidVisionType,
}

/// Languages, by their BCP 47 tag.
#[derive(Debug, Clone, Copy, PartialEq, Eq, Structural)]
pub enum LanguageTag {
    English,
    Japanese,
    Chinese,
    Korean,
}

/// The BCP 47 tag of a language.
pub open spec fn language_code(l: LanguageTag) -> Seq<char> {
    match l {
        LanguageTag::English => "en-US"@,
        LanguageTag::Japanese => "ja-JP"@,
        LanguageTag::Chinese => "zh-CN"@,
        LanguageTag::Korean => "ko-KR"@,
    }
}

/// The language a tag names; English for any tag it does not know.
pub open spec fn language_of(s: Seq<char>) -> LanguageTag {
    if s == "en"@ || s == "en-US"@ {
        LanguageTag::English
    } else if s == "ja"@ || s == "ja-JP"@ {
        LanguageTag::Japanese
    } else if s == "zh"@ || s == "zh-CN"@ {
        LanguageTag::Chinese
    } else if s == "ko"@ || s == "ko-KR"@ {
        LanguageTag::Korean
    } else {
        LanguageTag::English
    }
}

impl LanguageTag {
    /// The BCP 47 tag of this language.
    pub fn to_str(&self) -> (s: &'static str)
        ensures
            s@ == language_code(*self),
    {
        match self {
            LanguageTag::English => "en-US",
            LanguageTag::Japanese => "ja-JP",
            LanguageTag::Chinese => "zh-CN",
            LanguageTag::Korean => "ko-KR",
        }
    }

    /// The language of a tag, short ("ja") or long ("ja-JP"); English otherwise.
    pub fn from_str(s: &str) -> (l: LanguageTag)
        ensures
            l == language_of(s@),
    {
        if str_eq(s, "en") || str_eq(s, "en-US") {
            LanguageTag::English
        } else if str_eq(s, "ja") || str_eq(s, "ja-JP") {
            LanguageTag::Japanese
        } else if str_eq(s, "zh") || str_eq(s, "zh-CN") {
            LanguageTag::Chinese
        } else if str_eq(s, "ko") || str_eq(s, "ko-KR") {
            LanguageTag::Korean
        } else {
            LanguageTag::English
        }
    }
}

/// Where frames and gaze come from.
#[derive(Debug, Clone, Copy, PartialEq, Eq, Structural)]
pub enum VisionType {
    Nothing,
    Pupil,
    BuiltInCamera,
}

/// The vision type a name gives, compared without regard to case.
pub open spec fn vision_type_of(s: Seq<char>) -> Option<VisionType> {
    let l = ascii_lowercase(s);
    if l == "none"@ || l == "false"@ {
        Some(VisionType::Nothing)
    } else if l == "pupil"@ {
        Some(VisionType::Pupil)
    } else if l == "built-in-camera"@ || l == "camera"@ || l == "cam"@ {
        Some(VisionType::BuiltInCamera)
    } else {
        None
    }
}

impl VisionType {
    /// Parses a vision type: none/false, pupil, built-in-camera/camera/cam, in any case.
    pub fn parse(s: &str) -> (r: Result<VisionType, ConfigError>)
        ensures
            match vision_type_of(s@) {
                Some(v) => r == Ok::<VisionType, ConfigError>(v),
                None => r == Err::<VisionType, ConfigError>(ConfigError::InvalidVisionType),
            },
    {
        if lowercase_eq(s, "none") || lowercase_eq(s, "false") {
            Ok(VisionType::Nothing)
        } else if lowercase_eq(s, "pupil") {
            Ok(VisionType::Pupil)
        } else if lowercase_eq(s, "built-in-camera") || lowercase_eq(s, "camera") || lowercase_eq(s, "cam") {
            Ok(VisionType::BuiltInCamera)
        } else {
            Err(ConfigError::InvalidVisionType)
        }
    }
}

impl core::str::FromStr for VisionType {
    type Err = ConfigError;

    fn from_str(s: &str) -> (r: Result<VisionType, ConfigError>)
        ensures
            match vision_type_of(s@) {
                Some(v) => r == Ok::<VisionType, ConfigError>(v),
                None => r == Err::<VisionType, ConfigError>(ConfigError::InvalidVisionType),
            },
    {
        VisionType::parse(s)
    }
}

/// The value of a string of decimal digits.
pub open spec fn digits_value(s: Seq<char>) -> nat
    decreases s.len(),
{
    if s.len() == 0 {
        0
    } else {
        digits_value(s.drop_last()) * 10 + ((s.last() as u32) - 48) as nat
    }
}

pub open spec fn is_ascii_digit(c: char) -> bool {
    '0' <= c && c <= '9'
}

/// A text without its leading `+`, if it has one.
pub open spec fn unsigned_digits(s: Seq<char>) -> Seq<char> {
    if s.len() > 0 && s[0] == '+' { s.drop_first() } else { s }
}

/// What parsing a text as a `u32` gives: an optional `+`, then one or more digits,
/// with a value that fits.
pub open spec fn parse_u32_spec(s: Seq<char>) -> Option<u32> {
    let digits = unsigned_digits(s);
    if digits.len() == 0 {
        None
    } else if exists|i: int| 0 <= i < digits.len() && !is_ascii_digit(#[trigger] digits[i]) {
        None
    } else if digits_value(digits) > u32::MAX {
        None
    } else {
        Some(digits_value(digits) as u32)
    }
}

proof fn lemma_digits_value_grows(s: Seq<char>, n: int)
    requires
        0 <= n <= s.len(),
        forall|i: int| 0 <= i < s.len() ==> is_ascii_digit(#[trigger] s[i]),
    ensures
        digits_value(s.subrange(0, n)) <= digits_value(s),
    decreases s.len() - n,
{
    if n < s.len() {
        lemma_digits_value_grows(s, n + 1);
        let p = s.subrange(0, n + 1);
        assert(p.drop_last() =~= s.subrange(0, n));
    } else {
        assert(s.subrange(0, n) =~= s);
    }
}

/// Parses a decimal `u32` as `str::parse` does.
pub fn parse_u32(s: &str) -> (r: Option<u32>)
    ensures
        r == parse_u32_spec(s@),
{
    let n = s.unicode_len();
    let mut start: usize = 0;
    if n > 0 && s.get_char(0) == '+' {
        start = 1;
    }
    let ghost digits = unsigned_digits(s@);
    assert(digits =~= s@.subrange(start as int, n as int));
    if start == n {
        return None;
    }
    let mut value: u64 = 0;
    let mut i: usize = start;
    while i < n
        invariant
            n == s@.len(),
            start <= i <= n,
            start < n,
            digits == unsigned_digits(s@),
            digits =~= s@.subrange(start as int, n as int),
            forall|j: int| start <= j < i ==> is_ascii_digit(#[trigger] s@[j]),
            value == digits_value(s@.subrange(start as int, i as int)),
            value <= u32::MAX,
        decreases n - i,
    {
        let c = s.get_char(i);
        if !('0' <= c && c <= '9') {
            assert(!is_ascii_digit(digits[i - start]));
            assert(digits.len() > 0);
            return None;
        }
        let d: u64 = (c as u32 - 48) as u64;
        let ghost prefix = s@.subrange(start as int, i as int + 1);
        assert(prefix.drop_last() =~= s@.subrange(start as int, i as int));
        value = value * 10 + d;
        if value > 4294967295u64 {
            proof {
                // every later digit only makes the value larger
                let rest = s@.subrange(start as int, n as int);
                assert(rest == digits);
                if forall|k: int| 0 <= k < rest.len() ==> is_ascii_digit(#[trigger] rest[k]) {
                    lemma_digits_value_grows(rest, i - start + 1);
                    assert(rest.subrange(0, i - start + 1) =~= prefix);
                    assert(digits_value(digits) > u32::MAX);
                }
            }
            return None;
        }
        i = i + 1;
    }
    assert(s@.subrange(start as int, n as int) =~= digits);
    Some(value as u32)
}

/// The path a relative path names below `cwd`, as joining paths does on Unix.
pub open spec fn absolute_path(path: Seq<char>, cwd: Seq<char>) -> Seq<char> {
    if path.len() > 0 && path[0] == '/' {
        path
    } else if cwd.len() > 0 && cwd.last() != '/' {
        cwd + seq!['/'] + path
    } else {
        cwd + path
    }
}

/// Turns a path into an absolute one, relative to the working directory `cwd`.
pub fn to_absolute_path(path: &str, cwd: &str) -> (r: String)
    ensures
        r@ == absolute_path(path@, cwd@),
{
    if path.unicode_len() > 0 && path.get_char(0) == '/' {
        return String::from_str(path);
    }
    let mut r = String::from_str(cwd);
    let m = cwd.unicode_len();
    if m > 0 && cwd.get_char(m - 1) != '/' {
        proof { reveal_strlit("/"); }
        r.append("/");
    }
    r.append(path);
    r
}


/// The settings the speaker runs with.
#[derive(Debug, Clone, PartialEq)]
pub struct Config {
    pub pico_voice_api_key: String,
    pub pico_voice_ppn_model_path: String,
    pub pico_voice_rhn_model_path: String,
    pub mic_index: u32,
    pub vision_type: VisionType,
    pub vision: bool,
    pub debug: bool,
    pub zmq_in_endpoint: String,
    pub stream_out_endpoint: String,
    pub language: LanguageTag,
}

/// The settings as plain values.
pub struct ConfigView {
    pub pico_voice_api_key: Seq<char>,
    pub pico_voice_ppn_model_path: Seq<char>,
    pub pico_voice_rhn_model_path: Seq<char>,
    pub mic_index: u32,
    pub vision_type: VisionType,
    pub vision: bool,
    pub debug: bool,
    pub zmq_in_endpoint: Seq<char>,
    pub stream_out_endpoint: Seq<char>,
    pub language: LanguageTag,
}

impl View for Config {
    type V = ConfigView;

    open spec fn view(&self) -> ConfigView {
        ConfigView {
            pico_voice_api_key: self.pico_voice_api_key@,
            pico_voice_ppn_model_path: self.pico_voice_ppn_model_path@,
            pico_voice_rhn_model_path: self.pico_voice_rhn_model_path@,
            mic_index: self.mic_index,
            vision_type: self.vision_type,
            vision: self.vision,
            debug: self.debug,
            zmq_in_endpoint: self.zmq_in_endpoint@,
            stream_out_endpoint: self.stream_out_endpoint@,
            language: self.language,
        }
    }
}

/// The settings before any option is read.
pub open spec fn default_config() -> ConfigView {
    ConfigView {
        pico_voice_api_key: Seq::empty(),
        pico_voice_ppn_model_path: "model.ppn"@,
        pico_voice_rhn_model_path: "model.rhn"@,
        mic_index: 0,
        vision_type: VisionType::Nothing,
        vision: false,
        debug: false,
        zmq_in_endpoint: Seq::empty(),
        stream_out_endpoint: Seq::empty(),
        language: LanguageTag::Japanese,
    }
}

impl Config {
    /// The settings before any option is read.
    pub fn new() -> (c: Config)
        ensures
            c@ == default_config(),
    {
        Config {
            pico_voice_api_key: String::new(),
            pico_voice_ppn_model_path: String::from_str("model.ppn"),
            pico_voice_rhn_model_path: String::from_str("model.rhn"),
            mic_index: 0,
            vision_type: VisionType::Nothing,
            vision: false,
            debug: false,
            zmq_in_endpoint: String::new(),
            stream_out_endpoint: String::new(),
            language: LanguageTag::Japanese,
        }
    }
}

/// The options that are followed by a value.
pub open spec fn takes_value(opt: Seq<char>) -> bool {
    opt == "--pv-api-key"@ || opt == "--pv-ppn-model-path"@ || opt == "--pv-rhn-model-path"@
        || opt == "--mic-index"@ || opt == "--vision-type"@ || opt == "--zmq-in-endpoint"@
        || opt == "--stream-out-endpoint"@ || opt == "--language"@
}

/// What reading the argument at `i` does to the settings `c`: `None` where an option
/// lacks its value, an error where the value is refused.
pub open spec fn apply_arg(args: Seq<Seq<char>>, i: int, c: ConfigView, cwd: Seq<char>) -> Option<Result<ConfigView, ConfigError>> {
    let a = args[i];
    if takes_value(a) && i + 1 >= args.len() {
        None
    } else if a == "--pv-api-key"@ {
        Some(Ok(ConfigView { pico_voice_api_key: args[i + 1], ..c }))
    } else if a == "--pv-ppn-model-path"@ {
        Some(Ok(ConfigView { pico_voice_ppn_model_path: absolute_path(args[i + 1], cwd), ..c }))
    } else if a == "--pv-rhn-model-path"@ {
        Some(Ok(ConfigView { pico_voice_rhn_model_path: absolute_path(args[i + 1], cwd), ..c }))
    } else if a == "--mic-index"@ {
        match parse_u32_spec(args[i + 1]) {
            Some(v) => Some(Ok(ConfigView { mic_index: v, ..c })),
            None => Some(Err(ConfigError::InvalidNumber)),
        }
    } else if a == "--vision-type"@ {
        match vision_type_of(args[i + 1]) {
            Some(v) => Some(Ok(ConfigView { vision_type: v, ..c })),
            None => Some(Err(ConfigError::InvalidVisionType)),
        }
    } else if a == "--debug"@ {
        Some(Ok(ConfigView { debug: true, ..c }))
    } else if a == "--vision"@ {
        Some(Ok(ConfigView { vision: true, ..c }))
    } else if a == "--zmq-in-endpoint"@ {
        Some(Ok(ConfigView { zmq_in_endpoint: args[i + 1], ..c }))
    } else if a == "--stream-out-endpoint"@ {
        Some(Ok(ConfigView { stream_out_endpoint: args[i + 1], ..c }))
    } else if a == "--language"@ {
        Some(Ok(ConfigView { language: language_of(args[i + 1]), ..c }))
    } else {
        Some(Ok(c))
    }
}

/// Whether an option is followed by a value.
pub fn option_takes_value(opt: &str) -> (r: bool)
    ensures
        r == takes_value(opt@),
{
    str_eq(opt, "--pv-api-key") || str_eq(opt, "--pv-ppn-model-path") || str_eq(opt, "--pv-rhn-model-path")
        || str_eq(opt, "--mic-index") || str_eq(opt, "--vision-type") || str_eq(opt, "--zmq-in-endpoint")
        || str_eq(opt, "--stream-out-endpoint") || str_eq(opt, "--language")
}

/// The settings after reading the first `n` arguments in order; the first refused
/// value ends the reading.
pub open spec fn parse_config_upto(args: Seq<Seq<char>>, cwd: Seq<char>, n: nat) -> Option<Result<ConfigView, ConfigError>>
    decreases n,
{
    if n == 0 {
        Some(Ok(default_config()))
    } else {
        match parse_config_upto(args, cwd, (n - 1) as nat) {
            Some(Ok(c)) => apply_arg(args, n - 1, c, cwd),
            other => other,
        }
    }
}

/// The settings that the whole command line gives.
pub open spec fn parse_config_spec(args: Seq<Seq<char>>, cwd: Seq<char>) -> Option<Result<ConfigView, ConfigError>> {
    parse_config_upto(args, cwd, args.len())
}

proof fn lemma_missing_value_is_final(args: Seq<Seq<char>>, cwd: Seq<char>, k: nat, n: nat)
    requires
        k <= n,
        parse_config_upto(args, cwd, k) is None,
    ensures
        parse_config_upto(args, cwd, n) is None,
    decreases n,
{
    if k < n {
        lemma_missing_value_is_final(args, cwd, k, (n - 1) as nat);
    }
}

/// The command line.
pub struct Cli {
    args: Vec<String>,
}

impl View for Cli {
    type V = Seq<Seq<char>>;

    closed spec fn view(&self) -> Seq<Seq<char>> {
        self.args@.map_values(|a: String| a@)
    }
}

impl Cli {
    /// A command line of the given arguments, the program's name left out.
    pub fn new(args: Vec<String>) -> (c: Cli)
        ensures
            c@ == args@.map_values(|a: String| a@),
    {
        Cli { args }
    }

    /// The command that the first argument names.
    pub fn parse_command(&self) -> (r: Result<Command, ConfigError>)
        requires
            self@.len() > 0,
        ensures
            self@[0] == "run"@ ==> r == Ok::<Command, ConfigError>(Command::Run),
            self@[0] == "help"@ ==> r == Ok::<Command, ConfigError>(Command::Help),
            self@[0] != "run"@ && self@[0] != "help"@ ==> r == Err::<Command, ConfigError>(ConfigError::NoMatchedCommand),
    {
        let first = self.args[0].as_str();
        proof {
            reveal_strlit("run");
            reveal_strlit("help");
            assert("help"@.len() == 4);
            assert("run"@.len() == 3);
        }
        if str_eq(first, "run") {
            Ok(Command::Run)
        } else if str_eq(first, "help") {
            Ok(Command::Help)
        } else {
            Err(ConfigError::NoMatchedCommand)
        }
    }

    /// Reads the options of the command line into settings, relative model paths
    /// taken relative to `cwd`; `None` where an option lacks its value before any
    /// value was refused.
    pub fn try_parse_config(&self, cwd: &str) -> (r: Option<Result<Config, ConfigError>>)
        ensures
            match parse_config_spec(self@, cwd@) {
                Some(Ok(c)) => r matches Some(Ok(x)) && x@ == c,
                Some(Err(e)) => r == Some(Err::<Config, ConfigError>(e)),
                None => r is None,
            },
    {
        let mut config = Config::new();
        let n = self.args.len();
        let mut i: usize = 0;
        while i < n
            invariant
                n == self@.len(),
                n == self.args@.len(),
                i <= n,
                parse_config_upto(self@, cwd@, i as nat) == Some(Ok::<ConfigView, ConfigError>(config@)),
            decreases n - i,
        {
            let a = self.args[i].as_str();
            let ghost args = self@;
            assert(args[i as int] == a@);
            if i + 1 >= n && option_takes_value(a) {
                proof { lemma_missing_value_is_final(self@, cwd@, (i + 1) as nat, n as nat); }
                return None;
            }
            if i + 1 < n {
                assert(args[i + 1] == self.args@[i + 1]@);
            }
            if str_eq(a, "--pv-api-key") {
                config.pico_voice_api_key = self.args[i + 1].clone();
            } else if str_eq(a, "--pv-ppn-model-path") {
                config.pico_voice_ppn_model_path = to_absolute_path(self.args[i + 1].as_str(), cwd);
            } else if str_eq(a, "--pv-rhn-model-path") {
                config.pico_voice_rhn_model_path = to_absolute_path(self.args[i + 1].as_str(), cwd);
            } else if str_eq(a, "--mic-index") {
                match parse_u32(self.args[i + 1].as_str()) {
                    Some(v) => { config.mic_index = v; },
                    None => {
                        proof { lemma_error_is_final(self@, cwd@, (i + 1) as nat, n as nat, ConfigError::InvalidNumber); }
                        return Some(Err(ConfigError::InvalidNumber));
                    },
                }
            } else if str_eq(a, "--vision-type") {
                match VisionType::parse(self.args[i + 1].as_str()) {
                    Ok(v) => { config.vision_type = v; },
                    Err(e) => {
                        proof { lemma_error_is_final(self@, cwd@, (i + 1) as nat, n as nat, e); }
                        return Some(Err(e));
                    },
                }
            } else if str_eq(a, "--debug") {
                config.debug = true;
            } else if str_eq(a, "--vision") {
                config.vision = true;
            } else if str_eq(a, "--zmq-in-endpoint") {
                config.zmq_in_endpoint = self.args[i + 1].clone();
            } else if str_eq(a, "--stream-out-endpoint") {
                config.stream_out_endpoint = self.args[i + 1].clone();
            } else if str_eq(a, "--language") {
                config.language = LanguageTag::from_str(self.args[i + 1].as_str());
            }
            i = i + 1;
        }
        Some(Ok(config))
    }

    /// Reads the options of the command line into settings; relative model paths are
    /// taken relative to `cwd`.
    pub fn parse_config(&self, cwd: &str) -> (r: Result<Config, ConfigError>)
        requires
            parse_config_spec(self@, cwd@) is Some,
        ensures
            match parse_config_spec(self@, cwd@) {
                Some(Ok(c)) => r is Ok && r->Ok_0@ == c,
                Some(Err(e)) => r == Err::<Config, ConfigError>(e),
                None => false,
            },
    {
        match self.try_parse_config(cwd) {
            Some(r) => r,
            None => {
                proof { assert(false); }
                Err(ConfigError::NoMatchedCommand)
            },
        }
    }
}

proof fn lemma_error_is_final(args: Seq<Seq<char>>, cwd: Seq<char>, k: nat, n: nat, e: ConfigError)
    requires
        k <= n,
        parse_config_upto(args, cwd, k) == Some(Err::<ConfigView, ConfigError>(e)),
    ensures
        parse_config_upto(args, cwd, n) == Some(Err::<ConfigView, ConfigError>(e)),
    decreases n,
{
    if k < n {
        lemma_error_is_final(args, cwd, k, (n - 1) as nat, e);
    }
}

/// A language's tag names that language again.
pub proof fn lemma_language_round_trip(l: LanguageTag)
    ensures
        language_of(language_code(l)) == l,
{
    reveal_strlit("en");
    reveal_strlit("en-US");
    reveal_strlit("ja");
    reveal_strlit("ja-JP");
    reveal_strlit("zh");
    reveal_strlit("zh-CN");
    reveal_strlit("ko");
    reveal_strlit("ko-KR");
    let c = language_code(l);
    if l != LanguageTag::English {
        assert(c != "en"@ && c != "en-US"@) by {
            assert(c[0] != 'e');
        }
    }
    if l != LanguageTag::Japanese {
        assert(c != "ja"@ && c != "ja-JP"@) by {
            assert(c[0] != 'j');
        }
    }
    if l != LanguageTag::Chinese {
        assert(c != "zh"@ && c != "zh-CN"@) by {
            assert(c[0] != 'z');
        }
    }
}

proof fn lemma_lower_ascii_idempotent(c: char)
    ensures
        lower_ascii(lower_ascii(c)) == lower_ascii(c),
{
}

/// Lower-casing a text twice is lower-casing it once.
pub proof fn lemma_lowercase_idempotent(s: Seq<char>)
    ensures
        ascii_lowercase(ascii_lowercase(s)) == ascii_lowercase(s),
{
    assert forall|i: int| 0 <= i < s.len() implies #[trigger] ascii_lowercase(ascii_lowercase(s))[i] == ascii_lowercase(s)[i] by {
        lemma_lower_ascii_idempotent(s[i]);
    }
    assert(ascii_lowercase(ascii_lowercase(s)) =~= ascii_lowercase(s));
}

/// A vision type name means the same in any case.
pub proof fn lemma_vision_type_ignores_case(s: Seq<char>)
    ensures
        vision_type_of(ascii_lowercase(s)) == vision_type_of(s),
{
    lemma_lowercase_idempotent(s);
}

proof fn lemma_digit_char(d: nat)
    requires
        d < 10,
    ensures
        is_ascii_digit(digit_char(d)),
        (digit_char(d) as u32) - 48 == d,
{
}

proof fn lemma_nat_digits(n: nat)
    ensures
        nat_digits(n).len() > 0,
        forall|i: int| 0 <= i < nat_digits(n).len() ==> is_ascii_digit(#[trigger] nat_digits(n)[i]),
        digits_value(nat_digits(n)) == n,
        nat_digits(n)[0] != '+',
    decreases n,
{
    if n < 10 {
        lemma_digit_char(n);
        assert(nat_digits(n) =~= seq![digit_char(n)]);
        assert(nat_digits(n).drop_last() =~= Seq::<char>::empty());
        assert(digits_value(nat_digits(n)) == digits_value(Seq::<char>::empty()) * 10 + ((digit_char(n) as u32) - 48) as nat);
    } else {
        lemma_nat_digits(n / 10);
        lemma_digit_char(n % 10);
        let s = nat_digits(n / 10);
        assert(nat_digits(n) == s.push(digit_char(n % 10)));
        assert(nat_digits(n).drop_last() =~= s);
        assert(nat_digits(n)[0] == s[0]);
        assert(digits_value(nat_digits(n)) == digits_value(s) * 10 + ((digit_char(n % 10) as u32) - 48) as nat);
        assert((n / 10) * 10 + n % 10 == n);
    }
}

/// A `u32` printed in decimal parses back to itself.
pub proof fn lemma_parse_printed_u32(n: u32)
    ensures
        parse_u32_spec(decimal(n as int)) == Some(n),
{
    lemma_nat_digits(n as nat);
    let d = decimal(n as int);
    assert(d == nat_digits(n as nat));
    assert(unsigned_digits(d) == d);
}

} // verus!
