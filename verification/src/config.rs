//! The settings of the orchestrator and their defaults.

use vstd::prelude::*;

verus! {

/// The settings of one orchestrator process.
#[derive(Debug, PartialEq, Eq)]
pub struct Config {
    pub redis_url: String,
    pub stream: String,
    pub group: String,
    pub consumer: String,
    pub http_addr: String,
    pub metrics_addr: String,
    pub dry_run: bool,
    pub ta_service_url: String,
}

/// What a `Config` holds.
pub struct ConfigModel {
    pub redis_url: Seq<char>,
    pub stream: Seq<char>,
    pub group: Seq<char>,
    pub consumer: Seq<char>,
    pub http_addr: Seq<char>,
    pub metrics_addr: Seq<char>,
    pub dry_run: bool,
    pub ta_service_url: Seq<char>,
}

impl View for Config {
    type V = ConfigModel;

    open spec fn view(&self) -> ConfigModel {
        ConfigModel {
            redis_url: self.redis_url@,
            stream: self.stream@,
            group: self.group@,
            consumer: self.consumer@,
            http_addr: self.http_addr@,
            metrics_addr: self.metrics_addr@,
            dry_run: self.dry_run,
            ta_service_url: self.ta_service_url@,
        }
    }
}

impl Clone for Config {
    fn clone(&self) -> (copy: Config)
        ensures
            copy@ == self@,
    {
        Config {
            redis_url: self.redis_url.clone(),
            stream: self.stream.clone(),
            group: self.group.clone(),
            consumer: self.consumer.clone(),
            http_addr: self.http_addr.clone(),
            metrics_addr: self.metrics_addr.clone(),
            dry_run: self.dry_run,
            ta_service_url: self.ta_service_url.clone(),
        }
    }
}

/// The character of a decimal digit.
pub open spec fn digit_char(d: nat) -> char {
    if d == 0 {
        '0'
    } else if d == 1 {
        '1'
    } else if d == 2 {
        '2'
    } else if d == 3 {
        '3'
    } else if d == 4 {
        '4'
    } else if d == 5 {
        '5'
    } else if d == 6 {
        '6'
    } else if d == 7 {
        '7'
    } else if d == 8 {
        '8'
    } else {
        '9'
    }
}

/// The decimal numeral of `n`, without leading zeros.
pub open spec fn decimal(n: nat) -> Seq<char>
    decreases n,
{
    if n < 10 {
        seq![digit_char(n)]
    } else {
        decimal(n / 10).push(digit_char(n % 10))
    }
}

/// The settings that hold where the environment gives none; the consumer is
/// named after the process.
pub open spec fn defaults(process_id: u32) -> ConfigModel {
    ConfigModel {
        redis_url: "redis://127.0.0.1:6379"@,
        stream: "trade-intents"@,
        group: "exec"@,
        consumer: "exec-"@ + decimal(process_id as nat),
        http_addr: "0.0.0.0:8081"@,
        metrics_addr: "0.0.0.0:9101"@,
        dry_run: true,
        ta_service_url: "http://ta-service:9100"@,
    }
}

fn digit_text(d: u32) -> (text: &'static str)
    requires
        d < 10,
    ensures
        text@ == seq![digit_char(d as nat)],
{
    proof {
        reveal_strlit("0");
        reveal_strlit("1");
        reveal_strlit("2");
        reveal_strlit("3");
        reveal_strlit("4");
        reveal_strlit("5");
        reveal_strlit("6");
        reveal_strlit("7");
        reveal_strlit("8");
        reveal_strlit("9");
    }
    let text: &'static str = if d == 0 {
        "0"
    } else if d == 1 {
        "1"
    } else if d == 2 {
        "2"
    } else if d == 3 {
        "3"
    } else if d == 4 {
        "4"
    } else if d == 5 {
        "5"
    } else if d == 6 {
        "6"
    } else if d == 7 {
        "7"
    } else if d == 8 {
        "8"
    } else {
        "9"
    };
    assert(text@ =~= seq![digit_char(d as nat)]);
    text
}

/// The decimal numeral of `n`.
pub fn decimal_text(n: u32) -> (text: String)
    ensures
        text@ == decimal(n as nat),
    decreases n,
{
    if n < 10 {
        String::from_str(digit_text(n))
    } else {
        let head: String = decimal_text(n / 10);
        let text: String = head.concat(digit_text(n % 10));
        assert(text@ =~= decimal((n / 10) as nat).push(digit_char((n % 10) as nat)));
        text
    }
}

impl Config {
    /// The default settings of the process `process_id`.
    pub fn default(process_id: u32) -> (config: Config)
        ensures
            config@ == defaults(process_id),
    {
        Config {
            redis_url: String::from_str("redis://127.0.0.1:6379"),
            stream: String::from_str("trade-intents"),
            group: String::from_str("exec"),
            consumer: String::from_str("exec-").concat(decimal_text(process_id).as_str()),
            http_addr: String::from_str("0.0.0.0:8081"),
            metrics_addr: String::from_str("0.0.0.0:9101"),
            dry_run: true,
            ta_service_url: String::from_str("http://ta-service:9100"),
        }
    }

    /// The settings in force. `settings` is what the environment gave, or
    /// nothing where it did not give every setting in a readable form; then
    /// the defaults hold.
    pub fn load(settings: Option<Config>, process_id: u32) -> (config: Config)
        ensures
            config@ == match settings {
                Some(given) => given@,
                None => defaults(process_id),
            },
    {
        match settings {
            Some(given) => given,
            None => Config::default(process_id),
        }
    }
}

} // verus!
