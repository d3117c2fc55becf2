use vstd::prelude::*;

verus! {

/// Address on which the HTTP service listens.
#[derive(Clone, Debug)]
pub struct ServerConfig {
    pub host: String,
    pub port: u16,
}

/// Connection settings of the ClickHouse store.
#[derive(Clone, Debug)]
pub struct ClickHouseConfig {
    pub url: String,
    pub user: String,
    pub password: String,
    pub database: String,
}

/// Connection settings of the MQTT broker.
#[derive(Clone, Debug)]
pub struct MqttConfig {
    pub broker: String,
    pub port: u16,
    pub client_id: String,
    pub username: Option<String>,
    pub password: Option<String>,
    pub alert_topic: String,
    pub sensor_topic: String,
}

/// An ASCII decimal digit.
pub open spec fn is_digit(c: char) -> bool {
    48 <= (c as int) && (c as int) <= 57
}

/// The value of an ASCII decimal digit.
pub open spec fn digit_value(c: char) -> int {
    (c as int) - 48
}

/// Every character of `s` is an ASCII decimal digit.
pub open spec fn all_digits(s: Seq<char>) -> bool {
    forall|i: int| 0 <= i < s.len() ==> #[trigger] is_digit(s[i])
}

/// The number that the decimal digits `s` denote, most significant first.
pub open spec fn decimal_value(s: Seq<char>) -> int
    decreases s.len(),
{
    if s.len() == 0 {
        0
    } else {
        decimal_value(s.drop_last()) * 10 + digit_value(s.last())
    }
}

/// `s` without the one leading `+` that an unsigned number may carry.
pub open spec fn unsigned_digits(s: Seq<char>) -> Seq<char> {
    if s.len() > 0 && s[0] == '+' {
        s.drop_first()
    } else {
        s
    }
}

/// How a `u16` is read from text: an optional `+`, then one or more ASCII
/// digits (leading zeros allowed) whose value fits in 16 bits; anything else
/// (empty text, a `-`, blanks, other characters, overflow) is no number.
pub open spec fn parse_u16_spec(s: Seq<char>) -> Option<u16> {
    let d = unsigned_digits(s);
    if d.len() > 0 && all_digits(d) && decimal_value(d) <= u16::MAX {
        Some(decimal_value(d) as u16)
    } else {
        None
    }
}

/// How a `bool` is read from text: exactly `true` or exactly `false`.
pub open spec fn parse_bool_spec(s: Seq<char>) -> Option<bool> {
    if s == "true"@ {
        Some(true)
    } else if s == "false"@ {
        Some(false)
    } else {
        None
    }
}

/// The text setting: the value when one was given, else the default.
pub open spec fn text_setting(value: Option<String>, default: Seq<char>) -> Seq<char> {
    match value {
        Some(v) => v@,
        None => default,
    }
}

/// The numeric setting: the value when one was given and reads as a `u16`,
/// else the default.
pub open spec fn u16_setting(value: Option<String>, default: u16) -> u16 {
    match value {
        Some(v) => match parse_u16_spec(v@) {
            Some(n) => n,
            None => default,
        },
        None => default,
    }
}

/// The flag setting: the value when one was given and reads as a `bool`,
/// else the default.
pub open spec fn bool_setting(value: Option<String>, default: bool) -> bool {
    match value {
        Some(v) => match parse_bool_spec(v@) {
            Some(b) => b,
            None => default,
        },
        None => default,
    }
}

/// The ASCII digit for `d`, where `d < 10`.
pub open spec fn digit_char(d: nat) -> char {
    (d + 48) as char
}

/// The decimal text of `n`, most significant digit first, without leading
/// zeros.
pub open spec fn decimal_text(n: nat) -> Seq<char>
    decreases n,
{
    if n < 10 {
        seq![digit_char(n)]
    } else {
        decimal_text(n / 10).push(digit_char(n % 10))
    }
}

proof fn lemma_decimal_text_digits(n: nat)
    ensures
        decimal_text(n).len() > 0,
        all_digits(decimal_text(n)),
        decimal_value(decimal_text(n)) == n,
    decreases n,
{
    let last = digit_char(n % 10);
    assert(digit_value(last) == n % 10);
    if n < 10 {
        assert(decimal_text(n).drop_last() =~= Seq::<char>::empty());
        assert(decimal_value(Seq::<char>::empty()) == 0);
        assert(decimal_text(n).last() == last);
    } else {
        lemma_decimal_text_digits(n / 10);
        let t = decimal_text(n);
        let p = decimal_text(n / 10);
        assert(t.drop_last() =~= p);
        assert(n == (n / 10) * 10 + n % 10);
        assert(t.last() == last);
        assert(decimal_value(t) == decimal_value(p) * 10 + digit_value(last));
        assert forall|i: int| 0 <= i < t.len() implies #[trigger] is_digit(t[i]) by {
            if i < p.len() {
                assert(t[i] == p[i]);
                assert(is_digit(p[i]));
            }
        }
    }
}

/// Any number written in decimal is read back as that number when it fits in
/// 16 bits, with or without a leading `+`, and is refused when it does not.
pub proof fn lemma_parse_u16_reads_decimal_text(n: nat)
    ensures
        parse_u16_spec(decimal_text(n)) == (if n <= u16::MAX { Some(n as u16) } else { None::<u16> }),
        parse_u16_spec(seq!['+'] + decimal_text(n)) == (if n <= u16::MAX { Some(n as u16) } else { None::<u16> }),
{
    lemma_decimal_text_digits(n);
    let t = decimal_text(n);
    assert(is_digit(t[0]));
    assert(t[0] != '+');
    assert(unsigned_digits(t) == t);
    let plus = seq!['+'] + t;
    assert(plus.drop_first() =~= t);
    assert(unsigned_digits(plus) == t);
}

/// Reads a `u16` from text as `str::parse::<u16>` does.
pub fn parse_u16(s: &str) -> (r: Option<u16>)
    ensures
        r == parse_u16_spec(s@),
{
    let n: usize = s.unicode_len();
    let mut start: usize = 0;
    if n > 0 && s.get_char(0) == '+' {
        start = 1;
    }
    let ghost d = unsigned_digits(s@);
    assert(d =~= s@.subrange(start as int, n as int));
    if start == n {
        return None;
    }
    let mut acc: u32 = 0;
    let mut i: usize = start;
    while i < n
        invariant
            start <= i <= n,
            n == s@.len(),
            d =~= s@.subrange(start as int, n as int),
            d == unsigned_digits(s@),
            all_digits(s@.subrange(start as int, i as int)),
            decimal_value(s@.subrange(start as int, i as int)) >= 0,
            acc <= 65536,
            acc < 65536 ==> acc == decimal_value(s@.subrange(start as int, i as int)),
            acc == 65536 ==> decimal_value(s@.subrange(start as int, i as int)) >= 65536,
        decreases n - i,
    {
        let c: char = s.get_char(i);
        let code: u32 = c as u32;
        let ghost pre = s@.subrange(start as int, i as int);
        let ghost cur = s@.subrange(start as int, i + 1);
        assert(cur.drop_last() =~= pre);
        assert(cur.last() == c);
        if code < 48 || code > 57 {
            assert(d[i - start] == c);
            assert(!is_digit(c));
            assert(!all_digits(d));
            return None;
        }
        assert forall|k: int| 0 <= k < cur.len() implies #[trigger] is_digit(cur[k]) by {
            if k < pre.len() {
                assert(cur[k] == pre[k]);
                assert(is_digit(pre[k]));
            }
        }
        let digit: u32 = code - 48;
        if acc < 65536 {
            let next: u32 = acc * 10 + digit;
            if next > 65535 {
                acc = 65536;
            } else {
                acc = next;
            }
        }
        i = i + 1;
    }
    assert(s@.subrange(start as int, n as int) =~= d);
    if acc > 65535 {
        None
    } else {
        Some(acc as u16)
    }
}

/// Reads a `bool` from text as `str::parse::<bool>` does.
pub fn parse_bool(s: &str) -> (r: Option<bool>)
    ensures
        r == parse_bool_spec(s@),
{
    let text: String = s.to_string();
    let yes: String = "true".to_string();
    let no: String = "false".to_string();
    if text == yes {
        Some(true)
    } else if text == no {
        Some(false)
    } else {
        None
    }
}

/// A text setting read from the environment, or its default.
pub fn text_or(value: Option<String>, default: &str) -> (s: String)
    ensures
        s@ == text_setting(value, default@),
        value matches Some(v) ==> s@ == v@,
        value is None ==> s@ == default@,
{
    match value {
        Some(v) => v,
        None => default.to_string(),
    }
}

/// A numeric setting read from the environment, or its default when it is
/// absent or does not read as a `u16`.
pub fn u16_or(value: Option<String>, default: u16) -> (n: u16)
    ensures
        n == u16_setting(value, default),
        value is None ==> n == default,
        value matches Some(v) ==> match parse_u16_spec(v@) {
            Some(p) => n == p,
            None => n == default,
        },
{
    match value {
        Some(v) => match parse_u16(v.as_str()) {
            Some(p) => p,
            None => default,
        },
        None => default,
    }
}

/// A flag setting read from the environment, or its default when it is
/// absent or is neither `true` nor `false`.
pub fn bool_or(value: Option<String>, default: bool) -> (b: bool)
    ensures
        b == bool_setting(value, default),
        value is None ==> b == default,
        value matches Some(v) ==> (v@ == "true"@ ==> b) && (v@ == "false"@ ==> !b)
            && (v@ != "true"@ && v@ != "false"@ ==> b == default),
{
    proof {
        reveal_strlit("true");
        reveal_strlit("false");
        assert("true"@.len() != "false"@.len());
    }
    match value {
        Some(v) => match parse_bool(v.as_str()) {
            Some(p) => p,
            None => default,
        },
        None => default,
    }
}

/// A given text setting is used verbatim, whatever the default; an absent one
/// is the default.
pub proof fn lemma_text_setting_verbatim(value: Option<String>, default: Seq<char>)
    ensures
        value matches Some(v) ==> text_setting(value, default) == v@,
        value is None ==> text_setting(value, default) == default,
{
}

/// A numeric setting that reads as a `u16` is used as read, whatever the
/// default: in particular the decimal text of any `u16` (with or without a
/// leading `+`) yields that number. Only an absent or unreadable value gives
/// the default.
pub proof fn lemma_u16_setting_uses_value(value: Option<String>, default: u16, p: u16)
    ensures
        (value matches Some(v) && parse_u16_spec(v@) == Some(p)) ==> u16_setting(value, default) == p,
        (value matches Some(v) && v@ == decimal_text(p as nat)) ==> u16_setting(value, default) == p,
        (value matches Some(v) && v@ == seq!['+'] + decimal_text(p as nat)) ==> u16_setting(value, default) == p,
        (value matches Some(v) && parse_u16_spec(v@) is None) ==> u16_setting(value, default) == default,
        value is None ==> u16_setting(value, default) == default,
{
    lemma_parse_u16_reads_decimal_text(p as nat);
}

/// A flag setting of `true` is on and of `false` is off, whatever the
/// default; any other or absent value gives the default.
pub proof fn lemma_bool_setting_uses_value(value: Option<String>, default: bool)
    ensures
        (value matches Some(v) && v@ == "true"@) ==> bool_setting(value, default),
        (value matches Some(v) && v@ == "false"@) ==> !bool_setting(value, default),
        (value matches Some(v) && v@ != "true"@ && v@ != "false"@) ==> bool_setting(value, default) == default,
        value is None ==> bool_setting(value, default) == default,
{
    reveal_strlit("true");
    reveal_strlit("false");
    assert("true"@.len() != "false"@.len());
}

impl ServerConfig {
    /// The server settings from the values of `SIEGE_SERVER_HOST` and
    /// `SIEGE_SERVER_PORT` (`None` where a variable is unset): host
    /// `0.0.0.0` and port 8080 unless given.
    pub fn from_env_values(host: Option<String>, port: Option<String>) -> (c: ServerConfig)
        ensures
            c.host@ == text_setting(host, "0.0.0.0"@),
            c.port == u16_setting(port, 8080),
    {
        ServerConfig { host: text_or(host, "0.0.0.0"), port: u16_or(port, 8080) }
    }
}

impl ClickHouseConfig {
    /// The store settings from the values of `SIEGE_CLICKHOUSE_URL`,
    /// `_USER`, `_PASSWORD` and `_DATABASE` (`None` where unset): URL
    /// `http://localhost:8123`, user `default`, an empty password and database
    /// `siege_tower` unless given.
    pub fn from_env_values(
        url: Option<String>,
        user: Option<String>,
        password: Option<String>,
        database: Option<String>,
    ) -> (c: ClickHouseConfig)
        ensures
            c.url@ == text_setting(url, "http://localhost:8123"@),
            c.user@ == text_setting(user, "default"@),
            c.password@ == text_setting(password, ""@),
            c.database@ == text_setting(database, "siege_tower"@),
    {
        ClickHouseConfig {
            url: text_or(url, "http://localhost:8123"),
            user: text_or(user, "default"),
            password: text_or(password, ""),
            database: text_or(database, "siege_tower"),
        }
    }
}

impl MqttConfig {
    /// The broker settings from the values of the `SIEGE_MQTT_*` variables
    /// (`None` where unset): broker `localhost`, port 1883, client
    /// `siege-tower-server`, topics `siege/tower/alert` and
    /// `siege/tower/sensor` unless given; user name and password only when
    /// given.
    pub fn from_env_values(
        broker: Option<String>,
        port: Option<String>,
        client_id: Option<String>,
        username: Option<String>,
        password: Option<String>,
        alert_topic: Option<String>,
        sensor_topic: Option<String>,
    ) -> (c: MqttConfig)
        ensures
            c.broker@ == text_setting(broker, "localhost"@),
            c.port == u16_setting(port, 1883),
            c.client_id@ == text_setting(client_id, "siege-tower-server"@),
            c.username == username,
            c.password == password,
            c.alert_topic@ == text_setting(alert_topic, "siege/tower/alert"@),
            c.sensor_topic@ == text_setting(sensor_topic, "siege/tower/sensor"@),
    {
        MqttConfig {
            broker: text_or(broker, "localhost"),
            port: u16_or(port, 1883),
            client_id: text_or(client_id, "siege-tower-server"),
            username,
            password,
            alert_topic: text_or(alert_topic, "siege/tower/alert"),
            sensor_topic: text_or(sensor_topic, "siege/tower/sensor"),
        }
    }
}

} // verus!
