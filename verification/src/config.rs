//! The configuration integrity system: the persisted settings type, its
//! defaults, the classifying reader with deep complement-merging against
//! the defaults, the repair writer, and the advisory startup warnings.

use vstd::prelude::*;

use crate::json::{
    lemma_lookup_merge_entries, spec_merge_entries,
    jm, jm_entries, json_clone, json_to_string, lookup_key, merge_json, parse_json, spec_json_parse,
    spec_json_text, spec_lookup, spec_merge, JsonModel, JsonValue,
};
use crate::text::str_eq;
use vstd::std_specs::cmp::PartialEqSpec;

verus! {

/// The classification of the most recent configuration load.
#[derive(Debug, Clone, Copy, PartialEq, Eq, Structural)]
pub enum ConfigStatus {
    /// File present, every default key present.
    Passed,
    /// File present but missing at least one default key; defaults merged in.
    Lacked,
    /// No usable file; in-memory defaults used.
    Fallback,
    /// File present but not usable as a configuration document.
    Failed,
    /// File absent.
    Missing,
}

/// The persisted runtime settings.
///
/// `config_status` is derived on every load and never persisted.
#[derive(Debug, Clone)]
pub struct Config {
    pub language: String,
    pub use_osc_query: bool,
    pub sender_ip: String,
    pub sender_port: u16,
    pub receiver_ip: String,
    pub receiver_port: u16,
    pub show_debug_log: bool,
    pub send_all_value_every_time: bool,
    pub check_rate_ms: u64,
    pub restrict_send_rate: bool,
    pub config_status: ConfigStatus,
}

impl PartialEq for Config {
    fn eq(&self, other: &Config) -> (r: bool) {
        str_eq(self.language.as_str(), other.language.as_str())
            && self.use_osc_query == other.use_osc_query
            && str_eq(self.sender_ip.as_str(), other.sender_ip.as_str())
            && self.sender_port == other.sender_port
            && str_eq(self.receiver_ip.as_str(), other.receiver_ip.as_str())
            && self.receiver_port == other.receiver_port
            && self.show_debug_log == other.show_debug_log
            && self.send_all_value_every_time == other.send_all_value_every_time
            && self.check_rate_ms == other.check_rate_ms
            && self.restrict_send_rate == other.restrict_send_rate
            && self.config_status == other.config_status
    }
}

impl vstd::std_specs::cmp::PartialEqSpecImpl for Config {
    open spec fn obeys_eq_spec() -> bool {
        true
    }

    open spec fn eq_spec(&self, other: &Config) -> bool {
        &&& self.language@ == other.language@
        &&& self.use_osc_query == other.use_osc_query
        &&& self.sender_ip@ == other.sender_ip@
        &&& self.sender_port == other.sender_port
        &&& self.receiver_ip@ == other.receiver_ip@
        &&& self.receiver_port == other.receiver_port
        &&& self.show_debug_log == other.show_debug_log
        &&& self.send_all_value_every_time == other.send_all_value_every_time
        &&& self.check_rate_ms == other.check_rate_ms
        &&& self.restrict_send_rate == other.restrict_send_rate
        &&& self.config_status == other.config_status
    }
}

/// The non-derived fields of `c` hold the default settings.
pub open spec fn spec_default_fields(c: Config) -> bool {
    &&& c.language@ == "en"@
    &&& c.use_osc_query == false
    &&& c.sender_ip@ == "127.0.0.1"@
    &&& c.sender_port == 9000
    &&& c.receiver_ip@ == "127.0.0.1"@
    &&& c.receiver_port == 9001
    &&& c.show_debug_log == false
    &&& c.send_all_value_every_time == false
    &&& c.check_rate_ms == 1
    &&& c.restrict_send_rate == true
}

impl Default for Config {
    /// The built-in default settings, tagged `Fallback`.
    fn default() -> (r: Config)
        ensures
            spec_default_fields(r),
            r.config_status is Fallback,
    {
        Config {
            language: String::from_str("en"),
            use_osc_query: false,
            sender_ip: String::from_str("127.0.0.1"),
            sender_port: 9000,
            receiver_ip: String::from_str("127.0.0.1"),
            receiver_port: 9001,
            show_debug_log: false,
            send_all_value_every_time: false,
            check_rate_ms: 1,
            restrict_send_rate: true,
            config_status: ConfigStatus::Fallback,
        }
    }
}

/// The in-memory default settings, used when no file can be loaded.
pub fn get_fallback_config() -> (r: Config)
    ensures
        spec_default_fields(r),
        r.config_status is Fallback,
{
    Config::default()
}

impl Config {
    /// A copy whose fields read the same as this configuration's.
    pub fn clone_config(&self) -> (r: Config)
        ensures
            r.eq_spec(self),
    {
        Config {
            language: self.language.clone(),
            use_osc_query: self.use_osc_query,
            sender_ip: self.sender_ip.clone(),
            sender_port: self.sender_port,
            receiver_ip: self.receiver_ip.clone(),
            receiver_port: self.receiver_port,
            show_debug_log: self.show_debug_log,
            send_all_value_every_time: self.send_all_value_every_time,
            check_rate_ms: self.check_rate_ms,
            restrict_send_rate: self.restrict_send_rate,
            config_status: self.config_status,
        }
    }
}

/// The settings read out of a configuration document, as the contracts
/// speak of them.
pub struct ConfigFields {
    pub language: Seq<char>,
    pub use_osc_query: bool,
    pub sender_ip: Seq<char>,
    pub sender_port: int,
    pub receiver_ip: Seq<char>,
    pub receiver_port: int,
    pub show_debug_log: bool,
    pub send_all_value_every_time: bool,
    pub check_rate_ms: int,
    pub restrict_send_rate: bool,
}

/// The non-derived fields of `c` read as `f` says.
pub open spec fn spec_fields_match(c: Config, f: ConfigFields) -> bool {
    &&& c.language@ == f.language
    &&& c.use_osc_query == f.use_osc_query
    &&& c.sender_ip@ == f.sender_ip
    &&& c.sender_port == f.sender_port
    &&& c.receiver_ip@ == f.receiver_ip
    &&& c.receiver_port == f.receiver_port
    &&& c.show_debug_log == f.show_debug_log
    &&& c.send_all_value_every_time == f.send_all_value_every_time
    &&& c.check_rate_ms == f.check_rate_ms
    &&& c.restrict_send_rate == f.restrict_send_rate
}

/// The fields of `c` as a `ConfigFields`.
pub open spec fn spec_fields_of(c: Config) -> ConfigFields {
    ConfigFields {
        language: c.language@,
        use_osc_query: c.use_osc_query,
        sender_ip: c.sender_ip@,
        sender_port: c.sender_port as int,
        receiver_ip: c.receiver_ip@,
        receiver_port: c.receiver_port as int,
        show_debug_log: c.show_debug_log,
        send_all_value_every_time: c.send_all_value_every_time,
        check_rate_ms: c.check_rate_ms as int,
        restrict_send_rate: c.restrict_send_rate,
    }
}

/// The configuration document holding the given settings: one entry per
/// persisted key, in declaration order, without the derived status.
pub open spec fn spec_fields_model(f: ConfigFields) -> JsonModel {
    JsonModel::Obj(
        seq![
            ("language"@, JsonModel::Str(f.language)),
            ("use_osc_query"@, JsonModel::Bool(f.use_osc_query)),
            ("sender_ip"@, JsonModel::Str(f.sender_ip)),
            ("sender_port"@, JsonModel::Int(f.sender_port)),
            ("receiver_ip"@, JsonModel::Str(f.receiver_ip)),
            ("receiver_port"@, JsonModel::Int(f.receiver_port)),
            ("show_debug_log"@, JsonModel::Bool(f.show_debug_log)),
            ("send_all_value_every_time"@, JsonModel::Bool(f.send_all_value_every_time)),
            ("check_rate_ms"@, JsonModel::Int(f.check_rate_ms)),
            ("restrict_send_rate"@, JsonModel::Bool(f.restrict_send_rate)),
        ],
    )
}

/// The default settings as a `ConfigFields`.
pub open spec fn spec_default_config_fields() -> ConfigFields {
    ConfigFields {
        language: "en"@,
        use_osc_query: false,
        sender_ip: "127.0.0.1"@,
        sender_port: 9000,
        receiver_ip: "127.0.0.1"@,
        receiver_port: 9001,
        show_debug_log: false,
        send_all_value_every_time: false,
        check_rate_ms: 1,
        restrict_send_rate: true,
    }
}

/// The default configuration document.
pub open spec fn spec_default_model() -> JsonModel {
    spec_fields_model(spec_default_config_fields())
}

/// The string under `k`, where the object has one there.
pub open spec fn spec_str_at(e: Seq<(Seq<char>, JsonModel)>, k: Seq<char>) -> Option<Seq<char>> {
    match spec_lookup(e, k) {
        Some(JsonModel::Str(s)) => Some(s),
        _ => None,
    }
}

/// The boolean under `k`, where the object has one there.
pub open spec fn spec_bool_at(e: Seq<(Seq<char>, JsonModel)>, k: Seq<char>) -> Option<bool> {
    match spec_lookup(e, k) {
        Some(JsonModel::Bool(b)) => Some(b),
        _ => None,
    }
}

/// The integer in `0..=max` under `k`, where the object has one there.
pub open spec fn spec_uint_at(e: Seq<(Seq<char>, JsonModel)>, k: Seq<char>, max: int) -> Option<
    int,
> {
    match spec_lookup(e, k) {
        Some(JsonModel::Int(i)) => if 0 <= i <= max {
            Some(i)
        } else {
            None
        },
        _ => None,
    }
}

/// Whether the object has an entry under `k`, of whatever type.
pub open spec fn spec_has_key(e: Seq<(Seq<char>, JsonModel)>, k: Seq<char>) -> bool {
    spec_lookup(e, k) is Some
}

/// Whether `m` is an object that misses one of the persisted keys.
/// A document that is no object at all misses none, as the integrity
/// check skips it; it fails later, at extraction.
pub open spec fn spec_missing_required_key(m: JsonModel) -> bool {
    match m {
        JsonModel::Obj(e) => !(spec_has_key(e, "language"@) && spec_has_key(e, "use_osc_query"@)
            && spec_has_key(e, "sender_ip"@) && spec_has_key(e, "sender_port"@) && spec_has_key(
            e,
            "receiver_ip"@,
        ) && spec_has_key(e, "receiver_port"@) && spec_has_key(e, "show_debug_log"@)
            && spec_has_key(e, "send_all_value_every_time"@) && spec_has_key(
            e,
            "check_rate_ms"@,
        ) && spec_has_key(e, "restrict_send_rate"@)),
        _ => false,
    }
}

/// The settings read out of `m`: every persisted key present with the
/// right type and range, or nothing.
pub open spec fn spec_extract(m: JsonModel) -> Option<ConfigFields> {
    match m {
        JsonModel::Obj(e) => {
            if spec_str_at(e, "language"@) is Some && spec_bool_at(e, "use_osc_query"@) is Some
                && spec_str_at(e, "sender_ip"@) is Some && spec_uint_at(
                e,
                "sender_port"@,
                65535,
            ) is Some && spec_str_at(e, "receiver_ip"@) is Some && spec_uint_at(
                e,
                "receiver_port"@,
                65535,
            ) is Some && spec_bool_at(e, "show_debug_log"@) is Some && spec_bool_at(
                e,
                "send_all_value_every_time"@,
            ) is Some && spec_uint_at(e, "check_rate_ms"@, 0xffff_ffff_ffff_ffff) is Some
                && spec_bool_at(e, "restrict_send_rate"@) is Some {
                Some(
                    ConfigFields {
                        language: spec_str_at(e, "language"@)->0,
                        use_osc_query: spec_bool_at(e, "use_osc_query"@)->0,
                        sender_ip: spec_str_at(e, "sender_ip"@)->0,
                        sender_port: spec_uint_at(e, "sender_port"@, 65535)->0,
                        receiver_ip: spec_str_at(e, "receiver_ip"@)->0,
                        receiver_port: spec_uint_at(e, "receiver_port"@, 65535)->0,
                        show_debug_log: spec_bool_at(e, "show_debug_log"@)->0,
                        send_all_value_every_time: spec_bool_at(
                            e,
                            "send_all_value_every_time"@,
                        )->0,
                        check_rate_ms: spec_uint_at(e, "check_rate_ms"@, 0xffff_ffff_ffff_ffff)->0,
                        restrict_send_rate: spec_bool_at(e, "restrict_send_rate"@)->0,
                    },
                )
            } else {
                None
            }
        },
        _ => None,
    }
}

/// What reading a parsed configuration document must yield: the merged
/// (or raw) document's settings under status `Passed`/`Lacked`, the
/// defaults under `Failed` where extraction fails, and the defaults under
/// `Missing` where there was no document at all.
pub open spec fn spec_read_result(m: Option<JsonModel>, complement: bool, r: Config) -> bool {
    match m {
        None => spec_default_fields(r) && r.config_status is Missing,
        Some(v) => {
            let lacked = spec_missing_required_key(v);
            let merged = if complement {
                spec_merge(spec_default_model(), v)
            } else {
                v
            };
            match spec_extract(merged) {
                Some(f) => spec_fields_match(r, f) && r.config_status == (if lacked {
                    ConfigStatus::Lacked
                } else {
                    ConfigStatus::Passed
                }),
                None => spec_default_fields(r) && r.config_status is Failed,
            }
        },
    }
}

/// Read a parsed configuration document into settings, classifying the
/// outcome; with `complement` set, keys absent from the document are
/// filled from the defaults by a deep structural merge first.
pub fn read_config_value(v: &JsonValue, complement: bool) -> (r: Config)
    ensures
        spec_read_result(Some(jm(*v)), complement, r),
{
    let lacked = missing_required_key(v);
    let merged = if complement {
        let defaults = default_json();
        merge_json(&defaults, v)
    } else {
        json_clone(v)
    };
    match extract_config(&merged) {
        Some(mut c) => {
            c.config_status = if lacked {
                ConfigStatus::Lacked
            } else {
                ConfigStatus::Passed
            };
            c
        },
        None => {
            let mut c = get_fallback_config();
            c.config_status = ConfigStatus::Failed;
            c
        },
    }
}

/// What reading configuration text must yield: `Missing` defaults for no
/// text, `Failed` defaults for text that does not parse, and the document
/// reading otherwise.
pub open spec fn spec_read_text_result(s: Option<Seq<char>>, complement: bool, r: Config) -> bool {
    match s {
        None => spec_default_fields(r) && r.config_status is Missing,
        Some(text) => match spec_json_parse(text) {
            None => spec_default_fields(r) && r.config_status is Failed,
            Some(v) => spec_read_result(Some(jm(v)), complement, r),
        },
    }
}

/// Read the text of a configuration file (or `None` where the file is
/// absent) into settings, classifying the outcome.
pub fn read_config_text(content: Option<&str>, complement: bool) -> (r: Config)
    ensures
        match content {
            None => spec_default_fields(r) && r.config_status is Missing,
            Some(s) => spec_read_text_result(Some(s@), complement, r),
        },
{
    match content {
        None => {
            let mut c = get_fallback_config();
            c.config_status = ConfigStatus::Missing;
            c
        },
        Some(s) => match parse_json(s) {
            Some(v) => read_config_value(&v, complement),
            None => {
                let mut c = get_fallback_config();
                c.config_status = ConfigStatus::Failed;
                c
            },
        },
    }
}

/// Whether `v` is an object missing one of the persisted keys.
fn missing_required_key(v: &JsonValue) -> (r: bool)
    ensures
        r == spec_missing_required_key(jm(*v)),
{
    match v {
        JsonValue::Obj(entries) => {
            !(lookup_key(entries, "language").is_some() && lookup_key(
                entries,
                "use_osc_query",
            ).is_some() && lookup_key(entries, "sender_ip").is_some() && lookup_key(
                entries,
                "sender_port",
            ).is_some() && lookup_key(entries, "receiver_ip").is_some() && lookup_key(
                entries,
                "receiver_port",
            ).is_some() && lookup_key(entries, "show_debug_log").is_some() && lookup_key(
                entries,
                "send_all_value_every_time",
            ).is_some() && lookup_key(entries, "check_rate_ms").is_some() && lookup_key(
                entries,
                "restrict_send_rate",
            ).is_some())
        },
        _ => false,
    }
}

/// The default settings as a configuration document.
fn default_json() -> (r: JsonValue)
    ensures
        jm(r) == spec_default_model(),
{
    let c = get_fallback_config();
    config_to_json(&c)
}

/// The configuration document holding the settings of `c`: every
/// persisted key, with the derived status stripped.
pub fn config_to_json(c: &Config) -> (r: JsonValue)
    ensures
        jm(r) == spec_fields_model(spec_fields_of(*c)),
{
    let mut entries: Vec<(String, JsonValue)> = Vec::new();
    entries.push((String::from_str("language"), JsonValue::Str(c.language.clone())));
    entries.push((String::from_str("use_osc_query"), JsonValue::Bool(c.use_osc_query)));
    entries.push((String::from_str("sender_ip"), JsonValue::Str(c.sender_ip.clone())));
    entries.push((String::from_str("sender_port"), JsonValue::UInt(c.sender_port as u64)));
    entries.push((String::from_str("receiver_ip"), JsonValue::Str(c.receiver_ip.clone())));
    entries.push((String::from_str("receiver_port"), JsonValue::UInt(c.receiver_port as u64)));
    entries.push((String::from_str("show_debug_log"), JsonValue::Bool(c.show_debug_log)));
    entries.push(
        (
            String::from_str("send_all_value_every_time"),
            JsonValue::Bool(c.send_all_value_every_time),
        ),
    );
    entries.push((String::from_str("check_rate_ms"), JsonValue::UInt(c.check_rate_ms)));
    entries.push((String::from_str("restrict_send_rate"), JsonValue::Bool(c.restrict_send_rate)));
    proof {
        crate::json::lemma_jm_entries(entries@);
        assert(jm_entries(entries@) =~= spec_fields_model(spec_fields_of(*c))->Obj_0);
    }
    JsonValue::Obj(entries)
}

/// Read the settings out of a configuration document: every persisted key
/// present with the right type and range, or nothing. The returned status
/// is provisional (`Passed`); the caller classifies.
fn extract_config(v: &JsonValue) -> (r: Option<Config>)
    ensures
        ({
            let ex = spec_extract(jm(*v));
            match r {
                Some(c) => ex matches Some(f) && spec_fields_match(c, f) && c.config_status
                    is Passed,
                None => ex is None,
            }
        }),
{
    let entries = match v {
        JsonValue::Obj(entries) => entries,
        _ => {
            return None;
        },
    };
    let language = match lookup_key(entries, "language") {
        Some(JsonValue::Str(s)) => s.clone(),
        _ => {
            return None;
        },
    };
    let use_osc_query = match lookup_key(entries, "use_osc_query") {
        Some(JsonValue::Bool(b)) => *b,
        _ => {
            return None;
        },
    };
    let sender_ip = match lookup_key(entries, "sender_ip") {
        Some(JsonValue::Str(s)) => s.clone(),
        _ => {
            return None;
        },
    };
    let sender_port = match port_of(lookup_key(entries, "sender_port")) {
        Some(p) => p,
        None => {
            return None;
        },
    };
    let receiver_ip = match lookup_key(entries, "receiver_ip") {
        Some(JsonValue::Str(s)) => s.clone(),
        _ => {
            return None;
        },
    };
    let receiver_port = match port_of(lookup_key(entries, "receiver_port")) {
        Some(p) => p,
        None => {
            return None;
        },
    };
    let show_debug_log = match lookup_key(entries, "show_debug_log") {
        Some(JsonValue::Bool(b)) => *b,
        _ => {
            return None;
        },
    };
    let send_all_value_every_time = match lookup_key(entries, "send_all_value_every_time") {
        Some(JsonValue::Bool(b)) => *b,
        _ => {
            return None;
        },
    };
    let check_rate_ms = match lookup_key(entries, "check_rate_ms") {
        Some(JsonValue::Int(i)) => if *i >= 0 {
            *i as u64
        } else {
            return None;
        },
        Some(JsonValue::UInt(u)) => *u,
        _ => {
            return None;
        },
    };
    let restrict_send_rate = match lookup_key(entries, "restrict_send_rate") {
        Some(JsonValue::Bool(b)) => *b,
        _ => {
            return None;
        },
    };
    Some(
        Config {
            language,
            use_osc_query,
            sender_ip,
            sender_port,
            receiver_ip,
            receiver_port,
            show_debug_log,
            send_all_value_every_time,
            check_rate_ms,
            restrict_send_rate,
            config_status: ConfigStatus::Passed,
        },
    )
}

/// Whether configuration text parses and, after the complement merge
/// against the defaults, yields settings.
pub open spec fn spec_text_loads(s: Seq<char>) -> bool {
    match spec_json_parse(s) {
        Some(v) => spec_extract(spec_merge(spec_default_model(), jm(v))) is Some,
        None => false,
    }
}

/// The settings that a repair salvages out of an existing file's text:
/// what a complement-merged read yields, or the defaults where nothing
/// can be read.
pub open spec fn spec_salvage_fields(existing: Option<Seq<char>>) -> ConfigFields {
    match existing {
        None => spec_default_config_fields(),
        Some(s) => match spec_json_parse(s) {
            None => spec_default_config_fields(),
            Some(v) => match spec_extract(spec_merge(spec_default_model(), jm(v))) {
                Some(f) => f,
                None => spec_default_config_fields(),
            },
        },
    }
}

/// Repair the configuration file: given the existing file's text (or
/// `None` where the file is absent), return the fresh text to write, or
/// `None` where the file loads cleanly and `force` is unset, so that it
/// is left as it stands. The fresh text holds the salvaged (or default)
/// settings with the derived status stripped.
pub fn repair(existing: Option<&str>, force: bool) -> (r: Option<String>)
    ensures
        ({
            let ex = match existing {
                Some(s) => Some(s@),
                None => None,
            };
            &&& (r is None <==> (!force && (existing matches Some(s) && spec_text_loads(s@))))
            &&& (r matches Some(text) ==> text@ == spec_json_text(
                spec_fields_model(spec_salvage_fields(ex)),
            ))
        }),
{
    let c = read_config_text(existing, true);
    let keep = !force && matches!(c.config_status, ConfigStatus::Passed | ConfigStatus::Lacked);
    if keep {
        None
    } else {
        let j = config_to_json(&c);
        Some(json_to_string(&j))
    }
}

/// One advisory observation on a loaded configuration.
#[derive(Debug, Clone, Copy, PartialEq, Eq, Structural)]
pub enum Warning {
    /// Every tick sends every value, flags notwithstanding.
    SendAllEveryTick,
    /// The one-send-per-second restriction is off.
    RateUnrestricted,
    /// The poll interval is zero.
    PollIntervalZero,
    /// The poll interval is over a hundred milliseconds.
    PollIntervalLong,
    /// The discovery-based transport is selected.
    DiscoveryMode,
}

/// The advisory warnings that loading `c` raises, in the order they are
/// reported.
pub open spec fn spec_startup_warnings(c: Config) -> Seq<Warning> {
    let s = Seq::<Warning>::empty();
    let s = if c.send_all_value_every_time {
        s.push(Warning::SendAllEveryTick)
    } else {
        s
    };
    let s = if !c.restrict_send_rate {
        s.push(Warning::RateUnrestricted)
    } else {
        s
    };
    let s = if c.check_rate_ms == 0 {
        s.push(Warning::PollIntervalZero)
    } else if c.check_rate_ms > 100 {
        s.push(Warning::PollIntervalLong)
    } else {
        s
    };
    if c.use_osc_query {
        s.push(Warning::DiscoveryMode)
    } else {
        s
    }
}

/// The advisory warnings that loading `c` raises: send-all enabled, rate
/// restriction disabled, a zero or overlong poll interval, and discovery
/// mode; each raised exactly when its condition holds.
pub fn startup_warnings(c: &Config) -> (r: Vec<Warning>)
    ensures
        r@ == spec_startup_warnings(*c),
{
    let mut r: Vec<Warning> = Vec::new();
    if c.send_all_value_every_time {
        r.push(Warning::SendAllEveryTick);
    }
    if !c.restrict_send_rate {
        r.push(Warning::RateUnrestricted);
    }
    if c.check_rate_ms == 0 {
        r.push(Warning::PollIntervalZero);
    } else if c.check_rate_ms > 100 {
        r.push(Warning::PollIntervalLong);
    }
    if c.use_osc_query {
        r.push(Warning::DiscoveryMode);
    }
    proof {
        assert(r@ =~= spec_startup_warnings(*c));
    }
    r
}

/// What the process-start load does with a read outcome.
#[derive(Debug, Clone, Copy, PartialEq, Eq, Structural)]
pub enum LoadAction {
    /// Use the configuration as read.
    Use,
    /// The file is absent: offer to create one, or fall back.
    OfferCreate,
    /// The file is unusable: fall back to the in-memory defaults.
    UseFallback,
}

/// How the process-start load proceeds on a read outcome: an absent file
/// leads to the create offer, an unusable one to the in-memory defaults,
/// and everything else is used as read.
pub fn load_plan(status: ConfigStatus) -> (r: LoadAction)
    ensures
        r == (match status {
            ConfigStatus::Missing => LoadAction::OfferCreate,
            ConfigStatus::Failed => LoadAction::UseFallback,
            _ => LoadAction::Use,
        }),
{
    match status {
        ConfigStatus::Missing => LoadAction::OfferCreate,
        ConfigStatus::Failed => LoadAction::UseFallback,
        _ => LoadAction::Use,
    }
}

/// Each persisted key of a configuration document reads its field, and
/// the keys are pairwise distinct.
#[verifier::rlimit(100)]
proof fn lemma_fields_model_lookups(f: ConfigFields)
    ensures
        ({
            let e = spec_fields_model(f)->Obj_0;
            &&& spec_lookup(e, "language"@) == Some(JsonModel::Str(f.language))
            &&& spec_lookup(e, "use_osc_query"@) == Some(JsonModel::Bool(f.use_osc_query))
            &&& spec_lookup(e, "sender_ip"@) == Some(JsonModel::Str(f.sender_ip))
            &&& spec_lookup(e, "sender_port"@) == Some(JsonModel::Int(f.sender_port))
            &&& spec_lookup(e, "receiver_ip"@) == Some(JsonModel::Str(f.receiver_ip))
            &&& spec_lookup(e, "receiver_port"@) == Some(JsonModel::Int(f.receiver_port))
            &&& spec_lookup(e, "show_debug_log"@) == Some(JsonModel::Bool(f.show_debug_log))
            &&& spec_lookup(e, "send_all_value_every_time"@) == Some(
                JsonModel::Bool(f.send_all_value_every_time),
            )
            &&& spec_lookup(e, "check_rate_ms"@) == Some(JsonModel::Int(f.check_rate_ms))
            &&& spec_lookup(e, "restrict_send_rate"@) == Some(
                JsonModel::Bool(f.restrict_send_rate),
            )
            &&& forall|i: int, j: int| 0 <= i < j < e.len() ==> e[i].0 != e[j].0
        }),
{
    reveal_strlit("language");
    reveal_strlit("use_osc_query");
    reveal_strlit("sender_ip");
    reveal_strlit("sender_port");
    reveal_strlit("receiver_ip");
    reveal_strlit("receiver_port");
    reveal_strlit("show_debug_log");
    reveal_strlit("send_all_value_every_time");
    reveal_strlit("check_rate_ms");
    reveal_strlit("restrict_send_rate");
    let e = spec_fields_model(f)->Obj_0;
    assert(e.len() == 10);
    assert("language"@.len() == 8);
    assert("use_osc_query"@.len() == 13);
    assert("sender_ip"@.len() == 9);
    assert("sender_port"@.len() == 11);
    assert("receiver_ip"@.len() == 11);
    assert("receiver_port"@.len() == 13);
    assert("show_debug_log"@.len() == 14);
    assert("send_all_value_every_time"@.len() == 25);
    assert("check_rate_ms"@.len() == 13);
    assert("restrict_send_rate"@.len() == 18);
    assert("use_osc_query"@[0] == 'u');
    assert("receiver_port"@[0] == 'r');
    assert("check_rate_ms"@[0] == 'c');
    assert("sender_port"@[0] == 's');
    assert("receiver_ip"@[0] == 'r');
    assert("language"@ != "use_osc_query"@);
    assert("language"@ != "sender_ip"@);
    assert("use_osc_query"@ != "sender_ip"@);
    assert("language"@ != "sender_port"@);
    assert("use_osc_query"@ != "sender_port"@);
    assert("sender_ip"@ != "sender_port"@);
    assert("language"@ != "receiver_ip"@);
    assert("use_osc_query"@ != "receiver_ip"@);
    assert("sender_ip"@ != "receiver_ip"@);
    assert("sender_port"@ != "receiver_ip"@);
    assert("language"@ != "receiver_port"@);
    assert("use_osc_query"@ != "receiver_port"@);
    assert("sender_ip"@ != "receiver_port"@);
    assert("sender_port"@ != "receiver_port"@);
    assert("receiver_ip"@ != "receiver_port"@);
    assert("language"@ != "show_debug_log"@);
    assert("use_osc_query"@ != "show_debug_log"@);
    assert("sender_ip"@ != "show_debug_log"@);
    assert("sender_port"@ != "show_debug_log"@);
    assert("receiver_ip"@ != "show_debug_log"@);
    assert("receiver_port"@ != "show_debug_log"@);
    assert("language"@ != "send_all_value_every_time"@);
    assert("use_osc_query"@ != "send_all_value_every_time"@);
    assert("sender_ip"@ != "send_all_value_every_time"@);
    assert("sender_port"@ != "send_all_value_every_time"@);
    assert("receiver_ip"@ != "send_all_value_every_time"@);
    assert("receiver_port"@ != "send_all_value_every_time"@);
    assert("show_debug_log"@ != "send_all_value_every_time"@);
    assert("language"@ != "check_rate_ms"@);
    assert("use_osc_query"@ != "check_rate_ms"@);
    assert("sender_ip"@ != "check_rate_ms"@);
    assert("sender_port"@ != "check_rate_ms"@);
    assert("receiver_ip"@ != "check_rate_ms"@);
    assert("receiver_port"@ != "check_rate_ms"@);
    assert("show_debug_log"@ != "check_rate_ms"@);
    assert("send_all_value_every_time"@ != "check_rate_ms"@);
    assert("language"@ != "restrict_send_rate"@);
    assert("use_osc_query"@ != "restrict_send_rate"@);
    assert("sender_ip"@ != "restrict_send_rate"@);
    assert("sender_port"@ != "restrict_send_rate"@);
    assert("receiver_ip"@ != "restrict_send_rate"@);
    assert("receiver_port"@ != "restrict_send_rate"@);
    assert("show_debug_log"@ != "restrict_send_rate"@);
    assert("send_all_value_every_time"@ != "restrict_send_rate"@);
    assert("check_rate_ms"@ != "restrict_send_rate"@);
    assert forall|i: int, j: int| 0 <= i < j < e.len() implies e[i].0 != e[j].0 by {
        assert(e[0].0 == "language"@);
        assert(e[1].0 == "use_osc_query"@);
        assert(e[2].0 == "sender_ip"@);
        assert(e[3].0 == "sender_port"@);
        assert(e[4].0 == "receiver_ip"@);
        assert(e[5].0 == "receiver_port"@);
        assert(e[6].0 == "show_debug_log"@);
        assert(e[7].0 == "send_all_value_every_time"@);
        assert(e[8].0 == "check_rate_ms"@);
        assert(e[9].0 == "restrict_send_rate"@);
    }

    crate::json::lemma_lookup_at(e, "language"@, 0);
    crate::json::lemma_lookup_at(e, "use_osc_query"@, 1);
    crate::json::lemma_lookup_at(e, "sender_ip"@, 2);
    crate::json::lemma_lookup_at(e, "sender_port"@, 3);
    crate::json::lemma_lookup_at(e, "receiver_ip"@, 4);
    crate::json::lemma_lookup_at(e, "receiver_port"@, 5);
    crate::json::lemma_lookup_at(e, "show_debug_log"@, 6);
    crate::json::lemma_lookup_at(e, "send_all_value_every_time"@, 7);
    crate::json::lemma_lookup_at(e, "check_rate_ms"@, 8);
    crate::json::lemma_lookup_at(e, "restrict_send_rate"@, 9);
}

/// Round trip: a configuration document written by the repair path, read
/// back with the complement merge, yields status `Passed` and the very
/// settings that were written.
pub proof fn lemma_repair_read_round_trip(c: Config, r: Config)
    requires
        spec_read_result(Some(spec_fields_model(spec_fields_of(c))), true, r),
    ensures
        spec_fields_match(r, spec_fields_of(c)),
        r.config_status is Passed,
{
    let f = spec_fields_of(c);
    let fm = spec_fields_model(f);
    let dm = spec_default_model();
    let fe = fm->Obj_0;
    let de = dm->Obj_0;
    lemma_fields_model_lookups(f);
    lemma_fields_model_lookups(spec_default_config_fields());
    assert(!spec_missing_required_key(fm));
    let me = spec_merge_entries(de, fe);
    assert(spec_merge(dm, fm) == JsonModel::Obj(me));
    lemma_lookup_merge_entries(de, fe, "language"@);
    lemma_lookup_merge_entries(de, fe, "use_osc_query"@);
    lemma_lookup_merge_entries(de, fe, "sender_ip"@);
    lemma_lookup_merge_entries(de, fe, "sender_port"@);
    lemma_lookup_merge_entries(de, fe, "receiver_ip"@);
    lemma_lookup_merge_entries(de, fe, "receiver_port"@);
    lemma_lookup_merge_entries(de, fe, "show_debug_log"@);
    lemma_lookup_merge_entries(de, fe, "send_all_value_every_time"@);
    lemma_lookup_merge_entries(de, fe, "check_rate_ms"@);
    lemma_lookup_merge_entries(de, fe, "restrict_send_rate"@);
    assert(spec_extract(JsonModel::Obj(me)) == Some(f));
}

/// Merge law: reading a document that carries a subset of the persisted
/// keys, each with a well-typed value, yields the defaults overridden
/// exactly on the keys the document carries, under status `Lacked` where
/// one is absent and `Passed` where none is.
pub proof fn lemma_complement_merge_subset(v: JsonModel, r: Config)
    requires
        v is Obj,
        forall|i: int, j: int| 0 <= i < j < v->Obj_0.len() ==> v->Obj_0[i].0 != v->Obj_0[j].0,
        spec_has_key(v->Obj_0, "language"@) ==> spec_str_at(v->Obj_0, "language"@) is Some,
        spec_has_key(v->Obj_0, "use_osc_query"@) ==> spec_bool_at(
            v->Obj_0,
            "use_osc_query"@,
        ) is Some,
        spec_has_key(v->Obj_0, "sender_ip"@) ==> spec_str_at(v->Obj_0, "sender_ip"@) is Some,
        spec_has_key(v->Obj_0, "sender_port"@) ==> spec_uint_at(
            v->Obj_0,
            "sender_port"@,
            65535,
        ) is Some,
        spec_has_key(v->Obj_0, "receiver_ip"@) ==> spec_str_at(v->Obj_0, "receiver_ip"@) is Some,
        spec_has_key(v->Obj_0, "receiver_port"@) ==> spec_uint_at(
            v->Obj_0,
            "receiver_port"@,
            65535,
        ) is Some,
        spec_has_key(v->Obj_0, "show_debug_log"@) ==> spec_bool_at(
            v->Obj_0,
            "show_debug_log"@,
        ) is Some,
        spec_has_key(v->Obj_0, "send_all_value_every_time"@) ==> spec_bool_at(
            v->Obj_0,
            "send_all_value_every_time"@,
        ) is Some,
        spec_has_key(v->Obj_0, "check_rate_ms"@) ==> spec_uint_at(
            v->Obj_0,
            "check_rate_ms"@,
            0xffff_ffff_ffff_ffff,
        ) is Some,
        spec_has_key(v->Obj_0, "restrict_send_rate"@) ==> spec_bool_at(
            v->Obj_0,
            "restrict_send_rate"@,
        ) is Some,
        spec_read_result(Some(v), true, r),
    ensures
        ({
            let e = v->Obj_0;
            &&& r.language@ == (if spec_has_key(e, "language"@) {
                spec_str_at(e, "language"@)->0
            } else {
                "en"@
            })
            &&& r.use_osc_query == (if spec_has_key(e, "use_osc_query"@) {
                spec_bool_at(e, "use_osc_query"@)->0
            } else {
                false
            })
            &&& r.sender_ip@ == (if spec_has_key(e, "sender_ip"@) {
                spec_str_at(e, "sender_ip"@)->0
            } else {
                "127.0.0.1"@
            })
            &&& r.sender_port == (if spec_has_key(e, "sender_port"@) {
                spec_uint_at(e, "sender_port"@, 65535)->0
            } else {
                9000
            })
            &&& r.receiver_ip@ == (if spec_has_key(e, "receiver_ip"@) {
                spec_str_at(e, "receiver_ip"@)->0
            } else {
                "127.0.0.1"@
            })
            &&& r.receiver_port == (if spec_has_key(e, "receiver_port"@) {
                spec_uint_at(e, "receiver_port"@, 65535)->0
            } else {
                9001
            })
            &&& r.show_debug_log == (if spec_has_key(e, "show_debug_log"@) {
                spec_bool_at(e, "show_debug_log"@)->0
            } else {
                false
            })
            &&& r.send_all_value_every_time == (if spec_has_key(e, "send_all_value_every_time"@) {
                spec_bool_at(e, "send_all_value_every_time"@)->0
            } else {
                false
            })
            &&& r.check_rate_ms == (if spec_has_key(e, "check_rate_ms"@) {
                spec_uint_at(e, "check_rate_ms"@, 0xffff_ffff_ffff_ffff)->0
            } else {
                1
            })
            &&& r.restrict_send_rate == (if spec_has_key(e, "restrict_send_rate"@) {
                spec_bool_at(e, "restrict_send_rate"@)->0
            } else {
                true
            })
            &&& r.config_status == (if spec_missing_required_key(v) {
                ConfigStatus::Lacked
            } else {
                ConfigStatus::Passed
            })
        }),
{
    let e = v->Obj_0;
    let dm = spec_default_model();
    let de = dm->Obj_0;
    lemma_fields_model_lookups(spec_default_config_fields());
    let me = spec_merge_entries(de, e);
    assert(spec_merge(dm, v) == JsonModel::Obj(me));
    lemma_lookup_merge_entries(de, e, "language"@);
    lemma_lookup_merge_entries(de, e, "use_osc_query"@);
    lemma_lookup_merge_entries(de, e, "sender_ip"@);
    lemma_lookup_merge_entries(de, e, "sender_port"@);
    lemma_lookup_merge_entries(de, e, "receiver_ip"@);
    lemma_lookup_merge_entries(de, e, "receiver_port"@);
    lemma_lookup_merge_entries(de, e, "show_debug_log"@);
    lemma_lookup_merge_entries(de, e, "send_all_value_every_time"@);
    lemma_lookup_merge_entries(de, e, "check_rate_ms"@);
    lemma_lookup_merge_entries(de, e, "restrict_send_rate"@);
    assert(spec_extract(JsonModel::Obj(me)) is Some);
}

/// A port number out of a looked-up document value, where it holds an
/// integer in the port range.
fn port_of(v: Option<&JsonValue>) -> (r: Option<u16>)
    ensures
        match r {
            Some(p) => match v {
                Some(x) => jm(*x) matches JsonModel::Int(i) && i == p as int && 0 <= i <= 65535,
                None => false,
            },
            None => match v {
                Some(x) => !(jm(*x) matches JsonModel::Int(i) && 0 <= i <= 65535),
                None => true,
            },
        },
{
    match v {
        Some(JsonValue::Int(i)) => if 0 <= *i && *i <= 65535 {
            Some(*i as u16)
        } else {
            None
        },
        Some(JsonValue::UInt(u)) => if *u <= 65535 {
            Some(*u as u16)
        } else {
            None
        },
        _ => None,
    }
}

} // verus!
