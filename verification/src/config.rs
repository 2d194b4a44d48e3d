//! Settings and how they are put together: built-in defaults, then what a
//! settings file says, then what the environment says. A later layer
//! overrides an earlier one, field by field.
//!
//! A layer is a list of name and value pairs. Reading the file and the
//! environment is left to the caller; which names count and which values
//! are usable is decided here.

use vstd::prelude::*;
use vstd::utf8::encode_utf8;
use crate::decimal::{parse_u64, parsed};
use crate::text::str_eq;

verus! {

/// Settings of the logger.
#[derive(Debug, PartialEq, Eq)]
pub struct LoggerSettings {
    /// The level from which messages are logged.
    pub level: String,
}

/// The settings of the server.
#[derive(Debug, PartialEq, Eq)]
pub struct Settings {
    /// The settings of the logger.
    pub logger: LoggerSettings,
    /// How long a listener waits for the requests in flight when it shuts
    /// down, in seconds.
    pub graceful_shutdown_timeout_seconds: u64,
    /// The port of the main listener.
    pub port: String,
    /// The port of the observability listener.
    pub metrics_port: String,
}

/// The mathematical content of [`Settings`].
pub ghost struct SettingsView {
    pub level: Seq<char>,
    pub graceful_shutdown_timeout_seconds: u64,
    pub port: Seq<char>,
    pub metrics_port: Seq<char>,
}

impl View for Settings {
    type V = SettingsView;

    open spec fn view(&self) -> SettingsView {
        SettingsView {
            level: self.logger.level@,
            graceful_shutdown_timeout_seconds: self.graceful_shutdown_timeout_seconds,
            port: self.port@,
            metrics_port: self.metrics_port@,
        }
    }
}

/// The settings that hold when nothing else is said.
pub open spec fn defaults() -> SettingsView {
    SettingsView {
        level: "info"@,
        graceful_shutdown_timeout_seconds: 10,
        port: "8080"@,
        metrics_port: "9090"@,
    }
}

impl Default for Settings {
    fn default() -> (settings: Settings)
        ensures
            settings@ == defaults(),
    {
        Settings {
            logger: LoggerSettings { level: "info".to_owned() },
            graceful_shutdown_timeout_seconds: 10,
            port: "8080".to_owned(),
            metrics_port: "9090".to_owned(),
        }
    }
}

/// A field of the settings that a layer can set.
#[derive(Debug, Clone, Copy, PartialEq, Eq, Structural)]
pub enum Field {
    LoggerLevel,
    ShutdownTimeout,
    Port,
    MetricsPort,
}

/// Where a layer comes from. The two sources name the fields differently.
#[derive(Debug, Clone, Copy, PartialEq, Eq, Structural)]
pub enum Source {
    /// The settings file, with dotted lower-case keys.
    File,
    /// The environment, with upper-case names that start with `APP_`.
    Environment,
}

/// The name under which `source` knows `field`.
pub open spec fn key(source: Source, field: Field) -> Seq<char> {
    match source {
        Source::File => match field {
            Field::LoggerLevel => "logger.level"@,
            Field::ShutdownTimeout => "graceful_shutdown_timeout_seconds"@,
            Field::Port => "port"@,
            Field::MetricsPort => "metrics_port"@,
        },
        Source::Environment => match field {
            Field::LoggerLevel => "APP_LOGGER_LEVEL"@,
            Field::ShutdownTimeout => "APP_GRACEFUL_SHUTDOWN_TIMEOUT_SECONDS"@,
            Field::Port => "APP_PORT"@,
            Field::MetricsPort => "APP_METRICS_PORT"@,
        },
    }
}

/// The field that `name` stands for in `source`, if it stands for one.
pub open spec fn field_of(source: Source, name: Seq<char>) -> Option<Field> {
    if name == key(source, Field::LoggerLevel) {
        Some(Field::LoggerLevel)
    } else if name == key(source, Field::ShutdownTimeout) {
        Some(Field::ShutdownTimeout)
    } else if name == key(source, Field::Port) {
        Some(Field::Port)
    } else if name == key(source, Field::MetricsPort) {
        Some(Field::MetricsPort)
    } else {
        None
    }
}

/// Every field is known to every source under a name of its own: a
/// field's key stands for that field and for no other.
pub proof fn lemma_key_names_its_field(source: Source, field: Field)
    ensures
        field_of(source, key(source, field)) == Some(field),
{
    reveal_strlit("logger.level");
    reveal_strlit("graceful_shutdown_timeout_seconds");
    reveal_strlit("port");
    reveal_strlit("metrics_port");
    reveal_strlit("APP_LOGGER_LEVEL");
    reveal_strlit("APP_GRACEFUL_SHUTDOWN_TIMEOUT_SECONDS");
    reveal_strlit("APP_PORT");
    reveal_strlit("APP_METRICS_PORT");
    assert("logger.level"@.len() == 12 && "logger.level"@[0] == 'l');
    assert("graceful_shutdown_timeout_seconds"@.len() == 33);
    assert("port"@.len() == 4);
    assert("metrics_port"@.len() == 12 && "metrics_port"@[0] == 'm');
    assert("APP_LOGGER_LEVEL"@.len() == 16 && "APP_LOGGER_LEVEL"@[4] == 'L');
    assert("APP_GRACEFUL_SHUTDOWN_TIMEOUT_SECONDS"@.len() == 37);
    assert("APP_PORT"@.len() == 8);
    assert("APP_METRICS_PORT"@.len() == 16 && "APP_METRICS_PORT"@[4] == 'M');
}

/// The number of seconds that `value` gives, where it is well-formed: an
/// unsigned decimal number of 64 bits.
pub open spec fn seconds(value: Seq<char>) -> Option<u64> {
    parsed(encode_utf8(value))
}

/// The entry sets `field`: its name stands for the field, and its value is
/// well-formed for it. Any text is well-formed for a level or a port.
pub open spec fn sets(source: Source, entry: (Seq<char>, Seq<char>), field: Field) -> bool {
    &&& field_of(source, entry.0) == Some(field)
    &&& field == Field::ShutdownTimeout ==> seconds(entry.1) is Some
}

/// The value of the last entry of `layer` that sets `field`.
pub open spec fn last_setting(
    source: Source,
    layer: Seq<(Seq<char>, Seq<char>)>,
    field: Field,
) -> Option<Seq<char>>
    decreases layer.len(),
{
    if layer.len() == 0 {
        None
    } else if sets(source, layer.last(), field) {
        Some(layer.last().1)
    } else {
        last_setting(source, layer.drop_last(), field)
    }
}

/// A text field after a layer: what the layer sets, or what was there.
pub open spec fn text_after(
    base: Seq<char>,
    source: Source,
    layer: Seq<(Seq<char>, Seq<char>)>,
    field: Field,
) -> Seq<char> {
    match last_setting(source, layer, field) {
        Some(value) => value,
        None => base,
    }
}

/// The settings after a layer was laid over them.
pub open spec fn overlaid(
    base: SettingsView,
    source: Source,
    layer: Seq<(Seq<char>, Seq<char>)>,
) -> SettingsView {
    SettingsView {
        level: text_after(base.level, source, layer, Field::LoggerLevel),
        graceful_shutdown_timeout_seconds: match last_setting(
            source,
            layer,
            Field::ShutdownTimeout,
        ) {
            Some(value) => seconds(value)->0,
            None => base.graceful_shutdown_timeout_seconds,
        },
        port: text_after(base.port, source, layer, Field::Port),
        metrics_port: text_after(base.metrics_port, source, layer, Field::MetricsPort),
    }
}

/// The settings that come of a file layer and an environment layer: the
/// defaults, overlaid with the file, overlaid with the environment.
pub open spec fn loaded(
    file: Seq<(Seq<char>, Seq<char>)>,
    environment: Seq<(Seq<char>, Seq<char>)>,
) -> SettingsView {
    overlaid(overlaid(defaults(), Source::File, file), Source::Environment, environment)
}

/// What the two layers say of `field`: what the environment sets, else
/// what the file sets, else nothing.
pub open spec fn chosen(
    file: Seq<(Seq<char>, Seq<char>)>,
    environment: Seq<(Seq<char>, Seq<char>)>,
    field: Field,
) -> Option<Seq<char>> {
    match last_setting(Source::Environment, environment, field) {
        Some(value) => Some(value),
        None => last_setting(Source::File, file, field),
    }
}

/// Precedence: each field has the value that the environment sets; where
/// the environment sets none, the value that the file sets; where neither
/// does, the default.
pub proof fn lemma_precedence(
    file: Seq<(Seq<char>, Seq<char>)>,
    environment: Seq<(Seq<char>, Seq<char>)>,
)
    ensures
        loaded(file, environment).level == match chosen(file, environment, Field::LoggerLevel) {
            Some(value) => value,
            None => defaults().level,
        },
        loaded(file, environment).graceful_shutdown_timeout_seconds == match chosen(
            file,
            environment,
            Field::ShutdownTimeout,
        ) {
            Some(value) => seconds(value)->0,
            None => defaults().graceful_shutdown_timeout_seconds,
        },
        loaded(file, environment).port == match chosen(file, environment, Field::Port) {
            Some(value) => value,
            None => defaults().port,
        },
        loaded(file, environment).metrics_port == match chosen(
            file,
            environment,
            Field::MetricsPort,
        ) {
            Some(value) => value,
            None => defaults().metrics_port,
        },
{
}

/// A layer that sets nothing changes nothing: unknown names and malformed
/// values leave every field as it was.
pub proof fn lemma_unusable_layer_is_ignored(
    base: SettingsView,
    source: Source,
    layer: Seq<(Seq<char>, Seq<char>)>,
)
    requires
        forall|i: int, field: Field|
            0 <= i < layer.len() ==> !#[trigger] sets(source, layer[i], field),
    ensures
        overlaid(base, source, layer) == base,
    decreases layer.len(),
{
    if layer.len() > 0 {
        let rest = layer.drop_last();
        assert forall|i: int, field: Field| 0 <= i < rest.len() implies !#[trigger] sets(
            source,
            rest[i],
            field,
        ) by {
            assert(rest[i] == layer[i]);
            assert(!sets(source, layer[i], field));
        }
        lemma_unusable_layer_is_ignored(base, source, rest);
        assert(!sets(source, layer[layer.len() - 1], Field::LoggerLevel));
        assert(!sets(source, layer[layer.len() - 1], Field::ShutdownTimeout));
        assert(!sets(source, layer[layer.len() - 1], Field::Port));
        assert(!sets(source, layer[layer.len() - 1], Field::MetricsPort));
    }
}

/// The name under which `source` knows `field`.
pub fn name(source: Source, field: Field) -> (name: &'static str)
    ensures
        name@ == key(source, field),
{
    match source {
        Source::File => match field {
            Field::LoggerLevel => "logger.level",
            Field::ShutdownTimeout => "graceful_shutdown_timeout_seconds",
            Field::Port => "port",
            Field::MetricsPort => "metrics_port",
        },
        Source::Environment => match field {
            Field::LoggerLevel => "APP_LOGGER_LEVEL",
            Field::ShutdownTimeout => "APP_GRACEFUL_SHUTDOWN_TIMEOUT_SECONDS",
            Field::Port => "APP_PORT",
            Field::MetricsPort => "APP_METRICS_PORT",
        },
    }
}

/// Tells which field a name stands for.
pub fn recognize(source: Source, name: &str) -> (field: Option<Field>)
    ensures
        field == field_of(source, name@),
{
    match source {
        Source::File => {
            if str_eq(name, "logger.level") {
                Some(Field::LoggerLevel)
            } else if str_eq(name, "graceful_shutdown_timeout_seconds") {
                Some(Field::ShutdownTimeout)
            } else if str_eq(name, "port") {
                Some(Field::Port)
            } else if str_eq(name, "metrics_port") {
                Some(Field::MetricsPort)
            } else {
                None
            }
        },
        Source::Environment => {
            if str_eq(name, "APP_LOGGER_LEVEL") {
                Some(Field::LoggerLevel)
            } else if str_eq(name, "APP_GRACEFUL_SHUTDOWN_TIMEOUT_SECONDS") {
                Some(Field::ShutdownTimeout)
            } else if str_eq(name, "APP_PORT") {
                Some(Field::Port)
            } else if str_eq(name, "APP_METRICS_PORT") {
                Some(Field::MetricsPort)
            } else {
                None
            }
        },
    }
}

impl Settings {
    /// Lays `layer` over the settings. Entries are taken in order, so of
    /// two entries for one field the later one counts. An entry with an
    /// unknown name is passed over, and so is one whose value is malformed:
    /// the field keeps the value it had.
    pub fn overlay(&mut self, source: Source, layer: &Vec<(String, String)>)
        ensures
            final(self)@ == overlaid(old(self)@, source, layer.deep_view()),
    {
        let ghost base = self@;
        let ghost entries = layer.deep_view();
        let n: usize = layer.len();
        let mut i: usize = 0;
        assert(entries.take(0) =~= Seq::<(Seq<char>, Seq<char>)>::empty());
        while i < n
            invariant
                n == layer@.len(),
                entries == layer.deep_view(),
                0 <= i <= n,
                self@ == overlaid(base, source, entries.take(i as int)),
            decreases n - i,
        {
            let name = &layer[i].0;
            let value = &layer[i].1;
            proof {
                let next = entries.take(i + 1);
                assert(next.drop_last() =~= entries.take(i as int));
                assert(next.last() == (name@, value@));
            }
            match recognize(source, name.as_str()) {
                Some(Field::LoggerLevel) => {
                    self.logger.level = value.clone();
                },
                Some(Field::ShutdownTimeout) => {
                    match parse_u64(value.as_str().as_bytes()) {
                        Some(number) => {
                            self.graceful_shutdown_timeout_seconds = number;
                        },
                        None => {},
                    }
                },
                Some(Field::Port) => {
                    self.port = value.clone();
                },
                Some(Field::MetricsPort) => {
                    self.metrics_port = value.clone();
                },
                None => {},
            }
            i = i + 1;
        }
        assert(entries.take(n as int) =~= entries);
    }
}

/// Puts the settings together from what the settings file holds and what
/// the environment holds. It never fails: what is missing or unusable in a
/// layer is taken from the layer below, down to the defaults. Without a
/// settings file, `file` is empty.
pub fn load_config(file: &Vec<(String, String)>, environment: &Vec<(String, String)>) -> (settings:
    Settings)
    ensures
        settings@ == loaded(file.deep_view(), environment.deep_view()),
{
    let mut settings = Settings::default();
    settings.overlay(Source::File, file);
    settings.overlay(Source::Environment, environment);
    settings
}

} // verus!
