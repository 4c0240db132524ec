//! The bot's settings, and how settings of an outdated file are carried over.

use vstd::prelude::*;

verus! {

/// The bot's settings, as the settings file holds them.
#[derive(Debug)]
pub struct AppConfig {
    pub cookie: String,
    pub bot_prompt: String,
    pub manger_qq_id: u64,
    pub host: String,
    pub prot: u64,
}

/// A value of the settings file, as far as the settings read it.
pub enum SettingValue {
    Text(String),
    Integer(i64),
    /// Any other kind of value (a float, a boolean, a date, an array, a table).
    Other,
}

/// The settings that are text, by their keys in a settings file; the
/// credential, kept in the field `cookie`, is read from the key `api_key`.
pub open spec fn is_text_key(key: Seq<char>) -> bool {
    key == "api_key"@ || key == "bot_prompt"@ || key == "host"@
}

/// The settings that are integers, by their keys.
pub open spec fn is_integer_key(key: Seq<char>) -> bool {
    key == "manger_qq_id"@ || key == "prot"@
}

/// Every known key of `entries` holds a value of its setting's kind.
pub open spec fn settings_well_typed(entries: Seq<(String, SettingValue)>) -> bool {
    forall|i: int|
        0 <= i < entries.len() ==> {
            &&& is_text_key(#[trigger] entries[i].0@) ==> entries[i].1 is Text
            &&& is_integer_key(entries[i].0@) ==> entries[i].1 is Integer
        }
}

/// The text that the last entry for `key` gives, or `default` where there is none.
pub open spec fn text_setting(
    entries: Seq<(String, SettingValue)>,
    key: Seq<char>,
    default: Seq<char>,
) -> Seq<char>
    decreases entries.len(),
{
    if entries.len() == 0 {
        default
    } else if entries.last().0@ == key && entries.last().1 is Text {
        entries.last().1->Text_0@
    } else {
        text_setting(entries.drop_last(), key, default)
    }
}

/// The number that the last entry for `key` gives, its bits read as unsigned,
/// or `default` where there is none.
pub open spec fn integer_setting(
    entries: Seq<(String, SettingValue)>,
    key: Seq<char>,
    default: u64,
) -> u64
    decreases entries.len(),
{
    if entries.len() == 0 {
        default
    } else if entries.last().0@ == key && entries.last().1 is Integer {
        entries.last().1->Integer_0 as u64
    } else {
        integer_setting(entries.drop_last(), key, default)
    }
}

/// No two entries of `entries` have the same key.
pub open spec fn keys_distinct(entries: Seq<(String, SettingValue)>) -> bool {
    forall|i: int, j: int|
        0 <= i < entries.len() && 0 <= j < entries.len() && i != j ==> #[trigger] entries[i].0@
            != #[trigger] entries[j].0@
}

/// Some entry of `entries` has the key `key`.
pub open spec fn has_key(entries: Seq<(String, SettingValue)>, key: Seq<char>) -> bool {
    exists|i: int| 0 <= i < entries.len() && #[trigger] entries[i].0@ == key
}

/// The entry `key = value` holds the value of its setting in `c`, as a
/// settings file writes it, or names no setting.
pub open spec fn entry_holds(key: Seq<char>, value: SettingValue, c: AppConfig) -> bool {
    match value {
        SettingValue::Text(s) => {
            &&& key == "api_key"@ ==> s@ == c.cookie@
            &&& key == "bot_prompt"@ ==> s@ == c.bot_prompt@
            &&& key == "host"@ ==> s@ == c.host@
            &&& !is_integer_key(key)
        },
        SettingValue::Integer(n) => {
            &&& key == "manger_qq_id"@ ==> n == c.manger_qq_id as i64
            &&& key == "prot"@ ==> n == c.prot as i64
            &&& !is_text_key(key)
        },
        SettingValue::Other => !is_text_key(key) && !is_integer_key(key),
    }
}

/// Each entry of `entries` holds the value of its setting in `c`.
pub open spec fn entries_hold(entries: Seq<(String, SettingValue)>, c: AppConfig) -> bool {
    forall|i: int| 0 <= i < entries.len() ==> entry_holds(#[trigger] entries[i].0@, entries[i].1, c)
}

proof fn lemma_text_setting_single(
    entries: Seq<(String, SettingValue)>,
    key: Seq<char>,
    default: Seq<char>,
    j: int,
)
    requires
        0 <= j < entries.len(),
        entries[j].0@ == key,
        entries[j].1 is Text,
        forall|i: int| 0 <= i < entries.len() && i != j ==> #[trigger] entries[i].0@ != key,
    ensures
        text_setting(entries, key, default) == entries[j].1->Text_0@,
    decreases entries.len(),
{
    if j != entries.len() - 1 {
        let rest = entries.drop_last();
        assert(entries.last() == entries[entries.len() - 1]);
        assert forall|i: int| 0 <= i < rest.len() && i != j implies #[trigger] rest[i].0@ != key by {
            assert(rest[i] == entries[i]);
        }
        assert(rest[j] == entries[j]);
        lemma_text_setting_single(rest, key, default, j);
    }
}

proof fn lemma_integer_setting_single(
    entries: Seq<(String, SettingValue)>,
    key: Seq<char>,
    default: u64,
    j: int,
)
    requires
        0 <= j < entries.len(),
        entries[j].0@ == key,
        entries[j].1 is Integer,
        forall|i: int| 0 <= i < entries.len() && i != j ==> #[trigger] entries[i].0@ != key,
    ensures
        integer_setting(entries, key, default) == entries[j].1->Integer_0 as u64,
    decreases entries.len(),
{
    if j != entries.len() - 1 {
        let rest = entries.drop_last();
        assert(entries.last() == entries[entries.len() - 1]);
        assert forall|i: int| 0 <= i < rest.len() && i != j implies #[trigger] rest[i].0@ != key by {
            assert(rest[i] == entries[i]);
        }
        assert(rest[j] == entries[j]);
        lemma_integer_setting_single(rest, key, default, j);
    }
}

/// Carrying settings over loses none of them: entries that name every setting
/// (the credential under `api_key`) once, in any order and beside any other keys, and hold the values of `c`
/// are well typed and give back every setting of `c`.
pub proof fn lemma_settings_carried_over(entries: Seq<(String, SettingValue)>, c: AppConfig)
    requires
        keys_distinct(entries),
        entries_hold(entries, c),
        has_key(entries, "api_key"@),
        has_key(entries, "bot_prompt"@),
        has_key(entries, "host"@),
        has_key(entries, "manger_qq_id"@),
        has_key(entries, "prot"@),
    ensures
        settings_well_typed(entries),
        text_setting(entries, "api_key"@, ""@) == c.cookie@,
        text_setting(entries, "bot_prompt"@, ""@) == c.bot_prompt@,
        text_setting(entries, "host"@, "0.0.0.0"@) == c.host@,
        integer_setting(entries, "manger_qq_id"@, 0) == c.manger_qq_id,
        integer_setting(entries, "prot"@, 5410) == c.prot,
{
    reveal_strlit("api_key");
    reveal_strlit("bot_prompt");
    reveal_strlit("host");
    reveal_strlit("manger_qq_id");
    reveal_strlit("prot");
    assert("host"@[0] != "prot"@[0]);
    assert(settings_well_typed(entries)) by {
        assert forall|i: int| 0 <= i < entries.len() implies {
            &&& is_text_key(#[trigger] entries[i].0@) ==> entries[i].1 is Text
            &&& is_integer_key(entries[i].0@) ==> entries[i].1 is Integer
        } by {
            assert(entries[i].0@ == entries[i].0@);
        }
    }
    let a = choose|i: int| 0 <= i < entries.len() && #[trigger] entries[i].0@ == "api_key"@;
    lemma_text_setting_single(entries, "api_key"@, ""@, a);
    let b = choose|i: int| 0 <= i < entries.len() && #[trigger] entries[i].0@ == "bot_prompt"@;
    lemma_text_setting_single(entries, "bot_prompt"@, ""@, b);
    let h = choose|i: int| 0 <= i < entries.len() && #[trigger] entries[i].0@ == "host"@;
    lemma_text_setting_single(entries, "host"@, "0.0.0.0"@, h);
    let m = choose|i: int| 0 <= i < entries.len() && #[trigger] entries[i].0@ == "manger_qq_id"@;
    lemma_integer_setting_single(entries, "manger_qq_id"@, 0, m);
    let p = choose|i: int| 0 <= i < entries.len() && #[trigger] entries[i].0@ == "prot"@;
    lemma_integer_setting_single(entries, "prot"@, 5410, p);
    let mq = c.manger_qq_id;
    let pr = c.prot;
    assert((mq as i64) as u64 == mq) by (bit_vector);
    assert((pr as i64) as u64 == pr) by (bit_vector);
}

/// The entries of the TOML table that `text` holds, each value reduced to
/// what the settings read of it; `None` where `text` is no TOML document.
pub uninterp spec fn toml_table(text: Seq<char>) -> Option<Seq<(String, SettingValue)>>;

/// Reads `text` as a TOML document.
///
/// Calls `toml::from_str::<toml::Table>`, then turns each entry's value into a
/// [`SettingValue`]: a TOML string into `Text`, a TOML integer into `Integer`,
/// any other value into `Other`. The result is named [`toml_table`]; the keys
/// of a TOML table are distinct (it is a map). What the TOML grammar accepts
/// is left unsaid.
#[verifier::external_body]
pub fn read_toml_table(text: &str) -> (r: Option<Vec<(String, SettingValue)>>)
    ensures
        r is None <==> toml_table(text@) is None,
        r matches Some(e) ==> toml_table(text@) == Some(e@) && keys_distinct(e@),
{
    let table = toml::from_str::<toml::Table>(text).ok()?;
    Some(table.into_iter().map(|(key, value)| {
        let setting = match value {
            toml::Value::String(s) => SettingValue::Text(s),
            toml::Value::Integer(n) => SettingValue::Integer(n),
            toml::Value::Float(_) | toml::Value::Boolean(_) | toml::Value::Datetime(_)
            | toml::Value::Array(_) | toml::Value::Table(_) => SettingValue::Other,
        };
        (key, setting)
    }).collect())
}

/// The settings carried over from the text of an outdated settings file:
/// `None` where the text is no TOML document, or where a known key holds a
/// value of the wrong kind; otherwise [`AppConfig::from_settings`] of its
/// entries.
pub fn carried_over_settings(text: &str) -> (r: Option<AppConfig>)
    ensures
        r is Some <==> (toml_table(text@) matches Some(e) && settings_well_typed(e)),
        r matches Some(c) ==> {
            let e = toml_table(text@)->Some_0;
            &&& c.cookie@ == text_setting(e, "api_key"@, ""@)
            &&& c.bot_prompt@ == text_setting(e, "bot_prompt"@, ""@)
            &&& c.host@ == text_setting(e, "host"@, "0.0.0.0"@)
            &&& c.manger_qq_id == integer_setting(e, "manger_qq_id"@, 0)
            &&& c.prot == integer_setting(e, "prot"@, 5410)
        },
{
    match read_toml_table(text) {
        None => None,
        Some(entries) => AppConfig::from_settings(&entries),
    }
}

fn key_is(key: &String, name: &str) -> (r: bool)
    ensures
        r == (key@ == name@),
{
    *key == String::from_str(name)
}

fn bits_as_u64(value: i64) -> (r: u64)
    ensures
        r == value as u64,
{
    value as u64
}

impl AppConfig {
    /// The settings written to a fresh settings file.
    pub fn new() -> (r: Self)
        ensures
            r.cookie@ == ""@,
            r.bot_prompt@ == ""@,
            r.manger_qq_id == 0,
            r.host@ == "0.0.0.0"@,
            r.prot == 5410,
    {
        Self {
            cookie: String::from_str(""),
            bot_prompt: String::from_str(""),
            manger_qq_id: 0,
            host: String::from_str("0.0.0.0"),
            prot: 5410,
        }
    }

    /// The settings carried over from the entries of a settings file that no
    /// longer has the expected shape: each known key sets its setting (the key
    /// `api_key` sets `cookie`), the other keys, `cookie` among them, are
    /// ignored, and a setting that no entry names keeps its
    /// value of [`AppConfig::new`]. `None` where a known key holds a value of
    /// the wrong kind.
    pub fn from_settings(entries: &Vec<(String, SettingValue)>) -> (r: Option<Self>)
        ensures
            r is Some <==> settings_well_typed(entries@),
            r matches Some(c) ==> {
                &&& c.cookie@ == text_setting(entries@, "api_key"@, ""@)
                &&& c.bot_prompt@ == text_setting(entries@, "bot_prompt"@, ""@)
                &&& c.host@ == text_setting(entries@, "host"@, "0.0.0.0"@)
                &&& c.manger_qq_id == integer_setting(entries@, "manger_qq_id"@, 0)
                &&& c.prot == integer_setting(entries@, "prot"@, 5410)
            },
    {
        let mut config = AppConfig::new();
        let mut i: usize = 0;
        while i < entries.len()
            invariant
                i <= entries@.len(),
                settings_well_typed(entries@.take(i as int)),
                config.cookie@ == text_setting(entries@.take(i as int), "api_key"@, ""@),
                config.bot_prompt@ == text_setting(entries@.take(i as int), "bot_prompt"@, ""@),
                config.host@ == text_setting(entries@.take(i as int), "host"@, "0.0.0.0"@),
                config.manger_qq_id == integer_setting(entries@.take(i as int), "manger_qq_id"@, 0),
                config.prot == integer_setting(entries@.take(i as int), "prot"@, 5410),
            decreases entries@.len() - i,
        {
            proof {
                reveal_strlit("api_key");
                reveal_strlit("bot_prompt");
                reveal_strlit("host");
                reveal_strlit("manger_qq_id");
                reveal_strlit("prot");
                assert("host"@[0] != "prot"@[0]);
            }
            let ghost before = entries@.take(i as int);
            let ghost after = entries@.take(i + 1);
            assert(after.drop_last() =~= before);
            assert(after.last() == entries@[i as int]);
            let key = &entries[i].0;
            let value = &entries[i].1;
            assert(key@ == after.last().0@);
            if key_is(key, "api_key") || key_is(key, "bot_prompt") || key_is(key, "host") {
                match value {
                    SettingValue::Text(text) => {
                        if key_is(key, "api_key") {
                            config.cookie = text.clone();
                        } else if key_is(key, "bot_prompt") {
                            config.bot_prompt = text.clone();
                        } else {
                            config.host = text.clone();
                        }
                    },
                    _ => {
                        assert(!settings_well_typed(entries@)) by {
                            assert(entries@[i as int] == after.last());
                        }
                        return None;
                    },
                }
            } else if key_is(key, "manger_qq_id") || key_is(key, "prot") {
                match value {
                    SettingValue::Integer(n) => {
                        if key_is(key, "manger_qq_id") {
                            config.manger_qq_id = bits_as_u64(*n);
                        } else {
                            config.prot = bits_as_u64(*n);
                        }
                    },
                    _ => {
                        assert(!settings_well_typed(entries@)) by {
                            assert(entries@[i as int] == after.last());
                        }
                        return None;
                    },
                }
            }
            assert(settings_well_typed(after)) by {
                assert forall|j: int| 0 <= j < after.len() implies {
                    &&& is_text_key(#[trigger] after[j].0@) ==> after[j].1 is Text
                    &&& is_integer_key(after[j].0@) ==> after[j].1 is Integer
                } by {
                    if j < before.len() {
                        assert(after[j] == before[j]);
                    } else {
                        assert(after[j] == entries@[i as int]);
                    }
                }
            }
            i = i + 1;
        }
        assert(entries@.take(entries@.len() as int) =~= entries@);
        Some(config)
    }
}

} // verus!
