//! Resolving the host list from configuration data. The configuration is
//! modelled as a tree of plain values — strings, integers, lists and tables
//! of key/value pairs — exactly what the resolution logic reads: a table
//! supplies an optional username, password, port and timeout (with the
//! defaults filled in here) and a `hosts` list whose string entries become
//! one [`HostInfo`] each. A section name selects a sub-table instead.

use vstd::prelude::*;
use vstd::pervasive::unreached;
use crate::data::{CommandLineArgs, HostInfo};

verus! {

/// Default credential and connection settings, applied where the table is
/// silent.
pub const DEFAULT_SSH_PORT: u16 = 22;

pub const DEFAULT_SSH_TIMEOUT_MS: u32 = 3000;

/// One configuration value, as the resolution logic sees it: everything a
/// host table cannot contain is `Other`.
#[derive(Debug)]
pub enum ConfigValue {
    Str(String),
    Int(i64),
    List(Vec<ConfigValue>),
    Table(Vec<(String, ConfigValue)>),
    Other,
}

/// Why a host list could not be resolved.
#[derive(Clone, Copy, Debug, PartialEq, Eq, Structural)]
pub enum ConfigError {
    /// The configuration root is not a table.
    NotATable,
    /// The requested section is missing from the table.
    NoSection,
    /// The requested section is present but not a table.
    SectionNotATable,
    /// `username` is present but not a string.
    UsernameNotAString,
    /// `password` is present but not a string.
    PasswordNotAString,
    /// `port` is present but not an integer.
    PortNotAnInteger,
    /// `port` does not fit a 16-bit unsigned value.
    PortOutOfRange,
    /// `timeout_ms` is present but not an integer.
    TimeoutNotAnInteger,
    /// `timeout_ms` does not fit a 32-bit unsigned value.
    TimeoutOutOfRange,
}

/// First value bound to `key`, walking the table front to back.
pub open spec fn lookup(entries: Seq<(String, ConfigValue)>, key: Seq<char>) -> Option<
    ConfigValue,
>
    decreases entries.len(),
{
    if entries.len() == 0 {
        None
    } else if entries[0].0@ == key {
        Some(entries[0].1)
    } else {
        lookup(entries.skip(1), key)
    }
}

/// Find `key` in a table.
pub fn table_get<'a>(entries: &'a Vec<(String, ConfigValue)>, key: &str) -> (r: Option<
    &'a ConfigValue,
>)
    ensures
        match r {
            Some(v) => lookup(entries@, key@) == Some(*v),
            None => lookup(entries@, key@) is None,
        },
{
    let key_owned: String = key.to_owned();
    proof {
        assert(entries@.skip(0) =~= entries@);
    }
    let mut i: usize = 0;
    while i < entries.len()
        invariant
            i <= entries@.len(),
            key_owned@ == key@,
            lookup(entries@, key@) == lookup(entries@.skip(i as int), key@),
        decreases entries@.len() - i,
    {
        let pair = &entries[i];
        proof {
            assert(entries@.skip(i as int)[0] == entries@[i as int]);
            assert(entries@.skip(i as int).skip(1) =~= entries@.skip(i as int + 1));
        }
        if pair.0 == key_owned {
            return Some(&pair.1);
        }
        i = i + 1;
    }
    proof {
        assert(entries@.skip(entries@.len() as int).len() == 0);
    }
    None
}

/// The resolved username view: the table's string, or `root`.
pub open spec fn spec_username(t: Seq<(String, ConfigValue)>) -> Result<Seq<char>, ConfigError> {
    match lookup(t, "username"@) {
        None => Ok("root"@),
        Some(ConfigValue::Str(s)) => Ok(s@),
        Some(_) => Err(ConfigError::UsernameNotAString),
    }
}

/// The resolved password view: the table's string, or empty.
pub open spec fn spec_password(t: Seq<(String, ConfigValue)>) -> Result<Seq<char>, ConfigError> {
    match lookup(t, "password"@) {
        None => Ok(Seq::empty()),
        Some(ConfigValue::Str(s)) => Ok(s@),
        Some(_) => Err(ConfigError::PasswordNotAString),
    }
}

/// The resolved port: the table's integer if it fits a `u16`, or 22.
pub open spec fn spec_port(t: Seq<(String, ConfigValue)>) -> Result<u16, ConfigError> {
    match lookup(t, "port"@) {
        None => Ok(DEFAULT_SSH_PORT),
        Some(ConfigValue::Int(i)) => if 0 <= i && i <= 65535 {
            Ok(i as u16)
        } else {
            Err(ConfigError::PortOutOfRange)
        },
        Some(_) => Err(ConfigError::PortNotAnInteger),
    }
}

/// The resolved connect timeout in milliseconds: the table's integer if it
/// fits a `u32`, or 3000.
pub open spec fn spec_timeout_ms(t: Seq<(String, ConfigValue)>) -> Result<u32, ConfigError> {
    match lookup(t, "timeout_ms"@) {
        None => Ok(DEFAULT_SSH_TIMEOUT_MS),
        Some(ConfigValue::Int(i)) => if 0 <= i && i <= 0xFFFF_FFFF {
            Ok(i as u32)
        } else {
            Err(ConfigError::TimeoutOutOfRange)
        },
        Some(_) => Err(ConfigError::TimeoutNotAnInteger),
    }
}

/// The string entries of the `hosts` list, in order; entries of any other
/// shape are skipped, and a missing or non-list `hosts` key means no hosts.
pub open spec fn host_names_of(vs: Seq<ConfigValue>) -> Seq<Seq<char>>
    decreases vs.len(),
{
    if vs.len() == 0 {
        Seq::empty()
    } else {
        host_names_of(vs.drop_last()) + (match vs.last() {
            ConfigValue::Str(s) => seq![s@],
            _ => Seq::<Seq<char>>::empty(),
        })
    }
}

/// The host name views a table yields.
pub open spec fn spec_host_names(t: Seq<(String, ConfigValue)>) -> Seq<Seq<char>> {
    match lookup(t, "hosts"@) {
        Some(ConfigValue::List(vs)) => host_names_of(vs@),
        _ => Seq::empty(),
    }
}

/// What resolving one table must yield: the first failing setting's error —
/// username, password, port, then timeout — or one `HostInfo` per listed
/// host name, each carrying the four resolved settings.
pub open spec fn hosts_result_matches(
    t: Seq<(String, ConfigValue)>,
    r: Result<Vec<HostInfo>, ConfigError>,
) -> bool {
    if spec_username(t) is Err {
        r matches Err(e) && e == spec_username(t)->Err_0
    } else if spec_password(t) is Err {
        r matches Err(e) && e == spec_password(t)->Err_0
    } else if spec_port(t) is Err {
        r matches Err(e) && e == spec_port(t)->Err_0
    } else if spec_timeout_ms(t) is Err {
        r matches Err(e) && e == spec_timeout_ms(t)->Err_0
    } else {
        r matches Ok(v) && v@.len() == spec_host_names(t).len() && forall|k: int|
            0 <= k < v@.len() ==> {
                &&& (#[trigger] v@[k]).host@ == spec_host_names(t)[k]
                &&& v@[k].username@ == spec_username(t)->Ok_0
                &&& v@[k].password@ == spec_password(t)->Ok_0
                &&& v@[k].port == spec_port(t)->Ok_0
                &&& v@[k].timeout_ms == spec_timeout_ms(t)->Ok_0
            }
    }
}

/// The table's username, if legal: `Ok(None)` when absent, the string when
/// present, `UsernameNotAString` otherwise.
pub fn get_username(value: Option<&ConfigValue>) -> (r: Result<Option<String>, ConfigError>)
    ensures
        value is None ==> r == Ok::<Option<String>, ConfigError>(None::<String>),
        value matches Some(v) ==> match *v {
            ConfigValue::Str(s) => r matches Ok(o) && o matches Some(u) && u == s,
            _ => r == Err::<Option<String>, ConfigError>(ConfigError::UsernameNotAString),
        },
{
    match value {
        None => Ok(None),
        Some(ConfigValue::Str(s)) => Ok(Some(s.clone())),
        Some(_) => Err(ConfigError::UsernameNotAString),
    }
}

/// The table's password, if legal, as [`get_username`].
pub fn get_password(value: Option<&ConfigValue>) -> (r: Result<Option<String>, ConfigError>)
    ensures
        value is None ==> r == Ok::<Option<String>, ConfigError>(None::<String>),
        value matches Some(v) ==> match *v {
            ConfigValue::Str(s) => r matches Ok(o) && o matches Some(u) && u == s,
            _ => r == Err::<Option<String>, ConfigError>(ConfigError::PasswordNotAString),
        },
{
    match value {
        None => Ok(None),
        Some(ConfigValue::Str(s)) => Ok(Some(s.clone())),
        Some(_) => Err(ConfigError::PasswordNotAString),
    }
}

/// The table's port, if legal: an integer that fits a `u16`.
pub fn get_port(value: Option<&ConfigValue>) -> (r: Result<Option<u16>, ConfigError>)
    ensures
        value is None ==> r == Ok::<Option<u16>, ConfigError>(None::<u16>),
        value matches Some(v) ==> match *v {
            ConfigValue::Int(i) => if 0 <= i && i <= 65535 {
                r == Ok::<Option<u16>, ConfigError>(Some(i as u16))
            } else {
                r == Err::<Option<u16>, ConfigError>(ConfigError::PortOutOfRange)
            },
            _ => r == Err::<Option<u16>, ConfigError>(ConfigError::PortNotAnInteger),
        },
{
    match value {
        None => Ok(None),
        Some(ConfigValue::Int(i)) => {
            if 0 <= *i && *i <= 65535 {
                Ok(Some(*i as u16))
            } else {
                Err(ConfigError::PortOutOfRange)
            }
        },
        Some(_) => Err(ConfigError::PortNotAnInteger),
    }
}

/// The table's connect timeout, if legal: an integer that fits a `u32`.
pub fn get_timeout_ms(value: Option<&ConfigValue>) -> (r: Result<Option<u32>, ConfigError>)
    ensures
        value is None ==> r == Ok::<Option<u32>, ConfigError>(None::<u32>),
        value matches Some(v) ==> match *v {
            ConfigValue::Int(i) => if 0 <= i && i <= 0xFFFF_FFFF {
                r == Ok::<Option<u32>, ConfigError>(Some(i as u32))
            } else {
                r == Err::<Option<u32>, ConfigError>(ConfigError::TimeoutOutOfRange)
            },
            _ => r == Err::<Option<u32>, ConfigError>(ConfigError::TimeoutNotAnInteger),
        },
{
    match value {
        None => Ok(None),
        Some(ConfigValue::Int(i)) => {
            if 0 <= *i && *i <= 0xFFFF_FFFF {
                Ok(Some(*i as u32))
            } else {
                Err(ConfigError::TimeoutOutOfRange)
            }
        },
        Some(_) => Err(ConfigError::TimeoutNotAnInteger),
    }
}

/// Resolve one table: fill in the four settings (or fail on the first
/// illegal one) and build one [`HostInfo`] per string entry of its `hosts`
/// list, in list order.
pub fn get_hosts_from_table(table: &Vec<(String, ConfigValue)>) -> (r: Result<
    Vec<HostInfo>,
    ConfigError,
>)
    ensures
        hosts_result_matches(table@, r),
{
    let username: String = match get_username(table_get(table, "username")) {
        Ok(Some(u)) => u,
        Ok(None) => "root".to_owned(),
        Err(e) => {
            return Err(e);
        },
    };
    let password: String = match get_password(table_get(table, "password")) {
        Ok(Some(p)) => p,
        Ok(None) => String::new(),
        Err(e) => {
            return Err(e);
        },
    };
    let port: u16 = match get_port(table_get(table, "port")) {
        Ok(Some(p)) => p,
        Ok(None) => DEFAULT_SSH_PORT,
        Err(e) => {
            return Err(e);
        },
    };
    let timeout_ms: u32 = match get_timeout_ms(table_get(table, "timeout_ms")) {
        Ok(Some(t)) => t,
        Ok(None) => DEFAULT_SSH_TIMEOUT_MS,
        Err(e) => {
            return Err(e);
        },
    };
    let mut res: Vec<HostInfo> = Vec::new();
    match table_get(table, "hosts") {
        Some(ConfigValue::List(vs)) => {
            let mut i: usize = 0;
            while i < vs.len()
                invariant
                    i <= vs@.len(),
                    username@ == spec_username(table@)->Ok_0,
                    password@ == spec_password(table@)->Ok_0,
                    port == spec_port(table@)->Ok_0,
                    timeout_ms == spec_timeout_ms(table@)->Ok_0,
                    res@.len() == host_names_of(vs@.take(i as int)).len(),
                    forall|k: int|
                        0 <= k < res@.len() ==> {
                            &&& (#[trigger] res@[k]).host@ == host_names_of(vs@.take(i as int))[k]
                            &&& res@[k].username@ == username@
                            &&& res@[k].password@ == password@
                            &&& res@[k].port == port
                            &&& res@[k].timeout_ms == timeout_ms
                        },
                decreases vs@.len() - i,
            {
                proof {
                    assert(vs@.take(i as int + 1).drop_last() =~= vs@.take(i as int));
                    assert(vs@.take(i as int + 1).last() == vs@[i as int]);
                }
                match &vs[i] {
                    ConfigValue::Str(h) => {
                        res.push(
                            HostInfo {
                                host: h.clone(),
                                username: username.clone(),
                                password: password.clone(),
                                port,
                                timeout_ms,
                            },
                        );
                    },
                    _ => {},
                }
                i = i + 1;
            }
            proof {
                assert(vs@.take(vs@.len() as int) =~= vs@);
            }
        },
        _ => {},
    }
    Ok(res)
}

impl CommandLineArgs {
    /// Resolve the host list from parsed configuration data: the root must
    /// be a table; an absent or empty section name resolves the root table
    /// itself, any other name selects the section's sub-table and fails if
    /// it is missing or not a table.
    pub fn get_hosts(&self, root: &ConfigValue) -> (r: Result<Vec<HostInfo>, ConfigError>)
        ensures
            !((*root) is Table) ==> r == Err::<Vec<HostInfo>, ConfigError>(ConfigError::NotATable),
            (*root) matches ConfigValue::Table(t) ==> ({
                let use_root = self.section is None || self.section->0@.len() == 0;
                &&& use_root ==> hosts_result_matches(t@, r)
                &&& !use_root ==> match lookup(t@, self.section->0@) {
                    None => r == Err::<Vec<HostInfo>, ConfigError>(ConfigError::NoSection),
                    Some(ConfigValue::Table(st)) => hosts_result_matches(st@, r),
                    Some(_) => r == Err::<Vec<HostInfo>, ConfigError>(
                        ConfigError::SectionNotATable,
                    ),
                }
            }),
    {
        let table = match root {
            ConfigValue::Table(t) => t,
            _ => {
                return Err(ConfigError::NotATable);
            },
        };
        let use_root = match &self.section {
            None => true,
            Some(s) => s.as_str().is_empty(),
        };
        if use_root {
            return get_hosts_from_table(table);
        }
        let name = match &self.section {
            Some(s) => s,
            None => unreached(),
        };
        match table_get(table, name.as_str()) {
            None => Err(ConfigError::NoSection),
            Some(ConfigValue::Table(st)) => get_hosts_from_table(st),
            Some(_) => Err(ConfigError::SectionNotATable),
        }
    }
}

} // verus!
