//! Resolves the `package.metadata.grubimage` configuration table of a
//! kernel's manifest.
//!
//! The manifest text is handed in as a string; the TOML reader supplies the
//! configuration table as a sequence of [`ConfigEntry`] values, and
//! [`config_from_entries`] validates that sequence key by key. A missing
//! table yields the all-defaults configuration; an unknown key, a wrong value
//! type or a negative timeout is a hard error, never skipped.

use crate::text::str_eq;
use toml::Table;
use toml::Value;
use vstd::prelude::*;

verus! {

/// The parsed `package.metadata.grubimage` configuration table.
#[derive(Debug, Clone)]
#[non_exhaustive]
pub struct Config {
    /// The build-system subcommand used for building the kernel.
    ///
    /// Defaults to `build`.
    pub build_command: Vec<String>,
    /// The command invoked to run the produced image.
    ///
    /// The substring `{}` is replaced with the path to the bootable image.
    pub run_command: Vec<String>,
    /// Additional arguments passed to the runner for non-test binaries.
    pub run_args: Option<Vec<String>>,
    /// Additional arguments passed to the runner for test binaries.
    pub test_args: Option<Vec<String>>,
    /// The timeout for running a test, in seconds.
    ///
    /// Defaults to 300.
    pub test_timeout: u32,
    /// An exit code that is considered a success for test executables.
    pub test_success_exit_code: Option<i32>,
    /// Whether the `-no-reboot` flag is passed to test executables.
    ///
    /// Defaults to `true`.
    pub test_no_reboot: bool,
}

/// The shape of one value of the configuration table.
///
/// An array keeps each element that is a string, and `None` for each element
/// that is not; every value of another type is `Other`.
#[derive(Debug, Clone, PartialEq)]
pub enum RawEntry {
    /// An integer value.
    Int(i64),
    /// A boolean value.
    Bool(bool),
    /// An array value; a `None` element is one that is not a string.
    Arr(Vec<Option<String>>),
    /// A value of any other type.
    Other,
}

/// One key of the configuration table, with the text the value shows as and
/// the shape of the value.
#[derive(Debug, Clone, PartialEq)]
pub struct ConfigEntry {
    /// The key under the configuration table.
    pub key: String,
    /// The value as rendered text, for error messages.
    pub shown: String,
    /// The shape of the value.
    pub value: RawEntry,
}

/// Why a manifest's configuration was rejected.
#[derive(Debug, Clone, PartialEq)]
pub enum ConfigError {
    /// The manifest text is not well-formed TOML.
    Parse,
    /// The configuration table is present but is not a table; carries its
    /// rendered text.
    NotATable(String),
    /// A key of the table is not recognized, or its value has the wrong
    /// type; carries the key and the value's rendered text.
    UnknownKey(String, String),
    /// `test-timeout` is negative; carries the value.
    NegativeTimeout(i64),
    /// A string-array key holds an element that is not a string; carries the
    /// key.
    NotAStringArray(String),
}

/// The views of a sequence of strings.
pub open spec fn views_of_strings(v: Seq<String>) -> Seq<Seq<char>> {
    v.map_values(|s: String| s@)
}

/// The views of the strings of an array value, assuming every element is a
/// string.
pub open spec fn array_strings(a: Seq<Option<String>>) -> Seq<Seq<char>> {
    a.map_values(|o: Option<String>| o->Some_0@)
}

/// Appending a string appends its view.
pub proof fn lemma_views_push(v: Seq<String>, s: String)
    ensures
        views_of_strings(v.push(s)) == views_of_strings(v).push(s@),
{
    assert(views_of_strings(v.push(s)) =~= views_of_strings(v).push(s@));
}

/// Whether every element of an array value is a string.
pub open spec fn all_strings(a: Seq<Option<String>>) -> bool {
    forall|i: int| 0 <= i < a.len() ==> a[i] is Some
}

/// The keys whose value must be an array of strings.
pub open spec fn is_array_key(k: Seq<char>) -> bool {
    ||| k == "build-command"@
    ||| k == "run-command"@
    ||| k == "run-args"@
    ||| k == "test-args"@
}

/// The keys the configuration table recognizes.
pub open spec fn known_key(k: Seq<char>) -> bool {
    ||| is_array_key(k)
    ||| k == "test-timeout"@
    ||| k == "test-success-exit-code"@
    ||| k == "test-no-reboot"@
}

/// The error one entry of the configuration table provokes, if any.
///
/// A recognized key with a value of the wrong type counts as an unknown
/// key/value pair, exactly as an unrecognized key does.
pub open spec fn entry_error(e: ConfigEntry) -> Option<ConfigError> {
    match e.value {
        RawEntry::Int(t) => if e.key@ == "test-timeout"@ {
            if t < 0 {
                Some(ConfigError::NegativeTimeout(t))
            } else {
                None
            }
        } else if e.key@ == "test-success-exit-code"@ {
            None
        } else {
            Some(ConfigError::UnknownKey(e.key, e.shown))
        },
        RawEntry::Bool(_) => if e.key@ == "test-no-reboot"@ {
            None
        } else {
            Some(ConfigError::UnknownKey(e.key, e.shown))
        },
        RawEntry::Arr(a) => if is_array_key(e.key@) {
            if all_strings(a@) {
                None
            } else {
                Some(ConfigError::NotAStringArray(e.key))
            }
        } else {
            Some(ConfigError::UnknownKey(e.key, e.shown))
        },
        RawEntry::Other => Some(ConfigError::UnknownKey(e.key, e.shown)),
    }
}

/// The error of the first offending entry of the table, if any.
pub open spec fn first_error(es: Seq<ConfigEntry>) -> Option<ConfigError>
    decreases es.len(),
{
    if es.len() == 0 {
        None
    } else if first_error(es.drop_last()) is Some {
        first_error(es.drop_last())
    } else {
        entry_error(es.last())
    }
}

/// The last entry of the table under the given key, if any; a later entry
/// overrides an earlier one with the same key.
pub open spec fn last_entry_with_key(es: Seq<ConfigEntry>, k: Seq<char>) -> Option<ConfigEntry>
    decreases es.len(),
{
    if es.len() == 0 {
        None
    } else if es.last().key@ == k {
        Some(es.last())
    } else {
        last_entry_with_key(es.drop_last(), k)
    }
}

/// Whether two configuration errors agree, compared by their texts.
pub open spec fn same_error(a: ConfigError, b: ConfigError) -> bool {
    match (a, b) {
        (ConfigError::Parse, ConfigError::Parse) => true,
        (ConfigError::NotATable(x), ConfigError::NotATable(y)) => x@ == y@,
        (ConfigError::UnknownKey(k1, v1), ConfigError::UnknownKey(k2, v2)) => k1@ == k2@ && v1@
            == v2@,
        (ConfigError::NegativeTimeout(x), ConfigError::NegativeTimeout(y)) => x == y,
        (ConfigError::NotAStringArray(p), ConfigError::NotAStringArray(q)) => p@ == q@,
        _ => false,
    }
}

/// The all-defaults configuration: build command `build`, a run command with
/// the `{}` image-path placeholder, no extra arguments, a 300 second test
/// timeout and `-no-reboot` on.
pub open spec fn is_default_config(c: Config) -> bool {
    &&& views_of_strings(c.build_command@) == seq!["build"@]
    &&& views_of_strings(c.run_command@) == seq!["qemu-system-i386"@, "-cdrom"@, "{}"@]
    &&& c.run_args is None
    &&& c.test_args is None
    &&& c.test_timeout == 300
    &&& c.test_success_exit_code is None
    &&& c.test_no_reboot == true
}

/// How a configuration follows from an error-free table: each field comes
/// from the last entry under its key, or from its default when the key is
/// absent.
pub open spec fn config_ok_matches(c: Config, es: Seq<ConfigEntry>) -> bool {
    &&& match last_entry_with_key(es, "build-command"@) {
        None => views_of_strings(c.build_command@) == seq!["build"@],
        Some(e) => e.value matches RawEntry::Arr(a) ==> views_of_strings(c.build_command@)
            == array_strings(a@),
    }
    &&& match last_entry_with_key(es, "run-command"@) {
        None => views_of_strings(c.run_command@) == seq!["qemu-system-i386"@, "-cdrom"@, "{}"@],
        Some(e) => e.value matches RawEntry::Arr(a) ==> views_of_strings(c.run_command@)
            == array_strings(a@),
    }
    &&& match last_entry_with_key(es, "run-args"@) {
        None => c.run_args is None,
        Some(e) => e.value matches RawEntry::Arr(a) ==> c.run_args matches Some(v)
            && views_of_strings(v@) == array_strings(a@),
    }
    &&& match last_entry_with_key(es, "test-args"@) {
        None => c.test_args is None,
        Some(e) => e.value matches RawEntry::Arr(a) ==> c.test_args matches Some(v)
            && views_of_strings(v@) == array_strings(a@),
    }
    &&& match last_entry_with_key(es, "test-timeout"@) {
        None => c.test_timeout == 300,
        Some(e) => e.value matches RawEntry::Int(t) ==> t >= 0 && c.test_timeout == t
            % 0x1_0000_0000,
    }
    &&& match last_entry_with_key(es, "test-success-exit-code"@) {
        None => c.test_success_exit_code is None,
        Some(e) => e.value matches RawEntry::Int(t) ==> (c.test_success_exit_code matches Some(v)
            && v as int == wrap_i32(t as int)),
    }
    &&& match last_entry_with_key(es, "test-no-reboot"@) {
        None => c.test_no_reboot == true,
        Some(e) => e.value matches RawEntry::Bool(b) ==> c.test_no_reboot == b,
    }
}

/// A table with no offending entry has no offending entry at any position,
/// and the other way round.
proof fn lemma_first_error_none(es: Seq<ConfigEntry>)
    ensures
        first_error(es) is None <==> (forall|j: int|
            0 <= j < es.len() ==> entry_error(es[j]) is None),
    decreases es.len(),
{
    if es.len() > 0 {
        lemma_first_error_none(es.drop_last());
        assert(forall|j: int| 0 <= j < es.len() - 1 ==> es.drop_last()[j] == es[j]);
        assert(es.last() == es[es.len() - 1]);
    }
}

/// When every entry before position `i` is clean and the entry at `i`
/// offends, the table's first error is that entry's error.
proof fn lemma_first_error_locate(es: Seq<ConfigEntry>, i: int)
    requires
        0 <= i < es.len(),
        forall|j: int| 0 <= j < i ==> entry_error(es[j]) is None,
        entry_error(es[i]) is Some,
    ensures
        first_error(es) == entry_error(es[i]),
    decreases es.len(),
{
    assert(es.drop_last() =~= es.take(es.len() - 1));
    if i == es.len() - 1 {
        lemma_first_error_none(es.drop_last());
        assert(forall|j: int| 0 <= j < es.len() - 1 ==> es.drop_last()[j] == es[j]);
        assert(first_error(es.drop_last()) is None);
    } else {
        assert(forall|j: int| 0 <= j < es.len() - 1 ==> es.drop_last()[j] == es[j]);
        lemma_first_error_locate(es.drop_last(), i);
    }
}

/// A negative `test-timeout` entry anywhere in the table makes the
/// configuration fail: some entry offends, so a configuration error is
/// returned and no configuration value is.
pub proof fn lemma_negative_timeout_rejected(es: Seq<ConfigEntry>, i: int)
    requires
        0 <= i < es.len(),
        es[i].key@ == "test-timeout"@,
        es[i].value matches RawEntry::Int(t) && t < 0,
    ensures
        first_error(es) is Some,
{
    assert(entry_error(es[i]) is Some);
    if forall|j: int| 0 <= j < i ==> #[trigger] entry_error(es[j]) is None {
        lemma_first_error_locate(es, i);
    } else {
        let j = choose|j: int| 0 <= j < i && !(entry_error(es[j]) is None);
        lemma_first_error_none(es);
    }
}

/// An unrecognized key anywhere in the table makes the configuration fail,
/// whatever its value holds.
pub proof fn lemma_unknown_key_rejected(es: Seq<ConfigEntry>, i: int)
    requires
        0 <= i < es.len(),
        !known_key(es[i].key@),
    ensures
        first_error(es) is Some,
{
    assert(entry_error(es[i]) is Some);
    if forall|j: int| 0 <= j < i ==> #[trigger] entry_error(es[j]) is None {
        lemma_first_error_locate(es, i);
    } else {
        let j = choose|j: int| 0 <= j < i && !(entry_error(es[j]) is None);
        lemma_first_error_none(es);
    }
}

/// The value a 64-bit integer leaves in a 32-bit signed cell: its low 32
/// bits, read as two's complement. An oversized `test-success-exit-code`
/// keeps exactly these bits.
pub open spec fn wrap_i32(t: int) -> int {
    let m = t % 0x1_0000_0000;
    if m >= 0x8000_0000 {
        m - 0x1_0000_0000
    } else {
        m
    }
}

/// Reduces an integer to the 32-bit signed value its low bits spell, as
/// [`wrap_i32`] states.
fn to_exit_code(t: i64) -> (r: i32)
    ensures
        r as int == wrap_i32(t as int),
{
    if t >= 0 {
        let m: i64 = t % 0x1_0000_0000;
        proof {
            vstd::arithmetic::div_mod::lemma_mod_bound(t as int, 0x1_0000_0000);
        }
        if m >= 0x8000_0000 {
            (m - 0x1_0000_0000) as i32
        } else {
            m as i32
        }
    } else {
        let p: i64 = -(t + 1);
        let pm: i64 = p % 0x1_0000_0000;
        proof {
            vstd::arithmetic::div_mod::lemma_mod_bound(p as int, 0x1_0000_0000);
            vstd::arithmetic::div_mod::lemma_fundamental_div_mod(p as int, 0x1_0000_0000);
            let q = (p as int) / 0x1_0000_0000;
            assert((t as int) == (-q - 1) * 0x1_0000_0000 + (0x1_0000_0000 - 1 - (pm as int)))
                by (nonlinear_arith)
                requires
                    (p as int) == q * 0x1_0000_0000 + (pm as int),
                    (t as int) == -(p as int) - 1,
            ;
            vstd::arithmetic::div_mod::lemma_fundamental_div_mod_converse_mod(
                t as int,
                0x1_0000_0000,
                -q - 1,
                0x1_0000_0000 - 1 - (pm as int),
            );
        }
        let m: i64 = 0xFFFF_FFFF - pm;
        if m >= 0x8000_0000 {
            (m - 0x1_0000_0000) as i32
        } else {
            m as i32
        }
    }
}

/// The seven recognized keys all have different lengths, so no two of them
/// are the same sequence of characters.
proof fn lemma_distinct_keys()
    ensures
        "build-command"@.len() == 13,
        "run-command"@.len() == 11,
        "run-args"@.len() == 8,
        "test-args"@.len() == 9,
        "test-timeout"@.len() == 12,
        "test-success-exit-code"@.len() == 22,
        "test-no-reboot"@.len() == 14,
{
    reveal_strlit("build-command");
    reveal_strlit("run-command");
    reveal_strlit("run-args");
    reveal_strlit("test-args");
    reveal_strlit("test-timeout");
    reveal_strlit("test-success-exit-code");
    reveal_strlit("test-no-reboot");
}

/// Extending the table by one entry either makes that entry the last one
/// under its key, or leaves the lookup unchanged.
proof fn lemma_last_entry_extend(es: Seq<ConfigEntry>, i: int, k: Seq<char>)
    requires
        0 <= i < es.len(),
    ensures
        last_entry_with_key(es.take(i + 1), k) == (if es[i].key@ == k {
            Some(es[i])
        } else {
            last_entry_with_key(es.take(i), k)
        }),
{
    assert(es.take(i + 1).drop_last() =~= es.take(i));
    assert(es.take(i + 1).last() == es[i]);
}

/// When an unrecognized key is the first offending entry, the error names
/// that key and its rendered value.
pub proof fn lemma_unknown_key_named(es: Seq<ConfigEntry>, i: int)
    requires
        0 <= i < es.len(),
        !known_key(es[i].key@),
        forall|j: int| 0 <= j < i ==> entry_error(es[j]) is None,
    ensures
        first_error(es) == Some(ConfigError::UnknownKey(es[i].key, es[i].shown)),
{
    lemma_first_error_locate(es, i);
}

/// Checks that every element of an array value is a string and collects the
/// strings; fails naming the property otherwise.
fn parse_string_array(array: &Vec<Option<String>>, prop: &String) -> (r: Result<
    Vec<String>,
    ConfigError,
>)
    ensures
        all_strings(array@) ==> r is Ok && views_of_strings(r->Ok_0@) == array_strings(array@),
        !all_strings(array@) ==> (r matches Err(ConfigError::NotAStringArray(p)) && p@ == prop@),
{
    let mut parsed: Vec<String> = Vec::new();
    let mut i: usize = 0;
    while i < array.len()
        invariant
            i <= array@.len(),
            parsed@.len() == i,
            forall|j: int|
                0 <= j < i ==> array@[j] is Some && parsed@[j]@ == array@[j]->Some_0@,
        decreases array@.len() - i,
    {
        match &array[i] {
            Some(s) => {
                parsed.push(s.clone());
            },
            None => {
                return Err(ConfigError::NotAStringArray(prop.clone()));
            },
        }
        i = i + 1;
    }
    proof {
        assert(views_of_strings(parsed@) =~= array_strings(array@));
    }
    Ok(parsed)
}

/// Validates the configuration table and assembles the configuration.
///
/// A missing table (`None`) yields the all-defaults configuration. Otherwise
/// the entries are checked one by one: the first offending entry decides the
/// error, and when none offends, each field comes from the last entry under
/// its key, with the documented default where the key is absent.
#[verifier::rlimit(100)]
#[verifier::loop_isolation(false)]
pub fn config_from_entries(table: Option<Vec<ConfigEntry>>) -> (r: Result<Config, ConfigError>)
    ensures
        table is None ==> r is Ok && is_default_config(r->Ok_0),
        table matches Some(es) ==> {
            &&& (first_error(es@) matches Some(err) ==> r is Err && same_error(r->Err_0, err))
            &&& (first_error(es@) is None ==> r is Ok && config_ok_matches(r->Ok_0, es@))
        },
{
    let entries = match table {
        None => {
            let c = default_config();
            return Ok(c);
        },
        Some(entries) => entries,
    };
    let ghost es = entries@;
    let mut bc: Option<Vec<String>> = None;
    let mut rc: Option<Vec<String>> = None;
    let mut ra: Option<Vec<String>> = None;
    let mut ta: Option<Vec<String>> = None;
    let mut tt: Option<u32> = None;
    let mut tsec: Option<i32> = None;
    let mut tnr: Option<bool> = None;
    let mut i: usize = 0;
    while i < entries.len()
        invariant
            es == entries@,
            i <= es.len(),
            forall|j: int| 0 <= j < i ==> entry_error(es[j]) is None,
            match last_entry_with_key(es.take(i as int), "build-command"@) {
                None => bc is None,
                Some(e) => bc is Some && (e.value matches RawEntry::Arr(a) ==> views_of_strings(
                    bc->Some_0@,
                ) == array_strings(a@)),
            },
            match last_entry_with_key(es.take(i as int), "run-command"@) {
                None => rc is None,
                Some(e) => rc is Some && (e.value matches RawEntry::Arr(a) ==> views_of_strings(
                    rc->Some_0@,
                ) == array_strings(a@)),
            },
            match last_entry_with_key(es.take(i as int), "run-args"@) {
                None => ra is None,
                Some(e) => ra is Some && (e.value matches RawEntry::Arr(a) ==> views_of_strings(
                    ra->Some_0@,
                ) == array_strings(a@)),
            },
            match last_entry_with_key(es.take(i as int), "test-args"@) {
                None => ta is None,
                Some(e) => ta is Some && (e.value matches RawEntry::Arr(a) ==> views_of_strings(
                    ta->Some_0@,
                ) == array_strings(a@)),
            },
            match last_entry_with_key(es.take(i as int), "test-timeout"@) {
                None => tt is None,
                Some(e) => tt is Some && (e.value matches RawEntry::Int(t) ==> t >= 0
                    && tt->Some_0 == t % 0x1_0000_0000),
            },
            match last_entry_with_key(es.take(i as int), "test-success-exit-code"@) {
                None => tsec is None,
                Some(e) => tsec is Some && (e.value matches RawEntry::Int(t) ==> (tsec matches
                Some(v) && v as int == wrap_i32(t as int))),
            },
            match last_entry_with_key(es.take(i as int), "test-no-reboot"@) {
                None => tnr is None,
                Some(e) => tnr is Some && (e.value matches RawEntry::Bool(b) ==> tnr == Some(b)),
            },
        decreases es.len() - i,
    {
        proof {
            assert(es.take(i + 1).drop_last() =~= es.take(i as int));
            assert(es.take(i + 1).last() == es[i as int]);
            lemma_last_entry_extend(es, i as int, "build-command"@);
            lemma_last_entry_extend(es, i as int, "run-command"@);
            lemma_last_entry_extend(es, i as int, "run-args"@);
            lemma_last_entry_extend(es, i as int, "test-args"@);
            lemma_last_entry_extend(es, i as int, "test-timeout"@);
            lemma_last_entry_extend(es, i as int, "test-success-exit-code"@);
            lemma_last_entry_extend(es, i as int, "test-no-reboot"@);
            lemma_distinct_keys();
        }
        let e = &entries[i];
        match &e.value {
            RawEntry::Int(t) => {
                let t = *t;
                if str_eq(e.key.as_str(), "test-timeout") {
                    if t < 0 {
                        proof {
                            lemma_first_error_locate(es, i as int);
                        }
                        return Err(ConfigError::NegativeTimeout(t));
                    }
                    tt = Some((t % 0x1_0000_0000) as u32);
                } else if str_eq(e.key.as_str(), "test-success-exit-code") {
                    tsec = Some(to_exit_code(t));
                } else {
                    proof {
                        lemma_first_error_locate(es, i as int);
                    }
                    return Err(ConfigError::UnknownKey(e.key.clone(), e.shown.clone()));
                }
            },
            RawEntry::Bool(b) => {
                if str_eq(e.key.as_str(), "test-no-reboot") {
                    tnr = Some(*b);
                } else {
                    proof {
                        lemma_first_error_locate(es, i as int);
                    }
                    return Err(ConfigError::UnknownKey(e.key.clone(), e.shown.clone()));
                }
            },
            RawEntry::Arr(a) => {
                if str_eq(e.key.as_str(), "build-command") {
                    match parse_string_array(a, &e.key) {
                        Ok(v) => {
                            bc = Some(v);
                        },
                        Err(err) => {
                            proof {
                                lemma_first_error_locate(es, i as int);
                            }
                            return Err(err);
                        },
                    }
                } else if str_eq(e.key.as_str(), "run-command") {
                    match parse_string_array(a, &e.key) {
                        Ok(v) => {
                            rc = Some(v);
                        },
                        Err(err) => {
                            proof {
                                lemma_first_error_locate(es, i as int);
                            }
                            return Err(err);
                        },
                    }
                } else if str_eq(e.key.as_str(), "run-args") {
                    match parse_string_array(a, &e.key) {
                        Ok(v) => {
                            ra = Some(v);
                        },
                        Err(err) => {
                            proof {
                                lemma_first_error_locate(es, i as int);
                            }
                            return Err(err);
                        },
                    }
                } else if str_eq(e.key.as_str(), "test-args") {
                    match parse_string_array(a, &e.key) {
                        Ok(v) => {
                            ta = Some(v);
                        },
                        Err(err) => {
                            proof {
                                lemma_first_error_locate(es, i as int);
                            }
                            return Err(err);
                        },
                    }
                } else {
                    proof {
                        lemma_first_error_locate(es, i as int);
                    }
                    return Err(ConfigError::UnknownKey(e.key.clone(), e.shown.clone()));
                }
            },
            RawEntry::Other => {
                proof {
                    lemma_first_error_locate(es, i as int);
                }
                return Err(ConfigError::UnknownKey(e.key.clone(), e.shown.clone()));
            },
        }
        i = i + 1;
    }
    proof {
        assert(es.take(es.len() as int) =~= es);
        lemma_first_error_none(es);
    }
    let config = Config {
        build_command: match bc {
            Some(v) => v,
            None => default_build_command(),
        },
        run_command: match rc {
            Some(v) => v,
            None => default_run_command(),
        },
        run_args: ra,
        test_args: ta,
        test_timeout: match tt {
            Some(t) => t,
            None => 300,
        },
        test_success_exit_code: tsec,
        test_no_reboot: match tnr {
            Some(b) => b,
            None => true,
        },
    };
    Ok(config)
}

/// The default build command, `["build"]`.
fn default_build_command() -> (r: Vec<String>)
    ensures
        views_of_strings(r@) == seq!["build"@],
{
    let r = vec!["build".to_owned()];
    proof {
        assert(views_of_strings(r@) =~= seq!["build"@]);
    }
    r
}

/// The default run command, with the `{}` image-path placeholder.
fn default_run_command() -> (r: Vec<String>)
    ensures
        views_of_strings(r@) == seq!["qemu-system-i386"@, "-cdrom"@, "{}"@],
{
    let r = vec!["qemu-system-i386".to_owned(), "-cdrom".to_owned(), "{}".to_owned()];
    proof {
        assert(views_of_strings(r@) =~= seq!["qemu-system-i386"@, "-cdrom"@, "{}"@]);
    }
    r
}

/// The all-defaults configuration.
fn default_config() -> (c: Config)
    ensures
        is_default_config(c),
{
    Config {
        build_command: default_build_command(),
        run_command: default_run_command(),
        run_args: None,
        test_args: None,
        test_timeout: 300,
        test_success_exit_code: None,
        test_no_reboot: true,
    }
}

/// The outcome of looking up the `package.metadata.grubimage` table in a
/// manifest text.
#[derive(Debug, Clone, PartialEq)]
pub enum TableLookup {
    /// The text is not a well-formed TOML document.
    NoToml,
    /// The document has no `package.metadata.grubimage` value.
    Absent,
    /// The `grubimage` value is present but is not a table; carries its
    /// rendered text.
    NotTable(String),
    /// The table's entries, in the document map's order.
    Entries(Vec<ConfigEntry>),
}

/// A value of the `toml` crate, carried only between the table lookup and
/// its per-entry converter.
#[verifier::external_type_specification]
#[verifier::external_body]
pub struct ExTomlValue(toml::Value);

/// What the TOML reader answers for a manifest text: whether it parses,
/// whether the `package.metadata.grubimage` value exists and is a table, and
/// that table's entries. The answer depends on the text's characters alone.
pub uninterp spec fn grubimage_table_of(manifest: Seq<char>) -> TableLookup;

/// Relies on `toml`: `str::parse::<toml::Table>` (`NoToml` exactly on text
/// that is not a well-formed document), `toml::Table::get` and
/// `toml::Value::get` for the fixed `package.metadata.grubimage` key path
/// (`Absent` when it is missing), `toml::Value::as_table`, the
/// `toml::map::Map` iterator (one entry per key, in the map's order), and
/// `toml::Value`'s `Display` for the rendered texts. Each entry's value is
/// told apart by variant: integer, boolean, array with its string elements,
/// anything else `Other`.
#[verifier::external_body]
fn lookup_grubimage_table(manifest: &str) -> (r: TableLookup)
    ensures
        r == grubimage_table_of(manifest@),
{
    let Ok(doc) = manifest.parse::<Table>() else { return TableLookup::NoToml };
    match doc.get("package").and_then(|v| v.get("metadata")).and_then(|v| v.get("grubimage")) {
        None => TableLookup::Absent,
        Some(Value::Table(t)) => TableLookup::Entries(t.iter().map(|(k, v)| toml_entry(k, v)).collect()),
        Some(v) => TableLookup::NotTable(v.to_string()),
    }
}

/// The per-entry converter of [`lookup_grubimage_table`], which is its one
/// caller. Relies on the variants and the `Display` of `toml::Value`: one
/// entry of the configuration table, its value told apart by variant —
/// integer, boolean, array with its string elements, anything else `Other` —
/// and rendered as TOML text.
#[verifier::external_body]
fn toml_entry(key: &String, val: &Value) -> ConfigEntry {
    let value = match val {
        Value::Integer(n) => RawEntry::Int(*n),
        Value::Boolean(b) => RawEntry::Bool(*b),
        Value::Array(a) => RawEntry::Arr(a.iter().map(|e| e.as_str().map(str::to_owned)).collect()),
        _ => RawEntry::Other,
    };
    ConfigEntry { key: key.clone(), shown: val.to_string(), value }
}

/// Reads the configuration from the text of the kernel's manifest.
///
/// The result is a function of the lookup's answer alone, hence of the
/// manifest text alone: text that is no TOML document fails with
/// [`ConfigError::Parse`]; a missing table yields exactly the defaults; a
/// `grubimage` value that is not a table fails with
/// [`ConfigError::NotATable`] carrying its rendered text; and a table yields
/// what [`config_from_entries`] states — the first offending entry's error,
/// or the configuration the entries describe. Parsing is all or nothing:
/// `Ok` comes back exactly when the table is absent or every entry is valid.
pub fn read_config(manifest: &str) -> (r: Result<Config, ConfigError>)
    ensures
        ({
            let lookup = grubimage_table_of(manifest@);
            &&& (lookup is NoToml ==> r == Err::<Config, ConfigError>(ConfigError::Parse))
            &&& (lookup is Absent ==> r is Ok && is_default_config(r->Ok_0))
            &&& (lookup matches TableLookup::NotTable(shown) ==> r == Err::<Config, ConfigError>(
                ConfigError::NotATable(shown),
            ))
            &&& (lookup matches TableLookup::Entries(es) ==> {
                &&& (first_error(es@) matches Some(err) ==> r is Err && same_error(
                    r->Err_0,
                    err,
                ))
                &&& (first_error(es@) is None ==> r is Ok && config_ok_matches(r->Ok_0, es@))
            })
        }),
{
    match lookup_grubimage_table(manifest) {
        TableLookup::NoToml => Err(ConfigError::Parse),
        TableLookup::Absent => config_from_entries(None),
        TableLookup::NotTable(shown) => Err(ConfigError::NotATable(shown)),
        TableLookup::Entries(entries) => config_from_entries(Some(entries)),
    }
}

impl ConfigError {
    /// The error as a line of text naming what was rejected.
    pub fn message(&self) -> (r: String)
        ensures
            match self {
                ConfigError::Parse => r@ == "Failed to parse Cargo.toml"@,
                ConfigError::NotATable(v) => r@ == "grubimage configuration invalid: "@ + v@,
                ConfigError::UnknownKey(k, v) => r@
                    == "unexpected `package.metadata.grubimage` key `"@ + k@ + "` with value `"@
                    + v@ + "`"@,
                ConfigError::NegativeTimeout(_) => r@ == "test-timeout must not be negative"@,
                ConfigError::NotAStringArray(p) => r@ == p@ + " must be a list of strings"@,
            },
    {
        match self {
            ConfigError::Parse => "Failed to parse Cargo.toml".to_owned(),
            ConfigError::NotATable(v) => {
                let mut out = "grubimage configuration invalid: ".to_owned();
                out.append(v.as_str());
                out
            },
            ConfigError::UnknownKey(k, v) => {
                let mut out = "unexpected `package.metadata.grubimage` key `".to_owned();
                out.append(k.as_str());
                out.append("` with value `");
                out.append(v.as_str());
                out.append("`");
                out
            },
            ConfigError::NegativeTimeout(_) => "test-timeout must not be negative".to_owned(),
            ConfigError::NotAStringArray(p) => {
                let mut out = p.clone();
                out.append(" must be a list of strings");
                out
            },
        }
    }
}

} // verus!

