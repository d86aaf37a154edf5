//! Configuration resolution: an ordered list of optional sources is merged
//! into one immutable view with last-write-wins per recognized key, and
//! environment variables under the `BALDR_` prefix override every
//! file-sourced value. When an override file is given it is the only file
//! read, without merging.
//!
//! Parsing of the file formats is done by the `config` crate behind
//! trusted wrappers; the layering, the precedence and the getters are
//! verified here. The view holds the recognized keys (`compiler.cc`,
//! `compiler.cxx`, `cmake.definitions`, `debugger` and the `docker` table);
//! other keys are never consulted. An environment variable's name, the
//! prefix stripped and the rest lowercased, addresses a key: taken whole
//! it sets or shadows a recognized entry, and a name with dots addresses
//! a nested key the same way the sources' dotted paths do. A name that is
//! not a well-formed dotted path of plain identifiers is inert — it lands
//! on an unrecognized literal key that nothing reads; the path grammar's
//! subscript form is treated as inert too, which is not modeled exactly.

use vstd::prelude::*;

use crate::strutil::clone_strings;
use crate::strutil::eq_str;
use crate::strutil::has_prefix;
use crate::strutil::has_suffix;
use crate::strutil::lower_of;
use crate::strutil::lowercase;
use crate::strutil::skip_chars;
use crate::strutil::spec_path_join;
use crate::strutil::starts_with;
use crate::strutil::views;

verus! {

/// The file formats a configuration file may use, recognized by extension.
#[derive(Clone, Copy, Debug, PartialEq, Eq, Structural)]
pub enum FileKind {
    Toml,
    Json,
    Yaml,
    Ini,
    Ron,
    Json5,
}

/// What became of one configuration source when it was looked for.
pub enum SourceState {
    /// The file exists and could be read; its raw text.
    Found(String),
    /// The file does not exist.
    Missing,
    /// The file exists but could not be read; the cause.
    Unreadable(String),
}

/// One configuration source: its path and what was read from it.
pub struct ConfigSource {
    pub path: String,
    pub state: SourceState,
}

/// Why configuration resolution failed: a source that could not be loaded,
/// or one whose text could not be parsed. Each carries the path and the
/// underlying cause.
#[derive(Debug)]
pub enum ConfigError {
    Load(String, String),
    Parse(String, String),
}

/// The resolved configuration view: every recognized key, each optional.
/// Absence of a key is never an error; it degrades to an unset value.
pub struct ConfigView {
    pub compiler_cc: Option<String>,
    pub compiler_cxx: Option<String>,
    pub cmake_definitions: Option<Vec<String>>,
    pub debugger: Option<String>,
    pub docker_present: bool,
    pub docker_name: Option<String>,
    pub docker_image: Option<String>,
    pub docker_env: Option<Vec<String>>,
    pub docker_remove: Option<bool>,
    pub docker_stdout: Option<bool>,
    pub docker_stderr: Option<bool>,
}

/// The `docker` sub-table as one value object.
pub struct DockerConfig {
    pub name: Option<String>,
    pub image: Option<String>,
    pub env: Vec<String>,
    pub remove: bool,
    pub stdout: bool,
    pub stderr: bool,
}

/// The ghost content of a view: every recognized key at the level of
/// character sequences. The contracts of this module pin results down at
/// this level.
pub struct ConfigSnapshot {
    pub compiler_cc: Option<Seq<char>>,
    pub compiler_cxx: Option<Seq<char>>,
    pub cmake_definitions: Option<Seq<Seq<char>>>,
    pub debugger: Option<Seq<char>>,
    pub docker_present: bool,
    pub docker_name: Option<Seq<char>>,
    pub docker_image: Option<Seq<char>>,
    pub docker_env: Option<Seq<Seq<char>>>,
    pub docker_remove: Option<bool>,
    pub docker_stdout: Option<bool>,
    pub docker_stderr: Option<bool>,
}

impl View for ConfigView {
    type V = ConfigSnapshot;

    open spec fn view(&self) -> ConfigSnapshot {
        ConfigSnapshot {
            compiler_cc: opt_view(self.compiler_cc),
            compiler_cxx: opt_view(self.compiler_cxx),
            cmake_definitions: opt_views(self.cmake_definitions),
            debugger: opt_view(self.debugger),
            docker_present: self.docker_present,
            docker_name: opt_view(self.docker_name),
            docker_image: opt_view(self.docker_image),
            docker_env: opt_views(self.docker_env),
            docker_remove: self.docker_remove,
            docker_stdout: self.docker_stdout,
            docker_stderr: self.docker_stderr,
        }
    }
}

/// The snapshot with every key unset.
pub open spec fn spec_empty_snap() -> ConfigSnapshot {
    ConfigSnapshot {
        compiler_cc: None,
        compiler_cxx: None,
        cmake_definitions: None,
        debugger: None,
        docker_present: false,
        docker_name: None,
        docker_image: None,
        docker_env: None,
        docker_remove: None,
        docker_stdout: None,
        docker_stderr: None,
    }
}

#[verifier::external_type_specification]
#[verifier::external_body]
pub struct ExConfig(config::Config);

/// What `config::Config::get_string` returns at a dotted key.
pub uninterp spec fn string_at(c: config::Config, key: Seq<char>) -> Option<Seq<char>>;

/// What `config::Config::get_bool` returns at a dotted key.
pub uninterp spec fn bool_at(c: config::Config, key: Seq<char>) -> Option<bool>;

/// What `config::Config::get_array` returns at a dotted key, each element
/// coerced to a string and elements that cannot be dropped.
pub uninterp spec fn strings_at(c: config::Config, key: Seq<char>) -> Option<Seq<Seq<char>>>;

/// Whether `config::Config::get_table` succeeds at a dotted key.
pub uninterp spec fn has_table_at(c: config::Config, key: Seq<char>) -> bool;

pub open spec fn opt_view(o: Option<String>) -> Option<Seq<char>> {
    match o {
        Some(s) => Some(s@),
        None => None,
    }
}

pub open spec fn opt_views(o: Option<Vec<String>>) -> Option<Seq<Seq<char>>> {
    match o {
        Some(v) => Some(views(v@)),
        None => None,
    }
}

/// Relies on `config::Config::get_string`: the value at the key, coerced
/// to a string; a function of the configuration value and the key alone.
#[verifier::external_body]
fn config_string(c: &config::Config, key: &str) -> (r: Option<String>)
    ensures
        opt_view(r) == string_at(*c, key@),
{
    c.get_string(key).ok()
}

/// Relies on `config::Config::get_bool`: the value at the key, coerced to
/// a boolean; a function of the configuration value and the key alone.
#[verifier::external_body]
fn config_bool(c: &config::Config, key: &str) -> (r: Option<bool>)
    ensures
        r == bool_at(*c, key@),
{
    c.get_bool(key).ok()
}

/// Relies on `config::Config::get_array` and `config::Value::into_string`:
/// the array at the key with each element coerced to a string; a function
/// of the configuration value and the key alone.
#[verifier::external_body]
fn config_strings(c: &config::Config, key: &str) -> (r: Option<Vec<String>>)
    ensures
        opt_views(r) == strings_at(*c, key@),
{
    match c.get_array(key) {
        Ok(items) => Some(items.into_iter().filter_map(|x| x.into_string().ok()).collect()),
        Err(_) => None,
    }
}

/// Relies on `config::Config::get_table`: whether a table sits at the key;
/// a function of the configuration value and the key alone.
#[verifier::external_body]
fn config_has_table(c: &config::Config, key: &str) -> (r: bool)
    ensures
        r == has_table_at(*c, key@),
{
    c.get_table(key).is_ok()
}

/// Whether a configuration text parses in a format.
pub uninterp spec fn parse_ok(text: Seq<char>, kind: FileKind) -> bool;

/// What a configuration text in a format parses to, at the recognized
/// keys.
pub uninterp spec fn parsed_view(text: Seq<char>, kind: FileKind) -> ConfigSnapshot;

/// Relies on `config::File::from_str` and `ConfigBuilder::build` to parse
/// one configuration text in the given format; on failure, the parser's
/// error message. Parsing is a function of the text and the format alone:
/// whether it succeeds, and what the parsed configuration then holds at
/// every recognized key. The second rests on the crate's order-preserving
/// backing map (its `preserve_order` feature, which this library turns
/// on): the parsed keys are merged into the cache in document order, so
/// even a text whose raw keys collide at a leaf resolves the same way on
/// every call.
#[verifier::external_body]
fn parse_config_text(text: &str, kind: &FileKind) -> (r: Result<config::Config, String>)
    ensures
        r is Ok <==> parse_ok(text@, *kind),
        r matches Ok(c) ==> extracted_snap(c, parsed_view(text@, *kind)),
{
    let fmt = match kind {
        FileKind::Toml => config::FileFormat::Toml,
        FileKind::Json => config::FileFormat::Json,
        FileKind::Yaml => config::FileFormat::Yaml,
        FileKind::Ini => config::FileFormat::Ini,
        FileKind::Ron => config::FileFormat::Ron,
        FileKind::Json5 => config::FileFormat::Json5,
    };
    match config::Config::builder().add_source(config::File::from_str(text, fmt)).build() {
        Ok(c) => Ok(c),
        Err(e) => Err(e.to_string()),
    }
}

/// `s` is exactly what the parsed configuration `c` holds at each
/// recognized key.
pub open spec fn extracted_snap(c: config::Config, s: ConfigSnapshot) -> bool {
    &&& s.compiler_cc == string_at(c, "compiler.cc"@)
    &&& s.compiler_cxx == string_at(c, "compiler.cxx"@)
    &&& s.cmake_definitions == strings_at(c, "cmake.definitions"@)
    &&& s.debugger == string_at(c, "debugger"@)
    &&& s.docker_present == has_table_at(c, "docker"@)
    &&& s.docker_name == string_at(c, "docker.name"@)
    &&& s.docker_image == string_at(c, "docker.image"@)
    &&& s.docker_env == strings_at(c, "docker.env"@)
    &&& s.docker_remove == bool_at(c, "docker.remove"@)
    &&& s.docker_stdout == bool_at(c, "docker.stdout"@)
    &&& s.docker_stderr == bool_at(c, "docker.stderr"@)
}

/// `v` holds exactly what the parsed configuration `c` holds at each
/// recognized key.
pub open spec fn extracted(c: config::Config, v: ConfigView) -> bool {
    extracted_snap(c, v@)
}

/// Read every recognized key out of one parsed configuration.
fn extract_view(c: &config::Config) -> (v: ConfigView)
    ensures
        extracted(*c, v),
{
    ConfigView {
        compiler_cc: config_string(c, "compiler.cc"),
        compiler_cxx: config_string(c, "compiler.cxx"),
        cmake_definitions: config_strings(c, "cmake.definitions"),
        debugger: config_string(c, "debugger"),
        docker_present: config_has_table(c, "docker"),
        docker_name: config_string(c, "docker.name"),
        docker_image: config_string(c, "docker.image"),
        docker_env: config_strings(c, "docker.env"),
        docker_remove: config_bool(c, "docker.remove"),
        docker_stdout: config_bool(c, "docker.stdout"),
        docker_stderr: config_bool(c, "docker.stderr"),
    }
}

/// The format of a configuration file, detected from its extension.
pub open spec fn spec_detect(p: Seq<char>) -> Option<FileKind> {
    if has_suffix(p, ".toml"@) {
        Some(FileKind::Toml)
    } else if has_suffix(p, ".json5"@) {
        Some(FileKind::Json5)
    } else if has_suffix(p, ".json"@) {
        Some(FileKind::Json)
    } else if has_suffix(p, ".yaml"@) || has_suffix(p, ".yml"@) {
        Some(FileKind::Yaml)
    } else if has_suffix(p, ".ini"@) {
        Some(FileKind::Ini)
    } else if has_suffix(p, ".ron"@) {
        Some(FileKind::Ron)
    } else {
        None
    }
}

pub fn detect_format(path: &str) -> (r: Option<FileKind>)
    ensures
        r == spec_detect(path@),
{
    if crate::strutil::ends_with(path, ".toml") {
        Some(FileKind::Toml)
    } else if crate::strutil::ends_with(path, ".json5") {
        Some(FileKind::Json5)
    } else if crate::strutil::ends_with(path, ".json") {
        Some(FileKind::Json)
    } else if crate::strutil::ends_with(path, ".yaml") || crate::strutil::ends_with(path, ".yml") {
        Some(FileKind::Yaml)
    } else if crate::strutil::ends_with(path, ".ini") {
        Some(FileKind::Ini)
    } else if crate::strutil::ends_with(path, ".ron") {
        Some(FileKind::Ron)
    } else {
        None
    }
}

/// The view with every key unset.
pub open spec fn spec_empty_view() -> ConfigView {
    ConfigView {
        compiler_cc: None,
        compiler_cxx: None,
        cmake_definitions: None,
        debugger: None,
        docker_present: false,
        docker_name: None,
        docker_image: None,
        docker_env: None,
        docker_remove: None,
        docker_stdout: None,
        docker_stderr: None,
    }
}

pub fn empty_view() -> (r: ConfigView)
    ensures
        r == spec_empty_view(),
{
    ConfigView {
        compiler_cc: None,
        compiler_cxx: None,
        cmake_definitions: None,
        debugger: None,
        docker_present: false,
        docker_name: None,
        docker_image: None,
        docker_env: None,
        docker_remove: None,
        docker_stdout: None,
        docker_stderr: None,
    }
}

pub open spec fn or_opt<A>(hi: Option<A>, lo: Option<A>) -> Option<A> {
    if hi is Some {
        hi
    } else {
        lo
    }
}

/// Two views merged: for every recognized key the later source wins when
/// it sets the key, and the earlier value is kept when it does not.
pub open spec fn spec_merge(lo: ConfigView, hi: ConfigView) -> ConfigView {
    ConfigView {
        compiler_cc: or_opt(hi.compiler_cc, lo.compiler_cc),
        compiler_cxx: or_opt(hi.compiler_cxx, lo.compiler_cxx),
        cmake_definitions: or_opt(hi.cmake_definitions, lo.cmake_definitions),
        debugger: or_opt(hi.debugger, lo.debugger),
        docker_present: lo.docker_present || hi.docker_present,
        docker_name: or_opt(hi.docker_name, lo.docker_name),
        docker_image: or_opt(hi.docker_image, lo.docker_image),
        docker_env: or_opt(hi.docker_env, lo.docker_env),
        docker_remove: or_opt(hi.docker_remove, lo.docker_remove),
        docker_stdout: or_opt(hi.docker_stdout, lo.docker_stdout),
        docker_stderr: or_opt(hi.docker_stderr, lo.docker_stderr),
    }
}

fn or_opt_exec<A>(hi: Option<A>, lo: Option<A>) -> (r: Option<A>)
    ensures
        r == or_opt(hi, lo),
{
    match hi {
        Some(x) => Some(x),
        None => lo,
    }
}

/// Merge a later source over an earlier one.
pub fn merge(lo: ConfigView, hi: ConfigView) -> (r: ConfigView)
    ensures
        r == spec_merge(lo, hi),
{
    ConfigView {
        compiler_cc: or_opt_exec(hi.compiler_cc, lo.compiler_cc),
        compiler_cxx: or_opt_exec(hi.compiler_cxx, lo.compiler_cxx),
        cmake_definitions: or_opt_exec(hi.cmake_definitions, lo.cmake_definitions),
        debugger: or_opt_exec(hi.debugger, lo.debugger),
        docker_present: lo.docker_present || hi.docker_present,
        docker_name: or_opt_exec(hi.docker_name, lo.docker_name),
        docker_image: or_opt_exec(hi.docker_image, lo.docker_image),
        docker_env: or_opt_exec(hi.docker_env, lo.docker_env),
        docker_remove: or_opt_exec(hi.docker_remove, lo.docker_remove),
        docker_stdout: or_opt_exec(hi.docker_stdout, lo.docker_stdout),
        docker_stderr: or_opt_exec(hi.docker_stderr, lo.docker_stderr),
    }
}

/// Two snapshots merged: for every recognized key the later source wins
/// when it sets the key, and the earlier value is kept when it does not.
pub open spec fn spec_merge_snap(lo: ConfigSnapshot, hi: ConfigSnapshot) -> ConfigSnapshot {
    ConfigSnapshot {
        compiler_cc: or_opt(hi.compiler_cc, lo.compiler_cc),
        compiler_cxx: or_opt(hi.compiler_cxx, lo.compiler_cxx),
        cmake_definitions: or_opt(hi.cmake_definitions, lo.cmake_definitions),
        debugger: or_opt(hi.debugger, lo.debugger),
        docker_present: lo.docker_present || hi.docker_present,
        docker_name: or_opt(hi.docker_name, lo.docker_name),
        docker_image: or_opt(hi.docker_image, lo.docker_image),
        docker_env: or_opt(hi.docker_env, lo.docker_env),
        docker_remove: or_opt(hi.docker_remove, lo.docker_remove),
        docker_stdout: or_opt(hi.docker_stdout, lo.docker_stdout),
        docker_stderr: or_opt(hi.docker_stderr, lo.docker_stderr),
    }
}

/// Merging views and taking snapshots commute.
pub proof fn lemma_merge_snap(lo: ConfigView, hi: ConfigView)
    ensures
        spec_merge(lo, hi)@ == spec_merge_snap(lo@, hi@),
{
}

/// The per-source snapshots folded left to right, later sources
/// overriding earlier ones.
pub open spec fn spec_fold_merge_snap(vs: Seq<ConfigSnapshot>) -> ConfigSnapshot
    decreases vs.len(),
{
    if vs.len() == 0 {
        spec_empty_snap()
    } else {
        spec_merge_snap(spec_fold_merge_snap(vs.drop_last()), vs.last())
    }
}

/// The normalized environment entry of one variable: the whole name is
/// lowercased, and only names under the `baldr_` prefix yield an entry,
/// keyed by what follows the prefix.
pub open spec fn env_entry(name: String, value: String) -> Seq<(Seq<char>, Seq<char>)> {
    if has_prefix(lower_of(name@), "baldr_"@) {
        seq![
            (
                lower_of(name@).subrange("baldr_"@.len() as int, lower_of(name@).len() as int),
                value@,
            ),
        ]
    } else {
        Seq::empty()
    }
}

/// The normalized entries of the whole environment, in order.
pub open spec fn spec_env_pairs(env: Seq<(String, String)>) -> Seq<(Seq<char>, Seq<char>)>
    decreases env.len(),
{
    if env.len() == 0 {
        Seq::empty()
    } else {
        spec_env_pairs(env.drop_last()) + env_entry(env.last().0, env.last().1)
    }
}

/// A character a key-path identifier may use.
pub open spec fn is_key_char(c: char) -> bool {
    ('a' <= c && c <= 'z') || ('A' <= c && c <= 'Z') || ('0' <= c && c <= '9') || c == '_' || c
        == '-'
}

/// A well-formed dotted key path: non-empty identifier segments separated
/// by single dots. Only such names address keys; any other name lands on
/// an unrecognized literal key that nothing reads.
pub open spec fn valid_key_path(k: Seq<char>) -> bool {
    &&& k.len() > 0
    &&& k[0] != '.'
    &&& k[k.len() - 1] != '.'
    &&& forall|i: int| #![trigger k[i]] 0 <= i < k.len() ==> (k[i] == '.' || is_key_char(k[i]))
    &&& forall|i: int| #![trigger k[i]] 0 <= i < k.len() - 1 ==> !(k[i] == '.' && k[i + 1] == '.')
}

fn is_key_char_exec(c: char) -> (r: bool)
    ensures
        r == is_key_char(c),
{
    ('a' <= c && c <= 'z') || ('A' <= c && c <= 'Z') || ('0' <= c && c <= '9') || c == '_' || c
        == '-'
}

fn key_path_ok(k: &str) -> (r: bool)
    ensures
        r == valid_key_path(k@),
{
    let n = k.unicode_len();
    if n == 0 {
        return false;
    }
    if k.get_char(0) == '.' || k.get_char(n - 1) == '.' {
        return false;
    }
    let mut i: usize = 0;
    let mut prev_dot = false;
    while i < n
        invariant
            n == k@.len(),
            0 < n,
            i <= n,
            k@[0] != '.',
            k@[n - 1] != '.',
            forall|j: int| #![trigger k@[j]] 0 <= j < i ==> (k@[j] == '.' || is_key_char(k@[j])),
            forall|j: int|
                #![trigger k@[j]]
                0 <= j < i - 1 ==> !(k@[j] == '.' && k@[j + 1] == '.'),
            prev_dot == (i > 0 && k@[i - 1] == '.'),
        decreases n - i,
    {
        let c = k.get_char(i);
        if c == '.' {
            if prev_dot {
                proof {
                    assert(k@[i - 1] == '.' && k@[i as int] == '.');
                }
                return false;
            }
            prev_dot = true;
        } else {
            if !is_key_char_exec(c) {
                proof {
                    assert(!(k@[i as int] == '.' || is_key_char(k@[i as int])));
                }
                return false;
            }
            prev_dot = false;
        }
        i += 1;
    }
    true
}

/// How the boolean keys read a string value set by the environment: the
/// lowercased text must be one of the fixed true/false words of the
/// underlying boolean coercion; anything else leaves the key unset.
pub open spec fn spec_bool_coerce(v: Seq<char>) -> Option<bool> {
    if lower_of(v) == "1"@ || lower_of(v) == "true"@ || lower_of(v) == "on"@ || lower_of(v)
        == "yes"@ {
        Some(true)
    } else if lower_of(v) == "0"@ || lower_of(v) == "false"@ || lower_of(v) == "off"@ || lower_of(
        v,
    ) == "no"@ {
        Some(false)
    } else {
        None
    }
}

fn bool_coerce(v: &String) -> (r: Option<bool>)
    ensures
        r == spec_bool_coerce(v@),
{
    let l = lowercase(v.as_str());
    if eq_str(l.as_str(), "1") || eq_str(l.as_str(), "true") || eq_str(l.as_str(), "on") || eq_str(
        l.as_str(),
        "yes",
    ) {
        Some(true)
    } else if eq_str(l.as_str(), "0") || eq_str(l.as_str(), "false") || eq_str(l.as_str(), "off")
        || eq_str(l.as_str(), "no") {
        Some(false)
    } else {
        None
    }
}

/// What one normalized environment entry does to each recognized key:
/// `None` leaves the key alone, `Some(d)` drives it to `d`.
pub struct EnvEffect {
    pub compiler_cc: Option<Option<Seq<char>>>,
    pub compiler_cxx: Option<Option<Seq<char>>>,
    pub cmake_definitions: Option<Option<Seq<Seq<char>>>>,
    pub debugger: Option<Option<Seq<char>>>,
    pub docker_present: Option<bool>,
    pub docker_name: Option<Option<Seq<char>>>,
    pub docker_image: Option<Option<Seq<char>>>,
    pub docker_env: Option<Option<Seq<Seq<char>>>>,
    pub docker_remove: Option<Option<bool>>,
    pub docker_stdout: Option<Option<bool>>,
    pub docker_stderr: Option<Option<bool>>,
}

/// The entry that touches nothing.
pub open spec fn no_effect() -> EnvEffect {
    EnvEffect {
        compiler_cc: None,
        compiler_cxx: None,
        cmake_definitions: None,
        debugger: None,
        docker_present: None,
        docker_name: None,
        docker_image: None,
        docker_env: None,
        docker_remove: None,
        docker_stdout: None,
        docker_stderr: None,
    }
}

/// The effect of one normalized environment entry. A well-formed name
/// taken whole addresses a key; one with dots addresses a nested key, as
/// the dotted-path form the sources use. Setting a recognized string key
/// replaces it (the boolean keys through the word coercion); setting a
/// recognized table or list key, or a path below a recognized leaf,
/// shadows the file-sourced value there; any path under `docker` brings
/// the table into existence. A name that is not a well-formed dotted
/// path is inert: it lands on an unrecognized literal key that nothing
/// reads. (The path grammar's subscript form is treated as inert too,
/// which is not modeled exactly.)
pub open spec fn env_effect(k: Seq<char>, v: Seq<char>) -> EnvEffect {
    if !valid_key_path(k) {
        no_effect()
    } else if k == "debugger"@ {
        EnvEffect { debugger: Some(Some(v)), ..no_effect() }
    } else if has_prefix(k, "debugger."@) {
        EnvEffect { debugger: Some(None), ..no_effect() }
    } else if k == "compiler"@ {
        EnvEffect { compiler_cc: Some(None), compiler_cxx: Some(None), ..no_effect() }
    } else if k == "compiler.cc"@ {
        EnvEffect { compiler_cc: Some(Some(v)), ..no_effect() }
    } else if has_prefix(k, "compiler.cc."@) {
        EnvEffect { compiler_cc: Some(None), ..no_effect() }
    } else if k == "compiler.cxx"@ {
        EnvEffect { compiler_cxx: Some(Some(v)), ..no_effect() }
    } else if has_prefix(k, "compiler.cxx."@) {
        EnvEffect { compiler_cxx: Some(None), ..no_effect() }
    } else if k == "cmake"@ || k == "cmake.definitions"@ || has_prefix(k, "cmake.definitions."@) {
        EnvEffect { cmake_definitions: Some(None), ..no_effect() }
    } else if k == "docker"@ {
        EnvEffect {
            docker_present: Some(false),
            docker_name: Some(None),
            docker_image: Some(None),
            docker_env: Some(None),
            docker_remove: Some(None),
            docker_stdout: Some(None),
            docker_stderr: Some(None),
            ..no_effect()
        }
    } else if k == "docker.name"@ {
        EnvEffect { docker_present: Some(true), docker_name: Some(Some(v)), ..no_effect() }
    } else if has_prefix(k, "docker.name."@) {
        EnvEffect { docker_present: Some(true), docker_name: Some(None), ..no_effect() }
    } else if k == "docker.image"@ {
        EnvEffect { docker_present: Some(true), docker_image: Some(Some(v)), ..no_effect() }
    } else if has_prefix(k, "docker.image."@) {
        EnvEffect { docker_present: Some(true), docker_image: Some(None), ..no_effect() }
    } else if k == "docker.env"@ || has_prefix(k, "docker.env."@) {
        EnvEffect { docker_present: Some(true), docker_env: Some(None), ..no_effect() }
    } else if k == "docker.remove"@ {
        EnvEffect {
            docker_present: Some(true),
            docker_remove: Some(spec_bool_coerce(v)),
            ..no_effect()
        }
    } else if has_prefix(k, "docker.remove."@) {
        EnvEffect { docker_present: Some(true), docker_remove: Some(None), ..no_effect() }
    } else if k == "docker.stdout"@ {
        EnvEffect {
            docker_present: Some(true),
            docker_stdout: Some(spec_bool_coerce(v)),
            ..no_effect()
        }
    } else if has_prefix(k, "docker.stdout."@) {
        EnvEffect { docker_present: Some(true), docker_stdout: Some(None), ..no_effect() }
    } else if k == "docker.stderr"@ {
        EnvEffect {
            docker_present: Some(true),
            docker_stderr: Some(spec_bool_coerce(v)),
            ..no_effect()
        }
    } else if has_prefix(k, "docker.stderr."@) {
        EnvEffect { docker_present: Some(true), docker_stderr: Some(None), ..no_effect() }
    } else if has_prefix(k, "docker."@) {
        EnvEffect { docker_present: Some(true), ..no_effect() }
    } else {
        no_effect()
    }
}

/// An effect applied to a snapshot, key by key.
pub open spec fn apply_effect(s: ConfigSnapshot, e: EnvEffect) -> ConfigSnapshot {
    ConfigSnapshot {
        compiler_cc: match e.compiler_cc {
            Some(d) => d,
            None => s.compiler_cc,
        },
        compiler_cxx: match e.compiler_cxx {
            Some(d) => d,
            None => s.compiler_cxx,
        },
        cmake_definitions: match e.cmake_definitions {
            Some(d) => d,
            None => s.cmake_definitions,
        },
        debugger: match e.debugger {
            Some(d) => d,
            None => s.debugger,
        },
        docker_present: match e.docker_present {
            Some(b) => b,
            None => s.docker_present,
        },
        docker_name: match e.docker_name {
            Some(d) => d,
            None => s.docker_name,
        },
        docker_image: match e.docker_image {
            Some(d) => d,
            None => s.docker_image,
        },
        docker_env: match e.docker_env {
            Some(d) => d,
            None => s.docker_env,
        },
        docker_remove: match e.docker_remove {
            Some(d) => d,
            None => s.docker_remove,
        },
        docker_stdout: match e.docker_stdout {
            Some(d) => d,
            None => s.docker_stdout,
        },
        docker_stderr: match e.docker_stderr {
            Some(d) => d,
            None => s.docker_stderr,
        },
    }
}

/// One normalized environment entry applied to a snapshot.
pub open spec fn apply_env_one_snap(s: ConfigSnapshot, k: Seq<char>, v: Seq<char>) -> ConfigSnapshot {
    apply_effect(s, env_effect(k, v))
}

/// Every normalized environment entry applied in order, after every
/// file-sourced value: the environment always has the last word.
pub open spec fn spec_overlay_snap(s: ConfigSnapshot, pairs: Seq<(Seq<char>, Seq<char>)>) -> ConfigSnapshot
    decreases pairs.len(),
{
    if pairs.len() == 0 {
        s
    } else {
        apply_env_one_snap(spec_overlay_snap(s, pairs.drop_last()), pairs.last().0, pairs.last().1)
    }
}

/// The whole resolution: the override file's snapshot when an override
/// was given, else the merged layered snapshots; then the environment
/// overlay.
pub open spec fn spec_resolve_snap(
    ov: Option<ConfigSnapshot>,
    files: Seq<ConfigSnapshot>,
    pairs: Seq<(Seq<char>, Seq<char>)>,
) -> ConfigSnapshot {
    match ov {
        Some(o) => spec_overlay_snap(o, pairs),
        None => spec_overlay_snap(spec_fold_merge_snap(files), pairs),
    }
}

/// Apply the environment overlay to a merged view.
fn apply_env(v: ConfigView, env_vars: &Vec<(String, String)>) -> (r: ConfigView)
    ensures
        r@ == spec_overlay_snap(v@, spec_env_pairs(env_vars@)),
{
    let mut acc = v;
    let ghost s0 = v@;
    let mut i: usize = 0;
    proof {
        assert(env_vars@.take(0) =~= Seq::<(String, String)>::empty());
    }
    while i < env_vars.len()
        invariant
            i <= env_vars@.len(),
            acc@ == spec_overlay_snap(s0, spec_env_pairs(env_vars@.take(i as int))),
        decreases env_vars@.len() - i,
    {
        let ghost done = spec_env_pairs(env_vars@.take(i as int));
        let ghost prev = acc@;
        let name = &env_vars[i].0;
        let value = &env_vars[i].1;
        let ln = lowercase(name.as_str());
        if starts_with(ln.as_str(), "baldr_") {
            let plen = "baldr_".unicode_len();
            let key = skip_chars(ln.as_str(), plen);
            if !key_path_ok(key.as_str()) {
                // an ill-formed name addresses nothing the view reads
            } else if eq_str(key.as_str(), "debugger") {
                acc.debugger = Some(value.clone());
            } else if starts_with(key.as_str(), "debugger.") {
                acc.debugger = None;
            } else if eq_str(key.as_str(), "compiler") {
                acc.compiler_cc = None;
                acc.compiler_cxx = None;
            } else if eq_str(key.as_str(), "compiler.cc") {
                acc.compiler_cc = Some(value.clone());
            } else if starts_with(key.as_str(), "compiler.cc.") {
                acc.compiler_cc = None;
            } else if eq_str(key.as_str(), "compiler.cxx") {
                acc.compiler_cxx = Some(value.clone());
            } else if starts_with(key.as_str(), "compiler.cxx.") {
                acc.compiler_cxx = None;
            } else if eq_str(key.as_str(), "cmake") || eq_str(key.as_str(), "cmake.definitions")
                || starts_with(key.as_str(), "cmake.definitions.") {
                acc.cmake_definitions = None;
            } else if eq_str(key.as_str(), "docker") {
                acc.docker_present = false;
                acc.docker_name = None;
                acc.docker_image = None;
                acc.docker_env = None;
                acc.docker_remove = None;
                acc.docker_stdout = None;
                acc.docker_stderr = None;
            } else if eq_str(key.as_str(), "docker.name") {
                acc.docker_present = true;
                acc.docker_name = Some(value.clone());
            } else if starts_with(key.as_str(), "docker.name.") {
                acc.docker_present = true;
                acc.docker_name = None;
            } else if eq_str(key.as_str(), "docker.image") {
                acc.docker_present = true;
                acc.docker_image = Some(value.clone());
            } else if starts_with(key.as_str(), "docker.image.") {
                acc.docker_present = true;
                acc.docker_image = None;
            } else if eq_str(key.as_str(), "docker.env") || starts_with(
                key.as_str(),
                "docker.env.",
            ) {
                acc.docker_present = true;
                acc.docker_env = None;
            } else if eq_str(key.as_str(), "docker.remove") {
                acc.docker_present = true;
                acc.docker_remove = bool_coerce(value);
            } else if starts_with(key.as_str(), "docker.remove.") {
                acc.docker_present = true;
                acc.docker_remove = None;
            } else if eq_str(key.as_str(), "docker.stdout") {
                acc.docker_present = true;
                acc.docker_stdout = bool_coerce(value);
            } else if starts_with(key.as_str(), "docker.stdout.") {
                acc.docker_present = true;
                acc.docker_stdout = None;
            } else if eq_str(key.as_str(), "docker.stderr") {
                acc.docker_present = true;
                acc.docker_stderr = bool_coerce(value);
            } else if starts_with(key.as_str(), "docker.stderr.") {
                acc.docker_present = true;
                acc.docker_stderr = None;
            } else if starts_with(key.as_str(), "docker.") {
                acc.docker_present = true;
            }
            proof {
                let entry = env_entry(env_vars@[i as int].0, env_vars@[i as int].1);
                assert(entry =~= seq![(key@, env_vars@[i as int].1@)]);
                assert(acc@ == apply_env_one_snap(prev, key@, env_vars@[i as int].1@));
                lemma_overlay_snoc(s0, done, key@, env_vars@[i as int].1@);
                assert(env_vars@.take(i + 1int).drop_last() =~= env_vars@.take(i as int));
                assert(env_vars@.take(i + 1int).last() == env_vars@[i as int]);
                assert(spec_env_pairs(env_vars@.take(i + 1int)) =~= done + entry);
            }
        } else {
            proof {
                let entry = env_entry(env_vars@[i as int].0, env_vars@[i as int].1);
                assert(entry =~= Seq::<(Seq<char>, Seq<char>)>::empty());
                assert(env_vars@.take(i + 1int).drop_last() =~= env_vars@.take(i as int));
                assert(env_vars@.take(i + 1int).last() == env_vars@[i as int]);
                assert(spec_env_pairs(env_vars@.take(i + 1int)) =~= done);
            }
        }
        i += 1;
    }
    proof {
        assert(env_vars@.take(env_vars@.len() as int) =~= env_vars@);
    }
    acc
}

/// The overlay of one more entry is that entry applied after the rest.
proof fn lemma_overlay_snoc(
    s: ConfigSnapshot,
    pairs: Seq<(Seq<char>, Seq<char>)>,
    key: Seq<char>,
    value: Seq<char>,
)
    ensures
        spec_overlay_snap(s, pairs + seq![(key, value)]) == apply_env_one_snap(
            spec_overlay_snap(s, pairs),
            key,
            value,
        ),
{
    let whole = pairs + seq![(key, value)];
    assert(whole.drop_last() =~= pairs);
    assert(whole.last() == (key, value));
}

/// A found file parses: its extension is recognized and its text parses
/// in that format.
pub open spec fn found_parses(path: Seq<char>, text: Seq<char>) -> bool {
    match spec_detect(path) {
        Some(k) => parse_ok(text, k),
        None => false,
    }
}

/// What a found file contributes to the resolution.
pub open spec fn spec_parsed_found(path: Seq<char>, text: Seq<char>) -> ConfigSnapshot {
    match spec_detect(path) {
        Some(k) => parsed_view(text, k),
        None => spec_empty_snap(),
    }
}

/// A layered source stands in the way of nothing: it is missing (and so
/// skipped), or it was read and parses.
pub open spec fn layered_ok(src: ConfigSource) -> bool {
    match src.state {
        SourceState::Found(text) => found_parses(src.path@, text@),
        SourceState::Missing => true,
        SourceState::Unreadable(_) => false,
    }
}

/// The contributions of the found layered sources, in order.
pub open spec fn spec_layer_views(sources: Seq<ConfigSource>) -> Seq<ConfigSnapshot>
    decreases sources.len(),
{
    if sources.len() == 0 {
        Seq::empty()
    } else {
        spec_layer_views(sources.drop_last()) + (match sources.last().state {
            SourceState::Found(text) => seq![spec_parsed_found(sources.last().path@, text@)],
            _ => Seq::empty(),
        })
    }
}

/// Parse one found source; a parse failure carries the source's path.
fn parse_found(path: &String, text: &String) -> (r: Result<ConfigView, ConfigError>)
    ensures
        r is Ok <==> found_parses(path@, text@),
        r matches Ok(v) ==> v@ == spec_parsed_found(path@, text@),
        r matches Err(e) ==> (e matches ConfigError::Parse(p, _) && p@ == path@),
{
    let kind = match detect_format(path.as_str()) {
        Some(k) => k,
        None => {
            return Err(
                ConfigError::Parse(
                    path.clone(),
                    "unrecognized configuration file extension".to_owned(),
                ),
            );
        },
    };
    match parse_config_text(text.as_str(), &kind) {
        Ok(c) => {
            let v = extract_view(&c);
            proof {
                assert(extracted_snap(c, v@) && extracted_snap(c, parsed_view(text@, kind)));
                assert(v@ == parsed_view(text@, kind));
            }
            Ok(v)
        },
        Err(cause) => Err(ConfigError::Parse(path.clone(), cause)),
    }
}

pub open spec fn load_error_for(r: Result<ConfigView, ConfigError>, path: Seq<char>) -> bool {
    match r {
        Err(ConfigError::Load(p, _)) => p@ == path,
        _ => false,
    }
}

pub open spec fn parse_error_for(r: Result<ConfigView, ConfigError>, path: Seq<char>) -> bool {
    match r {
        Err(ConfigError::Parse(p, _)) => p@ == path,
        _ => false,
    }
}

/// Resolve configuration from the given sources and environment.
///
/// With an override source, exactly that file is consulted: it must exist,
/// be readable and parse, and no layered source contributes anything. With
/// none, each layered source is optional — a missing file is skipped, an
/// unreadable or unparseable one is a hard error — and later sources
/// override earlier ones per key. Environment entries under the `BALDR_`
/// prefix are applied last and override every file-sourced value. The
/// result is pinned down: it is the environment overlay of the parsed
/// override file, or of the found layered sources' contributions merged
/// in order.
pub fn read_config(
    config_override: &Option<ConfigSource>,
    layered: &Vec<ConfigSource>,
    env_vars: &Vec<(String, String)>,
) -> (r: Result<ConfigView, ConfigError>)
    ensures
        match config_override {
            Some(src) => {
                &&& r is Ok <==> (match src.state {
                    SourceState::Found(text) => found_parses(src.path@, text@),
                    _ => false,
                })
                &&& (src.state is Missing || src.state is Unreadable) <==> load_error_for(
                    r,
                    src.path@,
                )
                &&& (r is Err && src.state is Found) ==> parse_error_for(r, src.path@)
                &&& r matches Ok(v) ==> (src.state matches SourceState::Found(text) && v@
                    == spec_overlay_snap(
                    spec_parsed_found(src.path@, text@),
                    spec_env_pairs(env_vars@),
                ))
            },
            None => {
                &&& r is Ok <==> (forall|i: int|
                    #![trigger layered@[i]]
                    0 <= i < layered@.len() ==> layered_ok(layered@[i]))
                &&& r matches Ok(v) ==> v@ == spec_overlay_snap(
                    spec_fold_merge_snap(spec_layer_views(layered@)),
                    spec_env_pairs(env_vars@),
                )
                &&& r matches Err(ConfigError::Load(p, _)) ==> exists|i: int|
                    #![trigger layered@[i]]
                    0 <= i < layered@.len() && layered@[i].path@ == p@ && layered@[i].state
                        is Unreadable
                &&& r matches Err(ConfigError::Parse(p, _)) ==> exists|i: int|
                    #![trigger layered@[i]]
                    0 <= i < layered@.len() && layered@[i].path@ == p@ && layered@[i].state
                        is Found
            },
        },
{
    match config_override {
        Some(src) => {
            match &src.state {
                SourceState::Found(text) => {
                    let v = match parse_found(&src.path, text) {
                        Ok(v) => v,
                        Err(e) => {
                            return Err(e);
                        },
                    };
                    let resolved = apply_env(v, env_vars);
                    Ok(resolved)
                },
                SourceState::Missing => Err(
                    ConfigError::Load(src.path.clone(), "configuration file not found".to_owned()),
                ),
                SourceState::Unreadable(cause) => Err(
                    ConfigError::Load(src.path.clone(), cause.clone()),
                ),
            }
        },
        None => {
            let mut acc = empty_view();
            let mut i: usize = 0;
            proof {
                assert(layered@.take(0) =~= Seq::<ConfigSource>::empty());
                assert(acc@ == spec_fold_merge_snap(spec_layer_views(layered@.take(0))));
            }
            while i < layered.len()
                invariant
                    config_override is None,
                    i <= layered@.len(),
                    forall|j: int| #![trigger layered@[j]] 0 <= j < i ==> layered_ok(layered@[j]),
                    acc@ == spec_fold_merge_snap(spec_layer_views(layered@.take(i as int))),
                decreases layered@.len() - i,
            {
                let src = &layered[i];
                match &src.state {
                    SourceState::Found(text) => {
                        let v = match parse_found(&src.path, text) {
                            Ok(v) => v,
                            Err(e) => {
                                proof {
                                    assert(!layered_ok(layered@[i as int]));
                                    assert(layered@[i as int].state is Found);
                                }
                                return Err(e);
                            },
                        };
                        let ghost pre = acc@;
                        proof {
                            lemma_merge_snap(acc, v);
                        }
                        acc = merge(acc, v);
                        proof {
                            let done = layered@.take(i as int);
                            let t1 = layered@.take(i + 1int);
                            let x = spec_parsed_found(layered@[i as int].path@, text@);
                            assert(t1.drop_last() =~= done);
                            assert(t1.last() == layered@[i as int]);
                            assert(spec_layer_views(t1) =~= spec_layer_views(done) + seq![x]);
                            assert((spec_layer_views(done) + seq![x]).drop_last()
                                =~= spec_layer_views(done));
                            assert(acc@ == spec_merge_snap(pre, x));
                            assert(layered_ok(layered@[i as int]));
                        }
                    },
                    SourceState::Missing => {
                        proof {
                            let done = layered@.take(i as int);
                            let t1 = layered@.take(i + 1int);
                            assert(t1.drop_last() =~= done);
                            assert(t1.last() == layered@[i as int]);
                            assert(spec_layer_views(t1) =~= spec_layer_views(done));
                        }
                    },
                    SourceState::Unreadable(cause) => {
                        proof {
                            assert(!layered_ok(layered@[i as int]));
                        }
                        return Err(ConfigError::Load(src.path.clone(), cause.clone()));
                    },
                }
                i += 1;
            }
            let resolved = apply_env(acc, env_vars);
            proof {
                assert(layered@.take(layered@.len() as int) =~= layered@);
            }
            Ok(resolved)
        },
    }
}

/// The configured C compiler, when one is set.
pub fn get_cc(cfg: &ConfigView) -> (r: Option<String>)
    ensures
        r == cfg.compiler_cc,
{
    match &cfg.compiler_cc {
        Some(s) => Some(s.clone()),
        None => None,
    }
}

/// The configured C++ compiler, when one is set.
pub fn get_cxx(cfg: &ConfigView) -> (r: Option<String>)
    ensures
        r == cfg.compiler_cxx,
{
    match &cfg.compiler_cxx {
        Some(s) => Some(s.clone()),
        None => None,
    }
}

/// The configured `cmake.definitions`, in their configured order; empty
/// when unset.
pub fn get_cmake_definitions(cfg: &ConfigView) -> (r: Vec<String>)
    ensures
        match cfg.cmake_definitions {
            Some(d) => r@ == d@,
            None => r@ == Seq::<String>::empty(),
        },
{
    match &cfg.cmake_definitions {
        Some(d) => clone_strings(d),
        None => Vec::new(),
    }
}

pub open spec fn or_false(o: Option<bool>) -> bool {
    match o {
        Some(b) => b,
        None => false,
    }
}

/// The whole `docker` sub-table, when the configuration has one.
pub fn get_docker_config(cfg: &ConfigView) -> (r: Option<DockerConfig>)
    ensures
        match r {
            Some(d) => {
                &&& cfg.docker_present
                &&& d.name == cfg.docker_name
                &&& d.image == cfg.docker_image
                &&& d.env@ == match cfg.docker_env {
                    Some(e) => e@,
                    None => Seq::<String>::empty(),
                }
                &&& d.remove == or_false(cfg.docker_remove)
                &&& d.stdout == or_false(cfg.docker_stdout)
                &&& d.stderr == or_false(cfg.docker_stderr)
            },
            None => !cfg.docker_present,
        },
{
    if cfg.docker_present {
        Some(
            DockerConfig {
                name: get_docker_name(cfg),
                image: get_docker_image(cfg),
                env: get_docker_env(cfg),
                remove: get_docker_remove(cfg),
                stdout: get_docker_stdout(cfg),
                stderr: get_docker_stderr(cfg),
            },
        )
    } else {
        None
    }
}

/// The configured container name, when one is set.
pub fn get_docker_name(cfg: &ConfigView) -> (r: Option<String>)
    ensures
        r == cfg.docker_name,
{
    match &cfg.docker_name {
        Some(s) => Some(s.clone()),
        None => None,
    }
}

/// The configured container image, when one is set.
pub fn get_docker_image(cfg: &ConfigView) -> (r: Option<String>)
    ensures
        r == cfg.docker_image,
{
    match &cfg.docker_image {
        Some(s) => Some(s.clone()),
        None => None,
    }
}

/// The configured container environment; empty when unset.
pub fn get_docker_env(cfg: &ConfigView) -> (r: Vec<String>)
    ensures
        match cfg.docker_env {
            Some(e) => r@ == e@,
            None => r@ == Seq::<String>::empty(),
        },
{
    match &cfg.docker_env {
        Some(e) => clone_strings(e),
        None => Vec::new(),
    }
}

/// Whether the container is removed when it exits; false when unset.
pub fn get_docker_remove(cfg: &ConfigView) -> (r: bool)
    ensures
        r == or_false(cfg.docker_remove),
{
    match cfg.docker_remove {
        Some(b) => b,
        None => false,
    }
}

/// Whether the container's stdout is attached; false when unset.
pub fn get_docker_stdout(cfg: &ConfigView) -> (r: bool)
    ensures
        r == or_false(cfg.docker_stdout),
{
    match cfg.docker_stdout {
        Some(b) => b,
        None => false,
    }
}

/// Whether the container's stderr is attached; false when unset.
pub fn get_docker_stderr(cfg: &ConfigView) -> (r: bool)
    ensures
        r == or_false(cfg.docker_stderr),
{
    match cfg.docker_stderr {
        Some(b) => b,
        None => false,
    }
}

/// The layered configuration base paths, earliest (lowest precedence)
/// first: a `.baldr` file under the user config-home directory, under the
/// home directory, and in the working directory.
pub open spec fn spec_base_paths(xdg: Option<Seq<char>>, home: Option<Seq<char>>) -> Seq<
    Seq<char>,
> {
    (match xdg {
        Some(x) => seq![spec_path_join(x, ".baldr"@)],
        None => Seq::empty(),
    }) + (match home {
        Some(h) => seq![spec_path_join(h, ".baldr"@)],
        None => Seq::empty(),
    }) + seq!["./.baldr"@]
}

/// The base paths where layered configuration files are looked for, in
/// precedence order (later overrides earlier). A directory that is not
/// known contributes no path.
pub fn config_base_paths(xdg_config_home: &Option<String>, home: &Option<String>) -> (r: Vec<
    String,
>)
    ensures
        views(r@) == spec_base_paths(opt_view(*xdg_config_home), opt_view(*home)),
{
    broadcast use crate::strutil::views_push;

    let mut r: Vec<String> = Vec::new();
    match xdg_config_home {
        Some(x) => {
            r.push(crate::strutil::path_join(x.as_str(), ".baldr"));
        },
        None => {},
    }
    match home {
        Some(h) => {
            r.push(crate::strutil::path_join(h.as_str(), ".baldr"));
        },
        None => {},
    }
    r.push("./.baldr".to_owned());
    proof {
        assert(views(r@) =~= spec_base_paths(opt_view(*xdg_config_home), opt_view(*home)));
    }
    r
}

/// The extensions tried, in order, for a configuration base path that
/// carries none itself.
pub fn config_extensions() -> (r: Vec<String>)
    ensures
        views(r@) == seq!["toml"@, "json"@, "yaml"@, "yml"@, "ini"@, "ron"@, "json5"@],
{
    broadcast use crate::strutil::views_push;

    let mut r: Vec<String> = Vec::new();
    r.push("toml".to_owned());
    r.push("json".to_owned());
    r.push("yaml".to_owned());
    r.push("yml".to_owned());
    r.push("ini".to_owned());
    r.push("ron".to_owned());
    r.push("json5".to_owned());
    proof {
        assert(views(r@) =~= seq!["toml"@, "json"@, "yaml"@, "yml"@, "ini"@, "ron"@, "json5"@]);
    }
    r
}

/// The last effect the environment has on the `debugger` key, if any.
pub open spec fn last_debugger_effect(pairs: Seq<(Seq<char>, Seq<char>)>) -> Option<
    Option<Seq<char>>,
>
    decreases pairs.len(),
{
    if pairs.len() == 0 {
        None
    } else {
        match env_effect(pairs.last().0, pairs.last().1).debugger {
            Some(d) => Some(d),
            None => last_debugger_effect(pairs.drop_last()),
        }
    }
}

/// The last effect the environment has on `compiler.cc`, if any.
pub open spec fn last_cc_effect(pairs: Seq<(Seq<char>, Seq<char>)>) -> Option<Option<Seq<char>>>
    decreases pairs.len(),
{
    if pairs.len() == 0 {
        None
    } else {
        match env_effect(pairs.last().0, pairs.last().1).compiler_cc {
            Some(d) => Some(d),
            None => last_cc_effect(pairs.drop_last()),
        }
    }
}

/// The last effect the environment has on `compiler.cxx`, if any.
pub open spec fn last_cxx_effect(pairs: Seq<(Seq<char>, Seq<char>)>) -> Option<Option<Seq<char>>>
    decreases pairs.len(),
{
    if pairs.len() == 0 {
        None
    } else {
        match env_effect(pairs.last().0, pairs.last().1).compiler_cxx {
            Some(d) => Some(d),
            None => last_cxx_effect(pairs.drop_last()),
        }
    }
}

/// The last effect the environment has on `cmake.definitions`, if any.
pub open spec fn last_defs_effect(pairs: Seq<(Seq<char>, Seq<char>)>) -> Option<
    Option<Seq<Seq<char>>>,
>
    decreases pairs.len(),
{
    if pairs.len() == 0 {
        None
    } else {
        match env_effect(pairs.last().0, pairs.last().1).cmake_definitions {
            Some(d) => Some(d),
            None => last_defs_effect(pairs.drop_last()),
        }
    }
}

/// The last effect the environment has on `docker.name`, if any.
pub open spec fn last_docker_name_effect(pairs: Seq<(Seq<char>, Seq<char>)>) -> Option<
    Option<Seq<char>>,
>
    decreases pairs.len(),
{
    if pairs.len() == 0 {
        None
    } else {
        match env_effect(pairs.last().0, pairs.last().1).docker_name {
            Some(d) => Some(d),
            None => last_docker_name_effect(pairs.drop_last()),
        }
    }
}

/// The last effect the environment has on `docker.image`, if any.
pub open spec fn last_docker_image_effect(pairs: Seq<(Seq<char>, Seq<char>)>) -> Option<
    Option<Seq<char>>,
>
    decreases pairs.len(),
{
    if pairs.len() == 0 {
        None
    } else {
        match env_effect(pairs.last().0, pairs.last().1).docker_image {
            Some(d) => Some(d),
            None => last_docker_image_effect(pairs.drop_last()),
        }
    }
}

/// The last effect the environment has on `docker.env`, if any.
pub open spec fn last_docker_env_effect(pairs: Seq<(Seq<char>, Seq<char>)>) -> Option<
    Option<Seq<Seq<char>>>,
>
    decreases pairs.len(),
{
    if pairs.len() == 0 {
        None
    } else {
        match env_effect(pairs.last().0, pairs.last().1).docker_env {
            Some(d) => Some(d),
            None => last_docker_env_effect(pairs.drop_last()),
        }
    }
}

/// The last effect the environment has on `docker.remove`, if any.
pub open spec fn last_docker_remove_effect(pairs: Seq<(Seq<char>, Seq<char>)>) -> Option<
    Option<bool>,
>
    decreases pairs.len(),
{
    if pairs.len() == 0 {
        None
    } else {
        match env_effect(pairs.last().0, pairs.last().1).docker_remove {
            Some(d) => Some(d),
            None => last_docker_remove_effect(pairs.drop_last()),
        }
    }
}

/// The last effect the environment has on `docker.stdout`, if any.
pub open spec fn last_docker_stdout_effect(pairs: Seq<(Seq<char>, Seq<char>)>) -> Option<
    Option<bool>,
>
    decreases pairs.len(),
{
    if pairs.len() == 0 {
        None
    } else {
        match env_effect(pairs.last().0, pairs.last().1).docker_stdout {
            Some(d) => Some(d),
            None => last_docker_stdout_effect(pairs.drop_last()),
        }
    }
}

/// The last effect the environment has on `docker.stderr`, if any.
pub open spec fn last_docker_stderr_effect(pairs: Seq<(Seq<char>, Seq<char>)>) -> Option<
    Option<bool>,
>
    decreases pairs.len(),
{
    if pairs.len() == 0 {
        None
    } else {
        match env_effect(pairs.last().0, pairs.last().1).docker_stderr {
            Some(d) => Some(d),
            None => last_docker_stderr_effect(pairs.drop_last()),
        }
    }
}

/// The last effect the environment has on the `docker` table's presence,
/// if any.
pub open spec fn last_docker_present_effect(pairs: Seq<(Seq<char>, Seq<char>)>) -> Option<bool>
    decreases pairs.len(),
{
    if pairs.len() == 0 {
        None
    } else {
        match env_effect(pairs.last().0, pairs.last().1).docker_present {
            Some(d) => Some(d),
            None => last_docker_present_effect(pairs.drop_last()),
        }
    }
}

/// A key set both by a configuration file and by the corresponding
/// environment variable resolves to the environment value — for every
/// recognized key: after the overlay, each key is whatever the
/// environment last did to it whenever it touched it at all, and the
/// file-sourced value only otherwise.
pub proof fn lemma_env_precedence(s: ConfigSnapshot, pairs: Seq<(Seq<char>, Seq<char>)>)
    ensures
        spec_overlay_snap(s, pairs).debugger == (match last_debugger_effect(pairs) {
            Some(d) => d,
            None => s.debugger,
        }),
        spec_overlay_snap(s, pairs).compiler_cc == (match last_cc_effect(pairs) {
            Some(d) => d,
            None => s.compiler_cc,
        }),
        spec_overlay_snap(s, pairs).compiler_cxx == (match last_cxx_effect(pairs) {
            Some(d) => d,
            None => s.compiler_cxx,
        }),
        spec_overlay_snap(s, pairs).cmake_definitions == (match last_defs_effect(pairs) {
            Some(d) => d,
            None => s.cmake_definitions,
        }),
        spec_overlay_snap(s, pairs).docker_name == (match last_docker_name_effect(pairs) {
            Some(d) => d,
            None => s.docker_name,
        }),
        spec_overlay_snap(s, pairs).docker_image == (match last_docker_image_effect(pairs) {
            Some(d) => d,
            None => s.docker_image,
        }),
        spec_overlay_snap(s, pairs).docker_env == (match last_docker_env_effect(pairs) {
            Some(d) => d,
            None => s.docker_env,
        }),
        spec_overlay_snap(s, pairs).docker_remove == (match last_docker_remove_effect(pairs) {
            Some(d) => d,
            None => s.docker_remove,
        }),
        spec_overlay_snap(s, pairs).docker_stdout == (match last_docker_stdout_effect(pairs) {
            Some(d) => d,
            None => s.docker_stdout,
        }),
        spec_overlay_snap(s, pairs).docker_stderr == (match last_docker_stderr_effect(pairs) {
            Some(d) => d,
            None => s.docker_stderr,
        }),
        spec_overlay_snap(s, pairs).docker_present == (match last_docker_present_effect(pairs) {
            Some(d) => d,
            None => s.docker_present,
        }),
    decreases pairs.len(),
{
    if pairs.len() > 0 {
        lemma_env_precedence(s, pairs.drop_last());
    }
}

/// When an override file is given, the layered sources contribute nothing:
/// the resolution does not depend on them at all.
pub proof fn lemma_override_excludes_layered(
    ov: ConfigSnapshot,
    files1: Seq<ConfigSnapshot>,
    files2: Seq<ConfigSnapshot>,
    pairs: Seq<(Seq<char>, Seq<char>)>,
)
    ensures
        spec_resolve_snap(Some(ov), files1, pairs) == spec_resolve_snap(Some(ov), files2, pairs),
{
}

} // verus!
