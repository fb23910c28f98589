//! The settings registry: each component registers the defaults of its
//! section, loaded files are merged on top key by key, and every section's
//! defaults are kept as text for a starter configuration file.
use vstd::prelude::*;

use crate::backend::csv::Settings;
use crate::backend::{backends_register_ok, backends_registered, BackendKind, Dispatcher};
use crate::xml::same_text;

verus! {

pub const BASE: &'static str = "Base";

pub const CONSOLE: &'static str = "Console";

pub const CSV: &'static str = "Csv";

/// A component that owns a section of the configuration.
pub trait Named {
    spec fn spec_name() -> Seq<char>;

    fn name() -> (r: &'static str)
        ensures
            r@ == Self::spec_name(),
    ;
}

/// A configuration value.
pub enum Value {
    Bool(bool),
    Int(i64),
    Str(String),
    List(Vec<String>),
}

pub enum ValueModel {
    Bool(bool),
    Int(int),
    Str(Seq<char>),
    List(Seq<Seq<char>>),
}

pub open spec fn texts(l: Seq<String>) -> Seq<Seq<char>> {
    l.map_values(|s: String| s@)
}

impl View for Value {
    type V = ValueModel;

    open spec fn view(&self) -> ValueModel {
        match self {
            Value::Bool(b) => ValueModel::Bool(*b),
            Value::Int(i) => ValueModel::Int(*i as int),
            Value::Str(s) => ValueModel::Str(s@),
            Value::List(l) => ValueModel::List(texts(l@)),
        }
    }
}

/// One value of one key of one section.
pub struct Entry {
    pub section: String,
    pub key: String,
    pub value: Value,
}

pub type EntryModel = (Seq<char>, Seq<char>, ValueModel);

impl View for Entry {
    type V = EntryModel;

    open spec fn view(&self) -> EntryModel {
        (self.section@, self.key@, self.value@)
    }
}

pub open spec fn entries_view(es: Seq<Entry>) -> Seq<EntryModel> {
    es.map_values(|e: Entry| e@)
}

pub open spec fn pairs_view(ps: Seq<(String, Value)>) -> Seq<(Seq<char>, ValueModel)> {
    ps.map_values(|p: (String, Value)| (p.0@, p.1@))
}

/// The sections that components register.
#[derive(Debug, Clone, Copy, PartialEq, Eq, Structural)]
pub enum Section {
    Base,
    Console,
    Csv,
}

pub enum ConfigError {
    /// The section holds no value under this key.
    Missing { section: String, key: String },
    /// The value under this key has another type than the section asks for.
    WrongType { section: String, key: String },
    /// Nothing at all is set in this section.
    NoSection(String),
    /// The section's defaults could not be written as TOML.
    Render(String),
}

/// The settings of the polling engine itself.
pub struct Base {
    pub url: String,
    pub username: String,
    pub password: String,
    /// Seconds between two polls.
    pub interval: u64,
    /// Names of the backends to run.
    pub backends: Vec<String>,
}

/// The settings of a component that has none.
pub struct No {}

impl Named for Base {
    open spec fn spec_name() -> Seq<char> {
        BASE@
    }

    fn name() -> (r: &'static str) {
        BASE
    }
}

/// The registry: defaults in order of registration, then the values of the
/// loaded files in order of loading, and the text of all defaults.
pub struct ConfigStore {
    defaults: Vec<Entry>,
    overrides: Vec<Entry>,
    registered: Vec<Section>,
    text: String,
}

pub struct StoreModel {
    pub defaults: Seq<EntryModel>,
    pub overrides: Seq<EntryModel>,
    pub registered: Seq<Section>,
    pub text: Seq<char>,
}

impl View for ConfigStore {
    type V = StoreModel;

    closed spec fn view(&self) -> StoreModel {
        StoreModel {
            defaults: entries_view(self.defaults@),
            overrides: entries_view(self.overrides@),
            registered: self.registered@,
            text: self.text@,
        }
    }
}

pub open spec fn section_name(s: Section) -> Seq<char> {
    match s {
        Section::Base => BASE@,
        Section::Console => CONSOLE@,
        Section::Csv => CSV@,
    }
}

/// The defaults that each section registers.
pub open spec fn section_defaults(s: Section) -> Seq<(Seq<char>, ValueModel)> {
    match s {
        Section::Base => seq![
            ("url"@, ValueModel::Str("http://fritz.box"@)),
            ("username"@, ValueModel::Str(""@)),
            ("password"@, ValueModel::Str(""@)),
            ("interval"@, ValueModel::Int(60)),
            ("backends"@, ValueModel::List(seq!["Console"@])),
        ],
        Section::Console => seq![("dummy"@, ValueModel::Bool(true))],
        Section::Csv => seq![("out_dir"@, ValueModel::Str("."@))],
    }
}

/// The entries that registering a section adds.
pub open spec fn section_entries(s: Section) -> Seq<EntryModel> {
    section_defaults(s).map_values(
        |p: (Seq<char>, ValueModel)| (section_name(s), p.0, p.1),
    )
}

/// The value of the last entry for `key` of `sec` in `es`.
pub open spec fn last_match(es: Seq<EntryModel>, sec: Seq<char>, key: Seq<char>) -> Option<
    ValueModel,
>
    decreases es.len(),
{
    if es.len() == 0 {
        None
    } else if es.last().0 == sec && es.last().1 == key {
        Some(es.last().2)
    } else {
        last_match(es.drop_last(), sec, key)
    }
}

/// The merged value of a key: the last loaded one, else the last default.
pub open spec fn lookup(m: StoreModel, sec: Seq<char>, key: Seq<char>) -> Option<ValueModel> {
    match last_match(m.overrides, sec, key) {
        Some(v) => Some(v),
        None => last_match(m.defaults, sec, key),
    }
}

pub open spec fn str_at(m: StoreModel, sec: Seq<char>, key: Seq<char>) -> Option<Seq<char>> {
    match lookup(m, sec, key) {
        Some(ValueModel::Str(s)) => Some(s),
        _ => None,
    }
}

pub open spec fn uint_at(m: StoreModel, sec: Seq<char>, key: Seq<char>) -> Option<int> {
    match lookup(m, sec, key) {
        Some(ValueModel::Int(n)) => if n >= 0 {
            Some(n)
        } else {
            None
        },
        _ => None,
    }
}

pub open spec fn list_at(m: StoreModel, sec: Seq<char>, key: Seq<char>) -> Option<Seq<Seq<char>>> {
    match lookup(m, sec, key) {
        Some(ValueModel::List(l)) => Some(l),
        _ => None,
    }
}

pub open spec fn section_present(m: StoreModel, sec: Seq<char>) -> bool {
    (exists|i: int| 0 <= i < m.defaults.len() && (#[trigger] m.defaults[i]).0 == sec) || (exists|
        i: int,
    | 0 <= i < m.overrides.len() && (#[trigger] m.overrides[i]).0 == sec)
}

pub open spec fn base_ok(m: StoreModel) -> bool {
    &&& str_at(m, BASE@, "url"@) is Some
    &&& str_at(m, BASE@, "username"@) is Some
    &&& str_at(m, BASE@, "password"@) is Some
    &&& uint_at(m, BASE@, "interval"@) is Some
    &&& list_at(m, BASE@, "backends"@) is Some
}

pub open spec fn base_matches(m: StoreModel, b: Base) -> bool {
    &&& b.url@ == str_at(m, BASE@, "url"@)->0
    &&& b.username@ == str_at(m, BASE@, "username"@)->0
    &&& b.password@ == str_at(m, BASE@, "password"@)->0
    &&& b.interval as int == uint_at(m, BASE@, "interval"@)->0
    &&& texts(b.backends@) == list_at(m, BASE@, "backends"@)->0
}

/// What a section reads as, written back as key/value pairs; `None` where it
/// does not read.
pub open spec fn section_form(m: StoreModel, s: Section) -> Option<Seq<(Seq<char>, ValueModel)>> {
    match s {
        Section::Base => if base_ok(m) {
            Some(
                seq![
                    ("url"@, ValueModel::Str(str_at(m, BASE@, "url"@)->0)),
                    ("username"@, ValueModel::Str(str_at(m, BASE@, "username"@)->0)),
                    ("password"@, ValueModel::Str(str_at(m, BASE@, "password"@)->0)),
                    ("interval"@, ValueModel::Int(uint_at(m, BASE@, "interval"@)->0)),
                    ("backends"@, ValueModel::List(list_at(m, BASE@, "backends"@)->0)),
                ],
            )
        } else {
            None
        },
        Section::Console => if section_present(m, CONSOLE@) {
            Some(seq![])
        } else {
            None
        },
        Section::Csv => match str_at(m, CSV@, "out_dir"@) {
            Some(d) => Some(seq![("out_dir"@, ValueModel::Str(d))]),
            None => None,
        },
    }
}

/// TOML text of a table holding the pairs in their order; `None` where it cannot be written.
pub uninterp spec fn toml_table_text(pairs: Seq<(Seq<char>, ValueModel)>) -> Option<Seq<char>>;

/// The block that a section adds to the text of all defaults: none for an empty body.
pub open spec fn block(name: Seq<char>, body: Seq<char>) -> Seq<char> {
    if body.len() == 0 {
        seq![]
    } else {
        seq!['['] + name + seq![']', '\n'] + body + seq!['\n']
    }
}

/// The store once a section's defaults are added, before its text is written.
pub open spec fn with_defaults(m: StoreModel, s: Section) -> StoreModel {
    StoreModel {
        defaults: m.defaults + section_entries(s),
        registered: m.registered.push(s),
        ..m
    }
}

/// Whether registering `s` succeeds on `m`.
pub open spec fn register_ok(m: StoreModel, s: Section) -> bool {
    match section_form(with_defaults(m, s), s) {
        Some(f) => toml_table_text(f) is Some,
        None => false,
    }
}

/// The store after a registration of `s` that succeeds.
pub open spec fn registered(m: StoreModel, s: Section) -> StoreModel {
    let w = with_defaults(m, s);
    StoreModel {
        text: m.text + block(section_name(s), toml_table_text(section_form(w, s)->0)->0),
        ..w
    }
}

/// The store after a file is loaded.
pub open spec fn loaded(m: StoreModel, file: Seq<EntryModel>) -> StoreModel {
    StoreModel { overrides: m.overrides + file, ..m }
}


/// Relies on toml::to_string for a toml::Table built from the pairs: the
/// text depends on the pairs alone, and the crate's `preserve_order` feature
/// keeps their order; `None` where the serialiser reports an error.
#[verifier::external_body]
fn table_text(pairs: &Vec<(String, Value)>) -> (r: Option<String>)
    ensures
        r is Some <==> toml_table_text(pairs_view(pairs@)) is Some,
        r is Some ==> toml_table_text(pairs_view(pairs@))->0 == r->0@,
{
    let table: toml::Table = pairs.iter().map(|(k, v)| (k.clone(), match v {
        Value::Bool(b) => toml::Value::Boolean(*b),
        Value::Int(i) => toml::Value::Integer(*i),
        Value::Str(t) => toml::Value::String(t.clone()),
        Value::List(l) => toml::Value::Array(l.iter().map(|t| toml::Value::String(t.clone())).collect()),
    })).collect();
    toml::to_string(&table).ok()
}

/// A copy of a list of texts.
pub fn copy_texts(l: &Vec<String>) -> (r: Vec<String>)
    ensures
        texts(r@) == texts(l@),
{
    let mut out: Vec<String> = Vec::new();
    let mut i: usize = 0;
    while i < l.len()
        invariant
            i <= l@.len(),
            texts(out@) =~= texts(l@.take(i as int)),
        decreases l@.len() - i,
    {
        out.push(l[i].clone());
        assert(texts(l@.take(i + 1)) =~= texts(l@.take(i as int)).push(l@[i as int]@));
        i = i + 1;
    }
    assert(l@.take(i as int) =~= l@);
    out
}

impl Value {
    pub fn copy(&self) -> (r: Value)
        ensures
            r@ == self@,
    {
        match self {
            Value::Bool(b) => Value::Bool(*b),
            Value::Int(i) => Value::Int(*i),
            Value::Str(t) => Value::Str(t.clone()),
            Value::List(l) => Value::List(copy_texts(l)),
        }
    }
}

impl Section {
    pub fn name(self) -> (r: &'static str)
        ensures
            r@ == section_name(self),
    {
        match self {
            Section::Base => BASE,
            Section::Console => CONSOLE,
            Section::Csv => CSV,
        }
    }

    /// The default key/value pairs of the section.
    pub fn defaults(self) -> (r: Vec<(String, Value)>)
        ensures
            pairs_view(r@) == section_defaults(self),
    {
        let mut v: Vec<(String, Value)> = Vec::new();
        match self {
            Section::Base => {
                v.push((String::from_str("url"), Value::Str(String::from_str("http://fritz.box"))));
                v.push((String::from_str("username"), Value::Str(String::from_str(""))));
                v.push((String::from_str("password"), Value::Str(String::from_str(""))));
                v.push((String::from_str("interval"), Value::Int(60)));
                let mut l: Vec<String> = Vec::new();
                l.push(String::from_str("Console"));
                assert(texts(l@) =~= seq!["Console"@]);
                v.push((String::from_str("backends"), Value::List(l)));
            },
            Section::Console => {
                v.push((String::from_str("dummy"), Value::Bool(true)));
            },
            Section::Csv => {
                v.push((String::from_str("out_dir"), Value::Str(String::from_str("."))));
            },
        }
        assert(pairs_view(v@) =~= section_defaults(self));
        v
    }
}

/// The text a section adds to the text of all defaults: `[name]`, the body
/// and an empty line; nothing for an empty body.
pub fn render_block(name: &str, body: &str) -> (r: String)
    ensures
        r@ == block(name@, body@),
{
    if body.unicode_len() == 0 {
        return String::new();
    }
    proof {
        reveal_strlit("[");
        reveal_strlit("]\n");
        reveal_strlit("\n");
    }
    let mut out = String::from_str("[");
    out.append(name);
    out.append("]\n");
    out.append(body);
    out.append("\n");
    assert(out@ =~= block(name@, body@));
    out
}

/// Index of the last entry for `key` of `sec`.
fn find_last(es: &Vec<Entry>, sec: &str, key: &str) -> (r: Option<usize>)
    ensures
        match r {
            Some(i) => i < es@.len() && last_match(entries_view(es@), sec@, key@) == Some(
                es@[i as int].value@,
            ),
            None => last_match(entries_view(es@), sec@, key@) is None,
        },
{
    let ghost ev = entries_view(es@);
    let mut i: usize = es.len();
    assert(ev.take(i as int) =~= ev);
    while i > 0
        invariant
            ev == entries_view(es@),
            i <= es@.len(),
            last_match(ev, sec@, key@) == last_match(ev.take(i as int), sec@, key@),
        decreases i,
    {
        let e = &es[i - 1];
        assert(ev.take(i as int).last() == e@);
        assert(ev.take(i as int).drop_last() =~= ev.take(i - 1));
        if same_text(e.section.as_str(), sec) && same_text(e.key.as_str(), key) {
            return Some(i - 1);
        }
        i = i - 1;
    }
    None
}

impl ConfigStore {
    /// A store with nothing registered.
    pub fn new() -> (r: ConfigStore)
        ensures
            r@.defaults == Seq::<EntryModel>::empty(),
            r@.overrides == Seq::<EntryModel>::empty(),
            r@.registered == Seq::<Section>::empty(),
            r@.text == Seq::<char>::empty(),
    {
        let r = ConfigStore {
            defaults: Vec::new(),
            overrides: Vec::new(),
            registered: Vec::new(),
            text: String::new(),
        };
        assert(entries_view(r.defaults@) =~= Seq::<EntryModel>::empty());
        assert(entries_view(r.overrides@) =~= Seq::<EntryModel>::empty());
        r
    }

    /// The merged value of `key` in section `sec`.
    pub fn lookup_value(&self, sec: &str, key: &str) -> (r: Option<&Value>)
        ensures
            match r {
                Some(v) => lookup(self@, sec@, key@) == Some(v@),
                None => lookup(self@, sec@, key@) is None,
            },
    {
        match find_last(&self.overrides, sec, key) {
            Some(i) => Some(&self.overrides[i].value),
            None => match find_last(&self.defaults, sec, key) {
                Some(i) => Some(&self.defaults[i].value),
                None => None,
            },
        }
    }

    /// The text under `key` of section `sec`.
    pub fn get_str(&self, sec: &str, key: &str) -> (r: Result<String, ConfigError>)
        ensures
            r is Ok <==> str_at(self@, sec@, key@) is Some,
            r is Ok ==> r->Ok_0@ == str_at(self@, sec@, key@)->0,
    {
        match self.lookup_value(sec, key) {
            Some(Value::Str(t)) => Ok(t.clone()),
            Some(_) => Err(
                ConfigError::WrongType { section: String::from_str(sec), key: String::from_str(key) },
            ),
            None => Err(
                ConfigError::Missing { section: String::from_str(sec), key: String::from_str(key) },
            ),
        }
    }

    /// The non-negative integer under `key` of section `sec`.
    pub fn get_uint(&self, sec: &str, key: &str) -> (r: Result<u64, ConfigError>)
        ensures
            r is Ok <==> uint_at(self@, sec@, key@) is Some,
            r is Ok ==> r->Ok_0 as int == uint_at(self@, sec@, key@)->0 && r->Ok_0
                <= i64::MAX,
    {
        match self.lookup_value(sec, key) {
            Some(Value::Int(n)) => if *n >= 0 {
                Ok(*n as u64)
            } else {
                Err(
                    ConfigError::WrongType {
                        section: String::from_str(sec),
                        key: String::from_str(key),
                    },
                )
            },
            Some(_) => Err(
                ConfigError::WrongType { section: String::from_str(sec), key: String::from_str(key) },
            ),
            None => Err(
                ConfigError::Missing { section: String::from_str(sec), key: String::from_str(key) },
            ),
        }
    }

    /// The list of texts under `key` of section `sec`.
    pub fn get_list(&self, sec: &str, key: &str) -> (r: Result<Vec<String>, ConfigError>)
        ensures
            r is Ok <==> list_at(self@, sec@, key@) is Some,
            r is Ok ==> texts(r->Ok_0@) == list_at(self@, sec@, key@)->0,
    {
        match self.lookup_value(sec, key) {
            Some(Value::List(l)) => Ok(copy_texts(l)),
            Some(_) => Err(
                ConfigError::WrongType { section: String::from_str(sec), key: String::from_str(key) },
            ),
            None => Err(
                ConfigError::Missing { section: String::from_str(sec), key: String::from_str(key) },
            ),
        }
    }

    /// Whether anything at all is set in section `sec`.
    pub fn has_section(&self, sec: &str) -> (r: bool)
        ensures
            r == section_present(self@, sec@),
    {
        let mut i: usize = 0;
        while i < self.defaults.len()
            invariant
                i <= self.defaults@.len(),
                forall|k: int| 0 <= k < i ==> (#[trigger] self.defaults@[k]).section@ != sec@,
            decreases self.defaults@.len() - i,
        {
            if same_text(self.defaults[i].section.as_str(), sec) {
                assert(self@.defaults[i as int].0 == sec@);
                return true;
            }
            i = i + 1;
        }
        let mut j: usize = 0;
        while j < self.overrides.len()
            invariant
                j <= self.overrides@.len(),
                forall|k: int| 0 <= k < self.defaults@.len() ==> (#[trigger] self.defaults@[k]).section@ != sec@,
                forall|k: int| 0 <= k < j ==> (#[trigger] self.overrides@[k]).section@ != sec@,
            decreases self.overrides@.len() - j,
        {
            if same_text(self.overrides[j].section.as_str(), sec) {
                assert(self@.overrides[j as int].0 == sec@);
                return true;
            }
            j = j + 1;
        }
        assert(!section_present(self@, sec@)) by {
            assert forall|k: int| 0 <= k < self@.defaults.len() implies (#[trigger] self@.defaults[k]).0 != sec@ by {
                assert(self@.defaults[k] == self.defaults@[k]@);
            }
            assert forall|k: int| 0 <= k < self@.overrides.len() implies (#[trigger] self@.overrides[k]).0 != sec@ by {
                assert(self@.overrides[k] == self.overrides@[k]@);
            }
        }
        false
    }
}


impl Base {
    /// The settings written back as key/value pairs.
    pub fn to_pairs(&self) -> (r: Vec<(String, Value)>)
        requires
            self.interval <= i64::MAX,
        ensures
            pairs_view(r@) == seq![
                ("url"@, ValueModel::Str(self.url@)),
                ("username"@, ValueModel::Str(self.username@)),
                ("password"@, ValueModel::Str(self.password@)),
                ("interval"@, ValueModel::Int(self.interval as int)),
                ("backends"@, ValueModel::List(texts(self.backends@))),
            ],
    {
        let mut v: Vec<(String, Value)> = Vec::new();
        v.push((String::from_str("url"), Value::Str(self.url.clone())));
        v.push((String::from_str("username"), Value::Str(self.username.clone())));
        v.push((String::from_str("password"), Value::Str(self.password.clone())));
        v.push((String::from_str("interval"), Value::Int(self.interval as i64)));
        v.push((String::from_str("backends"), Value::List(copy_texts(&self.backends))));
        assert(pairs_view(v@) =~= seq![
            ("url"@, ValueModel::Str(self.url@)),
            ("username"@, ValueModel::Str(self.username@)),
            ("password"@, ValueModel::Str(self.password@)),
            ("interval"@, ValueModel::Int(self.interval as int)),
            ("backends"@, ValueModel::List(texts(self.backends@))),
        ]);
        v
    }
}

/// The merged settings of the polling engine.
pub fn get_base(store: &ConfigStore) -> (r: Result<Base, ConfigError>)
    ensures
        r is Ok <==> base_ok(store@),
        r is Ok ==> base_matches(store@, r->Ok_0) && r->Ok_0.interval <= i64::MAX,
{
    let url = store.get_str(BASE, "url")?;
    let username = store.get_str(BASE, "username")?;
    let password = store.get_str(BASE, "password")?;
    let interval = store.get_uint(BASE, "interval")?;
    let backends = store.get_list(BASE, "backends")?;
    Ok(Base { url, username, password, interval, backends })
}

/// The merged settings of the CSV backend.
pub fn get_csv(store: &ConfigStore) -> (r: Result<Settings, ConfigError>)
    ensures
        r is Ok <==> str_at(store@, CSV@, "out_dir"@) is Some,
        r is Ok ==> r->Ok_0.out_dir@ == str_at(store@, CSV@, "out_dir"@)->0,
{
    let out_dir = store.get_str(CSV, "out_dir")?;
    Ok(Settings { out_dir })
}

/// The settings of a component without options: the section only has to exist.
pub fn get_no(store: &ConfigStore, sec: &str) -> (r: Result<No, ConfigError>)
    ensures
        r is Ok <==> section_present(store@, sec@),
{
    if store.has_section(sec) {
        Ok(No {  })
    } else {
        Err(ConfigError::NoSection(String::from_str(sec)))
    }
}

/// The settings that a backend is built from.
pub enum BackendSettings {
    Console(No),
    Csv(Settings),
}

/// The merged settings of the backend `kind`.
pub fn get_for_backend(store: &ConfigStore, kind: BackendKind) -> (r: Result<BackendSettings, ConfigError>)
    ensures
        kind is Console ==> (r is Ok <==> section_present(store@, CONSOLE@)) && (r is Ok
            ==> r->Ok_0 is Console),
        kind is Csv ==> (r is Ok <==> str_at(store@, CSV@, "out_dir"@) is Some),
        kind is Csv && r is Ok ==> (r->Ok_0 matches BackendSettings::Csv(c) && c.out_dir@
            == str_at(store@, CSV@, "out_dir"@)->0),
{
    match kind {
        BackendKind::Console => {
            let n = get_no(store, CONSOLE)?;
            Ok(BackendSettings::Console(n))
        },
        BackendKind::Csv => {
            let c = get_csv(store)?;
            Ok(BackendSettings::Csv(c))
        },
    }
}

/// What section `s` reads as, written back as key/value pairs.
pub fn section_pairs(store: &ConfigStore, s: Section) -> (r: Result<Vec<(String, Value)>, ConfigError>)
    ensures
        r is Ok <==> section_form(store@, s) is Some,
        r is Ok ==> pairs_view(r->Ok_0@) == section_form(store@, s)->0,
{
    match s {
        Section::Base => {
            let b = get_base(store)?;
            Ok(b.to_pairs())
        },
        Section::Console => {
            let _ = get_no(store, CONSOLE)?;
            let v: Vec<(String, Value)> = Vec::new();
            assert(pairs_view(v@) =~= seq![]);
            Ok(v)
        },
        Section::Csv => {
            let c = get_csv(store)?;
            let mut v: Vec<(String, Value)> = Vec::new();
            v.push((String::from_str("out_dir"), Value::Str(c.out_dir)));
            assert(pairs_view(v@) =~= seq![("out_dir"@, ValueModel::Str(c.out_dir@))]);
            Ok(v)
        },
    }
}

/// Registers the defaults of section `s`, then reads the section back and
/// adds its TOML form to the text of all defaults.
pub fn add_defaults(store: &mut ConfigStore, s: Section) -> (r: Result<(), ConfigError>)
    ensures
        register_ok(old(store)@, s) ==> r is Ok && final(store)@ == registered(old(store)@, s),
        !register_ok(old(store)@, s) ==> r is Err && final(store)@ == with_defaults(
            old(store)@,
            s,
        ),
{
    let name = s.name();
    let pairs = s.defaults();
    let ghost before = store@;
    let mut i: usize = 0;
    while i < pairs.len()
        invariant
            i <= pairs@.len(),
            pairs_view(pairs@) == section_defaults(s),
            name@ == section_name(s),
            store@ == (StoreModel {
                defaults: before.defaults + section_entries(s).take(i as int),
                ..before
            }),
        decreases pairs@.len() - i,
    {
        let ghost d0 = store.defaults@;
        let e = Entry { section: String::from_str(name), key: pairs[i].0.clone(), value: pairs[i].1.copy() };
        store.defaults.push(e);
        assert(entries_view(store.defaults@) =~= entries_view(d0).push(e@));
        assert(section_entries(s).take(i + 1) =~= section_entries(s).take(i as int).push(e@));
        assert(before.defaults + section_entries(s).take(i + 1) =~= (before.defaults
            + section_entries(s).take(i as int)).push(e@));
        i = i + 1;
    }
    store.registered.push(s);
    assert(section_entries(s).take(i as int) =~= section_entries(s));
    assert(store@ =~= with_defaults(before, s));
    let form = match section_pairs(store, s) {
        Ok(f) => f,
        Err(e) => return Err(e),
    };
    match table_text(&form) {
        Some(body) => {
            let b = render_block(name, body.as_str());
            store.text.append(b.as_str());
            assert(store@ =~= registered(before, s));
            Ok(())
        },
        None => Err(ConfigError::Render(String::from_str(name))),
    }
}

/// Merges the values of a loaded file on top of everything before it.
pub fn load(store: &mut ConfigStore, file: Vec<Entry>)
    ensures
        final(store)@ == loaded(old(store)@, entries_view(file@)),
{
    let mut file = file;
    let ghost before = store@;
    let ghost f = file@;
    store.overrides.append(&mut file);
    assert(entries_view(store.overrides@) =~= before.overrides + entries_view(f));
    assert(store@ =~= loaded(before, entries_view(f)));
}

/// Checks that every registered section reads with the values merged so far.
pub fn refresh(store: &ConfigStore) -> (r: Result<(), ConfigError>)
    ensures
        r is Ok <==> forall|i: int|
            0 <= i < store@.registered.len() ==> (#[trigger] section_form(
                store@,
                store@.registered[i],
            )) is Some,
{
    let mut i: usize = 0;
    while i < store.registered.len()
        invariant
            i <= store@.registered.len(),
            store@.registered == store.registered@,
            forall|k: int| 0 <= k < i ==> (#[trigger] section_form(store@, store@.registered[k])) is Some,
        decreases store.registered@.len() - i,
    {
        match section_pairs(store, store.registered[i]) {
            Ok(_) => {},
            Err(e) => return Err(e),
        }
        i = i + 1;
    }
    Ok(())
}

proof fn lemma_last_match_concat(a: Seq<EntryModel>, b: Seq<EntryModel>, sec: Seq<char>, key: Seq<char>)
    ensures
        last_match(a + b, sec, key) == match last_match(b, sec, key) {
            Some(v) => Some(v),
            None => last_match(a, sec, key),
        },
    decreases b.len(),
{
    if b.len() == 0 {
        assert(a + b =~= a);
    } else {
        assert((a + b).drop_last() =~= a + b.drop_last());
        lemma_last_match_concat(a, b.drop_last(), sec, key);
    }
}

/// Loading a file changes only the keys that it sets: a key that the file
/// sets reads as the file's last value for it, every other key keeps the
/// value it had.
pub proof fn law_load_per_key(m: StoreModel, file: Seq<EntryModel>, sec: Seq<char>, key: Seq<char>)
    ensures
        lookup(loaded(m, file), sec, key) == match last_match(file, sec, key) {
            Some(v) => Some(v),
            None => lookup(m, sec, key),
        },
{
    lemma_last_match_concat(m.overrides, file, sec, key);
}


/// What a section reads as right after its defaults are registered.
pub open spec fn default_form(s: Section) -> Seq<(Seq<char>, ValueModel)> {
    match s {
        Section::Console => seq![],
        _ => section_defaults(s),
    }
}

/// No two pairs share a key.
pub open spec fn keys_distinct(d: Seq<(Seq<char>, ValueModel)>) -> bool {
    forall|a: int, b: int| 0 <= a < b < d.len() ==> (#[trigger] d[a]).0 != (#[trigger] d[b]).0
}

/// With no file loaded, each default of a newly registered section reads
/// back as exactly that value.
pub proof fn law_defaults_read_back(m: StoreModel, s: Section, i: int)
    requires
        m.overrides.len() == 0,
        0 <= i < section_defaults(s).len(),
    ensures
        lookup(with_defaults(m, s), section_name(s), section_defaults(s)[i].0) == Some(
            section_defaults(s)[i].1,
        ),
{
    let key = section_defaults(s)[i].0;
    lemma_last_match_concat(m.defaults, section_entries(s), section_name(s), key);
    reveal_strlit("url");
    reveal_strlit("username");
    reveal_strlit("password");
    reveal_strlit("interval");
    reveal_strlit("backends");
    let e = section_entries(s);
    assert(last_match(Seq::<EntryModel>::empty(), section_name(s), key) is None);
    let n = section_defaults(s).len();
    assert forall|j: int| 0 <= j < n implies (#[trigger] e[j]) == (section_name(s), section_defaults(s)[j].0, section_defaults(s)[j].1) by {}
    let e3 = e.drop_last();
    let e2 = e3.drop_last();
    let e1 = e2.drop_last();
    let e0 = e1.drop_last();
    if n == 5 {
        assert("url"@.len() == 3);
        assert("username"@[0] == 'u' && "password"@[0] == 'p' && "interval"@[0] == 'i'
            && "backends"@[0] == 'b');
        assert(keys_distinct(section_defaults(s)));
        assert(e3.last() == e[3]);
        assert(e2.last() == e[2]);
        assert(e1.last() == e[1]);
        assert(e0.last() == e[0]);
        assert(e0.drop_last() =~= Seq::<EntryModel>::empty());
        if i == 4 {
        } else if i == 3 {
            assert(last_match(e, section_name(s), key) == last_match(e3, section_name(s), key));
        } else if i == 2 {
            assert(last_match(e, section_name(s), key) == last_match(e2, section_name(s), key));
        } else if i == 1 {
            assert(last_match(e, section_name(s), key) == last_match(e1, section_name(s), key));
        } else {
            assert(last_match(e, section_name(s), key) == last_match(e0, section_name(s), key));
        }
    } else {
        assert(e.drop_last() =~= Seq::<EntryModel>::empty());
    }
    assert(e.last() == e[n - 1]);
    assert(last_match(m.overrides, section_name(s), key) is None);
}

/// With no file loaded, a newly registered section reads as its defaults; a
/// section without options reads as no pairs at all.
pub proof fn law_defaults_form(m: StoreModel, s: Section)
    requires
        m.overrides.len() == 0,
    ensures
        section_form(with_defaults(m, s), s) == Some(default_form(s)),
{
    let w = with_defaults(m, s);
    let d = section_defaults(s);
    match s {
        Section::Base => {
            law_defaults_read_back(m, s, 0);
            law_defaults_read_back(m, s, 1);
            law_defaults_read_back(m, s, 2);
            law_defaults_read_back(m, s, 3);
            law_defaults_read_back(m, s, 4);
            assert(section_form(w, s)->0 =~= d);
        },
        Section::Console => {
            let k = m.defaults.len() as int;
            assert(w.defaults[k] == section_entries(s)[0]);
            assert(section_present(w, CONSOLE@));
        },
        Section::Csv => {
            law_defaults_read_back(m, s, 0);
            assert(section_form(w, s)->0 =~= d);
        },
    }
}


impl ConfigStore {
    /// The text of the defaults of every registered section.
    pub fn default_text(&self) -> (r: String)
        ensures
            r@ == self@.text,
    {
        self.text.clone()
    }
}

/// Registers every backend and returns the text of all defaults, ready to
/// be written out as a starting configuration file.
pub fn defaults(store: &mut ConfigStore) -> (r: Result<String, ConfigError>)
    ensures
        backends_register_ok(old(store)@) ==> r is Ok && final(store)@ == backends_registered(
            old(store)@,
        ) && r->Ok_0@ == final(store)@.text,
        !backends_register_ok(old(store)@) ==> r is Err,
{
    Dispatcher::register_backends(store)?;
    Ok(store.default_text())
}

/// Each registration adds one block to the text of all defaults: `[name]`,
/// then the section's TOML; a section whose TOML is empty adds nothing.
pub proof fn law_one_block_per_section(m: StoreModel, s: Section)
    requires
        register_ok(m, s),
    ensures
        ({
            let body = toml_table_text(section_form(with_defaults(m, s), s)->0)->0;
            let t = registered(m, s).text;
            &&& body.len() == 0 ==> t == m.text
            &&& body.len() > 0 ==> t == m.text + seq!['['] + section_name(s) + seq![']', '\n']
                + body + seq!['\n']
        }),
{
    let body = toml_table_text(section_form(with_defaults(m, s), s)->0)->0;
    if body.len() == 0 {
        assert(m.text + block(section_name(s), body) =~= m.text);
    } else {
        assert(m.text + block(section_name(s), body) =~= m.text + seq!['['] + section_name(s)
            + seq![']', '\n'] + body + seq!['\n']);
    }
}

} // verus!
