//! The recording backends and the dispatcher that decides, once at startup,
//! which of them run.
use vstd::prelude::*;

pub mod console;
pub mod csv;

use self::console::Console;
use self::csv::Csv;

use crate::settings::{
    add_defaults, get_for_backend, register_ok, registered, section_present, str_at, texts,
    BackendSettings, ConfigError, ConfigStore, Section, StoreModel, CONSOLE, CSV,
};
use crate::xml::same_text;

verus! {

#[derive(Debug, Clone, Copy, PartialEq, Eq, Structural)]
pub enum BackendKind {
    Console,
    Csv,
}

pub enum DispatchError {
    Config(ConfigError),
    /// A configured backend name that no backend has; `known` lists those that exist.
    UnknownBackend { name: String, known: Vec<String> },
}

/// The backends that run, each built from its merged settings.
pub struct Dispatcher {
    pub console: Option<Console>,
    pub csv: Option<Csv>,
}

pub open spec fn known_names() -> Seq<Seq<char>> {
    seq![CONSOLE@, CSV@]
}

pub open spec fn is_known(n: Seq<char>) -> bool {
    n == CONSOLE@ || n == CSV@
}

pub open spec fn enabled_in(enabled: Seq<String>, n: Seq<char>) -> bool {
    exists|i: int| 0 <= i < enabled.len() && (#[trigger] enabled[i])@ == n
}

pub open spec fn all_known(enabled: Seq<String>) -> bool {
    forall|i: int| 0 <= i < enabled.len() ==> is_known((#[trigger] enabled[i])@)
}

/// Whether the settings of every enabled backend read.
pub open spec fn enabled_settings_read(m: StoreModel, enabled: Seq<String>) -> bool {
    &&& enabled_in(enabled, CONSOLE@) ==> section_present(m, CONSOLE@)
    &&& enabled_in(enabled, CSV@) ==> str_at(m, CSV@, "out_dir"@) is Some
}

/// The store after both backends registered their defaults.
pub open spec fn backends_registered(m: StoreModel) -> StoreModel {
    registered(registered(m, Section::Console), Section::Csv)
}

pub open spec fn backends_register_ok(m: StoreModel) -> bool {
    register_ok(m, Section::Console) && register_ok(registered(m, Section::Console), Section::Csv)
}

/// Whether `name` is one of `list`.
pub fn contains_name(list: &Vec<String>, name: &str) -> (r: bool)
    ensures
        r == enabled_in(list@, name@),
{
    let mut i: usize = 0;
    while i < list.len()
        invariant
            i <= list@.len(),
            forall|k: int| 0 <= k < i ==> (#[trigger] list@[k])@ != name@,
        decreases list@.len() - i,
    {
        if same_text(list[i].as_str(), name) {
            return true;
        }
        i = i + 1;
    }
    false
}

/// Names of all backends, in dispatch order.
pub fn known_backends() -> (r: Vec<String>)
    ensures
        texts(r@) == known_names(),
{
    let mut v: Vec<String> = Vec::new();
    v.push(String::from_str(CONSOLE));
    v.push(String::from_str(CSV));
    assert(texts(v@) =~= known_names());
    v
}

impl BackendKind {
    pub fn name(self) -> (r: &'static str)
        ensures
            r@ == (match self {
                BackendKind::Console => CONSOLE@,
                BackendKind::Csv => CSV@,
            }),
    {
        match self {
            BackendKind::Console => CONSOLE,
            BackendKind::Csv => CSV,
        }
    }

    /// The line that reports a failed `log` of this backend.
    pub fn failure_message(self) -> (r: String)
        ensures
            r@ == "Backend "@ + (match self {
                BackendKind::Console => CONSOLE@,
                BackendKind::Csv => CSV@,
            }) + " failed"@,
    {
        let mut out = String::from_str("Backend ");
        out.append(self.name());
        out.append(" failed");
        out
    }
}

impl Dispatcher {
    /// Registers the defaults of every backend and returns their names.
    pub fn register_backends(store: &mut ConfigStore) -> (r: Result<Vec<String>, ConfigError>)
        ensures
            backends_register_ok(old(store)@) ==> r is Ok && final(store)@ == backends_registered(
                old(store)@,
            ),
            !backends_register_ok(old(store)@) ==> r is Err,
            r is Ok ==> texts(r->Ok_0@) == known_names(),
    {
        add_defaults(store, Section::Console)?;
        add_defaults(store, Section::Csv)?;
        Ok(known_backends())
    }

    /// Builds the enabled backends from their merged settings; a backend
    /// that is not enabled is not built and its settings are not read.
    pub fn new(store: &ConfigStore, enabled: &Vec<String>) -> (r: Result<Dispatcher, DispatchError>)
        ensures
            !all_known(enabled@) ==> (r matches Err(DispatchError::UnknownBackend { name, known })
                && !is_known(name@) && enabled_in(enabled@, name@) && texts(known@)
                == known_names()),
            all_known(enabled@) ==> (r is Ok <==> enabled_settings_read(store@, enabled@)),
            r is Ok ==> (r->Ok_0.console is Some <==> enabled_in(enabled@, CONSOLE@)),
            r is Ok ==> (r->Ok_0.csv is Some <==> enabled_in(enabled@, CSV@)),
            r is Ok && r->Ok_0.csv is Some ==> r->Ok_0.csv->0.out_dir@ == str_at(
                store@,
                CSV@,
                "out_dir"@,
            )->0,
    {
        let mut i: usize = 0;
        while i < enabled.len()
            invariant
                i <= enabled@.len(),
                forall|k: int| 0 <= k < i ==> is_known((#[trigger] enabled@[k])@),
            decreases enabled@.len() - i,
        {
            let n = enabled[i].as_str();
            if !same_text(n, CONSOLE) && !same_text(n, CSV) {
                return Err(
                    DispatchError::UnknownBackend { name: enabled[i].clone(), known: known_backends() },
                );
            }
            i = i + 1;
        }
        let console = if contains_name(enabled, CONSOLE) {
            match get_for_backend(store, BackendKind::Console) {
                Ok(_) => Some(Console {  }),
                Err(e) => return Err(DispatchError::Config(e)),
            }
        } else {
            None
        };
        let csv = if contains_name(enabled, CSV) {
            match get_for_backend(store, BackendKind::Csv) {
                Ok(BackendSettings::Csv(s)) => Some(Csv { out_dir: s.out_dir }),
                Ok(BackendSettings::Console(_)) => None,
                Err(e) => return Err(DispatchError::Config(e)),
            }
        } else {
            None
        };
        Ok(Dispatcher { console, csv })
    }

    /// Registers every backend, then builds the enabled ones.
    pub fn init(store: &mut ConfigStore, enabled: &Vec<String>) -> (r: Result<Dispatcher, DispatchError>)
        ensures
            !backends_register_ok(old(store)@) ==> r matches Err(DispatchError::Config(_)),
            backends_register_ok(old(store)@) ==> final(store)@ == backends_registered(old(store)@),
            backends_register_ok(old(store)@) && !all_known(enabled@) ==> (r matches Err(DispatchError::UnknownBackend { name, known })
                && !is_known(name@) && enabled_in(enabled@, name@) && texts(known@)
                == known_names()),
            backends_register_ok(old(store)@) && all_known(enabled@) ==> (r is Ok <==> enabled_settings_read(final(store)@, enabled@)),
            r is Ok ==> (r->Ok_0.console is Some <==> enabled_in(enabled@, CONSOLE@)),
            r is Ok ==> (r->Ok_0.csv is Some <==> enabled_in(enabled@, CSV@)),
    {
        match Dispatcher::register_backends(store) {
            Ok(_) => {},
            Err(e) => return Err(DispatchError::Config(e)),
        }
        Dispatcher::new(store, enabled)
    }

    /// The backends that receive each snapshot, in dispatch order.
    pub fn dispatch(&self) -> (r: Vec<BackendKind>)
        ensures
            r@ == (if self.console is Some {
                seq![BackendKind::Console]
            } else {
                seq![]
            }) + (if self.csv is Some {
                seq![BackendKind::Csv]
            } else {
                seq![]
            }),
    {
        let mut v: Vec<BackendKind> = Vec::new();
        if self.console.is_some() {
            v.push(BackendKind::Console);
        }
        if self.csv.is_some() {
            v.push(BackendKind::Csv);
        }
        assert(v@ =~= (if self.console is Some {
            seq![BackendKind::Console]
        } else {
            seq![]
        }) + (if self.csv is Some {
            seq![BackendKind::Csv]
        } else {
            seq![]
        }));
        v
    }
}


} // verus!
