//! Settings by name, and an application that holds them.

use vstd::prelude::*;
use vstd::hash_map::StringHashMap;
use vstd::string::*;

verus! {

/// The text of every setting.
pub open spec fn texts(settings: Map<Seq<char>, String>) -> Map<Seq<char>, Seq<char>> {
    settings.map_values(|value: String| value@)
}

/// The settings that loading a file adds: the debug mode and the port.
pub open spec fn loaded(settings: Map<Seq<char>, Seq<char>>) -> Map<Seq<char>, Seq<char>> {
    settings.insert("debug"@, "true"@).insert("port"@, "8080"@)
}

/// The text of a setting, or `default` where it is not set.
pub open spec fn setting_or(settings: Map<Seq<char>, Seq<char>>, key: Seq<char>, default: Seq<char>) -> Seq<
    char,
> {
    if settings.contains_key(key) {
        settings[key]
    } else {
        default
    }
}

/// Something that holds settings.
pub trait Configurable {
    /// The settings, each name with its text.
    spec fn settings(&self) -> Map<Seq<char>, Seq<char>>;

    /// Sets `key` to `value`, replacing an earlier value.
    fn set_config(&mut self, key: &str, value: String)
        ensures
            final(self).settings() == old(self).settings().insert(key@, value@),
    ;

    /// The value of `key`, if it is set.
    fn get_config(&self, key: &str) -> (r: Option<&String>)
        ensures
            match r {
                Some(value) => self.settings().contains_key(key@) && self.settings()[key@] == value@,
                None => !self.settings().contains_key(key@),
            },
    ;

    /// Takes the settings of the file at `path`.
    fn load_from_file(&mut self, path: &str) -> (r: Result<(), String>)
        ensures
            r is Ok,
            final(self).settings() == loaded(old(self).settings()),
    ;

    /// The value of `key`, or `default` where it is not set.
    fn get_config_or_default(&self, key: &str, default: &str) -> (r: String)
        ensures
            r@ == setting_or(self.settings(), key@, default@),
    {
        match self.get_config(key) {
            Some(value) => value.clone(),
            None => default.to_owned(),
        }
    }
}

/// An application with its settings.
pub struct Application {
    config: StringHashMap<String>,
}

impl Application {
    /// The settings, each name with its text.
    pub closed spec fn view(&self) -> Map<Seq<char>, Seq<char>> {
        texts(self.config@)
    }

    /// An application without settings.
    pub fn new() -> (app: Application)
        ensures
            app@ == Map::<Seq<char>, Seq<char>>::empty(),
    {
        let app = Application { config: StringHashMap::new() };
        app
    }
}

impl Configurable for Application {
    open spec fn settings(&self) -> Map<Seq<char>, Seq<char>> {
        self@
    }

    fn set_config(&mut self, key: &str, value: String) {
        self.config.insert(key.to_owned(), value);
    }

    fn get_config(&self, key: &str) -> (r: Option<&String>) {
        self.config.get(key)
    }

    /// No file is read: the two settings are fixed.
    fn load_from_file(&mut self, path: &str) -> (r: Result<(), String>) {
        self.set_config("debug", "true".to_owned());
        self.set_config("port", "8080".to_owned());
        Ok(())
    }
}

} // verus!
