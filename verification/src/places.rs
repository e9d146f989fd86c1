//! Where the configuration file and the recorded tasks are kept.

use std::path::PathBuf;
use vstd::prelude::*;

verus! {

/// The systems that keep things in different places.
#[derive(Clone, Copy, Debug, PartialEq, Eq, Structural)]
pub enum Platform {
    Windows,
    MacOs,
    Other,
}

/// What the program finds out about its surroundings.
pub struct Surroundings {
    pub platform: Platform,
    /// The directory that the program lies in, where it is known.
    pub exe_dir: Option<PathBuf>,
    /// `XDG_DATA_HOME`, where it is set.
    pub data_home: Option<PathBuf>,
    /// `HOME`, where it is set.
    pub home: Option<PathBuf>,
    pub temp_dir: PathBuf,
}

/// A place in the file system: some names below a directory, or below the current
/// directory where there is no base.
#[derive(Debug)]
pub struct Place {
    pub base: Option<PathBuf>,
    pub names: Vec<&'static str>,
}

pub ghost struct PlaceView {
    pub base: Option<PathBuf>,
    pub names: Seq<Seq<char>>,
}

impl View for Place {
    type V = PlaceView;

    open spec fn view(&self) -> PlaceView {
        PlaceView {
            base: self.base,
            names: self.names@.map_values(|name: &'static str| name@),
        }
    }
}

/// A place in another one.
pub open spec fn inside(place: PlaceView, name: Seq<char>) -> PlaceView {
    PlaceView { names: place.names.push(name), ..place }
}

/// A directory, or the current one.
pub open spec fn directory(base: Option<PathBuf>) -> PlaceView {
    PlaceView { base, names: Seq::empty() }
}

impl Place {
    fn directory(base: Option<PathBuf>) -> (r: Place)
        ensures
            r@ == directory(base),
    {
        let r = Place { base, names: Vec::new() };
        assert(r@.names == Seq::<Seq<char>>::empty());
        r
    }

    fn inside(self, name: &'static str) -> (r: Place)
        ensures
            r@ == inside(self@, name@),
    {
        let mut names = self.names;
        names.push(name);
        let r = Place { base: self.base, names };
        assert(r@.names == self@.names.push(name@));
        r
    }
}

pub open spec fn config_name() -> Seq<char> {
    "woosh-viewer.toml"@
}

pub open spec fn history_name() -> Seq<char> {
    "rerun-history"@
}

/// Where the program's own data belong, but on Windows: below the user's directory, or
/// else below the one for temporary files.
pub open spec fn data_place(s: Surroundings) -> PlaceView {
    let base = match s.platform {
        Platform::MacOs => inside(
            inside(
                directory(
                    match s.home {
                        Some(home) => Some(home),
                        None => Some(s.temp_dir),
                    },
                ),
                "Library"@,
            ),
            "Application Support"@,
        ),
        _ => match (s.data_home, s.home) {
            (Some(data_home), _) => directory(Some(data_home)),
            (None, Some(home)) => inside(inside(directory(Some(home)), ".local"@), "share"@),
            (None, None) => directory(Some(s.temp_dir)),
        },
    };
    inside(base, "Woosh"@)
}

/// Where the configuration is saved.
pub open spec fn config_write_place(s: Surroundings) -> PlaceView {
    if s.platform == Platform::MacOs {
        inside(data_place(s), config_name())
    } else {
        inside(directory(s.exe_dir), config_name())
    }
}

/// Where tasks are recorded.
pub open spec fn history_place(s: Surroundings) -> PlaceView {
    if s.platform == Platform::Windows {
        inside(directory(s.exe_dir), history_name())
    } else {
        inside(data_place(s), history_name())
    }
}

/// Where a configuration is looked for, in this order: on macOS where it is saved, then
/// beside the program, then in the current directory.
pub open spec fn config_places(s: Surroundings) -> Seq<PlaceView> {
    let saved = if s.platform == Platform::MacOs {
        seq![config_write_place(s)]
    } else {
        Seq::empty()
    };
    let beside = if s.exe_dir is Some {
        seq![inside(directory(s.exe_dir), config_name())]
    } else {
        Seq::empty()
    };
    (saved + beside).push(inside(directory(None), config_name()))
}

fn copied(path: &Option<PathBuf>) -> (r: Option<PathBuf>)
    ensures
        r == *path,
{
    match path {
        Some(path) => Some(path.clone()),
        None => None,
    }
}

/// Where the program's own data belong. On Windows they lie beside the program.
pub fn platform_data_dir(surroundings: &Surroundings) -> (r: Place)
    requires
        surroundings.platform != Platform::Windows,
    ensures
        r@ == data_place(*surroundings),
{
    let base = match surroundings.platform {
        Platform::MacOs => {
            let user = match &surroundings.home {
                Some(home) => home.clone(),
                None => surroundings.temp_dir.clone(),
            };
            Place::directory(Some(user)).inside("Library").inside("Application Support")
        },
        _ => match (&surroundings.data_home, &surroundings.home) {
            (Some(data_home), _) => Place::directory(Some(data_home.clone())),
            (None, Some(home)) => Place::directory(Some(home.clone())).inside(".local").inside(
                "share",
            ),
            (None, None) => Place::directory(Some(surroundings.temp_dir.clone())),
        },
    };
    base.inside("Woosh")
}

/// Where the configuration is saved.
pub fn default_config_write_path(surroundings: &Surroundings) -> (r: Place)
    ensures
        r@ == config_write_place(*surroundings),
{
    if surroundings.platform == Platform::MacOs {
        platform_data_dir(surroundings).inside("woosh-viewer.toml")
    } else {
        Place::directory(copied(&surroundings.exe_dir)).inside("woosh-viewer.toml")
    }
}

/// Where tasks are recorded.
pub fn default_history_dir(surroundings: &Surroundings) -> (r: Place)
    ensures
        r@ == history_place(*surroundings),
{
    if surroundings.platform == Platform::Windows {
        Place::directory(copied(&surroundings.exe_dir)).inside("rerun-history")
    } else {
        platform_data_dir(surroundings).inside("rerun-history")
    }
}

pub open spec fn place_views(places: Seq<Place>) -> Seq<PlaceView> {
    places.map_values(|place: Place| place@)
}

/// Where a configuration is looked for, the first place first.
pub fn default_config_paths(surroundings: &Surroundings) -> (r: Vec<Place>)
    ensures
        place_views(r@) == config_places(*surroundings),
{
    let mut places: Vec<Place> = Vec::new();
    if surroundings.platform == Platform::MacOs {
        places.push(default_config_write_path(surroundings));
    }
    if surroundings.exe_dir.is_some() {
        places.push(Place::directory(copied(&surroundings.exe_dir)).inside("woosh-viewer.toml"));
    }
    places.push(Place::directory(None).inside("woosh-viewer.toml"));
    assert(place_views(places@) == config_places(*surroundings));
    places
}

/// A saved configuration is found again: the place that it is saved in is the first that
/// is looked at.
pub proof fn law_saved_place_is_looked_at_first(s: Surroundings)
    ensures
        config_places(s).first() == config_write_place(s),
{
}

/// Where the program's own data belong: on macOS in the library below the user's
/// directory, elsewhere in the directory that is set for data, or else in the one that is
/// usual below the user's. Without any of these it is the directory for temporary files.
pub proof fn law_where_data_belong(s: Surroundings)
    requires
        s.platform != Platform::Windows,
    ensures
        ({
            let place = data_place(s);
            &&& s.platform == Platform::MacOs ==> place.base == Some(s.home.unwrap_or(s.temp_dir))
                && place.names == seq!["Library"@, "Application Support"@, "Woosh"@]
            &&& s.platform == Platform::Other && s.data_home is Some ==> place.base == s.data_home
                && place.names == seq!["Woosh"@]
            &&& s.platform == Platform::Other && s.data_home is None && s.home is Some
                ==> place.base == s.home && place.names == seq![".local"@, "share"@, "Woosh"@]
            &&& s.platform == Platform::Other && s.data_home is None && s.home is None
                ==> place.base == Some(s.temp_dir) && place.names == seq!["Woosh"@]
        }),
{
    let none = Seq::<Seq<char>>::empty();
    assert(none.push("Woosh"@) == seq!["Woosh"@]);
    assert(none.push(".local"@).push("share"@).push("Woosh"@) == seq![
        ".local"@,
        "share"@,
        "Woosh"@,
    ]);
    assert(none.push("Library"@).push("Application Support"@).push("Woosh"@) == seq![
        "Library"@,
        "Application Support"@,
        "Woosh"@,
    ]);
}

/// Tasks are recorded beside the program on Windows, and elsewhere among the program's
/// own data; the configuration is saved among these on macOS, and elsewhere beside the
/// program. Where the program lies nobody knows, the current directory takes its place.
pub proof fn law_where_files_are_kept(s: Surroundings)
    ensures
        s.platform == Platform::Windows ==> history_place(s).base == s.exe_dir
            && history_place(s).names == seq!["rerun-history"@],
        s.platform != Platform::Windows ==> history_place(s).base == data_place(s).base
            && history_place(s).names == data_place(s).names.push("rerun-history"@),
        s.platform == Platform::MacOs ==> config_write_place(s).base == data_place(s).base
            && config_write_place(s).names == data_place(s).names.push("woosh-viewer.toml"@),
        s.platform != Platform::MacOs ==> config_write_place(s).base == s.exe_dir
            && config_write_place(s).names == seq!["woosh-viewer.toml"@],
{
    let none = Seq::<Seq<char>>::empty();
    assert(none.push("rerun-history"@) == seq!["rerun-history"@]);
    assert(none.push("woosh-viewer.toml"@) == seq!["woosh-viewer.toml"@]);
}

/// A configuration is looked for where it is saved, beside the program and in the
/// current directory, the last of these at the end, and nowhere else.
pub proof fn law_where_the_configuration_is_looked_for(s: Surroundings, i: int)
    requires
        0 <= i < config_places(s).len(),
    ensures
        ({
            let name = seq!["woosh-viewer.toml"@];
            let here = PlaceView { base: None, names: name };
            let beside = PlaceView { base: s.exe_dir, names: name };
            &&& config_places(s).last() == here
            &&& s.exe_dir is Some ==> config_places(s).contains(beside)
            &&& config_places(s)[i] == here || config_places(s)[i] == beside || config_places(s)[i]
                == config_write_place(s)
        }),
{
    let none = Seq::<Seq<char>>::empty();
    let name = seq!["woosh-viewer.toml"@];
    assert(none.push("woosh-viewer.toml"@) == name);
    let places = config_places(s);
    if s.exe_dir is Some {
        let k = if s.platform == Platform::MacOs {
            1
        } else {
            0int
        };
        assert(places[k] == (PlaceView { base: s.exe_dir, names: name }));
    }
}

} // verus!
