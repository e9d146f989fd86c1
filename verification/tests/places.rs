use std::path::PathBuf;

use woosh_viewer::places::{
    default_config_paths, default_config_write_path, default_history_dir, platform_data_dir, Place,
    Platform, Surroundings,
};

fn surroundings(platform: Platform, exe: bool, data_home: bool, home: bool) -> Surroundings {
    Surroundings {
        platform,
        exe_dir: exe.then_some(PathBuf::from("/program")),
        data_home: data_home.then_some(PathBuf::from("/data")),
        home: home.then_some(PathBuf::from("/home/operator")),
        temp_dir: PathBuf::from("/tmp"),
    }
}

fn path(place: Place) -> String {
    let mut path = match place.base {
        Some(base) => base.display().to_string(),
        None => ".".to_owned(),
    };
    for name in place.names {
        path.push('/');
        path.push_str(name);
    }
    path
}

fn paths(places: Vec<Place>) -> Vec<String> {
    places.into_iter().map(path).collect()
}

#[test]
fn data_are_kept_below_the_users_directory() {
    let on_mac = surroundings(Platform::MacOs, true, true, true);
    assert_eq!(
        path(platform_data_dir(&on_mac)),
        "/home/operator/Library/Application Support/Woosh"
    );
    let homeless = surroundings(Platform::MacOs, true, true, false);
    assert_eq!(
        path(platform_data_dir(&homeless)),
        "/tmp/Library/Application Support/Woosh"
    );
    let with_data_home = surroundings(Platform::Other, true, true, true);
    assert_eq!(path(platform_data_dir(&with_data_home)), "/data/Woosh");
    let with_home = surroundings(Platform::Other, true, false, true);
    assert_eq!(
        path(platform_data_dir(&with_home)),
        "/home/operator/.local/share/Woosh"
    );
    let with_neither = surroundings(Platform::Other, true, false, false);
    assert_eq!(path(platform_data_dir(&with_neither)), "/tmp/Woosh");
}

#[test]
fn tasks_are_recorded_beside_the_program_on_windows() {
    let on_windows = surroundings(Platform::Windows, true, true, true);
    assert_eq!(path(default_history_dir(&on_windows)), "/program/rerun-history");
    let unknown = surroundings(Platform::Windows, false, true, true);
    assert_eq!(path(default_history_dir(&unknown)), "./rerun-history");
    let on_mac = surroundings(Platform::MacOs, true, false, true);
    assert_eq!(
        path(default_history_dir(&on_mac)),
        "/home/operator/Library/Application Support/Woosh/rerun-history"
    );
    let elsewhere = surroundings(Platform::Other, true, true, true);
    assert_eq!(path(default_history_dir(&elsewhere)), "/data/Woosh/rerun-history");
}

#[test]
fn a_saved_configuration_is_looked_at_first() {
    let on_mac = surroundings(Platform::MacOs, true, false, true);
    assert_eq!(
        paths(default_config_paths(&on_mac)),
        vec![
            "/home/operator/Library/Application Support/Woosh/woosh-viewer.toml",
            "/program/woosh-viewer.toml",
            "./woosh-viewer.toml",
        ]
    );
    assert_eq!(
        path(default_config_write_path(&on_mac)),
        "/home/operator/Library/Application Support/Woosh/woosh-viewer.toml"
    );
    for platform in [Platform::Windows, Platform::Other] {
        let known = surroundings(platform, true, true, true);
        assert_eq!(
            paths(default_config_paths(&known)),
            vec!["/program/woosh-viewer.toml", "./woosh-viewer.toml"]
        );
        assert_eq!(
            path(default_config_write_path(&known)),
            "/program/woosh-viewer.toml"
        );
        let unknown = surroundings(platform, false, true, true);
        assert_eq!(
            paths(default_config_paths(&unknown)),
            vec!["./woosh-viewer.toml"]
        );
        assert_eq!(
            path(default_config_write_path(&unknown)),
            "./woosh-viewer.toml"
        );
    }
}
