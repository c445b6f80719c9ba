use fork_core::settings::{initialize_settings, window_geometry, window_geometry_or_default};

fn args(list: &[&str]) -> Vec<String> {
    list.iter().map(|s| String::from(*s)).collect()
}

#[test]
fn no_geometry_argument_gives_the_default() {
    assert_eq!(window_geometry(&args(&[])), Ok((100, 50)));
    assert_eq!(
        window_geometry(&args(&["program", "--fullscreen"])),
        Ok((100, 50))
    );
}

#[test]
fn a_well_formed_geometry_is_parsed() {
    assert_eq!(
        window_geometry(&args(&["--geometry=80x24"])),
        Ok((80, 24))
    );
    assert_eq!(
        window_geometry(&args(&["x", "--geometry=007x1"])),
        Ok((7, 1))
    );
}

#[test]
fn the_first_geometry_argument_wins() {
    assert_eq!(
        window_geometry(&args(&["--geometry=10x10", "--geometry=20x20"])),
        Ok((10, 10))
    );
}

#[test]
fn malformed_geometries_are_rejected() {
    assert!(window_geometry(&args(&["--geometry=80"])).is_err());
    assert!(window_geometry(&args(&["--geometry=80x"])).is_err());
    assert!(window_geometry(&args(&["--geometry=x24"])).is_err());
    assert!(window_geometry(&args(&["--geometry=80x24x7"])).is_err());
    assert!(window_geometry(&args(&["--geometry=8Ox24"])).is_err());
    assert!(window_geometry(&args(&["--geometry="])).is_err());
}

#[test]
fn zero_dimensions_are_rejected() {
    assert!(window_geometry(&args(&["--geometry=0x24"])).is_err());
    assert!(window_geometry(&args(&["--geometry=80x0"])).is_err());
}

#[test]
fn oversized_dimensions_are_rejected() {
    assert!(window_geometry(&args(&["--geometry=99999999999999999999999x5"])).is_err());
    // The largest machine word still fits.
    assert_eq!(
        window_geometry(&args(&["--geometry=18446744073709551615x1"])),
        Ok((18446744073709551615, 1))
    );
}

#[test]
fn the_default_covers_malformed_geometries_too() {
    assert_eq!(
        window_geometry_or_default(&args(&["--geometry=80x"])),
        (100, 50)
    );
    assert_eq!(
        window_geometry_or_default(&args(&["--geometry=80x24"])),
        (80, 24)
    );
}

#[test]
fn initial_settings_read_the_idle_flag() {
    let s = initialize_settings(&args(&["nvim", "--noIdle"]));
    assert_eq!(s.refresh_rate, 60);
    assert_eq!(s.transparency_milli, 1000);
    assert!(!s.fullscreen);
    assert!(s.no_idle);
    let s = initialize_settings(&args(&["nvim"]));
    assert!(!s.no_idle);
    let s = initialize_settings(&args(&["--noidle"]));
    assert!(!s.no_idle, "the flag is case-sensitive");
}
