use strict_linking::style::LinkerArgStyle;

#[test]
fn apple_vendor_selects_the_bsd_linker() {
    assert_eq!(LinkerArgStyle::detect(Some("apple"), None), LinkerArgStyle::BsdLd);
}

#[test]
fn apple_vendor_wins_over_any_environment() {
    assert_eq!(LinkerArgStyle::detect(Some("apple"), Some("msvc")), LinkerArgStyle::BsdLd);
    assert_eq!(LinkerArgStyle::detect(Some("apple"), Some("gnu")), LinkerArgStyle::BsdLd);
    assert_eq!(LinkerArgStyle::detect(Some("apple"), Some("")), LinkerArgStyle::BsdLd);
    assert_eq!(LinkerArgStyle::detect(Some("apple"), Some("musl")), LinkerArgStyle::BsdLd);
}

#[test]
fn msvc_environment_selects_msvc() {
    assert_eq!(LinkerArgStyle::detect(None, Some("msvc")), LinkerArgStyle::Msvc);
    assert_eq!(LinkerArgStyle::detect(Some("pc"), Some("msvc")), LinkerArgStyle::Msvc);
}

#[test]
fn gnu_environment_selects_gcc() {
    assert_eq!(LinkerArgStyle::detect(None, Some("gnu")), LinkerArgStyle::Gcc);
    assert_eq!(LinkerArgStyle::detect(Some("unknown"), Some("gnu")), LinkerArgStyle::Gcc);
}

#[test]
fn unknown_target_defaults_to_the_bsd_linker() {
    assert_eq!(LinkerArgStyle::detect(None, None), LinkerArgStyle::BsdLd);
    assert_eq!(LinkerArgStyle::detect(Some("unknown"), Some("musl")), LinkerArgStyle::BsdLd);
    assert_eq!(LinkerArgStyle::detect(Some("pc"), None), LinkerArgStyle::BsdLd);
    assert_eq!(LinkerArgStyle::detect(None, Some("")), LinkerArgStyle::BsdLd);
}

#[test]
fn names_are_compared_exactly() {
    assert_eq!(LinkerArgStyle::detect(Some("Apple"), Some("gnu")), LinkerArgStyle::Gcc);
    assert_eq!(LinkerArgStyle::detect(Some("apple "), Some("msvc")), LinkerArgStyle::Msvc);
    assert_eq!(LinkerArgStyle::detect(None, Some("gnueabihf")), LinkerArgStyle::BsdLd);
    assert_eq!(LinkerArgStyle::detect(None, Some("MSVC")), LinkerArgStyle::BsdLd);
}
