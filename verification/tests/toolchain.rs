use aftman::system::toolchain::Toolchain;

#[test]
fn detect_msvc() {
    assert_eq!(Toolchain::detect("x86_64-pc-windows-msvc"), Some(Toolchain::Msvc));
}

#[test]
fn detect_gnu() {
    assert_eq!(Toolchain::detect("x86_64-unknown-linux-gnu"), Some(Toolchain::Gnu));
}

#[test]
fn detect_musl() {
    assert_eq!(Toolchain::detect("aarch64-unknown-linux-musl"), Some(Toolchain::Musl));
}

#[test]
fn detect_unknown() {
    assert_eq!(Toolchain::detect("wasm32-unknown-unknown"), None);
}

#[test]
fn detect_precedence_msvc_over_gnu() {
    assert_eq!(Toolchain::detect("GNU-MSVC-hybrid"), Some(Toolchain::Msvc));
}

#[test]
fn detect_precedence_gnu_over_musl() {
    assert_eq!(Toolchain::detect("musl-gnu"), Some(Toolchain::Gnu));
}

#[test]
fn detect_is_ascii_case_insensitive() {
    assert_eq!(Toolchain::detect("MSVC"), Toolchain::detect("msvc"));
    assert_eq!(Toolchain::detect("X86_64-PC-WINDOWS-MSVC"), Some(Toolchain::Msvc));
    assert_eq!(Toolchain::detect("GnU"), Some(Toolchain::Gnu));
    assert_eq!(Toolchain::detect("MuSl"), Some(Toolchain::Musl));
}

#[test]
fn detect_non_ascii_passes_through() {
    assert_eq!(Toolchain::detect("böse-msvc-ümlaut"), Some(Toolchain::Msvc));
    assert_eq!(Toolchain::detect("böse"), None);
}

#[test]
fn detect_empty() {
    assert_eq!(Toolchain::detect(""), None);
}

#[test]
fn current_answers_none() {
    assert_eq!(Toolchain::current(), None);
}
