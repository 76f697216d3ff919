use zrraw::{convert_rust_target_to_zig, get_dynamic_lib_name, TargetFamily};

const KNOWN: [(&str, &str, &str); 18] = [
    ("x86_64-pc-windows-msvc", "x86_64-windows-msvc", ".dll"),
    ("i686-pc-windows-msvc", "i686-windows-msvc", ".dll"),
    ("aarch64-pc-windows-msvc", "aarch64-windows-msvc", ".dll"),
    ("x86_64-pc-windows-gnu", "x86_64-windows-gnu", ".dll"),
    ("i686-pc-windows-gnu", "i686-windows-gnu", ".dll"),
    ("x86_64-unknown-linux-gnu", "x86_64-linux-gnu", ".so"),
    ("i686-unknown-linux-gnu", "i686-linux-gnu", ".so"),
    ("aarch64-unknown-linux-gnu", "aarch64-linux-gnu", ".so"),
    ("arm-unknown-linux-gnueabihf", "arm-linux-gnueabihf", ".so"),
    ("x86_64-unknown-linux-musl", "x86_64-linux-musl", ".so"),
    ("aarch64-unknown-linux-musl", "aarch64-linux-musl", ".so"),
    ("x86_64-apple-darwin", "x86_64-macos", ".dylib"),
    ("aarch64-apple-darwin", "aarch64-macos", ".dylib"),
    ("aarch64-apple-ios", "aarch64-ios", ".dylib"),
    ("x86_64-apple-ios", "x86_64-ios", ".dylib"),
    ("x86_64-unknown-freebsd", "x86_64-freebsd", ".so"),
    ("wasm32-unknown-unknown", "wasm32-freestanding", ".so"),
    ("wasm32-wasi", "wasm32-wasi", ".so"),
];

#[test]
fn known_targets_resolve() {
    for (rust, zig, ext) in KNOWN {
        let t = convert_rust_target_to_zig(rust);
        assert!(!t.is_empty());
        assert_eq!(t, zig);
        assert!(get_dynamic_lib_name(rust).ends_with(ext), "{}", rust);
    }
}

#[test]
fn library_names() {
    assert_eq!(get_dynamic_lib_name("x86_64-pc-windows-msvc"), "zrraw.dll");
    assert_eq!(get_dynamic_lib_name("aarch64-apple-darwin"), "libzrraw.dylib");
    assert_eq!(get_dynamic_lib_name("riscv64gc-unknown-linux-gnu"), "libzrraw.so");
    assert_eq!(get_dynamic_lib_name(""), "libzrraw.so");
    assert_eq!(TargetFamily::Unix.alternate_library_file_name(), "zrraw.so");
    assert_eq!(TargetFamily::Apple.alternate_library_file_name(), "zrraw.dylib");
    assert_eq!(TargetFamily::Windows.library_file_name(), "zrraw.dll");
}

#[test]
fn unknown_four_field_targets() {
    assert_eq!(convert_rust_target_to_zig("riscv64gc-unknown-linux-gnu"), "riscv64gc-linux");
    assert_eq!(convert_rust_target_to_zig("x86_64-unknown-netbsd-x"), "x86_64-netbsd");
    assert_eq!(convert_rust_target_to_zig("aarch64-pc-windows-gnullvm"), "aarch64-windows");
    assert_eq!(convert_rust_target_to_zig("x86_64-uwp-windows-msvc"), "x86_64-windows");
    assert_eq!(convert_rust_target_to_zig("sparc-sun-solaris-x"), "sparc-linux");
}

#[test]
fn unknown_three_field_targets() {
    assert_eq!(convert_rust_target_to_zig("x86_64-unknown-dragonfly"), "x86_64-linux");
    assert_eq!(convert_rust_target_to_zig("x86_64-apple-tvos"), "x86_64-macos");
    assert_eq!(convert_rust_target_to_zig("x86_64-linux-android"), "x86_64-linux");
    assert_eq!(convert_rust_target_to_zig("mips-openbsd-x"), "mips-openbsd");
    assert_eq!(convert_rust_target_to_zig("a--b"), "a-linux");
}

#[test]
fn short_targets_pass_through() {
    assert_eq!(convert_rust_target_to_zig("wasm32-wasip1"), "wasm32-wasip1");
    assert_eq!(convert_rust_target_to_zig("native"), "native");
    assert_eq!(convert_rust_target_to_zig(""), "");
}
