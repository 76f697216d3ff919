//! Target resolution: from a compiler target identifier to the native
//! toolchain's target and the file name of the dynamic library.
use vstd::prelude::*;

use crate::text::{contains_text, ends_with, has_infix, same_text, starts_with};

verus! {

/// The operating-system family of a target, as far as dynamic library
/// naming goes.
#[derive(Debug, Clone, Copy, PartialEq, Eq, Structural)]
pub enum TargetFamily {
    Windows,
    Apple,
    Unix,
}

/// The well-known targets: each identifier with its toolchain target and
/// its family.
pub open spec fn known_target(t: Seq<char>) -> Option<(Seq<char>, TargetFamily)> {
    if t == "x86_64-pc-windows-msvc"@ {
        Some(("x86_64-windows-msvc"@, TargetFamily::Windows))
    } else if t == "i686-pc-windows-msvc"@ {
        Some(("i686-windows-msvc"@, TargetFamily::Windows))
    } else if t == "aarch64-pc-windows-msvc"@ {
        Some(("aarch64-windows-msvc"@, TargetFamily::Windows))
    } else if t == "x86_64-pc-windows-gnu"@ {
        Some(("x86_64-windows-gnu"@, TargetFamily::Windows))
    } else if t == "i686-pc-windows-gnu"@ {
        Some(("i686-windows-gnu"@, TargetFamily::Windows))
    } else if t == "x86_64-unknown-linux-gnu"@ {
        Some(("x86_64-linux-gnu"@, TargetFamily::Unix))
    } else if t == "i686-unknown-linux-gnu"@ {
        Some(("i686-linux-gnu"@, TargetFamily::Unix))
    } else if t == "aarch64-unknown-linux-gnu"@ {
        Some(("aarch64-linux-gnu"@, TargetFamily::Unix))
    } else if t == "arm-unknown-linux-gnueabihf"@ {
        Some(("arm-linux-gnueabihf"@, TargetFamily::Unix))
    } else if t == "x86_64-unknown-linux-musl"@ {
        Some(("x86_64-linux-musl"@, TargetFamily::Unix))
    } else if t == "aarch64-unknown-linux-musl"@ {
        Some(("aarch64-linux-musl"@, TargetFamily::Unix))
    } else if t == "x86_64-apple-darwin"@ {
        Some(("x86_64-macos"@, TargetFamily::Apple))
    } else if t == "aarch64-apple-darwin"@ {
        Some(("aarch64-macos"@, TargetFamily::Apple))
    } else if t == "aarch64-apple-ios"@ {
        Some(("aarch64-ios"@, TargetFamily::Apple))
    } else if t == "x86_64-apple-ios"@ {
        Some(("x86_64-ios"@, TargetFamily::Apple))
    } else if t == "x86_64-unknown-freebsd"@ {
        Some(("x86_64-freebsd"@, TargetFamily::Unix))
    } else if t == "wasm32-unknown-unknown"@ {
        Some(("wasm32-freestanding"@, TargetFamily::Unix))
    } else if t == "wasm32-wasi"@ {
        Some(("wasm32-wasi"@, TargetFamily::Unix))
    } else {
        None
    }
}

/// The toolchain target of a well-known identifier.
fn lookup_known_target(t: &str) -> (r: Option<&'static str>)
    ensures
        match known_target(t@) {
            Some((z, _)) => r matches Some(s) && s@ == z,
            None => r is None,
        },
{
    if same_text(t, "x86_64-pc-windows-msvc") {
        Some("x86_64-windows-msvc")
    } else if same_text(t, "i686-pc-windows-msvc") {
        Some("i686-windows-msvc")
    } else if same_text(t, "aarch64-pc-windows-msvc") {
        Some("aarch64-windows-msvc")
    } else if same_text(t, "x86_64-pc-windows-gnu") {
        Some("x86_64-windows-gnu")
    } else if same_text(t, "i686-pc-windows-gnu") {
        Some("i686-windows-gnu")
    } else if same_text(t, "x86_64-unknown-linux-gnu") {
        Some("x86_64-linux-gnu")
    } else if same_text(t, "i686-unknown-linux-gnu") {
        Some("i686-linux-gnu")
    } else if same_text(t, "aarch64-unknown-linux-gnu") {
        Some("aarch64-linux-gnu")
    } else if same_text(t, "arm-unknown-linux-gnueabihf") {
        Some("arm-linux-gnueabihf")
    } else if same_text(t, "x86_64-unknown-linux-musl") {
        Some("x86_64-linux-musl")
    } else if same_text(t, "aarch64-unknown-linux-musl") {
        Some("aarch64-linux-musl")
    } else if same_text(t, "x86_64-apple-darwin") {
        Some("x86_64-macos")
    } else if same_text(t, "aarch64-apple-darwin") {
        Some("aarch64-macos")
    } else if same_text(t, "aarch64-apple-ios") {
        Some("aarch64-ios")
    } else if same_text(t, "x86_64-apple-ios") {
        Some("x86_64-ios")
    } else if same_text(t, "x86_64-unknown-freebsd") {
        Some("x86_64-freebsd")
    } else if same_text(t, "wasm32-unknown-unknown") {
        Some("wasm32-freestanding")
    } else if same_text(t, "wasm32-wasi") {
        Some("wasm32-wasi")
    } else {
        None
    }
}

/// The fields of an identifier between dashes, in order; an identifier
/// without a dash is one field.
pub open spec fn dash_fields(s: Seq<char>) -> Seq<Seq<char>>
    decreases s.len(),
{
    if s.len() == 0 {
        seq![Seq::empty()]
    } else {
        let f = dash_fields(s.drop_last());
        if s.last() == '-' {
            f.push(Seq::empty())
        } else {
            f.update(f.len() - 1, f.last().push(s.last()))
        }
    }
}

proof fn lemma_dash_fields_nonempty(s: Seq<char>)
    ensures
        dash_fields(s).len() >= 1,
    decreases s.len(),
{
    if s.len() > 0 {
        lemma_dash_fields_nonempty(s.drop_last());
    }
}

/// Splits an identifier at every dash.
fn split_dashes(t: &str) -> (r: Vec<&str>)
    ensures
        r@.map_values(|f: &str| f@) == dash_fields(t@),
{
    let n = t.unicode_len();
    let mut fields: Vec<&str> = Vec::new();
    let mut start: usize = 0;
    let mut i: usize = 0;
    assert(t@.subrange(0, 0) =~= Seq::<char>::empty());
    assert(fields@.map_values(|f: &str| f@).push(t@.subrange(0, 0)) =~= dash_fields(t@.subrange(0, 0)));
    while i < n
        invariant
            n == t@.len(),
            start <= i <= n,
            fields@.map_values(|f: &str| f@).push(t@.subrange(start as int, i as int)) == dash_fields(
                t@.subrange(0, i as int),
            ),
        decreases n - i,
    {
        let c = t.get_char(i);
        proof {
            lemma_dash_fields_nonempty(t@.subrange(0, i as int));
            assert(t@.subrange(0, i + 1).drop_last() =~= t@.subrange(0, i as int));
        }
        if c == '-' {
            let field = t.substring_char(start, i);
            let ghost before = fields@;
            fields.push(field);
            proof {
                assert(fields@.map_values(|f: &str| f@) =~= before.map_values(|f: &str| f@).push(field@));
                assert(t@.subrange(i + 1, i + 1) =~= Seq::<char>::empty());
            }
            start = i + 1;
        } else {
            proof {
                assert(t@.subrange(start as int, i + 1) =~= t@.subrange(start as int, i as int).push(c));
                let prev = fields@.map_values(|f: &str| f@).push(t@.subrange(start as int, i as int));
                assert(prev.update(prev.len() - 1, prev.last().push(c)) =~= fields@.map_values(
                    |f: &str| f@,
                ).push(t@.subrange(start as int, i + 1)));
            }
        }
        i = i + 1;
    }
    let last = t.substring_char(start, n);
    let ghost before = fields@;
    fields.push(last);
    proof {
        assert(fields@.map_values(|f: &str| f@) =~= before.map_values(|f: &str| f@).push(last@));
        assert(t@.subrange(0, n as int) =~= t@);
    }
    fields
}

/// The toolchain's operating system for the fields of an identifier that
/// is not well known: the third field of four or more, else the second;
/// a vendor field (`pc`, `unknown`) defers to a fourth field naming
/// Windows; anything unrecognised is Linux.
pub open spec fn heuristic_os(parts: Seq<Seq<char>>) -> Seq<char> {
    let os_part = if parts.len() > 3 {
        parts[2]
    } else {
        parts[1]
    };
    if os_part == "pc"@ || os_part == "unknown"@ {
        if parts.len() > 3 && parts[3] == "windows"@ {
            "windows"@
        } else {
            "linux"@
        }
    } else if os_part == "apple"@ {
        "macos"@
    } else if os_part == "linux"@ || os_part == "windows"@ || os_part == "freebsd"@ || os_part
        == "netbsd"@ || os_part == "openbsd"@ || os_part == "dragonfly"@ || os_part == "wasi"@ {
        os_part
    } else {
        "linux"@
    }
}

/// The toolchain target for a compiler target identifier: the table entry
/// of a well-known identifier; otherwise, with three fields or more, the
/// architecture and the operating system joined by a dash; otherwise the
/// identifier unchanged.
pub open spec fn zig_target(t: Seq<char>) -> Seq<char> {
    match known_target(t) {
        Some((z, _)) => z,
        None => {
            let parts = dash_fields(t);
            if parts.len() >= 3 {
                parts[0] + "-"@ + heuristic_os(parts)
            } else {
                t
            }
        },
    }
}

/// The operating system for the fields of an identifier, by the rule of
/// `heuristic_os`.
fn heuristic_os_of(parts: &Vec<&str>) -> (r: &'static str)
    requires
        parts@.len() >= 3,
    ensures
        r@ == heuristic_os(parts@.map_values(|f: &str| f@)),
{
    let ghost views = parts@.map_values(|f: &str| f@);
    let os_part = if parts.len() > 3 {
        parts[2]
    } else {
        parts[1]
    };
    assert(os_part@ == (if views.len() > 3 { views[2] } else { views[1] }));
    if same_text(os_part, "pc") || same_text(os_part, "unknown") {
        if parts.len() > 3 && same_text(parts[3], "windows") {
            "windows"
        } else {
            "linux"
        }
    } else if same_text(os_part, "apple") {
        "macos"
    } else if same_text(os_part, "linux") {
        "linux"
    } else if same_text(os_part, "windows") {
        "windows"
    } else if same_text(os_part, "freebsd") {
        "freebsd"
    } else if same_text(os_part, "netbsd") {
        "netbsd"
    } else if same_text(os_part, "openbsd") {
        "openbsd"
    } else if same_text(os_part, "dragonfly") {
        "dragonfly"
    } else if same_text(os_part, "wasi") {
        "wasi"
    } else {
        "linux"
    }
}

/// Converts a compiler target identifier to the native toolchain's target.
pub fn convert_rust_target_to_zig(rust_target: &str) -> (r: String)
    ensures
        r@ == zig_target(rust_target@),
{
    if let Some(z) = lookup_known_target(rust_target) {
        return String::from_str(z);
    }
    let parts = split_dashes(rust_target);
    if parts.len() >= 3 {
        let os = heuristic_os_of(&parts);
        String::from_str(parts[0]).concat("-").concat(os)
    } else {
        String::from_str(rust_target)
    }
}

/// The family a target identifier names for library naming: Windows if
/// it mentions `windows`, else Apple if it mentions `apple`, else Unix.
pub open spec fn family_of(t: Seq<char>) -> TargetFamily {
    if has_infix(t, "windows"@) {
        TargetFamily::Windows
    } else if has_infix(t, "apple"@) {
        TargetFamily::Apple
    } else {
        TargetFamily::Unix
    }
}

/// The dynamic library's file name in a family.
pub open spec fn library_file_name(f: TargetFamily) -> Seq<char> {
    match f {
        TargetFamily::Windows => "zrraw.dll"@,
        TargetFamily::Apple => "libzrraw.dylib"@,
        TargetFamily::Unix => "libzrraw.so"@,
    }
}

/// The same file name without the `lib` prefix.
pub open spec fn alternate_library_file_name(f: TargetFamily) -> Seq<char> {
    match f {
        TargetFamily::Windows => "zrraw.dll"@,
        TargetFamily::Apple => "zrraw.dylib"@,
        TargetFamily::Unix => "zrraw.so"@,
    }
}

/// The file-name extension of dynamic libraries in a family.
pub open spec fn library_extension(f: TargetFamily) -> Seq<char> {
    match f {
        TargetFamily::Windows => ".dll"@,
        TargetFamily::Apple => ".dylib"@,
        TargetFamily::Unix => ".so"@,
    }
}

impl TargetFamily {
    /// The family of a target identifier, by the words it mentions.
    pub fn of_target(target: &str) -> (r: TargetFamily)
        ensures
            r == family_of(target@),
    {
        if contains_text(target, "windows") {
            TargetFamily::Windows
        } else if contains_text(target, "apple") {
            TargetFamily::Apple
        } else {
            TargetFamily::Unix
        }
    }

    /// The dynamic library's file name in this family.
    pub fn library_file_name(&self) -> (r: &'static str)
        ensures
            r@ == library_file_name(*self),
    {
        match self {
            TargetFamily::Windows => "zrraw.dll",
            TargetFamily::Apple => "libzrraw.dylib",
            TargetFamily::Unix => "libzrraw.so",
        }
    }

    /// The dynamic library's file name without the `lib` prefix.
    pub fn alternate_library_file_name(&self) -> (r: &'static str)
        ensures
            r@ == alternate_library_file_name(*self),
    {
        match self {
            TargetFamily::Windows => "zrraw.dll",
            TargetFamily::Apple => "zrraw.dylib",
            TargetFamily::Unix => "zrraw.so",
        }
    }
}

/// The dynamic library's file name for a target identifier.
pub fn get_dynamic_lib_name(target: &str) -> (r: &'static str)
    ensures
        r@ == library_file_name(family_of(target@)),
{
    TargetFamily::of_target(target).library_file_name()
}

#[verifier::rlimit(50)]
proof fn lemma_known_windows_targets(t: Seq<char>)
    requires
        t == "x86_64-pc-windows-msvc"@
        || t == "i686-pc-windows-msvc"@
        || t == "aarch64-pc-windows-msvc"@
        || t == "x86_64-pc-windows-gnu"@
        || t == "i686-pc-windows-gnu"@,
    ensures
        zig_target(t).len() > 0,
        family_of(t) == TargetFamily::Windows,
{
    reveal_strlit("windows");
    reveal_strlit("apple");
    reveal_with_fuel(has_infix, 30);
    reveal_with_fuel(starts_with, 8);
    if t == "x86_64-pc-windows-msvc"@ {
        reveal_strlit("x86_64-pc-windows-msvc");
        reveal_strlit("x86_64-windows-msvc");
    } else if t == "i686-pc-windows-msvc"@ {
        reveal_strlit("i686-pc-windows-msvc");
        reveal_strlit("i686-windows-msvc");
    } else if t == "aarch64-pc-windows-msvc"@ {
        reveal_strlit("aarch64-pc-windows-msvc");
        reveal_strlit("aarch64-windows-msvc");
    } else if t == "x86_64-pc-windows-gnu"@ {
        reveal_strlit("x86_64-pc-windows-gnu");
        reveal_strlit("x86_64-windows-gnu");
    } else if t == "i686-pc-windows-gnu"@ {
        reveal_strlit("i686-pc-windows-gnu");
        reveal_strlit("i686-windows-gnu");
    }
}

#[verifier::rlimit(100)]
proof fn lemma_known_other_targets(t: Seq<char>)
    requires
        known_target(t) matches Some((_, f)) && f != TargetFamily::Windows,
    ensures
        zig_target(t).len() > 0,
        family_of(t) == known_target(t).unwrap().1,
{
    reveal_strlit("windows");
    reveal_strlit("apple");
    reveal_strlit("x86_64-pc-windows-msvc");
    reveal_strlit("i686-pc-windows-msvc");
    reveal_strlit("aarch64-pc-windows-msvc");
    reveal_strlit("x86_64-pc-windows-gnu");
    reveal_strlit("i686-pc-windows-gnu");
    reveal_strlit("x86_64-unknown-linux-gnu");
    reveal_strlit("i686-unknown-linux-gnu");
    reveal_strlit("aarch64-unknown-linux-gnu");
    reveal_strlit("arm-unknown-linux-gnueabihf");
    reveal_strlit("x86_64-unknown-linux-musl");
    reveal_strlit("aarch64-unknown-linux-musl");
    reveal_strlit("x86_64-apple-darwin");
    reveal_strlit("aarch64-apple-darwin");
    reveal_strlit("aarch64-apple-ios");
    reveal_strlit("x86_64-apple-ios");
    reveal_strlit("x86_64-unknown-freebsd");
    reveal_strlit("wasm32-unknown-unknown");
    reveal_strlit("wasm32-wasi");
    reveal_with_fuel(has_infix, 30);
    reveal_with_fuel(starts_with, 8);
    if t == "x86_64-unknown-linux-gnu"@ {
        reveal_strlit("x86_64-linux-gnu");
    } else if t == "i686-unknown-linux-gnu"@ {
        reveal_strlit("i686-linux-gnu");
    } else if t == "aarch64-unknown-linux-gnu"@ {
        reveal_strlit("aarch64-linux-gnu");
    } else if t == "arm-unknown-linux-gnueabihf"@ {
        reveal_strlit("arm-linux-gnueabihf");
    } else if t == "x86_64-unknown-linux-musl"@ {
        reveal_strlit("x86_64-linux-musl");
    } else if t == "aarch64-unknown-linux-musl"@ {
        reveal_strlit("aarch64-linux-musl");
    } else if t == "x86_64-apple-darwin"@ {
        reveal_strlit("x86_64-macos");
    } else if t == "aarch64-apple-darwin"@ {
        reveal_strlit("aarch64-macos");
    } else if t == "aarch64-apple-ios"@ {
        reveal_strlit("aarch64-ios");
    } else if t == "x86_64-apple-ios"@ {
        reveal_strlit("x86_64-ios");
    } else if t == "x86_64-unknown-freebsd"@ {
        reveal_strlit("x86_64-freebsd");
    } else if t == "wasm32-unknown-unknown"@ {
        reveal_strlit("wasm32-freestanding");
    } else if t == "wasm32-wasi"@ {
        reveal_strlit("wasm32-wasi");
    }
}

/// Every well-known target resolves to a non-empty toolchain target, and
/// the library file name chosen for it ends in the extension of its
/// operating-system family (`.dll`, `.dylib` or `.so`).
pub proof fn lemma_known_targets_resolve(t: Seq<char>)
    requires
        known_target(t) is Some,
    ensures
        zig_target(t).len() > 0,
        family_of(t) == known_target(t).unwrap().1,
        ends_with(library_file_name(family_of(t)), library_extension(known_target(t).unwrap().1)),
{
    reveal_strlit("zrraw.dll");
    reveal_strlit("libzrraw.dylib");
    reveal_strlit("libzrraw.so");
    reveal_strlit(".dll");
    reveal_strlit(".dylib");
    reveal_strlit(".so");
    assert("zrraw.dll"@.subrange(5, 9) =~= ".dll"@);
    assert("libzrraw.dylib"@.subrange(8, 14) =~= ".dylib"@);
    assert("libzrraw.so"@.subrange(8, 11) =~= ".so"@);
    match known_target(t).unwrap().1 {
        TargetFamily::Windows => lemma_known_windows_targets(t),
        _ => lemma_known_other_targets(t),
    }
}

} // verus!
