//! Linker directives that let a shared library keep undefined symbols.

use vstd::prelude::*;

use crate::platform::Platform;

verus! {

/// What every directive line starts with: the build tool's instruction that
/// hands one argument to the linker of a shared library.
pub open spec fn directive_prefix() -> Seq<char> {
    "cargo:rustc-cdylib-link-arg="@
}

/// The linker arguments, in order, that `platform` needs.
///
/// The linker of macOS is told to look undefined symbols up dynamically, in two
/// argument tokens. The linker of Windows is forced to finish despite them.
/// Elsewhere shared objects may hold undefined symbols as they are.
pub open spec fn link_args(platform: Platform) -> Seq<Seq<char>> {
    match platform {
        Platform::MacOs => seq!["-undefined"@, "dynamic_lookup"@],
        Platform::Windows => seq!["/FORCE"@],
        Platform::Other => Seq::empty(),
    }
}

/// The directive line that carries the linker argument `arg`.
pub open spec fn directive(arg: Seq<char>) -> Seq<char> {
    directive_prefix() + arg
}

/// The directive lines for `platform`: one per linker argument, in order.
pub open spec fn directives(platform: Platform) -> Seq<Seq<char>> {
    Seq::new(link_args(platform).len(), |i: int| directive(link_args(platform)[i]))
}

/// `args` written one after the other with a single space between neighbours.
pub open spec fn spaced(args: Seq<Seq<char>>) -> Seq<char>
    decreases args.len(),
{
    if args.len() == 0 {
        Seq::empty()
    } else if args.len() == 1 {
        args[0]
    } else {
        spaced(args.drop_last()).push(' ') + args.last()
    }
}

/// The directive line for one linker argument.
pub fn link_directive(arg: &str) -> (line: String)
    ensures
        line@ == directive(arg@),
{
    let mut line = String::from_str("cargo:rustc-cdylib-link-arg=");
    line.append(arg);
    line
}

/// The lines to hand to the build tool, in order, when a plugin-style shared
/// library is built for `platform`. Nothing is printed: the caller writes each
/// line to the build tool's instruction stream.
pub fn buildflags(platform: Platform) -> (lines: Vec<String>)
    ensures
        lines@.len() == directives(platform).len(),
        forall|i: int|
            0 <= i < lines@.len() ==> (#[trigger] lines@[i])@ == directives(platform)[i],
        platform == Platform::Other ==> lines@.len() == 0,
        platform == Platform::Windows ==> lines@.len() == 1 && lines@[0]@
            == "cargo:rustc-cdylib-link-arg=/FORCE"@,
        platform == Platform::MacOs ==> lines@.len() == 2 && lines@[0]@
            == "cargo:rustc-cdylib-link-arg=-undefined"@ && lines@[1]@
            == "cargo:rustc-cdylib-link-arg=dynamic_lookup"@,
{
    let mut lines: Vec<String> = Vec::new();
    match platform {
        Platform::MacOs => {
            lines.push(link_directive("-undefined"));
            lines.push(link_directive("dynamic_lookup"));
        },
        Platform::Windows => {
            lines.push(link_directive("/FORCE"));
        },
        Platform::Other => {},
    }
    proof {
        if platform == Platform::Windows {
            lemma_windows_directive(platform);
        }
        if platform == Platform::MacOs {
            lemma_macos_directives(platform);
        }
    }
    lines
}

/// Where the shared object format tolerates undefined symbols, that is on every
/// platform but macOS and Windows, there is no directive at all.
pub proof fn lemma_no_directives_elsewhere(platform: Platform)
    requires
        platform != Platform::MacOs,
        platform != Platform::Windows,
    ensures
        directives(platform).len() == 0,
{
}

/// Every directive is the common prefix followed by the linker argument it
/// carries, and the directives carry the platform's arguments one by one.
pub proof fn lemma_directives_carry_args(platform: Platform)
    ensures
        directives(platform).len() == link_args(platform).len(),
        forall|i: int|
            0 <= i < directives(platform).len() ==> {
                &&& directive_prefix().is_prefix_of(#[trigger] directives(platform)[i])
                &&& directives(platform)[i].skip(directive_prefix().len() as int) == link_args(
                    platform,
                )[i]
            },
{
    assert forall|i: int| 0 <= i < directives(platform).len() implies {
        &&& directive_prefix().is_prefix_of(#[trigger] directives(platform)[i])
        &&& directives(platform)[i].skip(directive_prefix().len() as int) == link_args(platform)[i]
    } by {
        let line = directives(platform)[i];
        assert(line == directive_prefix() + link_args(platform)[i]);
        assert(line.skip(directive_prefix().len() as int) =~= link_args(platform)[i]);
    }
}

/// On macOS there are two directives, each of them beginning with the common
/// prefix, and the arguments they carry, read in order with a space between
/// them, are `-undefined dynamic_lookup`.
pub proof fn lemma_macos_directives(platform: Platform)
    requires
        platform == Platform::MacOs,
    ensures
        directives(platform).len() == 2,
        forall|i: int|
            0 <= i < directives(platform).len() ==> directive_prefix().is_prefix_of(
                #[trigger] directives(platform)[i],
            ),
        spaced(link_args(platform)) == "-undefined dynamic_lookup"@,
        directives(platform)[0] == "cargo:rustc-cdylib-link-arg=-undefined"@,
        directives(platform)[1] == "cargo:rustc-cdylib-link-arg=dynamic_lookup"@,
{
    let args = link_args(platform);
    lemma_directives_carry_args(platform);
    reveal_strlit("-undefined");
    reveal_strlit("dynamic_lookup");
    reveal_strlit("-undefined dynamic_lookup");
    assert(args.drop_last() =~= seq!["-undefined"@]);
    assert(spaced(args) == "-undefined"@.push(' ') + "dynamic_lookup"@) by {
        reveal_with_fuel(spaced, 2);
    }
    assert(spaced(args) =~= "-undefined dynamic_lookup"@);
    reveal_strlit("cargo:rustc-cdylib-link-arg=");
    reveal_strlit("cargo:rustc-cdylib-link-arg=-undefined");
    reveal_strlit("cargo:rustc-cdylib-link-arg=dynamic_lookup");
    assert(directives(platform)[0] =~= "cargo:rustc-cdylib-link-arg=-undefined"@);
    assert(directives(platform)[1] =~= "cargo:rustc-cdylib-link-arg=dynamic_lookup"@);
}

/// On Windows there is exactly one directive, and it is the line
/// `cargo:rustc-cdylib-link-arg=/FORCE`.
pub proof fn lemma_windows_directive(platform: Platform)
    requires
        platform == Platform::Windows,
    ensures
        directives(platform).len() == 1,
        directives(platform)[0] == "cargo:rustc-cdylib-link-arg=/FORCE"@,
{
    reveal_strlit("cargo:rustc-cdylib-link-arg=");
    reveal_strlit("/FORCE");
    reveal_strlit("cargo:rustc-cdylib-link-arg=/FORCE");
    assert(directives(platform)[0] =~= "cargo:rustc-cdylib-link-arg=/FORCE"@);
}

} // verus!
