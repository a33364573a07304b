//! File names of shared libraries.

use vstd::prelude::*;

use crate::platform::Platform;

verus! {

/// `name` with every hyphen replaced by an underscore.
pub open spec fn underscored(name: Seq<char>) -> Seq<char> {
    Seq::new(
        name.len(),
        |i: int|
            if name[i] == '-' {
                '_'
            } else {
                name[i]
            },
    )
}

/// What a shared library's file name starts with on `platform`.
pub open spec fn lib_prefix(platform: Platform) -> Seq<char> {
    match platform {
        Platform::Windows => Seq::empty(),
        Platform::MacOs | Platform::Other => "lib"@,
    }
}

/// The extension, dot included, of a shared library on `platform`.
pub open spec fn lib_suffix(platform: Platform) -> Seq<char> {
    match platform {
        Platform::Windows => ".dll"@,
        Platform::MacOs => ".dylib"@,
        Platform::Other => ".so"@,
    }
}

/// File name of the shared library built from the package `name`.
pub open spec fn libname(name: Seq<char>, platform: Platform) -> Seq<char> {
    lib_prefix(platform) + underscored(name) + lib_suffix(platform)
}

/// Appends `name` to `out`, writing an underscore for each hyphen.
fn append_underscored(out: &mut String, name: &str)
    ensures
        final(out)@ == old(out)@ + underscored(name@),
{
    let ghost before = out@;
    for c in it: name.chars()
        invariant
            it.seq() == name@,
            out@ == before + underscored(name@).take(it.index() as int),
    {
        if c == '-' {
            out.push('_');
        } else {
            out.push(c);
        }
        assert(underscored(name@).take(it.index() + 1) =~= underscored(name@).take(
            it.index() as int,
        ).push(underscored(name@)[it.index() as int]));
    }
    assert(underscored(name@).take(name@.len() as int) =~= underscored(name@));
}

/// The file name under which the shared library of package `name` is built for
/// `platform`: hyphens become underscores, and the platform decides what
/// stands before and after.
///
/// Every name is accepted. The result holds no hyphen, ends with the
/// platform's extension, and begins with `lib` everywhere but on Windows.
pub fn pkgname_to_libname(name: &str, platform: Platform) -> (file: String)
    ensures
        file@ == libname(name@, platform),
        forall|i: int| 0 <= i < file@.len() ==> file@[i] != '-',
        lib_suffix(platform).is_suffix_of(file@),
        platform != Platform::Windows ==> "lib"@.is_prefix_of(file@),
{
    let mut file = String::new();
    match platform {
        Platform::Windows => {},
        Platform::MacOs | Platform::Other => {
            file.append("lib");
        },
    }
    append_underscored(&mut file, name);
    match platform {
        Platform::Windows => file.append(".dll"),
        Platform::MacOs => file.append(".dylib"),
        Platform::Other => file.append(".so"),
    }
    proof {
        assert(file@ =~= libname(name@, platform));
        lemma_libname_shape(name@, platform);
    }
    file
}

/// The shape of every library file name, whatever the package is called: it
/// holds no hyphen; it ends with the platform's extension; the package name
/// with its hyphens replaced stands right before that extension; and it
/// begins with `lib` everywhere but on Windows, where nothing stands before
/// the name.
pub proof fn lemma_libname_shape(name: Seq<char>, platform: Platform)
    ensures
        forall|i: int|
            0 <= i < libname(name, platform).len() ==> #[trigger] libname(name, platform)[i] != '-',
        lib_suffix(platform).is_suffix_of(libname(name, platform)),
        platform != Platform::Windows ==> "lib"@.is_prefix_of(libname(name, platform)),
        platform == Platform::Windows ==> underscored(name).is_prefix_of(libname(name, platform)),
        libname(name, platform).len() == lib_prefix(platform).len() + name.len() + lib_suffix(
            platform,
        ).len(),
        libname(name, platform).subrange(
            lib_prefix(platform).len() as int,
            (lib_prefix(platform).len() + name.len()) as int,
        ) == underscored(name),
{
    reveal_strlit("lib");
    reveal_strlit(".dll");
    reveal_strlit(".dylib");
    reveal_strlit(".so");
    let file = libname(name, platform);
    let front = lib_prefix(platform).len() as int;
    assert(file.subrange(front, front + name.len()) =~= underscored(name));
    assert forall|i: int| 0 <= i < file.len() implies #[trigger] file[i] != '-' by {
        if i < front {
            assert(file[i] == lib_prefix(platform)[i]);
        } else if i < front + name.len() {
            assert(file[i] == underscored(name)[i - front]);
        } else {
            assert(file[i] == lib_suffix(platform)[i - front - name.len()]);
        }
    }
}

} // verus!
