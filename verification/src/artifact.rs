//! Where the build places the finished shared library.

use vstd::prelude::*;

use crate::libname::{libname, pkgname_to_libname};
use crate::platform::{Platform, Profile};

verus! {

/// Why the place of the shared library cannot be told.
#[derive(Clone, Copy, Debug, PartialEq, Eq, Structural)]
pub enum LocateError {
    /// The current working directory could not be resolved.
    WorkingDirectoryUnavailable,
    /// The environment does not name the package.
    MissingEnvironment,
}

impl LocateError {
    /// The text of the message for this error.
    pub open spec fn message_text(self) -> Seq<char> {
        match self {
            LocateError::WorkingDirectoryUnavailable =>
                "the current working directory is not available"@,
            LocateError::MissingEnvironment => "the environment does not name the package"@,
        }
    }

    /// What to tell the user before the build step is given up.
    pub fn message(&self) -> (text: String)
        ensures
            text@ == self.message_text(),
    {
        match self {
            LocateError::WorkingDirectoryUnavailable => String::from_str(
                "the current working directory is not available",
            ),
            LocateError::MissingEnvironment => String::from_str(
                "the environment does not name the package",
            ),
        }
    }
}

/// A path as a value: the directory it starts from, taken as it is, and the
/// segments appended to it, outermost first.
pub struct PathModel {
    pub root: Seq<char>,
    pub segments: Seq<Seq<char>>,
}

/// `base` extended by one segment. The platform's separator is put between the
/// two unless `base` is empty or already ends with a separator.
pub open spec fn join(base: Seq<char>, segment: Seq<char>, platform: Platform) -> Seq<char> {
    if base.len() == 0 || platform.separates(base.last()) {
        base + segment
    } else {
        base.push(platform.main_separator()) + segment
    }
}

impl PathModel {
    /// The path without its last segment.
    pub open spec fn parent(self) -> PathModel {
        PathModel { root: self.root, segments: self.segments.drop_last() }
    }

    /// The path written out for `platform`: the root, then each segment joined
    /// to what stands before it.
    pub open spec fn text(self, platform: Platform) -> Seq<char>
        decreases self.segments.len(),
    {
        if self.segments.len() == 0 {
            self.root
        } else {
            join(self.parent().text(platform), self.segments.last(), platform)
        }
    }
}

/// The place of the shared library of package `package` below the working
/// directory `working_dir`: in `target`, then the profile's directory.
pub open spec fn artifact_model(
    working_dir: Seq<char>,
    package: Seq<char>,
    profile: Profile,
    platform: Platform,
) -> PathModel {
    PathModel {
        root: working_dir,
        segments: seq!["target"@, profile.dir_name(), libname(package, platform)],
    }
}

/// The profile's output directory below `working_dir`, written out for
/// `platform`: the working directory, `target` and the profile's name, with
/// one separator between neighbours, but none after a working directory that
/// is empty or ends with a separator already.
pub open spec fn profile_dir_text(
    working_dir: Seq<char>,
    profile: Profile,
    platform: Platform,
) -> Seq<char> {
    let below = "target"@.push(platform.main_separator()) + profile.dir_name();
    if working_dir.len() == 0 || platform.separates(working_dir.last()) {
        working_dir + below
    } else {
        working_dir.push(platform.main_separator()) + below
    }
}

/// The path of a build artifact: a root directory and the segments below it.
#[derive(Debug, PartialEq, Eq)]
pub struct ArtifactPath {
    pub root: String,
    pub segments: Vec<String>,
}

impl View for ArtifactPath {
    type V = PathModel;

    open spec fn view(&self) -> PathModel {
        PathModel { root: self.root@, segments: self.segments.deep_view() }
    }
}

impl Clone for ArtifactPath {
    fn clone(&self) -> (copy: ArtifactPath)
        ensures
            copy@ == self@,
    {
        let mut segments: Vec<String> = Vec::new();
        for i in 0..self.segments.len()
            invariant
                segments@.len() == i,
                forall|j: int| 0 <= j < i ==> (#[trigger] segments@[j])@ == self.segments@[j]@,
        {
            segments.push(self.segments[i].clone());
        }
        assert(segments.deep_view() =~= self.segments.deep_view());
        ArtifactPath { root: self.root.clone(), segments }
    }
}

impl ArtifactPath {
    /// Drops the last segment, if there is one, and says whether there was.
    pub fn pop(&mut self) -> (popped: bool)
        ensures
            popped == (old(self)@.segments.len() > 0),
            final(self)@ == (if popped {
                old(self)@.parent()
            } else {
                old(self)@
            }),
    {
        let last = self.segments.pop();
        proof {
            assert(self@.root == old(self)@.root);
            if last is Some {
                assert(self@.segments =~= old(self)@.segments.drop_last());
            } else {
                assert(self@.segments =~= old(self)@.segments);
            }
        }
        last.is_some()
    }

    /// The path as text, with the separators of `platform`.
    pub fn to_text(&self, platform: Platform) -> (text: String)
        ensures
            text@ == self@.text(platform),
    {
        let mut text = self.root.clone();
        let ghost segments = self@.segments;
        for i in 0..self.segments.len()
            invariant
                segments == self@.segments,
                text@ == (PathModel { root: self@.root, segments: segments.take(i as int) }).text(
                    platform,
                ),
        {
            let ghost before = PathModel { root: self@.root, segments: segments.take(i as int) };
            let ghost after = PathModel { root: self@.root, segments: segments.take(i + 1) };
            proof {
                assert(after.segments.drop_last() =~= before.segments);
                assert(after.parent() == before);
                assert(after.segments.last() == self.segments[i as int]@);
            }
            let length = text.as_str().unicode_len();
            if length > 0 && !platform.is_separator(text.as_str().get_char(length - 1)) {
                text.push(platform.separator());
            }
            text.append(self.segments[i].as_str());
        }
        proof {
            assert(segments.take(self.segments.len() as int) =~= segments);
        }
        text
    }
}

/// The path at which the build places the shared library of a package.
///
/// `working_dir` is the current working directory, `None` where it could not
/// be resolved; `package_name` is the package's name as the environment gives
/// it, `None` where it gives none. Nothing on disk is looked at. A missing
/// working directory is reported before a missing package name.
pub fn cdylib_path(
    working_dir: Option<&str>,
    package_name: Option<&str>,
    profile: Profile,
    platform: Platform,
) -> (located: Result<ArtifactPath, LocateError>)
    ensures
        working_dir is None ==> located == Err::<ArtifactPath, LocateError>(
            LocateError::WorkingDirectoryUnavailable,
        ),
        working_dir is Some && package_name is None ==> located == Err::<
            ArtifactPath,
            LocateError,
        >(LocateError::MissingEnvironment),
        working_dir is Some && package_name is Some ==> {
            &&& located is Ok
            &&& located->Ok_0@ == artifact_model(
                working_dir->Some_0@,
                package_name->Some_0@,
                profile,
                platform,
            )
            &&& located->Ok_0@.parent().text(platform) == profile_dir_text(
                working_dir->Some_0@,
                profile,
                platform,
            )
        },
{
    let dir = match working_dir {
        Some(dir) => dir,
        None => {
            return Err(LocateError::WorkingDirectoryUnavailable);
        },
    };
    let package = match package_name {
        Some(package) => package,
        None => {
            return Err(LocateError::MissingEnvironment);
        },
    };
    let mut segments: Vec<String> = Vec::new();
    segments.push(String::from_str("target"));
    segments.push(String::from_str(profile.dir_str()));
    segments.push(pkgname_to_libname(package, platform));
    let path = ArtifactPath { root: String::from_str(dir), segments };
    proof {
        assert(path@.segments =~= artifact_model(dir@, package@, profile, platform).segments);
        lemma_artifact_parent(dir@, package@, profile, platform);
    }
    Ok(path)
}

/// The shared library lies in the profile's directory below `target` below the
/// working directory, and nowhere else.
///
/// Its parent has the working directory as root and exactly the two segments
/// `target` and the profile's name. Written out, the parent is the working
/// directory, `target` and the profile's name with a single separator between
/// neighbours (none after a working directory that is empty or ends with one
/// already), and it does not end with a separator. The whole path is the
/// parent, one separator and the library's file name. Both begin with the
/// working directory as it was given, so the path is absolute where the
/// working directory is.
pub proof fn lemma_artifact_parent(
    working_dir: Seq<char>,
    package: Seq<char>,
    profile: Profile,
    platform: Platform,
)
    ensures
        ({
            let path = artifact_model(working_dir, package, profile, platform);
            let dir = path.parent();
            let sep = platform.main_separator();
            &&& dir == (PathModel {
                root: working_dir,
                segments: seq!["target"@, profile.dir_name()],
            })
            &&& dir.text(platform) == profile_dir_text(working_dir, profile, platform)
            &&& dir.text(platform).len() > 0
            &&& !platform.separates(dir.text(platform).last())
            &&& path.text(platform) == dir.text(platform).push(sep) + libname(package, platform)
            &&& working_dir.is_prefix_of(dir.text(platform))
            &&& working_dir.is_prefix_of(path.text(platform))
        }),
{
    let path = artifact_model(working_dir, package, profile, platform);
    let dir = path.parent();
    let top = dir.parent();
    let sep = platform.main_separator();
    let below = "target"@.push(sep) + profile.dir_name();
    reveal_strlit("target");
    reveal_strlit("debug");
    reveal_strlit("release");
    assert(dir.segments =~= seq!["target"@, profile.dir_name()]);
    assert(top.segments =~= seq!["target"@]);
    assert(top.parent().segments =~= Seq::<Seq<char>>::empty());
    assert(top.parent().text(platform) == working_dir);
    let first = join(working_dir, "target"@, platform);
    assert(top.text(platform) == first);
    assert(first.len() > 0 && first.last() == 't');
    assert(dir.text(platform) == first.push(sep) + profile.dir_name());
    let second = dir.text(platform);
    if working_dir.len() == 0 || platform.separates(working_dir.last()) {
        assert(second =~= working_dir + below);
    } else {
        assert(second =~= working_dir.push(sep) + below);
    }
    assert(second.last() == profile.dir_name().last());
}

} // verus!
