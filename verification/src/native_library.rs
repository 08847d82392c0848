//! Choosing the prebuilt archive of the native library for a build target,
//! and finding the libraries to link in it.

use vstd::prelude::*;

use crate::bytes::str_equal;

verus! {

/// Appends a string slice to a string, as the documentation of
/// `String::push_str` says.
pub assume_specification[ String::push_str ](text: &mut String, tail: &str)
    ensures
        final(text)@ == old(text)@ + tail@,
;

/// The operating system that the library is built for.
#[derive(Clone, Copy, Debug, PartialEq, Eq, Structural)]
pub enum TargetOS {
    Macos,
    Windows,
    Linux,
}

impl TargetOS {
    /// The operating system with the given name: `macos`, `windows` or
    /// `linux`.
    pub open spec fn named(name: Seq<char>) -> Option<TargetOS> {
        if name == "macos"@ {
            Some(TargetOS::Macos)
        } else if name == "windows"@ {
            Some(TargetOS::Windows)
        } else if name == "linux"@ {
            Some(TargetOS::Linux)
        } else {
            None
        }
    }

    /// The name of the operating system in the names of archives.
    pub open spec fn name_of(self) -> Seq<char> {
        match self {
            TargetOS::Macos => "macos"@,
            TargetOS::Windows => "windows"@,
            TargetOS::Linux => "linux"@,
        }
    }

    /// Finds the operating system by the name that the build gives it. Any
    /// other operating system is not supported.
    pub fn new(name: &str) -> (os: Option<TargetOS>)
        ensures
            os == Self::named(name@),
    {
        if str_equal(name, "macos") {
            Some(TargetOS::Macos)
        } else if str_equal(name, "windows") {
            Some(TargetOS::Windows)
        } else if str_equal(name, "linux") {
            Some(TargetOS::Linux)
        } else {
            None
        }
    }

    /// Returns the name of the operating system in the names of archives.
    pub fn name(&self) -> (name: &'static str)
        ensures
            name@ == self.name_of(),
    {
        match self {
            TargetOS::Macos => "macos",
            TargetOS::Windows => "windows",
            TargetOS::Linux => "linux",
        }
    }
}

/// The system libraries of an operating system that the native library
/// needs, in the order in which they are linked.
pub open spec fn os_libs_of(os: TargetOS, opengl: bool, opencl: bool) -> Seq<&'static str> {
    match os {
        TargetOS::Macos => seq![
            "usb-1.0",
            "framework=CoreFoundation",
            "framework=VideoToolbox",
            "framework=CoreMedia",
            "framework=CoreVideo",
            "framework=IOKit",
            "framework=CoreGraphics",
            "framework=AppKit",
            "framework=StoreKit",
        ] + (if opengl {
            seq!["glfw3", "framework=OpenGL"]
        } else {
            seq![]
        }) + (if opencl {
            seq!["framework=OpenCL"]
        } else {
            seq![]
        }),
        TargetOS::Linux => seq!["stdc++", "usb-1.0", "turbojpeg"] + (if opengl {
            seq!["glfw", "GL"]
        } else {
            seq![]
        }) + (if opencl {
            seq!["OpenCL"]
        } else {
            seq![]
        }),
        TargetOS::Windows => seq!["user32", "gdi32", "shell32"] + (if opengl {
            seq!["opengl32"]
        } else {
            seq![]
        }),
    }
}

/// Lists the system libraries that the native library needs on the given
/// operating system, with the OpenGL and the OpenCL pipeline as selected.
pub fn get_os_libs(os: TargetOS, opengl: bool, opencl: bool) -> (libs: Vec<&'static str>)
    ensures
        libs@ == os_libs_of(os, opengl, opencl),
{
    let mut libs: Vec<&'static str> = Vec::new();
    match os {
        TargetOS::Macos => {
            libs.push("usb-1.0");
            libs.push("framework=CoreFoundation");
            libs.push("framework=VideoToolbox");
            libs.push("framework=CoreMedia");
            libs.push("framework=CoreVideo");
            libs.push("framework=IOKit");
            libs.push("framework=CoreGraphics");
            libs.push("framework=AppKit");
            libs.push("framework=StoreKit");
            if opengl {
                libs.push("glfw3");
                libs.push("framework=OpenGL");
            }
            if opencl {
                libs.push("framework=OpenCL");
            }
        },
        TargetOS::Linux => {
            libs.push("stdc++");
            libs.push("usb-1.0");
            libs.push("turbojpeg");
            if opengl {
                libs.push("glfw");
                libs.push("GL");
            }
            if opencl {
                libs.push("OpenCL");
            }
        },
        TargetOS::Windows => {
            libs.push("user32");
            libs.push("gdi32");
            libs.push("shell32");
            if opengl {
                libs.push("opengl32");
            }
        },
    }
    assert(libs@ =~= os_libs_of(os, opengl, opencl));
    libs
}

/// The name of the set of pipelines in the names of archives: `all` for
/// both, `opencl` or `opengl` for one, and none where no pipeline is
/// selected, for which there is no archive.
pub fn feature_name(opencl: bool, opengl: bool) -> (name: Option<&'static str>)
    ensures
        opencl && opengl ==> name == Some("all"),
        opencl && !opengl ==> name == Some("opencl"),
        !opencl && opengl ==> name == Some("opengl"),
        !opencl && !opengl ==> name is None,
{
    if opencl && opengl {
        Some("all")
    } else if opencl {
        Some("opencl")
    } else if opengl {
        Some("opengl")
    } else {
        None
    }
}

/// The build configuration of an archive for a build profile: `debug` or
/// `release`. There is no archive for any other profile.
pub fn profile_config(profile: &str) -> (config: Option<&'static str>)
    ensures
        profile@ == "debug"@ ==> config == Some("debug"),
        profile@ != "debug"@ && profile@ == "release"@ ==> config == Some("release"),
        profile@ != "debug"@ && profile@ != "release"@ ==> config is None,
{
    if str_equal(profile, "debug") {
        Some("debug")
    } else if str_equal(profile, "release") {
        Some("release")
    } else {
        None
    }
}

/// Whether the archives support the environment of the target: on Windows
/// only the MSVC environment, and every environment elsewhere.
pub fn supports_target_env(os: TargetOS, target_env: &str) -> (supported: bool)
    ensures
        supported == (os != TargetOS::Windows || target_env@ == "msvc"@),
{
    match os {
        TargetOS::Windows => str_equal(target_env, "msvc"),
        _ => true,
    }
}

/// What selects an archive: the operating system, the set of pipelines and
/// the build configuration.
#[derive(Clone, Copy, Debug)]
pub struct ArchiveConfig {
    pub os: TargetOS,
    pub features: &'static str,
    pub config: &'static str,
}

impl ArchiveConfig {
    /// The file name of the archive.
    pub open spec fn zip_name_of(self) -> Seq<char> {
        "libfreenect2-"@ + self.os.name_of() + "-"@ + self.features@ + "-"@ + self.config@
            + ".zip"@
    }

    /// Returns the file name of the archive: `libfreenect2-`, the operating
    /// system, the pipelines and the configuration, joined by `-`, and
    /// `.zip`.
    pub fn zip_name(&self) -> (name: String)
        ensures
            name@ == self.zip_name_of(),
    {
        let mut name = String::new();
        name.push_str("libfreenect2-");
        name.push_str(self.os.name());
        name.push_str("-");
        name.push_str(self.features);
        name.push_str("-");
        name.push_str(self.config);
        name.push_str(".zip");
        assert(name@ =~= self.zip_name_of());
        name
    }
}

/// The byte `.`.
pub const DOT: u8 = 46;

/// Whether the last `.` of `name` is at position `dot`.
pub open spec fn is_last_dot(name: Seq<u8>, dot: int) -> bool {
    &&& 0 <= dot < name.len()
    &&& name[dot] == DOT
    &&& forall|j: int| dot < j < name.len() ==> name[j] != DOT
}

/// The bytes of `lib`.
pub open spec fn lib_bytes() -> Seq<u8> {
    seq![108u8, 105u8, 98u8]
}

/// The bytes of `a`.
pub open spec fn a_bytes() -> Seq<u8> {
    seq![97u8]
}

/// Where the name of a library lies in the name of the file that holds it.
///
/// A file has an extension if its name has a `.` that is not its first
/// byte; the extension is what follows the last `.`, and the stem what
/// stands before it. On Windows a library is a file with the extension
/// `lib`, and its name is the stem. Elsewhere it is a file with the
/// extension `a` whose stem begins with `lib`, and its name is the rest of
/// the stem. The answer is the range of the name in the file name, from
/// the first position up to the second.
pub open spec fn lib_name_range(file_name: Seq<u8>, os: TargetOS) -> Option<(int, int)> {
    if exists|dot: int| is_last_dot(file_name, dot) && dot > 0 {
        let dot = choose|dot: int| is_last_dot(file_name, dot) && dot > 0;
        let extension = file_name.subrange(dot + 1, file_name.len() as int);
        if os == TargetOS::Windows {
            if extension == lib_bytes() {
                Some((0int, dot))
            } else {
                None
            }
        } else {
            if extension == a_bytes() && dot >= 3 && file_name.subrange(0, 3) == lib_bytes() {
                Some((3int, dot))
            } else {
                None
            }
        }
    } else {
        None
    }
}

/// The last `.` of a name is at one position only.
pub proof fn lemma_last_dot_is_unique(name: Seq<u8>, first: int, second: int)
    requires
        is_last_dot(name, first),
        is_last_dot(name, second),
    ensures
        first == second,
{
}

/// Finds the name of the library in the name of a file, if the file is a
/// library for the operating system. The name is the part of `file_name`
/// from the first position up to the second.
pub fn get_lib_name(file_name: &[u8], os: TargetOS) -> (range: Option<(usize, usize)>)
    ensures
        range is Some <==> lib_name_range(file_name@, os) is Some,
        range is Some ==> range.unwrap().0 == lib_name_range(file_name@, os).unwrap().0
            && range.unwrap().1 == lib_name_range(file_name@, os).unwrap().1,
        range is Some ==> range.unwrap().0 <= range.unwrap().1 <= file_name@.len(),
{
    let len: usize = file_name.len();
    let mut dot: usize = len;
    while dot > 0 && file_name[dot - 1] != DOT
        invariant
            dot <= len,
            len == file_name@.len(),
            forall|j: int| dot <= j < len ==> file_name@[j] != DOT,
        decreases dot,
    {
        dot -= 1;
    }
    if dot <= 1 {
        proof {
            assert forall|d: int| is_last_dot(file_name@, d) && d > 0 implies false by {
                if dot == 1 {
                    assert(is_last_dot(file_name@, 0));
                    lemma_last_dot_is_unique(file_name@, d, 0);
                }
            }
        }
        return None;
    }
    let dot: usize = dot - 1;
    proof {
        assert(is_last_dot(file_name@, dot as int) && dot > 0);
        let chosen = choose|d: int| is_last_dot(file_name@, d) && d > 0;
        lemma_last_dot_is_unique(file_name@, chosen, dot as int);
    }
    let ghost extension = file_name@.subrange(dot + 1, len as int);
    match os {
        TargetOS::Windows => {
            if len - dot == 4 && file_name[dot + 1] == 108 && file_name[dot + 2] == 105
                && file_name[dot + 3] == 98 {
                assert(extension =~= lib_bytes());
                Some((0, dot))
            } else {
                proof {
                    if extension == lib_bytes() {
                        assert(extension.len() == 3);
                        assert(extension[0] == 108 && extension[1] == 105 && extension[2] == 98);
                    }
                }
                None
            }
        },
        _ => {
            if len - dot == 2 && file_name[dot + 1] == 97 && dot >= 3 && file_name[0] == 108
                && file_name[1] == 105 && file_name[2] == 98 {
                assert(extension =~= a_bytes());
                assert(file_name@.subrange(0, 3) =~= lib_bytes());
                Some((3, dot))
            } else {
                proof {
                    if extension == a_bytes() && dot >= 3 && file_name@.subrange(0, 3)
                        == lib_bytes() {
                        assert(extension.len() == 1);
                        assert(extension[0] == 97);
                        let prefix = file_name@.subrange(0, 3);
                        assert(prefix[0] == 108 && prefix[1] == 105 && prefix[2] == 98);
                    }
                }
                None
            }
        },
    }
}

/// A prebuilt native library in a release of a repository, or at a local
/// path that an environment variable names.
#[derive(Clone, Debug)]
pub struct ZippedLibrary {
    pub repo_owner: String,
    pub repo_name: String,
    pub local_path: String,
}

impl ZippedLibrary {
    /// Names the repository whose releases hold the library, and the
    /// environment variable that may name a local copy of it.
    pub fn new(repo_owner: &str, repo_name: &str, local_path: &str) -> (library: ZippedLibrary)
        ensures
            library.repo_owner@ == repo_owner@,
            library.repo_name@ == repo_name@,
            library.local_path@ == local_path@,
    {
        ZippedLibrary {
            repo_owner: repo_owner.to_owned(),
            repo_name: repo_name.to_owned(),
            local_path: local_path.to_owned(),
        }
    }
}

/// A native library that is unpacked and ready to build against.
#[derive(Clone, Debug)]
pub struct DownloadedLibrary {
    /// The directory of the headers of the library.
    pub include_path: String,
}

} // verus!
