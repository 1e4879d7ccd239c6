//! Where the backend executable lies below the application's resource
//! directory.

use vstd::prelude::*;
use vstd::string::*;
use crate::text::text_result;

verus! {

/// The platform family the application runs on.
#[derive(Clone, Copy, Debug, PartialEq, Eq, Structural)]
pub enum Platform {
    /// Executables carry the suffix `.exe`; `\` separates path components.
    Windows,
    /// Executables carry no suffix; `/` separates path components.
    Other,
}

/// The directory below the resource directory that holds the backend.
pub const BACKEND_DIR_NAME: &'static str = "backend";

/// `text` ends with `suffix`.
pub open spec fn ends_with(text: Seq<char>, suffix: Seq<char>) -> bool {
    &&& suffix.len() <= text.len()
    &&& text.subrange(text.len() - suffix.len(), text.len() as int) == suffix
}

impl Platform {
    /// The character put between two path components.
    pub open spec fn separator(self) -> char {
        match self {
            Platform::Windows => '\\',
            Platform::Other => '/',
        }
    }

    /// Whether `c` ends a path component.
    pub open spec fn separates(self, c: char) -> bool {
        match self {
            Platform::Windows => c == '\\' || c == '/',
            Platform::Other => c == '/',
        }
    }

    /// The suffix of executable files; empty where there is none.
    pub open spec fn executable_suffix(self) -> Seq<char> {
        match self {
            Platform::Windows => ".exe"@,
            Platform::Other => Seq::empty(),
        }
    }

    /// The file name of the backend executable.
    pub open spec fn executable_name(self) -> Seq<char> {
        "invoice_processor"@ + self.executable_suffix()
    }

    /// `base` with `name` below it: the two are put together with one
    /// separator between them, which is left out where `base` is empty or
    /// ends with a separator already.
    pub open spec fn joined(self, base: Seq<char>, name: Seq<char>) -> Seq<char> {
        if base.len() == 0 || self.separates(base.last()) {
            base + name
        } else {
            base.push(self.separator()) + name
        }
    }

    /// The directory of the backend below `resource_dir`.
    pub open spec fn backend_dir(self, resource_dir: Seq<char>) -> Seq<char> {
        self.joined(resource_dir, BACKEND_DIR_NAME@)
    }

    /// The path of the backend executable below `resource_dir`.
    pub open spec fn backend_exe_path(self, resource_dir: Seq<char>) -> Seq<char> {
        self.joined(self.backend_dir(resource_dir), self.executable_name())
    }
}

/// The file name of the backend executable on `platform`. It ends in `.exe`
/// on Windows and nowhere else.
pub fn executable_name(platform: Platform) -> (name: &'static str)
    ensures
        name@ == platform.executable_name(),
        ends_with(name@, platform.executable_suffix()),
        ends_with(name@, ".exe"@) <==> platform == Platform::Windows,
{
    proof {
        lemma_executable_suffix(platform);
        reveal_strlit("invoice_processor");
        reveal_strlit(".exe");
        reveal_strlit("invoice_processor.exe");
    }
    match platform {
        Platform::Windows => {
            assert("invoice_processor.exe"@ =~= platform.executable_name());
            "invoice_processor.exe"
        },
        Platform::Other => {
            assert("invoice_processor"@ =~= platform.executable_name());
            "invoice_processor"
        },
    }
}

/// On every platform the executable's name ends in that platform's suffix,
/// and it ends in `.exe` exactly on Windows.
pub proof fn lemma_executable_suffix(platform: Platform)
    ensures
        ends_with(platform.executable_name(), platform.executable_suffix()),
        ends_with(platform.executable_name(), ".exe"@) <==> platform == Platform::Windows,
{
    reveal_strlit("invoice_processor");
    reveal_strlit(".exe");
    let name = platform.executable_name();
    match platform {
        Platform::Windows => {
            assert(name.subrange(name.len() - 4, name.len() as int) =~= ".exe"@);
        },
        Platform::Other => {
            assert(name =~= "invoice_processor"@);
            assert(name.subrange(name.len() as int, name.len() as int) =~= Seq::<char>::empty());
            assert(name.subrange(name.len() - 4, name.len() as int)[0] == 's');
            assert(".exe"@[0] == '.');
        },
    }
}

/// Whether `c` ends a path component on `platform`.
fn separates(platform: Platform, c: char) -> (r: bool)
    ensures
        r == platform.separates(c),
{
    match platform {
        Platform::Windows => c == '\\' || c == '/',
        Platform::Other => c == '/',
    }
}

/// The separator of `platform`, as a string.
fn separator_str(platform: Platform) -> (text: &'static str)
    ensures
        text@ == seq![platform.separator()],
{
    proof {
        reveal_strlit("\\");
        reveal_strlit("/");
    }
    let text = match platform {
        Platform::Windows => "\\",
        Platform::Other => "/",
    };
    assert(text@ =~= seq![platform.separator()]);
    text
}

/// Puts `name` below `base`.
pub fn join(platform: Platform, base: &str, name: &str) -> (path: String)
    ensures
        path@ == platform.joined(base@, name@),
{
    let mut path = base.to_owned();
    let length = base.unicode_len();
    if length > 0 && !separates(platform, base.get_char(length - 1)) {
        path.append(separator_str(platform));
    }
    path.append(name);
    assert(path@ =~= platform.joined(base@, name@));
    path
}

/// The directory of the backend below `resource_dir`.
pub fn backend_dir(platform: Platform, resource_dir: &str) -> (path: String)
    ensures
        path@ == platform.backend_dir(resource_dir@),
{
    join(platform, resource_dir, BACKEND_DIR_NAME)
}

/// The diagnostic for a resource directory that could not be resolved.
pub open spec fn unresolved_text(cause: Seq<char>) -> Seq<char> {
    "Failed to resolve resource dir: "@ + cause
}

/// The diagnostic for an executable that is not on disk.
pub open spec fn not_found_text(path: Seq<char>) -> Seq<char> {
    "Backend executable not found at "@ + path
}

/// The path at which the backend executable is expected, or the diagnostic
/// why the resource directory is not known.
pub open spec fn expected_exe_path(
    platform: Platform,
    resource_dir: Result<Seq<char>, Seq<char>>,
) -> Result<Seq<char>, Seq<char>> {
    match resource_dir {
        Ok(dir) => Ok(platform.backend_exe_path(dir)),
        Err(cause) => Err(unresolved_text(cause)),
    }
}

/// The path if the executable is there, the diagnostic that names the path if
/// it is not.
pub open spec fn confirmed_exe_path(path: Seq<char>, exists: bool) -> Result<
    Seq<char>,
    Seq<char>,
> {
    if exists {
        Ok(path)
    } else {
        Err(not_found_text(path))
    }
}

/// The path at which the backend executable is expected, given how resolving
/// the resource directory went. A failure to resolve it is passed on with its
/// cause; the path is computed and not looked at.
pub fn backend_exe_path(platform: Platform, resource_dir: Result<String, String>) -> (path: Result<
    String,
    String,
>)
    ensures
        text_result(path) == expected_exe_path(platform, text_result(resource_dir)),
{
    match resource_dir {
        Ok(dir) => {
            let below = backend_dir(platform, dir.as_str());
            Ok(join(platform, below.as_str(), executable_name(platform)))
        },
        Err(cause) => {
            let mut text = "Failed to resolve resource dir: ".to_owned();
            text.append(cause.as_str());
            Err(text)
        },
    }
}

/// Accepts the expected path if the executable is there, and names the path
/// in the diagnostic if it is not: a missing executable is always an error.
pub fn confirm_executable(path: String, exists: bool) -> (confirmed: Result<String, String>)
    ensures
        text_result(confirmed) == confirmed_exe_path(path@, exists),
        confirmed is Ok <==> exists,
{
    if exists {
        Ok(path)
    } else {
        let mut text = "Backend executable not found at ".to_owned();
        text.append(path.as_str());
        Err(text)
    }
}

} // verus!
