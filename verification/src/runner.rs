//! The compute half of the script runner: resolving the home directory,
//! extending the search path with the package-manager binary directory,
//! selecting the platform shell, and shaping the captured results of a
//! finished child process.
//!
//! Spawning the child and reading the environment are the embedding caller's
//! part; everything here is a pure function of the values it is handed, with
//! the platform branching gathered in one injectable `Platform` record so the
//! behaviour of either platform can be exercised on any machine.
use vstd::prelude::*;

use crate::text::push_char;

verus! {

/// What a finished child process left behind: its exit code (the sentinel
/// `-1` when the process was terminated without a normal exit code) and its
/// two output streams decoded as best-effort text.
pub struct ProcessOutput {
    pub status: i32,
    pub stdout: String,
    pub stderr: String,
}

/// The platform the script runner is operating on, resolved once per call
/// and passed in, so that no function here branches on the machine it
/// happens to be verified or tested on.
pub struct Platform {
    pub windows: bool,
}

/// The home directory the runner works from: the first of the two
/// platform-specific environment variables that is set, or empty when
/// neither is.
pub open spec fn resolved_home_spec(home: Option<String>, userprofile: Option<String>) -> Seq<
    char,
> {
    match home {
        Some(h) => h@,
        None => match userprofile {
            Some(u) => u@,
            None => Seq::empty(),
        },
    }
}

/// Picks the home directory from the two platform-specific environment
/// variables: the first one found wins, and the empty string stands in when
/// neither is set.
pub fn resolve_home_dir(home: Option<String>, userprofile: Option<String>) -> (h: String)
    ensures
        h@ == resolved_home_spec(home, userprofile),
{
    match home {
        Some(h) => h,
        None => match userprofile {
            Some(u) => u,
            None => String::new(),
        },
    }
}

/// The package-manager binary directory relative to the given home
/// directory, in the shape the platform lays it out.
pub open spec fn npm_dir_spec(windows: bool, home: Seq<char>) -> Seq<char> {
    if windows {
        home + "\\AppData\\Roaming\\npm"@
    } else {
        home + "/.npm-global/bin"@
    }
}

/// The separator between entries of the platform's search-path variable.
pub open spec fn path_separator_spec(windows: bool) -> char {
    if windows {
        ';'
    } else {
        ':'
    }
}

/// The search-path value handed to the child: the current value (empty when
/// the variable is unset), the platform separator, then the extra directory.
pub open spec fn augmented_path_spec(path: Option<String>, windows: bool, dir: Seq<
    char,
>) -> Seq<char> {
    (match path {
        Some(p) => p@,
        None => Seq::empty(),
    }).push(path_separator_spec(windows)) + dir
}

impl Platform {
    /// The directory where the platform's package manager installs script
    /// binaries, relative to the given home directory.
    pub fn npm_dir(&self, home_dir: &str) -> (d: String)
        ensures
            d@ == npm_dir_spec(self.windows, home_dir@),
    {
        let mut d = String::from_str(home_dir);
        if self.windows {
            d.append("\\AppData\\Roaming\\npm");
        } else {
            d.append("/.npm-global/bin");
        }
        d
    }

    /// The separator between entries of the platform's search-path variable.
    pub fn path_separator(&self) -> (c: char)
        ensures
            c == path_separator_spec(self.windows),
    {
        if self.windows {
            ';'
        } else {
            ':'
        }
    }

    /// Extends the current search-path value with the given directory, so a
    /// spawned script can locate locally-installed tooling. Only the value
    /// handed back is extended; nothing global is mutated.
    pub fn augmented_search_path(&self, path: Option<String>, dir: &str) -> (p: String)
        ensures
            p@ == augmented_path_spec(path, self.windows, dir@),
    {
        let mut p = match path {
            Some(p) => p,
            None => String::new(),
        };
        push_char(&mut p, self.path_separator());
        p.append(dir);
        p
    }

    /// The platform shell interpreter and its "run an inline command" flag.
    pub fn shell_invocation(&self) -> (s: (String, String))
        ensures
            self.windows ==> s.0@ == "cmd"@ && s.1@ == "/C"@,
            !self.windows ==> s.0@ == "sh"@ && s.1@ == "-c"@,
    {
        if self.windows {
            (String::from_str("cmd"), String::from_str("/C"))
        } else {
            (String::from_str("sh"), String::from_str("-c"))
        }
    }

    /// The whole search-path computation of one script run: resolve the home
    /// directory from the two candidate variables, derive the
    /// package-manager directory from it, and append that directory to the
    /// current search path.
    pub fn script_search_path(
        &self,
        home: Option<String>,
        userprofile: Option<String>,
        path: Option<String>,
    ) -> (p: String)
        ensures
            p@ == augmented_path_spec(
                path,
                self.windows,
                npm_dir_spec(self.windows, resolved_home_spec(home, userprofile)),
            ),
    {
        let home_dir = resolve_home_dir(home, userprofile);
        let dir = self.npm_dir(home_dir.as_str());
        self.augmented_search_path(path, dir.as_str())
    }
}

/// The decoded text of a byte stream under best-effort UTF-8 decoding, where
/// invalid sequences are replaced rather than rejected.
pub uninterp spec fn lossy_decode_of(bytes: Seq<u8>) -> Seq<char>;

/// Relies on `String::from_utf8_lossy`: decodes the bytes as UTF-8 with
/// invalid sequences replaced by the replacement character; the result
/// depends on the bytes alone.
#[verifier::external_body]
fn utf8_lossy(bytes: &Vec<u8>) -> (s: String)
    ensures
        s@ == lossy_decode_of(bytes@),
{
    String::from_utf8_lossy(bytes.as_slice()).into_owned()
}

/// Shapes what a finished child process produced: an exit code when the
/// process exited normally (the sentinel `-1` otherwise), and both output
/// streams decoded as best-effort text. A non-zero exit code is data for the
/// caller, never a failure of the runner.
pub fn process_output_from_parts(status: Option<i32>, stdout: Vec<u8>, stderr: Vec<u8>) -> (out:
    ProcessOutput)
    ensures
        out.status == (match status {
            Some(c) => c,
            None => -1i32,
        }),
        out.stdout@ == lossy_decode_of(stdout@),
        out.stderr@ == lossy_decode_of(stderr@),
{
    ProcessOutput {
        status: match status {
            Some(c) => c,
            None => -1,
        },
        stdout: utf8_lossy(&stdout),
        stderr: utf8_lossy(&stderr),
    }
}

} // verus!
