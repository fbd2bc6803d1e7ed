use vstd::prelude::*;
use vstd::string::StrSliceExecFns;
use vstd::string::StringExecFns;

verus! {

/// Directory, under the executable's directory, that holds the backend.
pub open spec fn backend_dir_name() -> Seq<char> {
    "bin"@
}

/// File name of the backend executable.
pub open spec fn backend_binary_name() -> Seq<char> {
    "main.exe"@
}

/// File name of the log, beside the executable.
pub open spec fn log_file_name() -> Seq<char> {
    "backend.log"@
}

/// The character that separates path components.
#[derive(Clone, Copy, Debug, PartialEq, Eq, Structural)]
pub enum Separator {
    /// `/`, as on Unix.
    Slash,
    /// `\\`, as on Windows.
    Backslash,
}

impl Separator {
    pub open spec fn spec_char(self) -> char {
        match self {
            Separator::Slash => '/',
            Separator::Backslash => '\\',
        }
    }

    /// The separator as a character.
    pub fn as_char(self) -> (c: char)
        ensures
            c == self.spec_char(),
    {
        match self {
            Separator::Slash => '/',
            Separator::Backslash => '\\',
        }
    }

    /// The separator as a one-character string.
    pub fn as_str(self) -> (s: &'static str)
        ensures
            s@ == seq![self.spec_char()],
    {
        match self {
            Separator::Slash => {
                proof {
                    reveal_strlit("/");
                }
                "/"
            },
            Separator::Backslash => {
                proof {
                    reveal_strlit("\\");
                }
                "\\"
            },
        }
    }
}

/// `dir` with the relative component `name` appended: a separator is put
/// between them unless `dir` is empty or already ends in one.
pub open spec fn joined(dir: Seq<char>, name: Seq<char>, sep: Separator) -> Seq<char> {
    if dir.len() == 0 || dir.last() == sep.spec_char() {
        dir + name
    } else {
        dir + seq![sep.spec_char()] + name
    }
}

/// Where the backend executable lives for executable directory `dir`.
pub open spec fn backend_path_of(dir: Seq<char>, sep: Separator) -> Seq<char> {
    joined(joined(dir, backend_dir_name(), sep), backend_binary_name(), sep)
}

/// Where the log file lives for executable directory `dir`.
pub open spec fn log_path_of(dir: Seq<char>, sep: Separator) -> Seq<char> {
    joined(dir, log_file_name(), sep)
}

/// Appends the relative component `name` to `dir`, with `sep` between them
/// where one is missing.
pub fn join(dir: &str, name: &str, sep: Separator) -> (r: String)
    ensures
        r@ == joined(dir@, name@, sep),
{
    let n = dir.unicode_len();
    let mut r = String::from_str(dir);
    if n > 0 && dir.get_char(n - 1) != sep.as_char() {
        r.append(sep.as_str());
    }
    r.append(name);
    r
}

/// The path of the backend executable for executable directory `exe_dir`:
/// `exe_dir/bin/main.exe`, with no other change to `exe_dir`.
pub fn backend_path(exe_dir: &str, sep: Separator) -> (r: String)
    ensures
        r@ == backend_path_of(exe_dir@, sep),
{
    proof {
        reveal_strlit("bin");
        reveal_strlit("main.exe");
    }
    let d = join(exe_dir, "bin", sep);
    join(d.as_str(), "main.exe", sep)
}

/// The path of the log file for executable directory `exe_dir`:
/// `exe_dir/backend.log`.
pub fn log_path(exe_dir: &str, sep: Separator) -> (r: String)
    ensures
        r@ == log_path_of(exe_dir@, sep),
{
    proof {
        reveal_strlit("backend.log");
    }
    join(exe_dir, "backend.log", sep)
}

/// The line written to the log before the backend starts.
pub open spec fn diagnostic_line_of(backend: Seq<char>) -> Seq<char> {
    "[INFO] Launching Python backend at: "@ + backend + "\n"@
}

/// The line, ending in a newline, that records which backend is started.
pub fn diagnostic_line(backend: &str) -> (r: String)
    ensures
        r@ == diagnostic_line_of(backend@),
{
    let mut r = String::from_str("[INFO] Launching Python backend at: ");
    r.append(backend);
    r.append("\n");
    r
}

/// Both paths keep the executable's directory as it is, character for
/// character, and add only a separator where one is missing and the fixed
/// components: `D/bin/main.exe` and `D/backend.log`.
pub proof fn lemma_paths_extend_directory(dir: Seq<char>, sep: Separator)
    requires
        dir.len() > 0,
        dir.last() != sep.spec_char(),
    ensures
        backend_path_of(dir, sep) == dir + seq![sep.spec_char()] + backend_dir_name() + seq![
            sep.spec_char(),
        ] + backend_binary_name(),
        log_path_of(dir, sep) == dir + seq![sep.spec_char()] + log_file_name(),
        backend_path_of(dir, sep).subrange(0, dir.len() as int) == dir,
        log_path_of(dir, sep).subrange(0, dir.len() as int) == dir,
{
    reveal_strlit("bin");
    let d = joined(dir, backend_dir_name(), sep);
    assert(d.len() > 0);
    assert(d.last() == 'n');
    assert(sep.spec_char() != 'n');
    assert(backend_path_of(dir, sep).subrange(0, dir.len() as int) =~= dir);
    assert(log_path_of(dir, sep).subrange(0, dir.len() as int) =~= dir);
}

} // verus!
