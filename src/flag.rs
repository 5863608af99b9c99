//! The session flag: a small file at a fixed place that holds the output
//! directory chosen for this session, so that helper processes launched on
//! their own can find it.
//!
//! The caller reads and writes the file; the handler decides what to write
//! and what a read means. An absent file means no session is active.

use vstd::prelude::*;

verus! {

/// What the flag file held when the caller looked.
#[derive(Debug, PartialEq, Eq)]
pub enum FlagFile {
    /// There is no flag file.
    Missing,
    /// The file is there but could not be read as text; the reason.
    Unreadable(String),
    /// The file's text.
    Holds(String),
}

/// Why no output directory could be read from the flag.
#[derive(Debug, PartialEq, Eq)]
pub enum FlagError {
    /// No session flag is set.
    FlagNotFound,
    /// The flag file could not be read; the reason.
    FlagUnreadable(String),
}

/// What a read of the flag gives: its text exactly as written.
pub open spec fn read_step(f: FlagFile) -> Result<String, FlagError> {
    match f {
        FlagFile::Missing => Err(FlagError::FlagNotFound),
        FlagFile::Unreadable(why) => Err(FlagError::FlagUnreadable(why)),
        FlagFile::Holds(text) => Ok(text),
    }
}

/// The flag after the directory `dir` was written, whatever it held.
pub open spec fn write_step(f: FlagFile, dir: String) -> FlagFile {
    FlagFile::Holds(dir)
}

/// The flag after it was cleared, whatever it held.
pub open spec fn clear_step(f: FlagFile) -> FlagFile {
    FlagFile::Missing
}

/// `piece` is a run of consecutive characters of `text`.
pub open spec fn is_piece_of(piece: Seq<char>, text: Seq<char>) -> bool {
    exists|a: int, b: int| 0 <= a <= b <= text.len() && piece == text.subrange(a, b)
}

/// `text` with leading and trailing white space removed.
pub uninterp spec fn trimmed(text: Seq<char>) -> Seq<char>;

/// Relies on `str::trim`: the text without leading and trailing white
/// space, which depends on the characters alone and is a contiguous piece
/// of the text.
#[verifier::external_body]
fn trim_text(text: &str) -> (r: String)
    ensures
        r@ == trimmed(text@),
        is_piece_of(r@, text@),
{
    text.trim().to_string()
}

/// The session flag as this process knows it.
pub struct TempFlagHandler {
    file: FlagFile,
}

impl TempFlagHandler {
    pub closed spec fn view(&self) -> FlagFile {
        self.file
    }

    /// The flag of a session whose output directory is `monitor_dir`. The
    /// caller writes `contents()` to the flag file.
    pub fn new(monitor_dir: &str) -> (r: TempFlagHandler)
        ensures
            r.view() matches FlagFile::Holds(t) && t@ == monitor_dir@,
    {
        TempFlagHandler { file: FlagFile::Holds(String::from_str(monitor_dir)) }
    }

    /// The flag as the caller found the file.
    pub fn observed(found: FlagFile) -> (r: TempFlagHandler)
        ensures
            r.view() == found,
    {
        TempFlagHandler { file: found }
    }

    /// Sets the flag to `output_dir`; the caller writes `contents()` to the
    /// flag file.
    pub fn write(&mut self, output_dir: String)
        ensures
            final(self).view() == write_step(old(self).view(), output_dir),
    {
        self.file = FlagFile::Holds(output_dir);
    }

    /// Clears the flag; the caller removes the file, and a file that is
    /// already gone is no error.
    pub fn clear(&mut self)
        ensures
            final(self).view() == clear_step(old(self).view()),
    {
        self.file = FlagFile::Missing;
    }

    /// The text the flag file holds: the output directory, verbatim, with
    /// nothing around it. `None` when the flag is not set.
    pub fn contents(&self) -> (r: Option<String>)
        ensures
            match self.view() {
                FlagFile::Holds(t) => r == Some(t),
                _ => r is None,
            },
    {
        match &self.file {
            FlagFile::Holds(t) => Some(t.clone()),
            _ => None,
        }
    }

    /// The output directory of the session: see `read_step`.
    pub fn read(&self) -> (r: Result<String, FlagError>)
        ensures
            r == read_step(self.view()),
    {
        match &self.file {
            FlagFile::Missing => Err(FlagError::FlagNotFound),
            FlagFile::Unreadable(why) => Err(FlagError::FlagUnreadable(why.clone())),
            FlagFile::Holds(t) => Ok(t.clone()),
        }
    }

    /// The output directory handed to helpers: the flag's text without
    /// surrounding white space.
    pub fn monitor_dir(&self) -> (r: Result<String, FlagError>)
        ensures
            match read_step(self.view()) {
                Ok(t) => r matches Ok(d) && d@ == trimmed(t@) && is_piece_of(d@, t@),
                Err(e) => r == Err::<String, FlagError>(e),
            },
    {
        match self.read() {
            Ok(t) => Ok(trim_text(t.as_str())),
            Err(e) => Err(e),
        }
    }
}

/// The environment variable that names the per-user data directory.
pub fn data_dir_variable() -> (r: String)
    ensures
        r@ == "LOCALAPPDATA"@,
{
    String::from_str("LOCALAPPDATA")
}

/// The application's directory inside the per-user data directory.
pub fn app_dir_name() -> (r: String)
    ensures
        r@ == "WorkXGoAm"@,
{
    String::from_str("WorkXGoAm")
}

/// The flag file's name inside the application's directory.
pub fn flag_file_name() -> (r: String)
    ensures
        r@ == "running_flag.tmp"@,
{
    String::from_str("running_flag.tmp")
}

/// Reading the flag after writing a directory gives that directory exactly;
/// reading it after clearing fails with `FlagNotFound`.
pub proof fn lemma_write_then_read(f: FlagFile, dir: String)
    ensures
        read_step(write_step(f, dir)) == Ok::<String, FlagError>(dir),
        read_step(clear_step(write_step(f, dir))) == Err::<String, FlagError>(
            FlagError::FlagNotFound,
        ),
        read_step(clear_step(f)) == Err::<String, FlagError>(FlagError::FlagNotFound),
{
}

} // verus!
