//! Startup configuration: the resolver executable, an optional local-audio
//! directory and an optional cookies file. The embedding program looks the
//! paths up on disk and hands the findings in; the validators here decide
//! acceptance and word the rejection.

use vstd::prelude::*;
use vstd::string::StringExecFns;

verus! {

/// What the bot is started with, after its command line is parsed.
pub struct Config {
    /// Path of the resolver executable.
    pub yt_dlp: String,
    /// Directory holding local audio files, when one is configured.
    pub audio_directory: Option<String>,
    /// Path of a cookies file for resolver authentication, when configured.
    pub cookies: Option<String>,
}

/// `"'<path>' <complaint>"`, the wording every path validator rejects with.
pub open spec fn spec_complaint(path: Seq<char>, complaint: Seq<char>) -> Seq<char> {
    "'"@ + path + "'"@ + complaint
}

/// The quoted path followed by the complaint.
fn complaint(path: &String, text: &str) -> (r: String)
    ensures
        r@ == spec_complaint(path@, text@),
{
    let mut r = "'".to_owned();
    r.append(path.as_str());
    r.append("'");
    r.append(text);
    r
}

/// A path that must name an existing regular file (the resolver executable):
/// accepted as given exactly when it exists and is a file, else rejected
/// with the matching complaint.
pub fn validate_executable_path(path: &String, exists: bool, is_file: bool) -> (r: Result<
    String,
    String,
>)
    ensures
        !exists ==> (r matches Err(m) && m@ == spec_complaint(path@, " does not exist"@)),
        exists && !is_file ==> (r matches Err(m) && m@ == spec_complaint(path@, " is not a file"@)),
        exists && is_file ==> (r matches Ok(p) && p@ == path@),
{
    if !exists {
        Err(complaint(path, " does not exist"))
    } else if !is_file {
        Err(complaint(path, " is not a file"))
    } else {
        Ok(path.clone())
    }
}

/// A path that must name an existing directory (the local-audio directory):
/// accepted as given exactly when it exists and is a directory, else
/// rejected with the matching complaint.
pub fn validate_directory_path(path: &String, exists: bool, is_dir: bool) -> (r: Result<
    String,
    String,
>)
    ensures
        !exists ==> (r matches Err(m) && m@ == spec_complaint(path@, " does not exist"@)),
        exists && !is_dir ==> (r matches Err(m) && m@ == spec_complaint(
            path@,
            " is not a directory"@,
        )),
        exists && is_dir ==> (r matches Ok(p) && p@ == path@),
{
    if !exists {
        Err(complaint(path, " does not exist"))
    } else if !is_dir {
        Err(complaint(path, " is not a directory"))
    } else {
        Ok(path.clone())
    }
}

/// A path that must name an existing regular file (the cookies file):
/// accepted as given exactly when it exists and is a file, else rejected
/// with the matching complaint.
pub fn validate_file_path(path: &String, exists: bool, is_file: bool) -> (r: Result<String, String>)
    ensures
        !exists ==> (r matches Err(m) && m@ == spec_complaint(path@, " does not exist"@)),
        exists && !is_file ==> (r matches Err(m) && m@ == spec_complaint(path@, " is not a file"@)),
        exists && is_file ==> (r matches Ok(p) && p@ == path@),
{
    if !exists {
        Err(complaint(path, " does not exist"))
    } else if !is_file {
        Err(complaint(path, " is not a file"))
    } else {
        Ok(path.clone())
    }
}

} // verus!
