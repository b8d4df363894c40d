//! The two blocklists and the names derived from them.

use crate::text::chars_of;
use vstd::prelude::*;
use vstd::string::StringExecFns;

verus! {

/// Where the lists are published.
pub const BASE_URL: &'static str =
    "https://raw.githubusercontent.com/notracking/hosts-blocklists/master";

/// Which of the two blocklists is meant.
#[derive(Clone, Copy, Debug, PartialEq, Eq, Structural)]
pub enum FileType {
    Domains,
    Hostnames,
}

impl FileType {
    /// The name of the list, as it appears in the remote path and in the
    /// local file name.
    pub open spec fn name(self) -> Seq<char> {
        match self {
            FileType::Domains => "domains"@,
            FileType::Hostnames => "hostnames"@,
        }
    }

    /// The name of the list.
    pub fn as_str(&self) -> (s: &'static str)
        ensures
            s@ == self.name(),
    {
        match *self {
            FileType::Domains => "domains",
            FileType::Hostnames => "hostnames",
        }
    }
}

/// The address a list is fetched from.
pub open spec fn url_of(ftype: FileType) -> Seq<char> {
    BASE_URL@ + "/"@ + ftype.name() + ".txt"@
}

/// `file` in the directory `dir`: a slash stands between them unless
/// `dir` is empty or ends in one.
pub open spec fn in_dir(dir: Seq<char>, file: Seq<char>) -> Seq<char> {
    if dir.len() == 0 || dir.last() == '/' {
        dir + file
    } else {
        dir + "/"@ + file
    }
}

/// The file that holds the installed list.
pub open spec fn final_path_of(dir: Seq<char>, ftype: FileType) -> Seq<char> {
    in_dir(dir, ftype.name()) + ".txt"@
}

/// The file that a list is written to before it is installed. It stands
/// beside the installed file, so that moving it there is one rename.
pub open spec fn temp_path_of(dir: Seq<char>, ftype: FileType) -> Seq<char> {
    in_dir(dir, ftype.name()) + ".tmp"@
}

impl FileType {
    /// The address the list is fetched from.
    pub fn url(&self) -> (url: String)
        ensures
            url@ == url_of(*self),
    {
        let mut url = String::from_str(BASE_URL);
        url.append("/");
        url.append(self.as_str());
        url.append(".txt");
        url
    }
}

/// The two paths of one list in a directory.
#[derive(Debug)]
pub struct InstallTarget {
    /// Where the installed list stands.
    pub final_path: String,
    /// Where a list is written before it is installed.
    pub temp_path: String,
}

impl InstallTarget {
    /// The paths of the list `ftype` in the directory `dir`. With an
    /// empty `dir` they are relative to the working directory.
    pub fn new(dir: &str, ftype: FileType) -> (target: InstallTarget)
        ensures
            target.final_path@ == final_path_of(dir@, ftype),
            target.temp_path@ == temp_path_of(dir@, ftype),
    {
        let chars = chars_of(dir);
        let mut stem = String::from_str(dir);
        if chars.len() > 0 && chars[chars.len() - 1] != '/' {
            stem.append("/");
        }
        stem.append(ftype.as_str());
        let mut final_path = stem.clone();
        final_path.append(".txt");
        let mut temp_path = stem;
        temp_path.append(".tmp");
        InstallTarget { final_path, temp_path }
    }
}

/// The temporary file is never the installed file.
pub proof fn lemma_temp_is_not_final(dir: Seq<char>, ftype: FileType)
    ensures
        temp_path_of(dir, ftype) != final_path_of(dir, ftype),
{
    reveal_strlit(".txt");
    reveal_strlit(".tmp");
    let stem = in_dir(dir, ftype.name());
    let a = stem + ".txt"@;
    let b = stem + ".tmp"@;
    assert(a[stem.len() as int + 2] == 'x');
    assert(b[stem.len() as int + 2] == 'm');
}

} // verus!
