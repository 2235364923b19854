//! The project's package dependencies, as heading lines of the document.
use crate::redact::{apply_rules, ReplaceSet};
use crate::text::{contains, starts_with};
use vstd::prelude::*;

verus! {

/// Where a locked package comes from, judged by its version string.
#[derive(PartialEq, Eq, Structural, Clone, Copy, Debug)]
pub enum UpmDependencyType {
    NpmRemote,
    HttpsGit,
    SshGit,
    GitGit,
    FileGit,
    FileRelative,
    FileAbsolute,
}

/// A package of a lock file and its locked version, if the file gives one.
pub struct LockedPackage {
    pub name: String,
    pub version: Option<String>,
}

pub open spec fn has_prefix(s: Seq<char>, p: Seq<char>) -> bool {
    p.len() <= s.len() && s.take(p.len() as int) == p
}

pub open spec fn has_infix(s: Seq<char>, p: Seq<char>) -> bool {
    exists|k: int| 0 <= k && k + p.len() <= s.len() && #[trigger] s.subrange(k, k + p.len()) == p
}

/// A path that starts at a root: with a separator, or with a drive letter,
/// a colon and a separator.
pub open spec fn rooted(path: Seq<char>) -> bool {
    (path.len() >= 1 && (path[0] == '/' || path[0] == '\\')) || (path.len() >= 3 && path[1] == ':'
        && (path[2] == '/' || path[2] == '\\'))
}

/// The kind of a git URL, after an optional `git+`.
pub open spec fn git_kind(v: Seq<char>) -> Option<UpmDependencyType> {
    let u = if has_prefix(v, "git+"@) {
        v.skip(4)
    } else {
        v
    };
    if has_prefix(u, "https:"@) {
        Some(UpmDependencyType::HttpsGit)
    } else if has_prefix(u, "ssh:"@) {
        Some(UpmDependencyType::SshGit)
    } else if has_prefix(u, "file:"@) {
        Some(UpmDependencyType::FileGit)
    } else if has_prefix(u, "git:"@) {
        Some(UpmDependencyType::GitGit)
    } else {
        None
    }
}

pub open spec fn dependency_type(v: Seq<char>) -> UpmDependencyType {
    let looks_git = has_prefix(v, "file://"@) || has_infix(v, ".git"@) || has_prefix(v, "git+"@);
    if looks_git && git_kind(v).is_some() {
        git_kind(v)->Some_0
    } else if has_prefix(v, "file:"@) {
        if rooted(v.skip(5)) {
            UpmDependencyType::FileAbsolute
        } else {
            UpmDependencyType::FileRelative
        }
    } else {
        UpmDependencyType::NpmRemote
    }
}

fn rest_after(s: &str, n: usize) -> (r: &str)
    requires
        n <= s@.len(),
    ensures
        r@ == s@.skip(n as int),
{
    let len = s.unicode_len();
    s.substring_char(n, len)
}

fn is_rooted(path: &str) -> (r: bool)
    ensures
        r == rooted(path@),
{
    let n = path.unicode_len();
    if n >= 1 {
        let c = path.get_char(0);
        if c == '/' || c == '\\' {
            return true;
        }
    }
    if n >= 3 {
        let colon = path.get_char(1);
        let c = path.get_char(2);
        return colon == ':' && (c == '/' || c == '\\');
    }
    false
}

impl UpmDependencyType {
    /// Judges a locked version: a git URL by its scheme, a `file:` path as
    /// absolute or relative, anything else a registry version.
    pub fn detect_from_version(version: &str) -> (r: UpmDependencyType)
        ensures
            r == dependency_type(version@),
    {
        proof {
            reveal_strlit("git+");
        }
        if starts_with(version, "file://") || contains(version, ".git") || starts_with(
            version,
            "git+",
        ) {
            let url = if starts_with(version, "git+") {
                rest_after(version, 4)
            } else {
                version
            };
            if starts_with(url, "https:") {
                return UpmDependencyType::HttpsGit;
            }
            if starts_with(url, "ssh:") {
                return UpmDependencyType::SshGit;
            }
            if starts_with(url, "file:") {
                return UpmDependencyType::FileGit;
            }
            if starts_with(url, "git:") {
                return UpmDependencyType::GitGit;
            }
        }
        proof {
            reveal_strlit("file:");
        }
        if starts_with(version, "file:") {
            let path = rest_after(version, 5);
            if is_rooted(path) {
                return UpmDependencyType::FileAbsolute;
            } else {
                return UpmDependencyType::FileRelative;
            }
        }
        UpmDependencyType::NpmRemote
    }
}

/// Whether a version of this kind may hold a local path, and so the
/// user's home directory.
pub open spec fn may_hold_home(t: UpmDependencyType) -> bool {
    t == UpmDependencyType::FileGit || t == UpmDependencyType::FileAbsolute
}

/// The value of an `Upm-Dependency` line: `name@version`, the version
/// redacted where it may hold a local path.
pub open spec fn upm_value(name: Seq<char>, version: Seq<char>, replacer: ReplaceSet) -> Seq<char> {
    name + "@"@ + if may_hold_home(dependency_type(version)) {
        apply_rules(replacer.rules(), version)
    } else {
        version
    }
}

/// The value of an `Upm-Dependency` line.
pub fn upm_dependency_value(name: &str, version: &str, replacer: &ReplaceSet) -> (r: String)
    ensures
        r@ == upm_value(name@, version@, *replacer),
{
    let mut r = String::from_str(name);
    r.append("@");
    let kind = UpmDependencyType::detect_from_version(version);
    if kind == UpmDependencyType::FileGit || kind == UpmDependencyType::FileAbsolute {
        let replaced = replacer.replace_all(version);
        r.append(replaced.as_str());
    } else {
        r.append(version);
    }
    r
}

/// The value of a `Vpm-Dependency` line: `name@version`.
pub fn vpm_dependency_value(name: &str, version: &str) -> (r: String)
    ensures
        r@ == name@ + "@"@ + version@,
{
    let mut r = String::from_str(name);
    r.append("@");
    r.append(version);
    r
}

} // verus!
