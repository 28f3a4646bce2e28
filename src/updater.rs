//! Update settings and release version comparison.
use vstd::prelude::*;
use crate::text::{chars_of, leading_count, parse_u32, parsed_u32, split_chars, split_on, strip_leading, text_of, Separator};

verus! {

#[derive(Debug)]
pub struct UpdateSettings {
    pub auto_check: bool,
    pub auto_download: bool,
    pub auto_install: bool,
    pub check_interval_hours: u32,
    pub last_check: Option<String>,
}

impl Default for UpdateSettings {
    fn default() -> (r: Self)
        ensures
            r.auto_check,
            !r.auto_download,
            !r.auto_install,
            r.check_interval_hours == 24,
            r.last_check is None,
    {
        UpdateSettings { auto_check: true, auto_download: false, auto_install: false, check_interval_hours: 24, last_check: None }
    }
}

/// The dot-separated parts of a version, once leading `v` marks are dropped.
pub open spec fn version_parts(v: Seq<char>) -> Seq<Seq<char>> {
    split_on(v.subrange(leading_count(v, 'v') as int, v.len() as int), Separator::Char('.'))
}

/// A version `major.minor.patch` (after optional leading `v` marks), each
/// part a `u32`.
pub open spec fn parsed_version(v: Seq<char>) -> Option<(u32, u32, u32)> {
    let p = version_parts(v);
    if p.len() == 3 && parsed_u32(p[0]) is Some && parsed_u32(p[1]) is Some && parsed_u32(p[2]) is Some {
        Some((parsed_u32(p[0]).unwrap(), parsed_u32(p[1]).unwrap(), parsed_u32(p[2]).unwrap()))
    } else {
        None
    }
}

/// Lexicographic order of versions.
pub open spec fn version_greater(a: (u32, u32, u32), b: (u32, u32, u32)) -> bool {
    a.0 > b.0 || (a.0 == b.0 && (a.1 > b.1 || (a.1 == b.1 && a.2 > b.2)))
}

pub struct AutoUpdater {
    current_version: String,
    update_url: String,
    settings_path: String,
}

impl AutoUpdater {
    pub closed spec fn current(&self) -> Seq<char> {
        self.current_version@
    }

    /// An updater for the running `current_version`, asking `update_url`
    /// and keeping its settings at `settings_path`.
    pub fn with_version(current_version: String, update_url: String, settings_path: String) -> (r: Self)
        ensures
            r.current() == current_version@,
    {
        AutoUpdater { current_version, update_url, settings_path }
    }

    pub fn update_url(&self) -> &String {
        &self.update_url
    }

    pub fn settings_path(&self) -> &String {
        &self.settings_path
    }

    /// Reads `major.minor.patch`, with optional leading `v` marks.
    pub fn parse_version(&self, version: &str) -> (r: Result<(u32, u32, u32), String>)
        ensures
            match r {
                Ok(t) => parsed_version(version@) == Some(t),
                Err(_) => parsed_version(version@) is None,
            },
    {
        let cs = chars_of(version);
        let k = strip_leading(&cs, 'v');
        let rest = text_of(&cs, k, cs.len());
        let rcs = chars_of(rest.as_str());
        let parts = split_chars(&rcs, Separator::Char('.'));
        if parts.len() != 3 {
            return Err("Invalid version format".to_owned());
        }
        let major = parse_u32(parts[0].as_str());
        let minor = parse_u32(parts[1].as_str());
        let patch = parse_u32(parts[2].as_str());
        match (major, minor, patch) {
            (Some(a), Some(b), Some(c)) => Ok((a, b, c)),
            _ => Err("Invalid version number".to_owned()),
        }
    }

    /// Whether `new_version` is later than the running version.
    pub fn is_newer_version(&self, new_version: &str) -> (r: Result<bool, String>)
        ensures
            match r {
                Ok(b) => parsed_version(self.current()) is Some && parsed_version(new_version@) is Some && b
                    == version_greater(parsed_version(new_version@).unwrap(), parsed_version(self.current()).unwrap()),
                Err(_) => parsed_version(self.current()) is None || parsed_version(new_version@) is None,
            },
    {
        let current = self.parse_version(self.current_version.as_str())?;
        let new = self.parse_version(new_version)?;
        Ok(new.0 > current.0 || (new.0 == current.0 && (new.1 > current.1 || (new.1 == current.1 && new.2 > current.2))))
    }
}

} // verus!
