//! Resolution of the user preferences that drive a capture: the save
//! directory mode, the shadow-exclusion flag, and the timer delay.
//!
//! The external settings store is read by the caller; this module receives
//! the raw values (or their absence) and applies the documented defaults.
//! A missing store, a missing key and a wrong-typed value all look the
//! same here: `None`, which falls back to the default — never an error.

use vstd::prelude::*;

use crate::strutil::spec_trim;
use crate::strutil::str_eq;
use crate::strutil::str_starts_with;
use crate::strutil::trim_whitespace;

verus! {

/// Where captured images are saved.
pub enum SaveDirectorySetting {
    /// The fixed, temp-like default directory.
    Temp,
    /// The OS capture tool's own configured default location.
    OsDefault,
    /// A user-chosen directory.
    Custom(String),
}

impl SaveDirectorySetting {
    /// A custom directory is never the empty string; the parser refuses
    /// an empty `custom:` value, so every setting resolves to a concrete
    /// non-empty directory.
    pub open spec fn wf(self) -> bool {
        match self {
            SaveDirectorySetting::Custom(p) => p@.len() > 0,
            _ => true,
        }
    }
}

/// The fixed save directory used when nothing else is configured.
pub open spec fn default_save_dir() -> Seq<char> {
    "/tmp/flashcap"@
}

/// Whether `s` is a well-formed `custom:<path>` setting value: the
/// `custom:` tag followed by a non-empty path.
pub open spec fn is_custom_setting(s: Seq<char>) -> bool {
    s.len() > 7 && s.subrange(0, 7) == "custom:"@
}

/// Interprets the raw `save_directory` setting value.
///
/// `"tmp"` selects the fixed default directory, `"macos_default"` the OS
/// tool's configured location, and `"custom:<path>"` a user directory.
/// A missing value, an unrecognized value, or a `custom:` tag with an
/// empty path all fall back to the default — never an error.
pub fn parse_save_directory_setting(raw: Option<&str>) -> (r: SaveDirectorySetting)
    ensures
        r.wf(),
        raw is None ==> r == SaveDirectorySetting::Temp,
        raw matches Some(s) ==> {
            &&& s@ == "tmp"@ ==> r == SaveDirectorySetting::Temp
            &&& s@ == "macos_default"@ ==> r == SaveDirectorySetting::OsDefault
            &&& is_custom_setting(s@) ==> (r matches SaveDirectorySetting::Custom(p) && p@ == s@
                .subrange(7, s@.len() as int))
            &&& (s@ != "tmp"@ && s@ != "macos_default"@ && !is_custom_setting(s@)) ==> r
                == SaveDirectorySetting::Temp
        },
{
    proof {
        reveal_strlit("tmp");
        reveal_strlit("macos_default");
        reveal_strlit("custom:");
        assert("tmp"@.len() == 3);
        assert("macos_default"@.len() == 13);
        assert("custom:"@.len() == 7);
    }
    match raw {
        None => SaveDirectorySetting::Temp,
        Some(s) => {
            if str_eq(s, "tmp") {
                SaveDirectorySetting::Temp
            } else if str_eq(s, "macos_default") {
                proof {
                    assert(!is_custom_setting(s@)) by {
                        if is_custom_setting(s@) {
                            assert(s@.subrange(0, 7)[0] == s@[0]);
                            assert(s@[0] == 'm');
                            assert("custom:"@[0] == 'c');
                        }
                    }
                }
                SaveDirectorySetting::OsDefault
            } else if str_starts_with(s, "custom:") && s.unicode_len() > 7 {
                let path = s.substring_char(7, s.unicode_len());
                SaveDirectorySetting::Custom(String::from_str(path))
            } else {
                SaveDirectorySetting::Temp
            }
        },
    }
}

/// Whether window-capture drop shadows are excluded; missing or
/// wrong-typed values default to excluding them.
pub fn resolve_exclude_shadow(raw: Option<bool>) -> (r: bool)
    ensures
        r == (if raw is Some {
            raw.unwrap()
        } else {
            true
        }),
{
    match raw {
        Some(v) => v,
        None => true,
    }
}

/// The timer delay in seconds; missing or wrong-typed values default to
/// five. A stored value wider than 32 bits is truncated, as the capture
/// tool takes a 32-bit second count.
pub fn resolve_timer_delay(raw: Option<u64>) -> (r: u32)
    ensures
        r == (if raw is Some {
            raw.unwrap() as u32
        } else {
            5u32
        }),
{
    match raw {
        Some(v) =>
        #[verifier::truncate]
        (v as u32),
        None => 5,
    }
}

/// The directory that an `OsDefault` setting resolves to, given the OS
/// tool's reported location (raw, possibly whitespace-wrapped) and the
/// user's desktop directory: the trimmed report when non-empty, else the
/// desktop directory when non-empty, else the fixed default.
pub open spec fn spec_fallback_dir(os_raw: Option<Seq<char>>, desktop: Option<Seq<char>>) -> Seq<
    char,
> {
    if os_raw is Some && spec_trim(os_raw.unwrap()).len() > 0 {
        spec_trim(os_raw.unwrap())
    } else if desktop is Some && desktop.unwrap().len() > 0 {
        desktop.unwrap()
    } else {
        default_save_dir()
    }
}

/// Resolves a save-directory setting to one concrete, non-empty directory.
///
/// `os_default_dir` is the OS capture tool's reported default location
/// (its raw single-line output; this function trims it), and
/// `desktop_dir` the user's desktop directory; both are consulted only
/// for the `OsDefault` setting, in that order, before the fixed default.
pub fn save_directory_for(
    setting: &SaveDirectorySetting,
    os_default_dir: Option<String>,
    desktop_dir: Option<String>,
) -> (r: String)
    requires
        setting.wf(),
    ensures
        r@.len() > 0,
        setting is Temp ==> r@ == default_save_dir(),
        setting matches SaveDirectorySetting::Custom(p) ==> r@ == p@,
        setting is OsDefault ==> r@ == spec_fallback_dir(
            os_default_dir.deep_view(),
            desktop_dir.deep_view(),
        ),
{
    proof {
        reveal_strlit("/tmp/flashcap");
    }
    match setting {
        SaveDirectorySetting::Temp => String::from_str("/tmp/flashcap"),
        SaveDirectorySetting::Custom(p) => p.clone(),
        SaveDirectorySetting::OsDefault => {
            if let Some(p) = os_default_dir {
                let t = trim_whitespace(p.as_str());
                if t.unicode_len() > 0 {
                    return String::from_str(t);
                }
            }
            if let Some(d) = desktop_dir {
                if d.as_str().unicode_len() > 0 {
                    return d;
                }
            }
            String::from_str("/tmp/flashcap")
        },
    }
}

} // verus!
