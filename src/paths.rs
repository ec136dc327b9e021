//! Where per-user data and configuration live, as path components chosen
//! from the operating system and the environment's values.

use crate::os::OsKind;
use crate::snippet::texts;
use vstd::prelude::*;
use vstd::string::*;

verus! {

/// The view of an optional text.
pub open spec fn opt_view(s: Option<String>) -> Option<Seq<char>> {
    match s {
        Some(t) => Some(t@),
        None => None,
    }
}

/// The directory that per-user application data goes under: `%APPDATA%`
/// (or `%USERPROFILE%\AppData\Roaming`) on Windows,
/// `~/Library/Application Support` on macOS, and `$XDG_DATA_HOME` (or
/// `~/.local/share`) elsewhere; `.` when the variables are unset.
pub open spec fn data_root_of(
    os: OsKind,
    appdata: Option<Seq<char>>,
    userprofile: Option<Seq<char>>,
    home: Option<Seq<char>>,
    xdg_data_home: Option<Seq<char>>,
) -> Seq<Seq<char>> {
    match os {
        OsKind::Windows => match (appdata, userprofile) {
            (Some(a), _) => seq![a],
            (None, Some(u)) => seq![u, "AppData"@, "Roaming"@],
            (None, None) => seq!["."@],
        },
        OsKind::Macos => match home {
            Some(h) => seq![h, "Library"@, "Application Support"@],
            None => seq!["."@],
        },
        _ => match (xdg_data_home, home) {
            (Some(x), _) => seq![x],
            (None, Some(h)) => seq![h, ".local"@, "share"@],
            (None, None) => seq!["."@],
        },
    }
}

/// The directory that the tool's configuration goes in: `%APPDATA%\snipman`
/// on Windows, `~/Library/Preferences/snipman` on macOS, and
/// `$XDG_CONFIG_HOME/snipman` (or `~/.config/snipman`) elsewhere.
pub open spec fn config_root_of(
    os: OsKind,
    appdata: Option<Seq<char>>,
    home: Seq<char>,
    xdg_config_home: Option<Seq<char>>,
) -> Seq<Seq<char>> {
    match os {
        OsKind::Windows => match appdata {
            Some(a) => seq![a, "snipman"@],
            None => seq!["."@, "snipman"@],
        },
        OsKind::Macos => seq![home, "Library"@, "Preferences"@, "snipman"@],
        _ => match xdg_config_home {
            Some(x) => seq![x, "snipman"@],
            None => seq![home, ".config"@, "snipman"@],
        },
    }
}

/// The path components of the per-user data directory.
pub fn data_root(
    os: OsKind,
    appdata: Option<String>,
    userprofile: Option<String>,
    home: Option<String>,
    xdg_data_home: Option<String>,
) -> (r: Vec<String>)
    ensures
        texts(r@) == data_root_of(
            os,
            opt_view(appdata),
            opt_view(userprofile),
            opt_view(home),
            opt_view(xdg_data_home),
        ),
{
    let ghost (a0, u0, h0, x0) = (appdata, userprofile, home, xdg_data_home);
    let r = match os {
        OsKind::Windows => match (appdata, userprofile) {
            (Some(a), _) => vec![a],
            (None, Some(u)) => vec![u, String::from_str("AppData"), String::from_str("Roaming")],
            (None, None) => vec![String::from_str(".")],
        },
        OsKind::Macos => match home {
            Some(h) => vec![h, String::from_str("Library"), String::from_str("Application Support")],
            None => vec![String::from_str(".")],
        },
        _ => match (xdg_data_home, home) {
            (Some(x), _) => vec![x],
            (None, Some(h)) => vec![h, String::from_str(".local"), String::from_str("share")],
            (None, None) => vec![String::from_str(".")],
        },
    };
    assert(texts(r@) =~= data_root_of(os, opt_view(a0), opt_view(u0), opt_view(h0), opt_view(x0)));
    r
}

/// The path components of the configuration directory.
pub fn config_root(
    os: OsKind,
    appdata: Option<String>,
    home: String,
    xdg_config_home: Option<String>,
) -> (r: Vec<String>)
    ensures
        texts(r@) == config_root_of(os, opt_view(appdata), home@, opt_view(xdg_config_home)),
{
    let ghost (a0, h0, x0) = (appdata, home, xdg_config_home);
    let r = match os {
        OsKind::Windows => match appdata {
            Some(a) => vec![a, String::from_str("snipman")],
            None => vec![String::from_str("."), String::from_str("snipman")],
        },
        OsKind::Macos => vec![
            home,
            String::from_str("Library"),
            String::from_str("Preferences"),
            String::from_str("snipman"),
        ],
        _ => match xdg_config_home {
            Some(x) => vec![x, String::from_str("snipman")],
            None => vec![home, String::from_str(".config"), String::from_str("snipman")],
        },
    };
    assert(texts(r@) =~= config_root_of(os, opt_view(a0), h0@, opt_view(x0)));
    r
}

} // verus!
