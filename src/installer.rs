//! The installer's configuration, the game's location and the paths derived
//! from them.
use vstd::prelude::*;
use crate::filter::ModSteamInfo;
use crate::steamcmd::{download_command, gen_download_command};

verus! {

/// `comp` (a relative path) appended to `base` with one separator between.
pub open spec fn path_join(base: Seq<char>, comp: Seq<char>) -> Seq<char> {
    if base.len() == 0 {
        comp
    } else if base.last() == '/' {
        base + comp
    } else {
        base + "/"@ + comp
    }
}

/// Computes `path_join(base, comp)`.
pub fn join_path(base: &str, comp: &str) -> (r: String)
    ensures
        r@ == path_join(base@, comp@),
{
    let n = base.unicode_len();
    let mut r = String::from_str(base);
    if n > 0 && base.get_char(n - 1) != '/' {
        r.append("/");
    }
    r.append(comp);
    r
}

/// Where the game is installed.
pub struct GamePath(pub String);

impl GamePath {
    /// No location yet.
    pub fn new() -> (r: GamePath)
        ensures
            r.0@.len() == 0,
    {
        GamePath(String::new())
    }

    /// The directory that holds the installed mods.
    pub fn get_mod_path(&self) -> (r: String)
        ensures
            r@ == path_join(self.0@, "game/Mods"@),
    {
        join_path(self.0.as_str(), "game/Mods")
    }

    pub fn path(&self) -> (r: &String)
        ensures
            r == &self.0,
    {
        &self.0
    }
}

/// The kinds of configuration failure.
#[derive(Clone, Copy, Debug, PartialEq, Eq, Structural)]
pub enum InstallerErrorCode {
    ConfigFileNotAvailable,
    ConfigParseError,
    WriteConfigError,
}

pub open spec fn code_name(c: InstallerErrorCode) -> Seq<char> {
    match c {
        InstallerErrorCode::ConfigFileNotAvailable => "ConfigNotAvailable"@,
        InstallerErrorCode::ConfigParseError => "ConfigParseError"@,
        InstallerErrorCode::WriteConfigError => "WriteConfigError"@,
    }
}

impl InstallerErrorCode {
    /// The code's name as shown to the user.
    pub fn name(&self) -> (r: &'static str)
        ensures
            r@ == code_name(*self),
    {
        match self {
            InstallerErrorCode::ConfigFileNotAvailable => "ConfigNotAvailable",
            InstallerErrorCode::ConfigParseError => "ConfigParseError",
            InstallerErrorCode::WriteConfigError => "WriteConfigError",
        }
    }
}

/// A configuration failure with its explanation.
pub struct InstallerError {
    pub code: InstallerErrorCode,
    pub message: String,
}

impl InstallerError {
    pub fn new(code: InstallerErrorCode, message: String) -> (r: InstallerError)
        ensures
            r.code == code,
            r.message == message,
    {
        InstallerError { code, message }
    }

    /// `code: message`.
    pub fn describe(&self) -> (r: String)
        ensures
            r@ == code_name(self.code) + ": "@ + self.message@,
    {
        let mut r = String::from_str(self.code.name());
        r.append(": ");
        r.append(self.message.as_str());
        r
    }
}

/// The installer's settings.
pub struct Installer {
    pub rimworld_path: GamePath,
    pub steamcmd_path: String,
    pub use_pager: bool,
    pub with_pager: String,
}

/// The ids of the records, in order.
pub open spec fn ids_of(ms: Seq<ModSteamInfo>) -> Seq<u64> {
    ms.map_values(|m: ModSteamInfo| m.id)
}

impl Installer {
    /// Settings with nothing configured.
    pub fn new_empty() -> (r: Installer)
        ensures
            r.rimworld_path.0@.len() == 0,
            r.steamcmd_path@.len() == 0,
            !r.use_pager,
            r.with_pager@.len() == 0,
    {
        Installer {
            rimworld_path: GamePath::new(),
            steamcmd_path: String::new(),
            use_pager: false,
            with_pager: String::new(),
        }
    }

    /// The same settings with the game's location replaced.
    pub fn with_rimworld_path(self, rimworld_path: GamePath) -> (r: Installer)
        ensures
            r.rimworld_path == rimworld_path,
            r.steamcmd_path == self.steamcmd_path,
            r.use_pager == self.use_pager,
            r.with_pager == self.with_pager,
    {
        let mut s = self;
        s.rimworld_path = rimworld_path;
        s
    }

    /// The same settings with the download tool's location replaced.
    pub fn with_steamcmd_path(self, steamcmd_path: String) -> (r: Installer)
        ensures
            r.rimworld_path == self.rimworld_path,
            r.steamcmd_path == steamcmd_path,
            r.use_pager == self.use_pager,
            r.with_pager == self.with_pager,
    {
        let mut s = self;
        s.steamcmd_path = steamcmd_path;
        s
    }

    /// The same settings with the pager program replaced.
    pub fn with_pager(self, pager: String) -> (r: Installer)
        ensures
            r.rimworld_path == self.rimworld_path,
            r.steamcmd_path == self.steamcmd_path,
            r.use_pager == self.use_pager,
            r.with_pager == pager,
    {
        let mut s = self;
        s.with_pager = pager;
        s
    }

    /// The same settings with paging turned on.
    pub fn enable_pager(self) -> (r: Installer)
        ensures
            r.rimworld_path == self.rimworld_path,
            r.steamcmd_path == self.steamcmd_path,
            r.use_pager,
            r.with_pager == self.with_pager,
    {
        let mut s = self;
        s.use_pager = true;
        s
    }

    /// The same settings with paging turned off.
    pub fn disable_pager(self) -> (r: Installer)
        ensures
            r.rimworld_path == self.rimworld_path,
            r.steamcmd_path == self.steamcmd_path,
            !r.use_pager,
            r.with_pager == self.with_pager,
    {
        let mut s = self;
        s.use_pager = false;
        s
    }

    /// The download tool's arguments that fetch every mod of `c`.
    pub fn gen_install_string(c: &[ModSteamInfo]) -> (r: String)
        ensures
            r@ == download_command(ids_of(c@)),
    {
        let mut ids: Vec<u64> = Vec::new();
        let mut i: usize = 0;
        while i < c.len()
            invariant
                0 <= i <= c@.len(),
                ids@ == ids_of(c@).take(i as int),
            decreases c@.len() - i,
        {
            ids.push(c[i].id);
            assert(ids_of(c@).take(i as int + 1) == ids_of(c@).take(i as int).push(c@[i as int].id));
            i = i + 1;
        }
        assert(ids_of(c@).take(c@.len() as int) == ids_of(c@));
        gen_download_command(ids.as_slice())
    }
}

/// The download tool's launcher inside the configuration directory.
pub fn get_steamcmd_path(config_path: &str) -> (r: String)
    ensures
        r@ == path_join(path_join(config_path@, "steamcmd"@), "steamcmd.sh"@),
{
    let dir = join_path(config_path, "steamcmd");
    join_path(dir.as_str(), "steamcmd.sh")
}

} // verus!
