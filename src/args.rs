//! What the command line asks for, as plain data, and the decisions taken
//! from it: which fields a search matches, which filter narrows an install,
//! and how a search listing is narrowed.
use vstd::prelude::*;
use crate::filter::{effective_fields, filtered, views, widest_title, DisplayType, FilterFields, SteamMods, resolve_fields};
use crate::install::{filter_view, initial_session, FilterQuery, InstallSession};

verus! {

/// How a listing is shown.
pub struct DisplayOptions {
    pub large: bool,
    pub pager: bool,
    pub no_pager: bool,
}

/// A search of the remote catalog.
pub struct Steam {
    pub display: DisplayOptions,
    pub mod_name: String,
    /// Absent: no filtering; present without text: filter by `mod_name`.
    pub filter: Option<Option<String>>,
    pub author: bool,
    pub version: bool,
    pub steam_id: bool,
    pub name: bool,
    pub all: bool,
}

/// A search of the installed mods.
pub struct Local {
    pub display: DisplayOptions,
    pub string: String,
    pub author: bool,
    pub version: bool,
    pub steam_id: bool,
    pub name: bool,
    pub all: bool,
}

/// Reinstalling everything.
pub struct Pull {
    pub resolve: bool,
    pub verbose: bool,
    pub debug: bool,
}

/// Installing mods by name or id.
pub struct InstallCommandGroup {
    pub rimmod: Vec<String>,
    /// Absent: no filtering; present without text: filter by each identifier.
    pub filter: Option<Option<String>>,
    pub author: bool,
    pub version: bool,
    pub steam_id: bool,
    pub name: bool,
    pub all: bool,
    pub yes: bool,
    pub resolve: bool,
    pub verbose: bool,
    pub debug: bool,
}

/// A configuration value to set.
pub enum Options {
    UsePager { value: String },
    GamePath { value: String },
    Pager { value: String },
}

/// Where to search.
#[allow(inconsistent_fields)]
pub enum Search {
    Steam { args: Steam },
    Local { args: Local },
}

/// The subcommands.
#[allow(inconsistent_fields)]
pub enum Commands {
    Install { args: InstallCommandGroup },
    Pull { args: Pull, ignored: bool },
    SearchSteam { args: Steam },
    SearchLocally { args: Local },
    SetOption { command: Options },
    Search { command: Search },
    List { display: DisplayOptions },
    Completions { shell: String },
}

/// A parsed command line.
pub struct App {
    pub command: Commands,
}

impl Local {
    /// The fields the search matches.
    pub fn to_filter_obj(&self) -> (r: FilterFields)
        ensures
            r == effective_fields(self.all, self.name, self.author, self.version, self.steam_id),
    {
        resolve_fields(self.all, self.name, self.author, self.version, self.steam_id)
    }
}

impl Steam {
    /// The fields the filter matches.
    pub fn to_filter_obj(&self) -> (r: FilterFields)
        ensures
            r == effective_fields(self.all, self.name, self.author, self.version, self.steam_id),
    {
        resolve_fields(self.all, self.name, self.author, self.version, self.steam_id)
    }
}

fn copy_option(v: &Option<String>) -> (r: Option<String>)
    ensures
        r == *v,
{
    match v {
        Some(s) => Some(s.clone()),
        None => None,
    }
}

/// The filter an install is narrowed by: none without `--filter`; else the
/// selected fields with the filter's own text, if it has one.
pub open spec fn install_filter(args: InstallCommandGroup) -> Option<
    (FilterFields, Option<Seq<char>>),
> {
    match args.filter {
        None => None,
        Some(v) => Some(
            (
                effective_fields(args.all, args.name, args.author, args.version, args.steam_id),
                match v {
                    Some(t) => Some(t@),
                    None => None,
                },
            ),
        ),
    }
}

impl InstallCommandGroup {
    /// The fields the filter matches.
    pub fn to_filter_obj(&self) -> (r: FilterFields)
        ensures
            r == effective_fields(self.all, self.name, self.author, self.version, self.steam_id),
    {
        resolve_fields(self.all, self.name, self.author, self.version, self.steam_id)
    }

    /// The filter that narrows each identifier's candidates, if one was asked.
    pub fn filter_query(&self) -> (r: Option<FilterQuery>)
        ensures
            filter_view(r) == install_filter(*self),
    {
        match &self.filter {
            None => None,
            Some(v) => Some(FilterQuery { fields: self.to_filter_obj(), value: copy_option(v) }),
        }
    }

    /// The install session for these arguments: the identifiers without
    /// repeats, in order, and nothing visited beyond `visited`.
    pub fn install_session(&self, visited: Vec<u64>) -> (r: InstallSession)
        ensures
            r.wf(),
            r@ == initial_session(
                dedup_seq(self.rimmod@.map_values(|s: String| s@)),
                self.resolve,
                install_filter(*self),
                visited@,
            ),
    {
        let requested = dedup_identifiers(&self.rimmod);
        let f = self.filter_query();
        let r = InstallSession::new(requested, self.resolve, f, visited);
        r
    }
}

/// The identifiers in order, each kept at its first occurrence only.
pub open spec fn dedup_seq(s: Seq<Seq<char>>) -> Seq<Seq<char>>
    decreases s.len(),
{
    if s.len() == 0 {
        Seq::empty()
    } else {
        let d = dedup_seq(s.drop_last());
        if d.contains(s.last()) {
            d
        } else {
            d.push(s.last())
        }
    }
}

fn contains_text(v: &Vec<String>, s: &String) -> (r: bool)
    ensures
        r == v@.map_values(|t: String| t@).contains(s@),
{
    let mut i: usize = 0;
    while i < v.len()
        invariant
            0 <= i <= v@.len(),
            forall|k: int| 0 <= k < i ==> v@[k]@ != s@,
        decreases v@.len() - i,
    {
        if v[i] == *s {
            assert(v@.map_values(|t: String| t@)[i as int] == s@);
            return true;
        }
        i = i + 1;
    }
    let ghost vm = v@.map_values(|t: String| t@);
    assert forall|k: int| 0 <= k < vm.len() implies #[trigger] vm[k] != s@ by {
        assert(v@[k]@ != s@);
    }
    false
}

/// `v` without repeated identifiers (compared exactly), first occurrences kept.
pub fn dedup_identifiers(v: &Vec<String>) -> (r: Vec<String>)
    ensures
        r@.map_values(|s: String| s@) == dedup_seq(v@.map_values(|s: String| s@)),
{
    let ghost vv = v@.map_values(|s: String| s@);
    let mut r: Vec<String> = Vec::new();
    let mut i: usize = 0;
    while i < v.len()
        invariant
            0 <= i <= v@.len(),
            vv == v@.map_values(|s: String| s@),
            r@.map_values(|s: String| s@) == dedup_seq(vv.take(i as int)),
        decreases v@.len() - i,
    {
        assert(vv.take(i as int + 1).drop_last() == vv.take(i as int));
        assert(vv.take(i as int + 1).last() == v@[i as int]@);
        if !contains_text(&r, &v[i]) {
            let ghost before = r@.map_values(|s: String| s@);
            r.push(v[i].clone());
            assert(r@.map_values(|s: String| s@) =~= before.push(v@[i as int]@));
        }
        i = i + 1;
    }
    assert(vv.take(v@.len() as int) == vv);
    r
}

/// Reads a yes/no setting: "true" or "1", "false" or "0".
pub fn parse_switch(value: &str) -> (r: Option<bool>)
    ensures
        r == (if value@ == "true"@ || value@ == "1"@ {
            Some(true)
        } else if value@ == "false"@ || value@ == "0"@ {
            Some(false)
        } else {
            None
        }),
{
    let t = String::from_str(value);
    let yes = String::from_str("true");
    let one = String::from_str("1");
    let no = String::from_str("false");
    let zero = String::from_str("0");
    if t == yes || t == one {
        Some(true)
    } else if t == no || t == zero {
        Some(false)
    } else {
        None
    }
}

/// Verbosity switches of the installing commands.
pub trait InstallingOptions {
    spec fn verbose_spec(&self) -> bool;

    spec fn debug_spec(&self) -> bool;

    /// Verbose output, implied by debug output.
    fn is_verbose(&self) -> (r: bool)
        ensures
            r == (self.verbose_spec() || self.debug_spec()),
    ;

    fn is_debug(&self) -> (r: bool)
        ensures
            r == self.debug_spec(),
    ;
}

impl InstallingOptions for Pull {
    open spec fn verbose_spec(&self) -> bool {
        self.verbose
    }

    open spec fn debug_spec(&self) -> bool {
        self.debug
    }

    fn is_verbose(&self) -> (r: bool) {
        self.verbose || self.debug
    }

    fn is_debug(&self) -> (r: bool) {
        self.debug
    }
}

impl InstallingOptions for InstallCommandGroup {
    open spec fn verbose_spec(&self) -> bool {
        self.verbose
    }

    open spec fn debug_spec(&self) -> bool {
        self.debug
    }

    fn is_verbose(&self) -> (r: bool) {
        self.verbose || self.debug
    }

    fn is_debug(&self) -> (r: bool) {
        self.debug
    }
}

/// The text a catalog search is narrowed by: none without `--filter`, the
/// filter's own text, or else the searched name.
pub open spec fn steam_filter_text(args: Steam) -> Option<Seq<char>> {
    match args.filter {
        None => None,
        Some(Some(v)) => Some(v@),
        Some(None) => Some(args.mod_name@),
    }
}

/// Narrows the catalog's listing as the search's filter switches ask.
pub fn search_in_steam(args: &Steam, mods: SteamMods) -> (r: SteamMods)
    ensures
        steam_filter_text(*args) is None ==> r == mods,
        steam_filter_text(*args) matches Some(q) ==> views(r.mods@) == filtered(
            views(mods.mods@),
            effective_fields(args.all, args.name, args.author, args.version, args.steam_id),
            q,
        ) && r.biggest_name_size == widest_title(
            filtered(
                views(mods.mods@),
                effective_fields(args.all, args.name, args.author, args.version, args.steam_id),
                q,
            ),
        ) && r.display_type == mods.display_type,
{
    match &args.filter {
        None => mods,
        Some(Some(v)) => mods.filter_by(args.to_filter_obj(), v.as_str()),
        Some(None) => mods.filter_by(args.to_filter_obj(), args.mod_name.as_str()),
    }
}

/// Narrows the installed mods as a local search asks, shown as it asks.
pub fn search_locally(mods: SteamMods, args: &Local) -> (r: SteamMods)
    ensures
        views(r.mods@) == filtered(
            views(mods.mods@),
            effective_fields(args.all, args.name, args.author, args.version, args.steam_id),
            args.string@,
        ),
        r.biggest_name_size == widest_title(
            filtered(
                views(mods.mods@),
                effective_fields(args.all, args.name, args.author, args.version, args.steam_id),
                args.string@,
            ),
        ),
        r.display_type == Some(
            if args.display.large {
                DisplayType::Long
            } else {
                DisplayType::Short
            },
        ),
{
    let shown = mods.with_display(DisplayType::from_large(args.display.large));
    shown.filter_by(args.to_filter_obj(), args.string.as_str())
}

} // verus!
