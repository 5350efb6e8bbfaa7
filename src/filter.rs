//! The search/filter engine: which fields a query is matched against, and
//! the stable, fuzzy, multi-field filter over mod listings.
use vstd::prelude::*;
use crate::text::{decimal, u64_to_decimal};
use fuzzy_matcher::FuzzyMatcher;

verus! {

/// How a listing is shown: one line per mod, or the long form.
#[derive(Clone, Copy, Debug, PartialEq, Eq, Structural)]
pub enum DisplayType {
    Short,
    Long,
}

impl DisplayType {
    /// The long form when `large` is asked for, else the short one.
    pub fn from_large(large: bool) -> (r: DisplayType)
        ensures
            r == (if large { DisplayType::Long } else { DisplayType::Short }),
    {
        if large {
            DisplayType::Long
        } else {
            DisplayType::Short
        }
    }
}

/// The set of record fields a query is matched against.
#[derive(Clone, Copy, Debug, PartialEq, Eq, Structural)]
pub struct FilterFields {
    pub steam_id: bool,
    pub title: bool,
    pub description: bool,
    pub author: bool,
}

pub open spec fn all_fields() -> FilterFields {
    FilterFields { steam_id: true, title: true, description: true, author: true }
}

pub open spec fn title_only() -> FilterFields {
    FilterFields { steam_id: false, title: true, description: false, author: false }
}

pub open spec fn no_field(f: FilterFields) -> bool {
    !f.steam_id && !f.title && !f.description && !f.author
}

/// The effective field set for the command-line switches: `all` selects every
/// field; otherwise each switch selects its field (`version` the description),
/// and when none is selected the title is matched.
pub open spec fn effective_fields(
    all: bool,
    name: bool,
    author: bool,
    version: bool,
    steam_id: bool,
) -> FilterFields {
    if all {
        all_fields()
    } else if !name && !author && !version && !steam_id {
        title_only()
    } else {
        FilterFields { steam_id: steam_id, title: name, description: version, author: author }
    }
}

/// Computes `effective_fields` from the switches.
pub fn resolve_fields(all: bool, name: bool, author: bool, version: bool, steam_id: bool) -> (r:
    FilterFields)
    ensures
        r == effective_fields(all, name, author, version, steam_id),
        !no_field(r),
{
    if all {
        return FilterFields { steam_id: true, title: true, description: true, author: true };
    }
    let mut r = FilterFields { steam_id, title: name, description: version, author };
    if !r.steam_id && !r.title && !r.description && !r.author {
        r.title = true;
    }
    r
}

/// Whichever switches are given, the effective field set is never empty, and
/// with no field switch at all (neither `all` nor any single field) it is the
/// title alone.
pub proof fn lemma_default_fields_are_title(
    all: bool,
    name: bool,
    author: bool,
    version: bool,
    steam_id: bool,
)
    ensures
        !no_field(effective_fields(all, name, author, version, steam_id)),
        (!all && !name && !author && !version && !steam_id) ==> effective_fields(
            all,
            name,
            author,
            version,
            steam_id,
        ) == title_only(),
{
}

/// A mod as listed by the workshop catalog or found installed.
#[derive(Debug)]
pub struct ModSteamInfo {
    pub id: u64,
    pub title: String,
    pub description: String,
    pub author: String,
}

pub struct ModView {
    pub id: u64,
    pub title: Seq<char>,
    pub description: Seq<char>,
    pub author: Seq<char>,
}

impl View for ModSteamInfo {
    type V = ModView;

    open spec fn view(&self) -> ModView {
        ModView {
            id: self.id,
            title: self.title@,
            description: self.description@,
            author: self.author@,
        }
    }
}

impl ModSteamInfo {
    /// A field-by-field copy.
    pub fn copy_record(&self) -> (r: ModSteamInfo)
        ensures
            r@ == self@,
    {
        ModSteamInfo {
            id: self.id,
            title: self.title.clone(),
            description: self.description.clone(),
            author: self.author.clone(),
        }
    }

    /// A record can be handed on only with a non-zero id and a title.
    pub fn is_valid(&self) -> (r: bool)
        ensures
            r == valid_record(self@),
    {
        self.id != 0 && self.title.unicode_len() > 0
    }
}

pub open spec fn valid_record(m: ModView) -> bool {
    m.id != 0 && m.title.len() > 0
}

pub open spec fn views(v: Seq<ModSteamInfo>) -> Seq<ModView> {
    v.map_values(|m: ModSteamInfo| m@)
}

pub open spec fn ascii_lower(c: char) -> u32 {
    if 'A' <= c && c <= 'Z' {
        (c as u32 + 32) as u32
    } else {
        c as u32
    }
}

pub open spec fn eq_ignore_ascii_case(a: char, b: char) -> bool {
    ascii_lower(a) == ascii_lower(b)
}

/// The characters of `p` occur in order in `c`, ignoring ASCII case (the
/// leftmost-first embedding, which exists whenever any embedding does).
pub open spec fn ci_subsequence(p: Seq<char>, c: Seq<char>) -> bool
    decreases c.len(),
{
    if p.len() == 0 {
        true
    } else if c.len() == 0 {
        false
    } else if eq_ignore_ascii_case(p[0], c[0]) {
        ci_subsequence(p.drop_first(), c.drop_first())
    } else {
        ci_subsequence(p, c.drop_first())
    }
}

/// Whether the skim fuzzy matcher (default settings) gives `pattern` a score
/// against `choice`.
pub uninterp spec fn skim_accepts(choice: Seq<char>, pattern: Seq<char>) -> bool;

/// Relies on `fuzzy_matcher::skim::SkimMatcherV2::default().fuzzy_match`,
/// reduced to whether a score is returned. The answer depends on the two
/// strings alone. Its first pass (`cheap_matches`) gives up unless every
/// pattern character occurs in order in the choice, compared exactly or
/// ignoring ASCII case; an empty pattern always scores.
#[verifier::external_body]
fn skim_match(choice: &str, pattern: &str) -> (r: bool)
    ensures
        r == skim_accepts(choice@, pattern@),
        r ==> ci_subsequence(pattern@, choice@),
        pattern@.len() == 0 ==> r,
{
    fuzzy_matcher::skim::SkimMatcherV2::default().fuzzy_match(choice, pattern).is_some()
}

/// A field accepts the query when the matcher scores it; such a field always
/// holds the query as a case-insensitive ordered subsequence.
pub open spec fn field_accepts(field: Seq<char>, q: Seq<char>) -> bool {
    skim_accepts(field, q) && ci_subsequence(q, field)
}

/// Some enabled field of `m` accepts `q`.
pub open spec fn record_matches(m: ModView, f: FilterFields, q: Seq<char>) -> bool {
    (f.title && field_accepts(m.title, q)) || (f.author && field_accepts(m.author, q)) || (
    f.description && field_accepts(m.description, q)) || (f.steam_id && field_accepts(
        decimal(m.id as nat),
        q,
    ))
}

/// A record is kept: the query is not empty, the record is valid and one of
/// its enabled fields accepts the query.
pub open spec fn selected(m: ModView, f: FilterFields, q: Seq<char>) -> bool {
    q.len() > 0 && valid_record(m) && record_matches(m, f, q)
}

/// The records kept by the filter, in their original order.
pub open spec fn filtered(ms: Seq<ModView>, f: FilterFields, q: Seq<char>) -> Seq<ModView>
    decreases ms.len(),
{
    if ms.len() == 0 {
        Seq::empty()
    } else {
        let kept = filtered(ms.drop_last(), f, q);
        if selected(ms.last(), f, q) {
            kept.push(ms.last())
        } else {
            kept
        }
    }
}

/// The widest title (in characters) of `ms`, 0 when there is none.
pub open spec fn widest_title(ms: Seq<ModView>) -> nat
    decreases ms.len(),
{
    if ms.len() == 0 {
        0
    } else {
        let w = widest_title(ms.drop_last());
        if ms.last().title.len() > w {
            ms.last().title.len()
        } else {
            w
        }
    }
}

/// Whether one record passes the filter.
pub fn matches_record(m: &ModSteamInfo, f: FilterFields, q: &str) -> (r: bool)
    ensures
        r == selected(m@, f, q@),
{
    if q.unicode_len() == 0 || !m.is_valid() {
        return false;
    }
    if f.title && skim_match(m.title.as_str(), q) {
        return true;
    }
    if f.author && skim_match(m.author.as_str(), q) {
        return true;
    }
    if f.description && skim_match(m.description.as_str(), q) {
        return true;
    }
    if f.steam_id {
        let id_text = u64_to_decimal(m.id);
        if skim_match(id_text.as_str(), q) {
            return true;
        }
    }
    false
}

/// A mod listing together with what its presentation needs.
pub struct SteamMods {
    pub mods: Vec<ModSteamInfo>,
    pub biggest_name_size: usize,
    pub display_type: Option<DisplayType>,
}

impl SteamMods {
    /// An empty listing.
    pub fn new() -> (r: SteamMods)
        ensures
            r.mods@.len() == 0,
            r.biggest_name_size == 0,
            r.display_type.is_none(),
    {
        SteamMods { mods: Vec::new(), biggest_name_size: 0, display_type: None }
    }

    /// A listing of `mods`, its title width measured.
    pub fn from_mods(mods: Vec<ModSteamInfo>) -> (r: SteamMods)
        ensures
            r.mods@ == mods@,
            r.biggest_name_size == widest_title(views(mods@)),
            r.display_type.is_none(),
    {
        let mut size: usize = 0;
        let mut i: usize = 0;
        while i < mods.len()
            invariant
                0 <= i <= mods@.len(),
                size as nat == widest_title(views(mods@).take(i as int)),
            decreases mods@.len() - i,
        {
            assert(views(mods@).take(i as int + 1).drop_last() == views(mods@).take(i as int));
            let w = mods[i].title.unicode_len();
            if w > size {
                size = w;
            }
            i = i + 1;
        }
        assert(views(mods@).take(mods@.len() as int) == views(mods@));
        SteamMods { mods, biggest_name_size: size, display_type: None }
    }

    /// The same listing shown as `t`.
    pub fn with_display(self, t: DisplayType) -> (r: SteamMods)
        ensures
            r.mods@ == self.mods@,
            r.biggest_name_size == self.biggest_name_size,
            r.display_type == Some(t),
    {
        let mut s = self;
        s.display_type = Some(t);
        s
    }

    /// The same listing with its display choice replaced by `t`.
    pub fn with_raw_display(self, t: Option<DisplayType>) -> (r: SteamMods)
        ensures
            r.mods@ == self.mods@,
            r.biggest_name_size == self.biggest_name_size,
            r.display_type == t,
    {
        let mut s = self;
        s.display_type = t;
        s
    }

    /// The records whose enabled fields accept `value`, in listing order, with
    /// the widest of their titles; the display choice is kept.
    pub fn filter_by(&self, filter: FilterFields, value: &str) -> (r: SteamMods)
        ensures
            views(r.mods@) == filtered(views(self.mods@), filter, value@),
            r.biggest_name_size == widest_title(filtered(views(self.mods@), filter, value@)),
            r.display_type == self.display_type,
    {
        let mut kept: Vec<ModSteamInfo> = Vec::new();
        let mut size: usize = 0;
        let mut i: usize = 0;
        while i < self.mods.len()
            invariant
                0 <= i <= self.mods@.len(),
                views(kept@) == filtered(views(self.mods@).take(i as int), filter, value@),
                size as nat == widest_title(views(kept@)),
            decreases self.mods@.len() - i,
        {
            let ghost before = kept@;
            assert(views(self.mods@).take(i as int + 1).drop_last() == views(self.mods@).take(
                i as int,
            ));
            let m = &self.mods[i];
            if matches_record(m, filter, value) {
                let c = m.copy_record();
                let w = c.title.unicode_len();
                kept.push(c);
                assert(views(kept@).drop_last() == views(before));
                if w > size {
                    size = w;
                }
            }
            i = i + 1;
        }
        assert(views(self.mods@).take(self.mods@.len() as int) == views(self.mods@));
        SteamMods { mods: kept, biggest_name_size: size, display_type: self.display_type }
    }
}

/// Every record the filter keeps has an enabled field that holds the query as
/// a case-insensitive ordered subsequence: a record with no such field is
/// never in the output.
pub proof fn lemma_unmatched_record_excluded(
    ms: Seq<ModView>,
    f: FilterFields,
    q: Seq<char>,
    m: ModView,
)
    requires
        !(f.title && ci_subsequence(q, m.title)),
        !(f.author && ci_subsequence(q, m.author)),
        !(f.description && ci_subsequence(q, m.description)),
        !(f.steam_id && ci_subsequence(q, decimal(m.id as nat))),
    ensures
        !filtered(ms, f, q).contains(m),
    decreases ms.len(),
{
    if ms.len() > 0 {
        lemma_unmatched_record_excluded(ms.drop_last(), f, q, m);
        let kept = filtered(ms.drop_last(), f, q);
        if selected(ms.last(), f, q) {
            assert(kept.push(ms.last()).last() == ms.last());
            assert forall|i: int| 0 <= i < kept.push(ms.last()).len() implies
                kept.push(ms.last())[i] != m by {
                if i < kept.len() {
                    assert(kept.push(ms.last())[i] == kept[i]);
                }
            }
        }
    }
}

} // verus!
