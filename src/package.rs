//! Package identifiers (`Author.Name.Path`) and mod records that carry one
//! or not yet.
use vstd::prelude::*;
use crate::filter::ModSteamInfo;

verus! {

/// Marks a mod whose package identifier is not known.
#[derive(Debug, PartialEq, Eq)]
pub struct UnknownPackageId;

/// Marks a mod whose package identifier is known.
#[derive(Debug, PartialEq, Eq)]
pub struct KnownPackageId(pub PackageId);

/// A package identifier: an author and a dot-separated name path.
#[derive(Debug, PartialEq, Eq)]
pub struct PackageId {
    pub author: String,
    pub name_path: Vec<String>,
}

pub open spec fn texts(v: Seq<String>) -> Seq<Seq<char>> {
    v.map_values(|s: String| s@)
}

pub open spec fn has_dot(s: Seq<char>) -> bool {
    s.contains('.')
}

/// The parts written with a dot between each two.
pub open spec fn join_dots(parts: Seq<Seq<char>>) -> Seq<char>
    decreases parts.len(),
{
    if parts.len() == 0 {
        Seq::empty()
    } else if parts.len() == 1 {
        parts[0]
    } else {
        join_dots(parts.drop_last()) + seq!['.'] + parts.last()
    }
}

proof fn lemma_join_extend(parts: Seq<Seq<char>>, cur: Seq<char>, c: char)
    ensures
        join_dots(parts.push(cur.push(c))) == join_dots(parts.push(cur)).push(c),
{
    assert(parts.push(cur.push(c)).drop_last() == parts);
    assert(parts.push(cur).drop_last() == parts);
    if parts.len() == 0 {
        assert(parts.push(cur.push(c))[0] == cur.push(c));
        assert(parts.push(cur)[0] == cur);
    } else {
        assert(join_dots(parts) + seq!['.'] + cur.push(c) =~= (join_dots(parts) + seq!['.']
            + cur).push(c));
    }
}

proof fn lemma_join_split(parts: Seq<Seq<char>>, cur: Seq<char>)
    ensures
        join_dots(parts.push(cur).push(Seq::empty())) == join_dots(parts.push(cur)).push('.'),
{
    let ps = parts.push(cur);
    assert(ps.push(Seq::<char>::empty()).drop_last() == ps);
    assert(join_dots(ps) + seq!['.'] + Seq::<char>::empty() =~= join_dots(ps).push('.'));
}

impl PackageId {
    /// Splits `from` at its first dot into the author and the name path,
    /// whose parts are the dot-separated pieces of the rest.
    pub fn parse(from: &str) -> (r: PackageId)
        requires
            has_dot(from@),
        ensures
            !has_dot(r.author@),
            r.name_path@.len() >= 1,
            forall|k: int| 0 <= k < r.name_path@.len() ==> !has_dot(#[trigger] r.name_path@[k]@),
            from@ == r.author@ + seq!['.'] + join_dots(texts(r.name_path@)),
    {
        let n = from.unicode_len();
        let mut i: usize = 0;
        while i < n && from.get_char(i) != '.'
            invariant
                n == from@.len(),
                0 <= i <= n,
                forall|k: int| 0 <= k < i ==> from@[k] != '.',
                has_dot(from@),
            decreases n - i,
        {
            i = i + 1;
        }
        if i == n {
            proof {
                let k = choose|k: int| 0 <= k < from@.len() && from@[k] == '.';
                assert(false);
            }
        }
        let p = i;
        let author = String::from_str(from.substring_char(0, p));
        assert(!has_dot(author@)) by {
            if has_dot(author@) {
                let k = choose|k: int| 0 <= k < author@.len() && author@[k] == '.';
                assert(from@[k] == '.');
            }
        }
        let mut parts: Vec<String> = Vec::new();
        let mut start: usize = p + 1;
        let mut j: usize = p + 1;
        while j < n
            invariant
                n == from@.len(),
                p < n,
                from@[p as int] == '.',
                p + 1 <= start <= j <= n,
                !has_dot(from@.subrange(start as int, j as int)),
                forall|k: int| 0 <= k < parts@.len() ==> !has_dot(#[trigger] parts@[k]@),
                from@.subrange(p + 1, j as int) == join_dots(
                    texts(parts@).push(from@.subrange(start as int, j as int)),
                ),
            decreases n - j,
        {
            let c = from.get_char(j);
            let ghost cur = from@.subrange(start as int, j as int);
            assert(from@.subrange(p + 1, j + 1) == from@.subrange(p + 1, j as int).push(c));
            if c == '.' {
                let piece = String::from_str(from.substring_char(start, j));
                let ghost before = texts(parts@);
                parts.push(piece);
                assert(texts(parts@) =~= before.push(cur));
                proof {
                    lemma_join_split(before, cur);
                    assert(from@.subrange(j + 1, j + 1) =~= Seq::<char>::empty());
                    assert forall|k: int| 0 <= k < parts@.len() implies !has_dot(
                        #[trigger] parts@[k]@,
                    ) by {
                        if k == parts@.len() - 1 {
                            assert(parts@[k]@ == cur);
                        }
                    }
                }
                start = j + 1;
            } else {
                proof {
                    lemma_join_extend(texts(parts@), cur, c);
                    assert(from@.subrange(start as int, j + 1) == cur.push(c));
                    if has_dot(cur.push(c)) {
                        let k = choose|k: int| 0 <= k < cur.push(c).len() && cur.push(c)[k] == '.';
                        if k < cur.len() {
                            assert(cur[k] == '.');
                        }
                    }
                }
            }
            j = j + 1;
        }
        let last = String::from_str(from.substring_char(start, n));
        let ghost before = texts(parts@);
        parts.push(last);
        assert(texts(parts@) =~= before.push(last@));
        assert forall|k: int| 0 <= k < parts@.len() implies !has_dot(#[trigger] parts@[k]@) by {
            if k == parts@.len() - 1 {
                assert(parts@[k]@ == last@);
            }
        }
        assert(from@ =~= from@.subrange(0, p as int) + seq!['.'] + from@.subrange(p + 1, n as int));
        PackageId { author, name_path: parts }
    }

    /// The identifier written back: the author, a dot, and the name path
    /// joined by dots.
    pub fn to_string(&self) -> (r: String)
        ensures
            r@ == self.author@ + seq!['.'] + join_dots(texts(self.name_path@)),
    {
        proof {
            reveal_strlit(".");
        }
        let mut r = self.author.clone();
        r.append(".");
        let mut i: usize = 0;
        while i < self.name_path.len()
            invariant
                0 <= i <= self.name_path@.len(),
                "."@ == seq!['.'],
                r@ == self.author@ + seq!['.'] + join_dots(texts(self.name_path@).take(i as int)),
            decreases self.name_path@.len() - i,
        {
            let ghost prev = texts(self.name_path@).take(i as int);
            assert(texts(self.name_path@).take(i as int + 1) == prev.push(self.name_path@[i as int]@));
            assert(prev.push(self.name_path@[i as int]@).drop_last() == prev);
            if i > 0 {
                r.append(".");
            } else {
                assert(prev =~= Seq::<Seq<char>>::empty());
            }
            r.append(self.name_path[i].as_str());
            i = i + 1;
        }
        assert(texts(self.name_path@).take(self.name_path@.len() as int) == texts(self.name_path@));
        r
    }
}

/// A mod record, with or without its package identifier.
pub struct RimworldMod<P> {
    pub id: P,
    pub steam_id: u64,
    pub name: String,
    pub author: String,
    pub description: String,
    pub versions: Vec<String>,
}

impl RimworldMod<UnknownPackageId> {
    /// A record of a catalog entry, its package identifier not yet known.
    pub fn from_steam(value: ModSteamInfo) -> (r: RimworldMod<UnknownPackageId>)
        ensures
            r.steam_id == value.id,
            r.name == value.title,
            r.author == value.author,
            r.description == value.description,
            r.versions@.len() == 0,
    {
        RimworldMod {
            id: UnknownPackageId,
            steam_id: value.id,
            name: value.title,
            author: value.author,
            description: value.description,
            versions: Vec::new(),
        }
    }

    /// The same record with its package identifier set.
    pub fn add_id(self, id: PackageId) -> (r: RimworldMod<KnownPackageId>)
        ensures
            r.id.0 == id,
            r.steam_id == self.steam_id,
            r.name == self.name,
            r.author == self.author,
            r.description == self.description,
            r.versions == self.versions,
    {
        RimworldMod {
            id: KnownPackageId(id),
            steam_id: self.steam_id,
            name: self.name,
            author: self.author,
            description: self.description,
            versions: self.versions,
        }
    }
}

} // verus!
