//! The install orchestrator: a work-list state machine that resolves the
//! requested identifiers, asks for downloads and follows declared
//! dependencies. The caller performs each requested action (a catalog search,
//! a run of the download tool, a dependency lookup) and hands the result back.
use vstd::prelude::*;
use crate::filter::{matches_record, selected, valid_record, views, FilterFields, ModSteamInfo, ModView};
use crate::steamcmd::{Verdict, EXHAUSTED_MESSAGE};
use crate::text::{parse_workshop_id, workshop_id_of};

verus! {

/// The text that precedes the identifier in a resolution failure.
pub const RESOLUTION_FAILURE: &'static str = "no single mod matches ";

/// What a work item names: free text (a name, or a numeric id written out)
/// or an id already resolved.
pub enum Target {
    Name(String),
    Id(u64),
}

pub enum TargetView {
    Name(Seq<char>),
    Id(u64),
}

impl View for Target {
    type V = TargetView;

    open spec fn view(&self) -> TargetView {
        match self {
            Target::Name(n) => TargetView::Name(n@),
            Target::Id(x) => TargetView::Id(*x),
        }
    }
}

/// One identifier still to install, with its depth in the dependency tree
/// (informational only).
pub struct WorkItem {
    pub target: Target,
    pub depth: usize,
}

pub struct WorkView {
    pub target: TargetView,
    pub depth: usize,
}

impl View for WorkItem {
    type V = WorkView;

    open spec fn view(&self) -> WorkView {
        WorkView { target: self.target@, depth: self.depth }
    }
}

/// Where the session stands.
pub enum Stage {
    /// Free to take the next work item.
    Ready,
    /// Waiting for the catalog's candidates for `query`.
    Resolving { query: String, depth: usize },
    /// Waiting for the result of one run of the download tool over `ids`.
    Downloading { ids: Vec<u64>, depth: usize },
    /// Waiting for the identifiers that mod `id` declares as dependencies.
    Dependencies { id: u64, depth: usize },
    /// Nothing left to do.
    Finished,
}

pub enum StageView {
    Ready,
    Resolving { query: Seq<char>, depth: usize },
    Downloading { ids: Seq<u64>, depth: usize },
    Dependencies { id: u64, depth: usize },
    Finished,
}

impl View for Stage {
    type V = StageView;

    open spec fn view(&self) -> StageView {
        match self {
            Stage::Ready => StageView::Ready,
            Stage::Resolving { query, depth } => StageView::Resolving { query: query@, depth: *depth },
            Stage::Downloading { ids, depth } => StageView::Downloading { ids: ids@, depth: *depth },
            Stage::Dependencies { id, depth } => StageView::Dependencies { id: *id, depth: *depth },
            Stage::Finished => StageView::Finished,
        }
    }
}

/// What the caller is asked to do next.
pub enum Action {
    /// Search the remote catalog for this text and report the candidates.
    Resolve(String),
    /// Run the download tool once over these ids and report its verdict.
    Download(Vec<u64>),
    /// Report the identifiers this mod declares as dependencies.
    Dependencies(u64),
    /// The install is complete.
    Finished,
}

pub enum ActionView {
    Resolve(Seq<char>),
    Download(Seq<u64>),
    Dependencies(u64),
    Finished,
}

impl View for Action {
    type V = ActionView;

    open spec fn view(&self) -> ActionView {
        match self {
            Action::Resolve(q) => ActionView::Resolve(q@),
            Action::Download(ids) => ActionView::Download(ids@),
            Action::Dependencies(id) => ActionView::Dependencies(*id),
            Action::Finished => ActionView::Finished,
        }
    }
}

/// The action that a stage waits on.
pub open spec fn action_of(stage: StageView) -> ActionView {
    match stage {
        StageView::Resolving { query, .. } => ActionView::Resolve(query),
        StageView::Downloading { ids, .. } => ActionView::Download(ids),
        StageView::Dependencies { id, .. } => ActionView::Dependencies(id),
        _ => ActionView::Finished,
    }
}

/// The record of one attempted mod: its id (none for an identifier that
/// could not be resolved), whether it was installed, and the tool's output
/// or the reason of the failure.
pub struct InstallOutcome {
    pub id: Option<u64>,
    pub succeeded: bool,
    pub raw_message: String,
}

pub struct OutcomeView {
    pub id: Option<u64>,
    pub succeeded: bool,
    pub raw_message: Seq<char>,
}

impl View for InstallOutcome {
    type V = OutcomeView;

    open spec fn view(&self) -> OutcomeView {
        OutcomeView { id: self.id, succeeded: self.succeeded, raw_message: self.raw_message@ }
    }
}

/// The fields and the text that narrow down the catalog's candidates; with
/// no text of its own, the identifier being resolved is matched.
pub struct FilterQuery {
    pub fields: FilterFields,
    pub value: Option<String>,
}

pub open spec fn filter_view(f: Option<FilterQuery>) -> Option<(FilterFields, Option<Seq<char>>)> {
    match f {
        Some(fq) => Some(
            (
                fq.fields,
                match fq.value {
                    Some(v) => Some(v@),
                    None => None,
                },
            ),
        ),
        None => None,
    }
}

/// One install invocation.
pub struct InstallSession {
    pub resolve_dependencies: bool,
    pub filter: Option<FilterQuery>,
    /// Every id attempted so far, the pre-seeded ones included.
    pub visited: Vec<u64>,
    /// The identifiers still to take; the last one is taken first.
    pub work: Vec<WorkItem>,
    /// Ids waiting for the single batched download (without dependencies).
    pub batch: Vec<u64>,
    pub stage: Stage,
    pub outcomes: Vec<InstallOutcome>,
    /// The ids that were visited when the session began.
    pub seeded: Ghost<Set<u64>>,
}

pub struct SessionView {
    pub resolve: bool,
    pub filter: Option<(FilterFields, Option<Seq<char>>)>,
    pub visited: Seq<u64>,
    pub work: Seq<WorkView>,
    pub batch: Seq<u64>,
    pub stage: StageView,
    pub outcomes: Seq<OutcomeView>,
    pub seeded: Set<u64>,
}

impl View for InstallSession {
    type V = SessionView;

    open spec fn view(&self) -> SessionView {
        SessionView {
            resolve: self.resolve_dependencies,
            filter: filter_view(self.filter),
            visited: self.visited@,
            work: self.work@.map_values(|w: WorkItem| w@),
            batch: self.batch@,
            stage: self.stage@,
            outcomes: self.outcomes@.map_values(|o: InstallOutcome| o@),
            seeded: self.seeded@,
        }
    }
}

/// No outcome carries id `x`.
pub open spec fn fresh(outcomes: Seq<OutcomeView>, x: u64) -> bool {
    forall|i: int| 0 <= i < outcomes.len() ==> #[trigger] outcomes[i].id != Some(x)
}

/// Ids that wait for a download: distinct, visited, not pre-seeded and not
/// yet recorded.
pub open spec fn pending_ok(s: SessionView, ids: Seq<u64>) -> bool {
    &&& ids.no_duplicates()
    &&& forall|k: int|
        0 <= k < ids.len() ==> s.visited.contains(#[trigger] ids[k]) && !s.seeded.contains(ids[k])
            && fresh(s.outcomes, ids[k])
}

/// No id is recorded twice.
pub open spec fn outcome_ids_distinct(outcomes: Seq<OutcomeView>) -> bool {
    forall|i: int, j: int|
        0 <= i < j < outcomes.len() && (#[trigger] outcomes[i].id) is Some ==> outcomes[i].id
            != #[trigger] outcomes[j].id
}

pub open spec fn session_wf(s: SessionView) -> bool {
    &&& outcome_ids_distinct(s.outcomes)
    &&& forall|i: int|
        0 <= i < s.outcomes.len() && (#[trigger] s.outcomes[i].id) is Some ==> s.visited.contains(
            s.outcomes[i].id->0,
        ) && !s.seeded.contains(s.outcomes[i].id->0)
    &&& forall|x: u64| s.seeded.contains(x) ==> s.visited.contains(x)
    &&& pending_ok(s, s.batch)
    &&& s.resolve ==> s.batch.len() == 0
    &&& match s.stage {
        StageView::Downloading { ids, .. } => pending_ok(s, ids) && (s.resolve ==> ids.len() == 1)
            && s.batch.len() == 0,
        _ => true,
    }
}

/// What a work target denotes as an id, if anything.
pub open spec fn target_id(t: TargetView) -> Option<u64> {
    match t {
        TargetView::Id(x) => Some(x),
        TargetView::Name(n) => workshop_id_of(n),
    }
}

pub open spec fn target_text(t: TargetView) -> Seq<char> {
    match t {
        TargetView::Name(n) => n,
        TargetView::Id(_) => Seq::empty(),
    }
}

/// Taking id `x` (at `depth`): skipped when already visited; else marked
/// visited and downloaded alone (with dependencies) or added to the batch.
pub open spec fn take_id(s: SessionView, x: u64, depth: usize) -> SessionView {
    if s.visited.contains(x) {
        s
    } else if s.resolve {
        SessionView {
            visited: s.visited.push(x),
            stage: StageView::Downloading { ids: seq![x], depth: depth },
            ..s
        }
    } else {
        SessionView { visited: s.visited.push(x), batch: s.batch.push(x), ..s }
    }
}

/// Taking the last work item.
pub open spec fn pop_step(s: SessionView) -> SessionView {
    let item = s.work.last();
    let rest = SessionView { work: s.work.drop_last(), ..s };
    match target_id(item.target) {
        Some(x) => take_id(rest, x, item.depth),
        None => SessionView {
            stage: StageView::Resolving { query: target_text(item.target), depth: item.depth },
            ..rest
        },
    }
}

/// Taking work items until one needs the caller; with the work list empty,
/// the batch is downloaded if it holds anything, and the session finishes
/// otherwise.
pub open spec fn advance(s: SessionView) -> SessionView
    decreases s.work.len(),
{
    if !(s.stage is Ready) {
        s
    } else if s.work.len() == 0 {
        if s.batch.len() > 0 {
            SessionView {
                batch: Seq::empty(),
                stage: StageView::Downloading { ids: s.batch, depth: 0 },
                ..s
            }
        } else {
            SessionView { stage: StageView::Finished, ..s }
        }
    } else {
        advance(pop_step(s))
    }
}

/// Whether a candidate is kept when resolving: any valid record without a
/// filter, the records the filter selects with one.
pub open spec fn keep_candidate(
    m: ModView,
    filter: Option<(FilterFields, Option<Seq<char>>)>,
    query: Seq<char>,
) -> bool {
    match filter {
        None => valid_record(m),
        Some((f, Some(v))) => selected(m, f, v),
        Some((f, None)) => selected(m, f, query),
    }
}

/// The candidates kept when resolving, in order.
pub open spec fn candidate_pool(
    ms: Seq<ModView>,
    filter: Option<(FilterFields, Option<Seq<char>>)>,
    query: Seq<char>,
) -> Seq<ModView>
    decreases ms.len(),
{
    if ms.len() == 0 {
        Seq::empty()
    } else {
        let kept = candidate_pool(ms.drop_last(), filter, query);
        if keep_candidate(ms.last(), filter, query) {
            kept.push(ms.last())
        } else {
            kept
        }
    }
}

/// After the catalog answered: exactly one kept candidate resolves the
/// identifier (its id goes on the work list); otherwise a resolution failure
/// is recorded.
pub open spec fn after_resolution(s: SessionView, cands: Seq<ModView>) -> SessionView {
    match s.stage {
        StageView::Resolving { query, depth } => if candidate_pool(cands, s.filter, query).len()
            == 1 {
            SessionView {
                work: s.work.push(WorkView { target: TargetView::Id(candidate_pool(cands, s.filter, query)[0].id), depth: depth }),
                stage: StageView::Ready,
                ..s
            }
        } else {
            SessionView {
                outcomes: s.outcomes.push(
                    OutcomeView {
                        id: None,
                        succeeded: false,
                        raw_message: RESOLUTION_FAILURE@ + query,
                    },
                ),
                stage: StageView::Ready,
                ..s
            }
        },
        _ => s,
    }
}

/// The message recorded for a finished run of the tool.
pub open spec fn run_message(v: Verdict, out: Seq<char>) -> Seq<char> {
    if v == Verdict::Exhausted {
        EXHAUSTED_MESSAGE@
    } else {
        out
    }
}

/// After a run of the tool: one outcome per id, in order; with dependency
/// resolution, a successful download asks for the mod's dependencies.
pub open spec fn after_download(s: SessionView, v: Verdict, out: Seq<char>) -> SessionView {
    match s.stage {
        StageView::Downloading { ids, depth } => {
            let ok = v == Verdict::Success;
            SessionView {
                outcomes: s.outcomes + Seq::new(
                    ids.len(),
                    |k: int| OutcomeView { id: Some(ids[k]), succeeded: ok, raw_message: run_message(v, out) },
                ),
                stage: if s.resolve && ok && ids.len() > 0 {
                    StageView::Dependencies { id: ids[0], depth: depth }
                } else {
                    StageView::Ready
                },
                ..s
            }
        },
        _ => s,
    }
}

pub open spec fn next_depth(d: usize) -> usize {
    if d < usize::MAX {
        (d + 1) as usize
    } else {
        d
    }
}

/// After the dependencies were reported: they go on the work list one level
/// deeper, so that the first declared is taken first.
pub open spec fn after_dependencies(s: SessionView, deps: Seq<Seq<char>>) -> SessionView {
    match s.stage {
        StageView::Dependencies { depth, .. } => SessionView {
            work: s.work + Seq::new(
                deps.len(),
                |k: int| WorkView { target: TargetView::Name(deps[deps.len() - 1 - k]), depth: next_depth(depth) },
            ),
            stage: StageView::Ready,
            ..s
        },
        _ => s,
    }
}

/// A new session over the requested identifiers, taken in the given order.
pub open spec fn initial_session(
    requested: Seq<Seq<char>>,
    resolve: bool,
    filter: Option<(FilterFields, Option<Seq<char>>)>,
    visited: Seq<u64>,
) -> SessionView {
    SessionView {
        resolve: resolve,
        filter: filter,
        visited: visited,
        work: Seq::new(
            requested.len(),
            |k: int| WorkView { target: TargetView::Name(requested[requested.len() - 1 - k]), depth: 0 },
        ),
        batch: Seq::empty(),
        stage: StageView::Ready,
        outcomes: Seq::empty(),
        seeded: visited.to_set(),
    }
}

fn vec_contains(v: &Vec<u64>, x: u64) -> (r: bool)
    ensures
        r == v@.contains(x),
{
    let mut i: usize = 0;
    while i < v.len()
        invariant
            0 <= i <= v@.len(),
            forall|k: int| 0 <= k < i ==> v@[k] != x,
        decreases v@.len() - i,
    {
        if v[i] == x {
            return true;
        }
        i = i + 1;
    }
    false
}


fn keep(m: &ModSteamInfo, filter: &Option<FilterQuery>, query: &str) -> (r: bool)
    ensures
        r == keep_candidate(m@, filter_view(*filter), query@),
{
    match filter {
        None => m.is_valid(),
        Some(fq) => match &fq.value {
            Some(v) => matches_record(m, fq.fields, v.as_str()),
            None => matches_record(m, fq.fields, query),
        },
    }
}

/// How many candidates are kept, and the id of the first one kept.
fn count_pool(cands: &Vec<ModSteamInfo>, filter: &Option<FilterQuery>, query: &str) -> (r: (
    usize,
    u64,
))
    ensures
        r.0 as nat == candidate_pool(views(cands@), filter_view(*filter), query@).len(),
        r.0 >= 1 ==> r.1 == candidate_pool(views(cands@), filter_view(*filter), query@)[0].id,
{
    let mut count: usize = 0;
    let mut first: u64 = 0;
    let mut i: usize = 0;
    while i < cands.len()
        invariant
            0 <= i <= cands@.len(),
            count <= i,
            count as nat == candidate_pool(views(cands@).take(i as int), filter_view(*filter), query@).len(),
            count >= 1 ==> first == candidate_pool(
                views(cands@).take(i as int),
                    filter_view(*filter),
                query@,
            )[0].id,
        decreases cands@.len() - i,
    {
        assert(views(cands@).take(i as int + 1).drop_last() == views(cands@).take(i as int));
        if keep(&cands[i], filter, query) {
            if count == 0 {
                first = cands[i].id;
            }
            count = count + 1;
        }
        i = i + 1;
    }
    assert(views(cands@).take(cands@.len() as int) == views(cands@));
    (count, first)
}

impl InstallSession {
    pub open spec fn wf(&self) -> bool {
        session_wf(self@)
    }

    /// A session that installs `requested` in order, following dependencies
    /// when `resolve_dependencies` is set, narrowing catalog candidates with
    /// `filter`, and skipping every id in `visited`.
    pub fn new(
        requested: Vec<String>,
        resolve_dependencies: bool,
        filter: Option<FilterQuery>,
        visited: Vec<u64>,
    ) -> (r: InstallSession)
        ensures
            r.wf(),
            r@ == initial_session(
                requested@.map_values(|s: String| s@),
                resolve_dependencies,
                filter_view(filter),
                visited@,
            ),
    {
        let ghost req = requested@.map_values(|s: String| s@);
        let mut requested = requested;
        let mut work: Vec<WorkItem> = Vec::new();
        while requested.len() > 0
            invariant
                requested@.len() <= req.len(),
                requested@.map_values(|s: String| s@) == req.take(requested@.len() as int),
                work@.map_values(|w: WorkItem| w@) == Seq::new(
                    (req.len() - requested@.len()) as nat,
                    |k: int| WorkView { target: TargetView::Name(req[req.len() - 1 - k]), depth: 0 },
                ),
            decreases requested@.len(),
        {
            let ghost before = work@.map_values(|w: WorkItem| w@);
            let ghost n = requested@.len();
            let s = requested.pop().unwrap();
            assert(req.take(n as int)[n - 1] == req[n - 1]);
            assert(requested@.map_values(|s: String| s@) == req.take(n - 1));
            work.push(WorkItem { target: Target::Name(s), depth: 0 });
            assert(work@.map_values(|w: WorkItem| w@) == before.push(
                WorkView { target: TargetView::Name(req[n - 1]), depth: 0 },
            ));
            assert(work@.map_values(|w: WorkItem| w@) =~= Seq::new(
                (req.len() - requested@.len()) as nat,
                |k: int| WorkView { target: TargetView::Name(req[req.len() - 1 - k]), depth: 0 },
            ));
        }
        let ghost seeded = visited@.to_set();
        let r = InstallSession {
            resolve_dependencies,
            filter,
            visited,
            work,
            batch: Vec::new(),
            stage: Stage::Ready,
            outcomes: Vec::new(),
            seeded: Ghost(seeded),
        };
        assert(r@.outcomes =~= Seq::<OutcomeView>::empty());
        r
    }

    fn is_ready(&self) -> (r: bool)
        ensures
            r == (self.stage is Ready),
    {
        match self.stage {
            Stage::Ready => true,
            _ => false,
        }
    }

    /// The action the current stage waits on.
    pub fn current_action(&self) -> (a: Action)
        ensures
            a@ == action_of(self@.stage),
    {
        match &self.stage {
            Stage::Resolving { query, .. } => Action::Resolve(query.clone()),
            Stage::Downloading { ids, .. } => {
                let mut copy: Vec<u64> = Vec::new();
                let mut i: usize = 0;
                while i < ids.len()
                    invariant
                        0 <= i <= ids@.len(),
                        copy@ == ids@.take(i as int),
                    decreases ids@.len() - i,
                {
                    copy.push(ids[i]);
                    assert(ids@.take(i as int + 1) == ids@.take(i as int).push(ids@[i as int]));
                    i = i + 1;
                }
                assert(ids@.take(ids@.len() as int) == ids@);
                Action::Download(copy)
            },
            Stage::Dependencies { id, .. } => Action::Dependencies(*id),
            _ => Action::Finished,
        }
    }

    fn take_id(&mut self, x: u64, depth: usize)
        requires
            session_wf(old(self)@),
            old(self).stage is Ready,
        ensures
            session_wf(final(self)@),
            final(self)@ == take_id(old(self)@, x, depth),
    {
        if vec_contains(&self.visited, x) {
            return ;
        }
        let ghost s = self@;
        assert(fresh(s.outcomes, x)) by {
            assert forall|i: int| 0 <= i < s.outcomes.len() implies #[trigger] s.outcomes[i].id
                != Some(x) by {
                if s.outcomes[i].id == Some(x) {
                    assert(s.visited.contains(s.outcomes[i].id->0));
                }
            }
        }
        assert(!s.batch.contains(x));
        self.visited.push(x);
        if self.resolve_dependencies {
            let mut ids: Vec<u64> = Vec::new();
            ids.push(x);
            self.stage = Stage::Downloading { ids, depth };
            assert(ids@ == seq![x]);
        } else {
            self.batch.push(x);
        }
        assert(self@.outcomes == s.outcomes);
        assert(self@.work == s.work);
        assert(forall|y: u64| s.visited.contains(y) ==> self@.visited.contains(y)) by {
            assert forall|y: u64| s.visited.contains(y) implies self@.visited.contains(y) by {
                let k = choose|k: int| 0 <= k < s.visited.len() && s.visited[k] == y;
                assert(self@.visited[k] == y);
            }
        }
        assert(self@.visited[self@.visited.len() - 1] == x);
        if !self.resolve_dependencies {
            assert forall|k: int| 0 <= k < self@.batch.len() implies self@.visited.contains(
                #[trigger] self@.batch[k],
            ) && !self@.seeded.contains(self@.batch[k]) && fresh(self@.outcomes, self@.batch[k]) by {
                if k < s.batch.len() {
                    assert(self@.batch[k] == s.batch[k]);
                }
            }
        }
    }

    /// Takes work items until one needs the caller, and says what to do.
    pub fn next_action(&mut self) -> (a: Action)
        requires
            old(self).wf(),
            old(self).stage is Ready || old(self).stage is Dependencies || old(self).stage is Finished,
        ensures
            final(self).wf(),
            final(self)@ == advance(old(self)@),
            a@ == action_of(final(self)@.stage),
    {
        while self.is_ready()
            invariant
                self.wf(),
                advance(self@) == advance(old(self)@),
            decreases self.work@.len() + (if self.stage is Ready { 1int } else { 0int }),
        {
            if self.work.len() == 0 {
                if self.batch.len() > 0 {
                    let mut ids: Vec<u64> = Vec::new();
                    std::mem::swap(&mut ids, &mut self.batch);
                    self.stage = Stage::Downloading { ids, depth: 0 };
                    assert(self@.batch =~= Seq::<u64>::empty());
                } else {
                    self.stage = Stage::Finished;
                }
            } else {
                let ghost s = self@;
                let item = self.work.pop().unwrap();
                assert(self.work@.map_values(|w: WorkItem| w@) =~= s.work.drop_last());
                assert(item@ == s.work.last());
                match item.target {
                    Target::Id(x) => self.take_id(x, item.depth),
                    Target::Name(n) => match parse_workshop_id(n.as_str()) {
                        Some(x) => self.take_id(x, item.depth),
                        None => {
                            self.stage = Stage::Resolving { query: n, depth: item.depth };
                        },
                    },
                }
                assert(self@ == pop_step(s));
            }
        }
        self.current_action()
    }

    /// Hands over the catalog's candidates for the identifier being resolved.
    pub fn resolved(&mut self, candidates: Vec<ModSteamInfo>)
        requires
            old(self).wf(),
            old(self).stage is Resolving,
        ensures
            final(self).wf(),
            final(self)@ == after_resolution(old(self)@, views(candidates@)),
    {
        let ghost s = self@;
        let mut stage = Stage::Ready;
        std::mem::swap(&mut stage, &mut self.stage);
        match stage {
            Stage::Resolving { query, depth } => {
                let (count, first) = count_pool(&candidates, &self.filter, query.as_str());
                if count == 1 {
                    self.work.push(WorkItem { target: Target::Id(first), depth });
                    assert(self@.work =~= s.work.push(
                        WorkView { target: TargetView::Id(first), depth: depth },
                    ));
                } else {
                    let mut msg = String::from_str(RESOLUTION_FAILURE);
                    msg.append(query.as_str());
                    self.outcomes.push(InstallOutcome { id: None, succeeded: false, raw_message: msg });
                    let ghost o = OutcomeView { id: None, succeeded: false, raw_message: msg@ };
                    assert(self@.outcomes =~= s.outcomes.push(o));
                    assert(forall|i: int| 0 <= i < s.outcomes.len() ==> self@.outcomes[i] == s.outcomes[i]);
                    assert forall|k: int| 0 <= k < self@.batch.len() implies fresh(
                        self@.outcomes,
                        #[trigger] self@.batch[k],
                    ) by {
                        assert(fresh(s.outcomes, s.batch[k]));
                    }
                }
            },
            _ => {},
        }
    }

    /// Hands over the verdict of the run of the tool over the ids being
    /// downloaded, with what it printed.
    pub fn downloaded(&mut self, verdict: Verdict, output: String)
        requires
            old(self).wf(),
            old(self).stage is Downloading,
            verdict != Verdict::Retry,
        ensures
            final(self).wf(),
            final(self)@ == after_download(old(self)@, verdict, output@),
    {
        let ghost s = self@;
        let ok = verdict == Verdict::Success;
        let msg = if verdict == Verdict::Exhausted {
            String::from_str(EXHAUSTED_MESSAGE)
        } else {
            output
        };
        let mut stage = Stage::Ready;
        std::mem::swap(&mut stage, &mut self.stage);
        match stage {
            Stage::Downloading { ids, depth } => {
                let ghost added = Seq::new(
                    ids@.len(),
                    |k: int| OutcomeView { id: Some(ids@[k]), succeeded: ok, raw_message: msg@ },
                );
                let mut i: usize = 0;
                while i < ids.len()
                    invariant
                        0 <= i <= ids@.len(),
                        self.outcomes@.map_values(|o: InstallOutcome| o@) == s.outcomes + added.take(
                            i as int,
                        ),
                        self.resolve_dependencies == s.resolve,
                        self.filter == old(self).filter,
                        self.visited@ == s.visited,
                        self.work@.map_values(|w: WorkItem| w@) == s.work,
                        self.batch@ == s.batch,
                        self.stage is Ready,
                        self.seeded@ == s.seeded,
                        added.len() == ids@.len(),
                        forall|k: int| 0 <= k < ids@.len() ==> #[trigger] added[k] == (OutcomeView { id: Some(ids@[k]), succeeded: ok, raw_message: msg@ }),
                    decreases ids@.len() - i,
                {
                    let ghost before = self.outcomes@.map_values(|o: InstallOutcome| o@);
                    self.outcomes.push(
                        InstallOutcome { id: Some(ids[i]), succeeded: ok, raw_message: msg.clone() },
                    );
                    assert(added.take(i as int + 1) == added.take(i as int).push(added[i as int]));
                    assert(self.outcomes@.map_values(|o: InstallOutcome| o@) =~= before.push(
                        added[i as int],
                    ));
                    i = i + 1;
                }
                assert(added.take(ids@.len() as int) == added);
                if self.resolve_dependencies && ok && ids.len() > 0 {
                    self.stage = Stage::Dependencies { id: ids[0], depth };
                }
                proof {
                    lemma_record_downloads(s, ids@, added);
                }
            },
            _ => {},
        }
    }

    /// Hands over the identifiers that the mod just installed declares as
    /// dependencies, in declaration order.
    pub fn dependencies_found(&mut self, deps: Vec<String>)
        requires
            old(self).wf(),
            old(self).stage is Dependencies,
        ensures
            final(self).wf(),
            final(self)@ == after_dependencies(old(self)@, deps@.map_values(|s: String| s@)),
    {
        let ghost s = self@;
        let ghost dv = deps@.map_values(|s: String| s@);
        let depth = match &self.stage {
            Stage::Dependencies { depth, .. } => *depth,
            _ => 0,
        };
        let d = if depth < usize::MAX {
            depth + 1
        } else {
            depth
        };
        let mut deps = deps;
        while deps.len() > 0
            invariant
                deps@.len() <= dv.len(),
                deps@.map_values(|s: String| s@) == dv.take(deps@.len() as int),
                self.work@.map_values(|w: WorkItem| w@) == s.work + Seq::new(
                    (dv.len() - deps@.len()) as nat,
                    |k: int| WorkView { target: TargetView::Name(dv[dv.len() - 1 - k]), depth: d },
                ),
                self.resolve_dependencies == s.resolve,
                self.filter == old(self).filter,
                self.visited@ == s.visited,
                self.outcomes@.map_values(|o: InstallOutcome| o@) == s.outcomes,
                self.batch@ == s.batch,
                self.stage@ == s.stage,
                self.seeded@ == s.seeded,
            decreases deps@.len(),
        {
            let ghost before = self.work@.map_values(|w: WorkItem| w@);
            let ghost n = deps@.len();
            let name = deps.pop().unwrap();
            assert(dv.take(n as int)[n - 1] == dv[n - 1]);
            assert(deps@.map_values(|s: String| s@) == dv.take(n - 1));
            self.work.push(WorkItem { target: Target::Name(name), depth: d });
            assert(self.work@.map_values(|w: WorkItem| w@) =~= before.push(
                WorkView { target: TargetView::Name(dv[n - 1]), depth: d },
            ));
            assert(self.work@.map_values(|w: WorkItem| w@) =~= s.work + Seq::new(
                (dv.len() - deps@.len()) as nat,
                |k: int| WorkView { target: TargetView::Name(dv[dv.len() - 1 - k]), depth: d },
            ));
        }
        self.stage = Stage::Ready;
    }

    /// The outcomes recorded so far, in the order the mods were attempted.
    pub fn outcomes(&self) -> (r: &Vec<InstallOutcome>)
        ensures
            r@.map_values(|o: InstallOutcome| o@) == self@.outcomes,
    {
        &self.outcomes
    }
}

/// Recording one outcome per downloaded id keeps the session well formed.
proof fn lemma_record_downloads(s: SessionView, ids: Seq<u64>, added: Seq<OutcomeView>)
    requires
        session_wf(s),
        s.stage is Downloading,
        s.stage->Downloading_ids == ids,
        added.len() == ids.len(),
        forall|k: int| 0 <= k < ids.len() ==> (#[trigger] added[k]).id == Some(ids[k]),
    ensures
        outcome_ids_distinct(s.outcomes + added),
        forall|i: int|
            0 <= i < (s.outcomes + added).len() && (#[trigger] (s.outcomes + added)[i].id) is Some
                ==> s.visited.contains((s.outcomes + added)[i].id->0) && !s.seeded.contains(
                (s.outcomes + added)[i].id->0,
            ),
{
    let all = s.outcomes + added;
    let n = s.outcomes.len();
    assert forall|i: int, j: int|
        0 <= i < j < all.len() && (#[trigger] all[i].id) is Some implies all[i].id
        != #[trigger] all[j].id by {
        if j < n {
            assert(all[i] == s.outcomes[i] && all[j] == s.outcomes[j]);
        } else if i < n {
            assert(all[j] == added[j - n]);
            assert(fresh(s.outcomes, ids[j - n]));
            assert(s.outcomes[i].id != Some(ids[j - n]));
        } else {
            assert(all[i] == added[i - n] && all[j] == added[j - n]);
            assert(ids[i - n] != ids[j - n]);
        }
    }
    assert forall|i: int|
        0 <= i < all.len() && (#[trigger] all[i].id) is Some implies s.visited.contains(
        all[i].id->0,
    ) && !s.seeded.contains(all[i].id->0) by {
        if i < n {
            assert(all[i] == s.outcomes[i]);
        } else {
            assert(all[i] == added[i - n]);
            assert(s.visited.contains(ids[i - n]));
        }
    }
}

/// However a session goes, no mod id is recorded twice among its outcomes,
/// whether it is reached from several dependency paths or through a cycle.
pub proof fn lemma_outcome_ids_unique(s: InstallSession)
    requires
        s.wf(),
    ensures
        forall|i: int, j: int|
            0 <= i < j < s@.outcomes.len() && (#[trigger] s@.outcomes[i].id) is Some
                ==> s@.outcomes[i].id != #[trigger] s@.outcomes[j].id,
{
}

/// An id that was visited when the session began is skipped: taking it
/// changes nothing, no download ever holds it and no outcome records it.
pub proof fn lemma_seeded_id_skipped(s: InstallSession, x: u64, depth: usize)
    requires
        s.wf(),
        s@.seeded.contains(x),
    ensures
        take_id(s@, x, depth) == s@,
        fresh(s@.outcomes, x),
        !s@.batch.contains(x),
        action_of(s@.stage) is Download ==> !(action_of(s@.stage)->Download_0).contains(x),
{
    assert(s@.visited.contains(x));
    if s@.batch.contains(x) {
        let k = choose|k: int| 0 <= k < s@.batch.len() && s@.batch[k] == x;
        assert(!s@.seeded.contains(s@.batch[k]));
    }
    match s@.stage {
        StageView::Downloading { ids, .. } => {
            if ids.contains(x) {
                let k = choose|k: int| 0 <= k < ids.len() && ids[k] == x;
                assert(!s@.seeded.contains(ids[k]));
            }
        },
        _ => {},
    }
    assert forall|i: int| 0 <= i < s@.outcomes.len() implies #[trigger] s@.outcomes[i].id != Some(
        x,
    ) by {
        if s@.outcomes[i].id == Some(x) {
            assert(!s@.seeded.contains(s@.outcomes[i].id->0));
        }
    }
}

} // verus!
