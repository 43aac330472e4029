//! The order a pull request is read in: groups of files, each with the reason it stands where it
//! does.

use vstd::prelude::*;

use crate::order::{goes_on, in_turn, lemma_listed_in_turn};
use crate::strings::{same, views};

verus! {

/// The order the tree is in.
#[derive(Debug, Clone, Copy, PartialEq, Eq, Structural)]
pub enum OrderMode {
    /// The order of the review plan.
    Recommended,
    /// The order of the paths.
    Path,
}

impl OrderMode {
    /// The other order.
    pub open spec fn other(self) -> OrderMode {
        match self {
            OrderMode::Recommended => OrderMode::Path,
            OrderMode::Path => OrderMode::Recommended,
        }
    }

    /// The name of an order.
    pub open spec fn name(self) -> Seq<char> {
        match self {
            OrderMode::Recommended => "recommended order"@,
            OrderMode::Path => "path order"@,
        }
    }

    /// The other order.
    #[must_use]
    pub fn toggled(self) -> (r: OrderMode)
        ensures
            r == self.other(),
    {
        match self {
            OrderMode::Recommended => OrderMode::Path,
            OrderMode::Path => OrderMode::Recommended,
        }
    }

    /// The order's name, as the tree's title shows it.
    #[must_use]
    pub fn label(self) -> (r: &'static str)
        ensures
            r@ == self.name(),
    {
        match self {
            OrderMode::Recommended => "recommended order",
            OrderMode::Path => "path order",
        }
    }
}

/// Where a plan comes from.
#[derive(Debug, Clone, Copy, PartialEq, Eq, Structural)]
pub enum PlanSource {
    /// From an analysis of the pull request.
    Analysis,
    /// From rules on the paths alone.
    Rules,
}

impl PlanSource {
    /// The name of a source.
    pub open spec fn name(self) -> Seq<char> {
        match self {
            PlanSource::Analysis => "AI"@,
            PlanSource::Rules => "rules"@,
        }
    }

    /// The source's name.
    #[must_use]
    pub fn label(self) -> (r: &'static str)
        ensures
            r@ == self.name(),
    {
        match self {
            PlanSource::Analysis => "AI",
            PlanSource::Rules => "rules",
        }
    }
}

/// One step of a plan.
#[derive(Debug, PartialEq, Eq)]
pub struct PlanGroup {
    /// Its name.
    pub group: String,
    /// Where it sits in the recommended order, from one.
    pub order: u32,
    /// Why it is read there.
    pub rationale: String,
    /// The files it holds, by path.
    pub files: Vec<String>,
}

/// What a [`PlanGroup`] says.
pub struct GroupView {
    pub group: Seq<char>,
    pub order: u32,
    pub rationale: Seq<char>,
    pub files: Seq<Seq<char>>,
}

impl View for PlanGroup {
    type V = GroupView;

    open spec fn view(&self) -> GroupView {
        GroupView {
            group: self.group@,
            order: self.order,
            rationale: self.rationale@,
            files: views(self.files@),
        }
    }
}

impl Clone for PlanGroup {
    fn clone(&self) -> (r: Self)
        ensures
            r@ == self@,
    {
        let files = self.files.clone();
        assert(files@ =~= self.files@);
        PlanGroup {
            group: self.group.clone(),
            order: self.order,
            rationale: self.rationale.clone(),
            files,
        }
    }
}

/// The order a pull request is read in.
#[derive(Debug, PartialEq, Eq)]
pub struct Plan {
    /// The steps, in order.
    pub groups: Vec<PlanGroup>,
    /// Where the plan comes from.
    pub source: PlanSource,
    /// Whether it was changed by hand.
    pub overridden: bool,
    /// The commit it was made for.
    pub head_sha: String,
}

/// What a [`Plan`] says.
pub struct PlanView {
    pub groups: Seq<GroupView>,
    pub source: PlanSource,
    pub overridden: bool,
    pub head_sha: Seq<char>,
}

/// The groups' contents, one by one.
pub open spec fn group_views(groups: Seq<PlanGroup>) -> Seq<GroupView> {
    groups.map_values(|g: PlanGroup| g@)
}

impl View for Plan {
    type V = PlanView;

    open spec fn view(&self) -> PlanView {
        PlanView {
            groups: group_views(self.groups@),
            source: self.source,
            overridden: self.overridden,
            head_sha: self.head_sha@,
        }
    }
}

impl Clone for Plan {
    fn clone(&self) -> (r: Self)
        ensures
            r@ == self@,
    {
        let mut groups: Vec<PlanGroup> = Vec::new();
        let mut i: usize = 0;
        while i < self.groups.len()
            invariant
                i <= self.groups@.len(),
                groups@.len() == i,
                forall|j: int| 0 <= j < i ==> (#[trigger] groups@[j])@ == self.groups@[j]@,
            decreases self.groups@.len() - i,
        {
            groups.push(self.groups[i].clone());
            i += 1;
        }
        let r = Plan {
            groups,
            source: self.source,
            overridden: self.overridden,
            head_sha: self.head_sha.clone(),
        };
        assert(r@.groups =~= self@.groups);
        r
    }
}

/// What an optional plan says.
pub open spec fn opt_plan(plan: Option<Plan>) -> Option<PlanView> {
    match plan {
        Some(plan) => Some(plan@),
        None => None,
    }
}

/// Copies an optional plan.
pub fn copy_plan(plan: &Option<Plan>) -> (r: Option<Plan>)
    ensures
        opt_plan(r) == opt_plan(*plan),
{
    match plan {
        Some(plan) => Some(plan.clone()),
        None => None,
    }
}

/// How many of the first `n` paths stand in `known`.
pub open spec fn count_known(paths: Seq<Seq<char>>, known: Seq<Seq<char>>, n: nat) -> nat
    decreases n,
{
    if n == 0 {
        0
    } else {
        count_known(paths, known, (n - 1) as nat) + if known.contains(paths[n - 1]) { 1nat } else { 0 }
    }
}

/// The files of the first `n` groups, one group after the other.
pub open spec fn planned(groups: Seq<GroupView>, n: nat) -> Seq<Seq<char>>
    decreases n,
{
    if n == 0 {
        Seq::empty()
    } else {
        planned(groups, (n - 1) as nat) + groups[n - 1].files
    }
}

/// Where `path` first stands in `paths`, counting from one the entries that are in `known`.
pub open spec fn place_of(paths: Seq<Seq<char>>, path: Seq<char>, known: Seq<Seq<char>>, from: nat) -> Option<
    nat,
>
    decreases paths.len() - from,
{
    if from >= paths.len() {
        None
    } else if paths[from as int] == path && known.contains(path) {
        Some(count_known(paths, known, from) + 1)
    } else {
        place_of(paths, path, known, from + 1)
    }
}

/// Where a path stands in an order of the paths of a patch, counted from one.
pub open spec fn position(plan: PlanView, path: Seq<char>, mode: OrderMode, paths: Seq<Seq<char>>) -> Option<
    nat,
> {
    match mode {
        OrderMode::Recommended => place_of(planned(plan.groups, plan.groups.len()), path, paths, 0),
        OrderMode::Path => place_of(paths, path, paths, 0),
    }
}

fn is_known(path: &String, known: &Vec<String>) -> (r: bool)
    ensures
        r == views(known@).contains(path@),
{
    let mut i: usize = 0;
    while i < known.len()
        invariant
            i <= known@.len(),
            forall|j: int| 0 <= j < i ==> (#[trigger] known@[j])@ != path@,
        decreases known@.len() - i,
    {
        if same(known[i].as_str(), path.as_str()) {
            assert(views(known@)[i as int] == path@);
            return true;
        }
        i += 1;
    }
    assert(!views(known@).contains(path@)) by {
        if views(known@).contains(path@) {
            let j = views(known@).index_of(path@);
            assert(known@[j]@ == path@);
        }
    }
    false
}

fn find_place(paths: &Vec<String>, path: &String, known: &Vec<String>) -> (r: Option<usize>)
    ensures
        match r {
            Some(n) => place_of(views(paths@), path@, views(known@), 0) == Some(n as nat),
            None => place_of(views(paths@), path@, views(known@), 0) is None,
        },
{
    let ghost all = views(paths@);
    let in_patch: bool = is_known(path, known);
    let mut i: usize = 0;
    let mut count: usize = 0;
    while i < paths.len()
        invariant
            i <= paths@.len(),
            all == views(paths@),
            in_patch == views(known@).contains(path@),
            count == count_known(all, views(known@), i as nat),
            count <= i,
            place_of(all, path@, views(known@), 0) == place_of(
                all,
                path@,
                views(known@),
                i as nat,
            ),
        decreases paths@.len() - i,
    {
        assert(all[i as int] == paths@[i as int]@);
        if in_patch && same(paths[i].as_str(), path.as_str()) {
            return Some(count + 1);
        }
        if is_known(&paths[i], known) {
            count += 1;
        }
        i += 1;
    }
    None
}

/// The files of all groups, one group after the other.
fn all_files(groups: &Vec<PlanGroup>) -> (out: Vec<String>)
    ensures
        views(out@) == planned(group_views(groups@), groups@.len()),
{
    let mut out: Vec<String> = Vec::new();
    let mut i: usize = 0;
    assert(views(out@) =~= Seq::empty());
    while i < groups.len()
        invariant
            i <= groups@.len(),
            views(out@) == planned(group_views(groups@), i as nat),
        decreases groups@.len() - i,
    {
        assert(group_views(groups@)[i as int] == groups@[i as int]@);
        let ghost before = out@;
        let mut files = groups[i].files.clone();
        let ghost more = files@;
        assert(more =~= groups@[i as int].files@);
        out.append(&mut files);
        assert(views(before + more) =~= views(before) + views(more));
        i += 1;
    }
    out
}

impl Plan {
    /// Whether the plan was made for the given commit.
    #[must_use]
    pub fn matches_head(&self, head: &str) -> (r: bool)
        ensures
            r == (self.head_sha@ == head@),
    {
        same(self.head_sha.as_str(), head)
    }

    /// Where a path stands in an order of the paths of a patch, counted from one.
    #[must_use]
    pub fn position_of(&self, path: &String, mode: OrderMode, paths: &Vec<String>) -> (r: Option<
        usize,
    >)
        ensures
            match r {
                Some(n) => position(self@, path@, mode, views(paths@)) == Some(n as nat),
                None => position(self@, path@, mode, views(paths@)) is None,
            },
    {
        match mode {
            OrderMode::Recommended => {
                let files = all_files(&self.groups);
                find_place(&files, path, paths)
            },
            OrderMode::Path => find_place(paths, path, paths),
        }
    }
}

proof fn lemma_known_grows(paths: Seq<Seq<char>>, known: Seq<Seq<char>>, i: nat, j: nat)
    requires
        i < j,
        known.contains(paths[i as int]),
    ensures
        count_known(paths, known, i) < count_known(paths, known, j),
    decreases j,
{
    if i < j - 1 {
        lemma_known_grows(paths, known, i, (j - 1) as nat);
    }
}

proof fn lemma_place_of(paths: Seq<Seq<char>>, path: Seq<char>, known: Seq<Seq<char>>, from: nat, at: nat)
    requires
        from <= at < paths.len(),
        paths[at as int] == path,
        known.contains(path),
        forall|k: int| from <= k < at ==> #[trigger] paths[k] != path,
    ensures
        place_of(paths, path, known, from) == Some(count_known(paths, known, at) + 1),
    decreases at - from,
{
    if from < at {
        assert(paths[from as int] != path);
        lemma_place_of(paths, path, known, from + 1, at);
    }
}

/// A file that the patch has and that the order names has a place in it; where one is first named
/// before another, its place comes before that one's.
pub proof fn lemma_places_follow_the_order(
    paths: Seq<Seq<char>>,
    known: Seq<Seq<char>>,
    a: nat,
    b: nat,
)
    requires
        a < b < paths.len(),
        known.contains(paths[a as int]),
        known.contains(paths[b as int]),
        forall|k: int| 0 <= k < a ==> #[trigger] paths[k] != paths[a as int],
        forall|k: int| 0 <= k < b ==> #[trigger] paths[k] != paths[b as int],
    ensures
        place_of(paths, paths[a as int], known, 0) is Some,
        place_of(paths, paths[b as int], known, 0) is Some,
        1 <= place_of(paths, paths[a as int], known, 0)->0 < place_of(
            paths,
            paths[b as int],
            known,
            0,
        )->0,
{
    lemma_place_of(paths, paths[a as int], known, 0, a);
    lemma_place_of(paths, paths[b as int], known, 0, b);
    lemma_known_grows(paths, known, a, b);
}

/// The first file that the patch has is first; a file that the patch or the order does not have has
/// no place.
pub proof fn lemma_the_first_place_is_one(paths: Seq<Seq<char>>, path: Seq<char>, known: Seq<Seq<char>>)
    ensures
        !known.contains(path) || !paths.contains(path) ==> place_of(paths, path, known, 0) is None,
        paths.len() > 0 && paths[0] == path && known.contains(path) ==> place_of(paths, path, known, 0)
            == Some(1nat),
{
    if !known.contains(path) || !paths.contains(path) {
        lemma_no_place(paths, path, known, 0);
    }
    if paths.len() > 0 && paths[0] == path && known.contains(path) {
        lemma_place_of(paths, path, known, 0, 0);
    }
}

proof fn lemma_no_place(paths: Seq<Seq<char>>, path: Seq<char>, known: Seq<Seq<char>>, from: nat)
    requires
        !known.contains(path) || !paths.contains(path),
    ensures
        place_of(paths, path, known, from) is None,
    decreases paths.len() - from,
{
    if from < paths.len() {
        assert(paths.contains(paths[from as int]));
        lemma_no_place(paths, path, known, from + 1);
    }
}

/// The recommended order reads the files of an earlier group before those of a later one, and the
/// files of one group in the order the group names them.
pub proof fn lemma_groups_are_read_in_order(groups: Seq<GroupView>, a: nat, b: nat)
    requires
        a < b < groups.len(),
    ensures
        in_turn(planned(groups, groups.len()), groups[a as int].files, groups[b as int].files),
{
    let upto = |n: nat| planned(groups, n);
    let block = |k: nat| groups[k as int].files;
    assert forall|k: nat| k < groups.len() implies #[trigger] goes_on(upto, block, k) by {}
    lemma_listed_in_turn(upto, block, groups.len(), a, b);
}

/// Read by path, a file stands where the patch lists it; read as recommended, where the plan's
/// groups name it.
pub proof fn lemma_the_order_decides_the_place(plan: PlanView, paths: Seq<Seq<char>>, at: nat)
    requires
        at < paths.len(),
        forall|k: int| 0 <= k < at ==> #[trigger] paths[k] != paths[at as int],
    ensures
        position(plan, paths[at as int], OrderMode::Path, paths) == Some(at + 1),
        position(plan, paths[at as int], OrderMode::Recommended, paths) is Some <==> planned(
            plan.groups,
            plan.groups.len(),
        ).contains(paths[at as int]),
{
    let path = paths[at as int];
    lemma_place_of(paths, path, paths, 0, at);
    lemma_all_known(paths, at);
    let order = planned(plan.groups, plan.groups.len());
    if order.contains(path) {
        lemma_has_place(order, path, paths, 0);
    } else {
        lemma_no_place(order, path, paths, 0);
    }
}

proof fn lemma_all_known(paths: Seq<Seq<char>>, n: nat)
    requires
        n <= paths.len(),
    ensures
        count_known(paths, paths, n) == n,
    decreases n,
{
    if n > 0 {
        lemma_all_known(paths, (n - 1) as nat);
        assert(paths.contains(paths[n - 1]));
    }
}

proof fn lemma_has_place(paths: Seq<Seq<char>>, path: Seq<char>, known: Seq<Seq<char>>, from: nat)
    requires
        known.contains(path),
        exists|k: int| from <= k < paths.len() && #[trigger] paths[k] == path,
    ensures
        place_of(paths, path, known, from) is Some,
    decreases paths.len() - from,
{
    let k = choose|k: int| from <= k < paths.len() && #[trigger] paths[k] == path;
    if paths[from as int] != path {
        assert(from + 1 <= k && paths[k] == path);
        lemma_has_place(paths, path, known, from + 1);
    }
}

} // verus!
