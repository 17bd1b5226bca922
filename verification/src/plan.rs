//! The reconciliation plan: which desired names the store already serves
//! with the right address, which need an update, and which must be created.

use crate::types::{
    Record, RecordCreate, RecordCreateView, RecordUpdate, RecordUpdateView, RecordView, TTL,
};
use vstd::prelude::*;

verus! {

/// The items of `s` before position `n` whose flag is set, in their order.
pub open spec fn kept<A>(s: Seq<A>, flags: Seq<bool>, n: int) -> Seq<A>
    decreases n,
{
    if n <= 0 {
        Seq::empty()
    } else if flags[n - 1] {
        kept(s, flags, n - 1).push(s[n - 1])
    } else {
        kept(s, flags, n - 1)
    }
}

/// The names of a sequence of records.
pub open spec fn record_names(records: Seq<RecordView>) -> Seq<Seq<char>> {
    Seq::new(records.len(), |j: int| records[j].name)
}

/// The identifiers of a sequence of records.
pub open spec fn record_ids(records: Seq<RecordView>) -> Seq<Seq<char>> {
    Seq::new(records.len(), |j: int| records[j].id)
}

/// Whether `remote[j]` answers a desired name: its name is desired, by exact
/// equality, and no earlier record of the store carries it.
pub open spec fn is_matched(desired: Seq<Seq<char>>, remote: Seq<RecordView>, j: int) -> bool {
    desired.contains(remote[j].name) && !record_names(remote).take(j).contains(remote[j].name)
}

/// For each record of the store, whether it answers a desired name.
pub open spec fn matched_flags(desired: Seq<Seq<char>>, remote: Seq<RecordView>) -> Seq<bool> {
    Seq::new(remote.len(), |j: int| is_matched(desired, remote, j))
}

/// The records of the store that answer a desired name, in the order in which
/// the store listed them.
pub open spec fn matched(desired: Seq<Seq<char>>, remote: Seq<RecordView>) -> Seq<RecordView> {
    kept(remote, matched_flags(desired, remote), remote.len() as int)
}

/// Whether `desired[i]` must be created: the store has no record of that name,
/// and the name did not occur earlier among the desired ones.
pub open spec fn is_unmatched(desired: Seq<Seq<char>>, remote: Seq<RecordView>, i: int) -> bool {
    !record_names(remote).contains(desired[i]) && !desired.take(i).contains(desired[i])
}

/// For each desired name, whether it must be created.
pub open spec fn unmatched_flags(desired: Seq<Seq<char>>, remote: Seq<RecordView>) -> Seq<bool> {
    Seq::new(desired.len(), |i: int| is_unmatched(desired, remote, i))
}

/// The desired names that the store does not serve, each once, in the order
/// in which they were asked for.
pub open spec fn unmatched(desired: Seq<Seq<char>>, remote: Seq<RecordView>) -> Seq<Seq<char>> {
    kept(desired, unmatched_flags(desired, remote), desired.len() as int)
}

/// For each of `records`, whether it publishes something else than `content`.
pub open spec fn changed_flags(records: Seq<RecordView>, content: Seq<char>) -> Seq<bool> {
    Seq::new(records.len(), |k: int| records[k].content != content)
}

/// For each of `records`, whether it publishes `content`.
pub open spec fn unchanged_flags(records: Seq<RecordView>, content: Seq<char>) -> Seq<bool> {
    Seq::new(records.len(), |k: int| records[k].content == content)
}

/// The updates that bring `records` to `content`, one for each member.
pub open spec fn updates_to(records: Seq<RecordView>, content: Seq<char>) -> Seq<RecordUpdateView> {
    Seq::new(records.len(), |k: int| RecordUpdateView { id: records[k].id, content: content })
}

/// The creations of `fresh` with `content`, one for each name.
pub open spec fn creations_of(fresh: Seq<Seq<char>>, content: Seq<char>) -> Seq<RecordCreateView> {
    Seq::new(fresh.len(), |k: int| RecordCreateView { name: fresh[k], content: content })
}

/// What has to happen so that every desired name is served with `content`.
///
/// `matched` holds the records of the store that answer a desired name, in
/// the store's order; `unmatched` the desired names without a record.
#[derive(Clone, Debug, PartialEq, Eq)]
pub struct ReconciliationPlan {
    pub matched: Vec<Record>,
    pub unmatched: Vec<String>,
    pub content: String,
}

/// The model of [`ReconciliationPlan`].
pub struct ReconciliationPlanView {
    pub matched: Seq<RecordView>,
    pub unmatched: Seq<Seq<char>>,
    pub content: Seq<char>,
}

impl View for ReconciliationPlan {
    type V = ReconciliationPlanView;

    open spec fn view(&self) -> ReconciliationPlanView {
        ReconciliationPlanView {
            matched: self.matched.deep_view(),
            unmatched: self.unmatched.deep_view(),
            content: self.content@,
        }
    }
}

impl ReconciliationPlanView {
    /// The matched records that already publish the content.
    pub open spec fn matched_unchanged(self) -> Seq<RecordView> {
        kept(self.matched, unchanged_flags(self.matched, self.content), self.matched.len() as int)
    }

    /// The matched records that publish something else.
    pub open spec fn matched_changed(self) -> Seq<RecordView> {
        kept(self.matched, changed_flags(self.matched, self.content), self.matched.len() as int)
    }

    /// The updates of the plan: one for each changed record, by its identifier.
    pub open spec fn patches(self) -> Seq<RecordUpdateView> {
        updates_to(self.matched_changed(), self.content)
    }

    /// The creations of the plan: one for each unmatched name.
    pub open spec fn posts(self) -> Seq<RecordCreateView> {
        creations_of(self.unmatched, self.content)
    }

    /// The identifiers of the matched records, in the store's order.
    pub open spec fn ids(self) -> Seq<Seq<char>> {
        record_ids(self.matched)
    }

    /// Whether the store already serves every desired name with the content.
    pub open spec fn converged(self) -> bool {
        self.unmatched.len() == 0 && self.matched_changed().len() == 0
    }
}

/// The plan for `desired` against `remote` and the address `content`.
pub open spec fn plan_of(
    desired: Seq<Seq<char>>,
    remote: Seq<RecordView>,
    content: Seq<char>,
) -> ReconciliationPlanView {
    ReconciliationPlanView {
        matched: matched(desired, remote),
        unmatched: unmatched(desired, remote),
        content: content,
    }
}

/// A member of `kept` is a flagged item, and the other way round.
pub proof fn lemma_kept_contains<A>(s: Seq<A>, flags: Seq<bool>, n: int, x: A)
    requires
        0 <= n <= s.len(),
        n <= flags.len(),
    ensures
        kept(s, flags, n).contains(x) <==> exists|i: int|
            0 <= i < n && flags[i] && #[trigger] s[i] == x,
    decreases n,
{
    if n > 0 {
        lemma_kept_contains(s, flags, n - 1, x);
        let rest = kept(s, flags, n - 1);
        if flags[n - 1] {
            let all = rest.push(s[n - 1]);
            assert(all[all.len() - 1] == s[n - 1]);
            if rest.contains(x) {
                let k = choose|k: int| 0 <= k < rest.len() && rest[k] == x;
                assert(all[k] == x);
            }
        }
    }
}

/// Where no two flagged items are equal, `kept` holds nothing twice.
pub proof fn lemma_kept_distinct<A>(s: Seq<A>, flags: Seq<bool>, n: int)
    requires
        0 <= n <= s.len(),
        n <= flags.len(),
        forall|i: int, j: int| 0 <= i < j < n && flags[i] && flags[j] ==> s[i] != s[j],
    ensures
        kept(s, flags, n).no_duplicates(),
    decreases n,
{
    if n > 0 {
        lemma_kept_distinct(s, flags, n - 1);
        if flags[n - 1] {
            lemma_kept_contains(s, flags, n - 1, s[n - 1]);
        }
    }
}

/// `kept` and the taking of names may go in either order.
pub proof fn lemma_kept_names(records: Seq<RecordView>, flags: Seq<bool>, n: int)
    requires
        0 <= n <= records.len(),
        n <= flags.len(),
    ensures
        record_names(kept(records, flags, n)) == kept(record_names(records), flags, n),
        record_ids(kept(records, flags, n)) == kept(record_ids(records), flags, n),
        kept(records, flags, n).len() <= n,
    decreases n,
{
    if n > 0 {
        lemma_kept_names(records, flags, n - 1);
    }
}

/// The first position at which `x` stands in `s`, given one position `k`.
proof fn lemma_first_occurrence<A>(s: Seq<A>, x: A, k: int) -> (i: int)
    requires
        0 <= k < s.len(),
        s[k] == x,
    ensures
        0 <= i <= k,
        s[i] == x,
        !s.take(i).contains(x),
    decreases k,
{
    if s.take(k).contains(x) {
        let earlier = choose|j: int| 0 <= j < s.take(k).len() && s.take(k)[j] == x;
        lemma_first_occurrence(s, x, earlier)
    } else {
        k
    }
}

/// Among the first `n` records of the store, the matched ones carry exactly
/// the desired names that occur there.
pub proof fn lemma_matched_names(
    desired: Seq<Seq<char>>,
    remote: Seq<RecordView>,
    n: int,
    x: Seq<char>,
)
    requires
        0 <= n <= remote.len(),
    ensures
        record_names(kept(remote, matched_flags(desired, remote), n)).contains(x)
            <==> desired.contains(x) && record_names(remote).take(n).contains(x),
{
    let all = record_names(remote);
    let flags = matched_flags(desired, remote);
    lemma_kept_names(remote, flags, n);
    lemma_kept_contains(all, flags, n, x);
    if desired.contains(x) && all.take(n).contains(x) {
        let k = choose|k: int| 0 <= k < all.take(n).len() && all.take(n)[k] == x;
        lemma_first_occurrence(all, x, k);
    }
    if kept(all, flags, n).contains(x) {
        let i = choose|i: int| 0 <= i < n && flags[i] && all[i] == x;
        assert(all.take(n)[i] == x);
    }
}

/// Among the first `n` desired names, the unmatched ones are exactly those
/// that the store does not serve.
pub proof fn lemma_unmatched_names(
    desired: Seq<Seq<char>>,
    remote: Seq<RecordView>,
    n: int,
    x: Seq<char>,
)
    requires
        0 <= n <= desired.len(),
    ensures
        kept(desired, unmatched_flags(desired, remote), n).contains(x)
            <==> desired.take(n).contains(x) && !record_names(remote).contains(x),
{
    let flags = unmatched_flags(desired, remote);
    lemma_kept_contains(desired, flags, n, x);
    if desired.take(n).contains(x) && !record_names(remote).contains(x) {
        let k = choose|k: int| 0 <= k < desired.take(n).len() && desired.take(n)[k] == x;
        lemma_first_occurrence(desired, x, k);
    }
    if kept(desired, flags, n).contains(x) {
        let i = choose|i: int| 0 <= i < n && flags[i] && desired[i] == x;
        assert(desired.take(n)[i] == x);
    }
}

/// Whether `list` holds `name`.
fn contains_name(list: &Vec<String>, name: &String) -> (found: bool)
    ensures
        found == list.deep_view().contains(name@),
{
    let mut i: usize = 0;
    while i < list.len()
        invariant
            i <= list.len(),
            forall|k: int| 0 <= k < i ==> list.deep_view()[k] != name@,
        decreases list.len() - i,
    {
        if list[i] == *name {
            assert(list.deep_view()[i as int] == name@);
            return true;
        }
        i += 1;
    }
    false
}

/// Whether one of `records` is called `name`.
fn has_name(records: &Vec<Record>, name: &String) -> (found: bool)
    ensures
        found == record_names(records.deep_view()).contains(name@),
{
    let mut i: usize = 0;
    while i < records.len()
        invariant
            i <= records.len(),
            forall|k: int| 0 <= k < i ==> record_names(records.deep_view())[k] != name@,
        decreases records.len() - i,
    {
        if records[i].name == *name {
            assert(record_names(records.deep_view())[i as int] == name@);
            return true;
        }
        i += 1;
    }
    false
}

impl Record {
    /// A record with the same identifier, name and content.
    pub fn duplicate(&self) -> (copy: Record)
        ensures
            copy@ == self@,
    {
        Record { id: self.id.clone(), name: self.name.clone(), content: self.content.clone() }
    }
}

/// Computes the plan that brings the store to serve every name of `desired`
/// with `content`, from the records that the store listed.
///
/// Names are compared exactly. A name asked for twice counts once, and of
/// several records of one name the store's first is the one that is kept in
/// step.
pub fn plan(desired: &Vec<String>, remote: &Vec<Record>, content: &String) -> (p:
    ReconciliationPlan)
    ensures
        p@ == plan_of(desired.deep_view(), remote.deep_view(), content@),
        shares_out(desired.deep_view(), remote.deep_view(), p@),
{
    let ghost d = desired.deep_view();
    let ghost r = remote.deep_view();
    let mut found: Vec<Record> = Vec::new();
    let mut j: usize = 0;
    while j < remote.len()
        invariant
            j <= remote.len(),
            d == desired.deep_view(),
            r == remote.deep_view(),
            found.deep_view() == kept(r, matched_flags(d, r), j as int),
        decreases remote.len() - j,
    {
        let record = &remote[j];
        proof {
            lemma_matched_names(d, r, j as int, record.name@);
        }
        if contains_name(desired, &record.name) && !has_name(&found, &record.name) {
            found.push(record.duplicate());
        }
        j += 1;
    }
    let mut fresh: Vec<String> = Vec::new();
    let mut i: usize = 0;
    while i < desired.len()
        invariant
            i <= desired.len(),
            d == desired.deep_view(),
            r == remote.deep_view(),
            found.deep_view() == matched(d, r),
            fresh.deep_view() == kept(d, unmatched_flags(d, r), i as int),
        decreases desired.len() - i,
    {
        let name = &desired[i];
        proof {
            lemma_matched_names(d, r, r.len() as int, name@);
            lemma_unmatched_names(d, r, i as int, name@);
            assert(record_names(r).take(r.len() as int) =~= record_names(r));
        }
        if !has_name(&found, name) && !contains_name(&fresh, name) {
            fresh.push(name.clone());
        }
        i += 1;
    }
    proof {
        lemma_plan_partitions(d, r, content@);
    }
    ReconciliationPlan { matched: found, unmatched: fresh, content: content.clone() }
}

impl ReconciliationPlan {
    /// The matched records that publish the content (`changed` false) or
    /// something else (`changed` true).
    fn matched_with(&self, changed: bool) -> (part: Vec<Record>)
        ensures
            part.deep_view() == if changed {
                self@.matched_changed()
            } else {
                self@.matched_unchanged()
            },
    {
        let ghost all = self.matched.deep_view();
        let ghost flags = if changed {
            changed_flags(all, self.content@)
        } else {
            unchanged_flags(all, self.content@)
        };
        let mut part: Vec<Record> = Vec::new();
        let mut k: usize = 0;
        while k < self.matched.len()
            invariant
                k <= self.matched.len(),
                all == self.matched.deep_view(),
                flags == if changed {
                    changed_flags(all, self.content@)
                } else {
                    unchanged_flags(all, self.content@)
                },
                part.deep_view() == kept(all, flags, k as int),
            decreases self.matched.len() - k,
        {
            let record = &self.matched[k];
            if (record.content != self.content) == changed {
                part.push(record.duplicate());
            }
            k += 1;
        }
        part
    }

    /// The matched records that already publish the content.
    pub fn matched_unchanged(&self) -> (part: Vec<Record>)
        ensures
            part.deep_view() == self@.matched_unchanged(),
    {
        self.matched_with(false)
    }

    /// The matched records that publish something else.
    pub fn matched_changed(&self) -> (part: Vec<Record>)
        ensures
            part.deep_view() == self@.matched_changed(),
    {
        self.matched_with(true)
    }

    /// The updates of the plan: the content, for each changed record.
    pub fn patches(&self) -> (updates: Vec<RecordUpdate>)
        ensures
            updates.deep_view() == self@.patches(),
    {
        let changed = self.matched_changed();
        let mut updates: Vec<RecordUpdate> = Vec::new();
        let mut k: usize = 0;
        while k < changed.len()
            invariant
                k <= changed.len(),
                updates.deep_view() == updates_to(changed.deep_view(), self.content@).take(
                    k as int,
                ),
            decreases changed.len() - k,
        {
            let ghost before = updates.deep_view();
            updates.push(RecordUpdate { id: changed[k].id.clone(), content: self.content.clone() });
            assert(updates.deep_view() =~= before.push(
                updates_to(changed.deep_view(), self.content@)[k as int],
            ));
            k += 1;
        }
        updates
    }

    /// The creations of the plan: the content, under each unmatched name.
    pub fn posts(&self) -> (creations: Vec<RecordCreate>)
        ensures
            creations.deep_view() == self@.posts(),
    {
        let mut creations: Vec<RecordCreate> = Vec::new();
        let mut k: usize = 0;
        while k < self.unmatched.len()
            invariant
                k <= self.unmatched.len(),
                creations.deep_view() == self@.posts().take(k as int),
            decreases self.unmatched.len() - k,
        {
            let ghost before = creations.deep_view();
            creations.push(
                RecordCreate {
                    name: self.unmatched[k].clone(),
                    content: self.content.clone(),
                    ttl: TTL::TTL,
                },
            );
            assert(creations.deep_view() =~= before.push(self@.posts()[k as int]));
            k += 1;
        }
        creations
    }

    /// Whether the plan asks for no write.
    pub fn is_converged(&self) -> (converged: bool)
        ensures
            converged == self@.converged(),
    {
        self.unmatched.is_empty() && self.matched_changed().is_empty()
    }

    /// The identifiers of the matched records, in the store's order.
    pub fn ids(&self) -> (ids: Vec<String>)
        ensures
            ids.deep_view() == self@.ids(),
    {
        let mut ids: Vec<String> = Vec::new();
        let mut k: usize = 0;
        while k < self.matched.len()
            invariant
                k <= self.matched.len(),
                ids.deep_view() == self@.ids().take(k as int),
            decreases self.matched.len() - k,
        {
            let ghost before = ids.deep_view();
            ids.push(self.matched[k].id.clone());
            assert(ids.deep_view() =~= before.push(self@.ids()[k as int]));
            k += 1;
        }
        ids
    }
}

/// A sequence without members is one that holds nothing.
proof fn lemma_empty_holds_nothing<A>(s: Seq<A>)
    ensures
        s.len() == 0 <==> forall|x: A| !s.contains(x),
{
    if s.len() > 0 {
        assert(s.contains(s[0]));
    }
}

/// The changed and the unchanged among `records` share them out: a name of
/// `records` is the name of a changed or of an unchanged record, of both only
/// where `records` has the name twice, and neither part repeats a name that
/// `records` does not repeat.
proof fn lemma_split_by_content(records: Seq<RecordView>, content: Seq<char>)
    ensures
        ({
            let n = records.len() as int;
            let all = record_names(records);
            let changed = record_names(kept(records, changed_flags(records, content), n));
            let unchanged = record_names(kept(records, unchanged_flags(records, content), n));
            &&& forall|x: Seq<char>|
                #![trigger all.contains(x)]
                #![trigger changed.contains(x)]
                #![trigger unchanged.contains(x)]
                all.contains(x) <==> changed.contains(x) || unchanged.contains(x)
            &&& all.no_duplicates() ==> {
                &&& changed.no_duplicates()
                &&& unchanged.no_duplicates()
                &&& forall|x: Seq<char>|
                    #![trigger changed.contains(x)]
                    #![trigger unchanged.contains(x)]
                    !(changed.contains(x) && unchanged.contains(x))
            }
        }),
{
    let n = records.len() as int;
    let all = record_names(records);
    let cf = changed_flags(records, content);
    let uf = unchanged_flags(records, content);
    let changed = record_names(kept(records, cf, n));
    let unchanged = record_names(kept(records, uf, n));
    lemma_kept_names(records, cf, n);
    lemma_kept_names(records, uf, n);
    assert forall|x: Seq<char>|
        #![trigger all.contains(x)]
        #![trigger changed.contains(x)]
        #![trigger unchanged.contains(x)]
        all.contains(x) <==> changed.contains(x) || unchanged.contains(x) by {
        lemma_kept_contains(all, cf, n, x);
        lemma_kept_contains(all, uf, n, x);
    }
    if all.no_duplicates() {
        lemma_kept_distinct(all, cf, n);
        lemma_kept_distinct(all, uf, n);
        assert forall|x: Seq<char>|
            #![trigger changed.contains(x)]
            #![trigger unchanged.contains(x)]
            !(changed.contains(x) && unchanged.contains(x)) by {
            lemma_kept_contains(all, cf, n, x);
            lemma_kept_contains(all, uf, n, x);
        }
    }
}

/// No name is matched twice, and none is twice among the unmatched.
proof fn lemma_plan_repeats_nothing(desired: Seq<Seq<char>>, remote: Seq<RecordView>)
    ensures
        record_names(matched(desired, remote)).no_duplicates(),
        unmatched(desired, remote).no_duplicates(),
{
    let all = record_names(remote);
    let mf = matched_flags(desired, remote);
    lemma_kept_names(remote, mf, remote.len() as int);
    assert forall|i: int, j: int| 0 <= i < j < remote.len() && mf[i] && mf[j] implies all[i]
        != all[j] by {
        assert(all.take(j)[i] == all[i]);
    }
    lemma_kept_distinct(all, mf, remote.len() as int);
    let uf = unmatched_flags(desired, remote);
    assert forall|i: int, j: int| 0 <= i < j < desired.len() && uf[i] && uf[j] implies desired[i]
        != desired[j] by {
        assert(desired.take(j)[i] == desired[i]);
    }
    lemma_kept_distinct(desired, uf, desired.len() as int);
}

/// Whether `p` shares the desired names out: each is the name of exactly one
/// matched record that needs nothing, or of exactly one that needs an update,
/// or is once among the names to create, and never two of these; the parts
/// name nothing that was not desired; and the two matched parts together name
/// exactly the desired names that the store serves.
pub open spec fn shares_out(
    desired: Seq<Seq<char>>,
    remote: Seq<RecordView>,
    p: ReconciliationPlanView,
) -> bool {
    let unchanged = record_names(p.matched_unchanged());
    let changed = record_names(p.matched_changed());
    &&& unchanged.no_duplicates()
    &&& changed.no_duplicates()
    &&& p.unmatched.no_duplicates()
    &&& forall|x: Seq<char>|
        #![trigger desired.contains(x)]
        #![trigger unchanged.contains(x)]
        #![trigger changed.contains(x)]
        #![trigger p.unmatched.contains(x)]
        {
            &&& desired.contains(x) <==> unchanged.contains(x) || changed.contains(x)
                || p.unmatched.contains(x)
            &&& unchanged.contains(x) || changed.contains(x) <==> desired.contains(x)
                && record_names(remote).contains(x)
            &&& !(unchanged.contains(x) && changed.contains(x))
            &&& !(unchanged.contains(x) && p.unmatched.contains(x))
            &&& !(changed.contains(x) && p.unmatched.contains(x))
        }
}

/// The plan shares the desired names out among its three parts, with no
/// overlap and no omission, whatever the names, the records and the address.
pub proof fn lemma_plan_partitions(
    desired: Seq<Seq<char>>,
    remote: Seq<RecordView>,
    content: Seq<char>,
)
    ensures
        shares_out(desired, remote, plan_of(desired, remote, content)),
{
    let p = plan_of(desired, remote, content);
    let unchanged = record_names(p.matched_unchanged());
    let changed = record_names(p.matched_changed());
    lemma_plan_repeats_nothing(desired, remote);
    lemma_split_by_content(p.matched, content);
    assert(record_names(remote).take(remote.len() as int) =~= record_names(remote));
    assert(desired.take(desired.len() as int) =~= desired);
    assert forall|x: Seq<char>|
        #![trigger desired.contains(x)]
        #![trigger unchanged.contains(x)]
        #![trigger changed.contains(x)]
        #![trigger p.unmatched.contains(x)]
        {
            &&& desired.contains(x) <==> unchanged.contains(x) || changed.contains(x)
                || p.unmatched.contains(x)
            &&& unchanged.contains(x) || changed.contains(x) <==> desired.contains(x)
                && record_names(remote).contains(x)
            &&& !(unchanged.contains(x) && changed.contains(x))
            &&& !(unchanged.contains(x) && p.unmatched.contains(x))
            &&& !(changed.contains(x) && p.unmatched.contains(x))
        } by {
        lemma_matched_names(desired, remote, remote.len() as int, x);
        lemma_unmatched_names(desired, remote, desired.len() as int, x);
    }
}

/// The matched records are the store's records at the matched positions.
proof fn lemma_matched_member(desired: Seq<Seq<char>>, remote: Seq<RecordView>, r: RecordView)
    ensures
        matched(desired, remote).contains(r) <==> exists|j: int|
            0 <= j < remote.len() && is_matched(desired, remote, j) && #[trigger] remote[j] == r,
{
    lemma_kept_contains(remote, matched_flags(desired, remote), remote.len() as int, r);
}

/// The changed among `records` are its members that publish something else
/// than `content`.
proof fn lemma_changed_member(records: Seq<RecordView>, content: Seq<char>, r: RecordView)
    ensures
        kept(records, changed_flags(records, content), records.len() as int).contains(r)
            <==> records.contains(r) && r.content != content,
{
    let cf = changed_flags(records, content);
    lemma_kept_contains(records, cf, records.len() as int, r);
}

/// The plan asks for no write exactly when the store serves every desired
/// name and each record that answers one publishes the content already.
pub proof fn lemma_converged(desired: Seq<Seq<char>>, remote: Seq<RecordView>, content: Seq<char>)
    ensures
        plan_of(desired, remote, content).converged() <==> (forall|x: Seq<char>| #[trigger]
            desired.contains(x) ==> record_names(remote).contains(x)) && (forall|j: int|
            0 <= j < remote.len() && #[trigger] is_matched(desired, remote, j) ==> remote[j].content
                == content),
{
    let p = plan_of(desired, remote, content);
    lemma_empty_holds_nothing(p.unmatched);
    lemma_empty_holds_nothing(p.matched_changed());
    assert(desired.take(desired.len() as int) =~= desired);
    if p.converged() {
        assert forall|x: Seq<char>| #[trigger] desired.contains(x) implies record_names(
            remote,
        ).contains(x) by {
            lemma_unmatched_names(desired, remote, desired.len() as int, x);
        }
        assert forall|j: int|
            0 <= j < remote.len() && #[trigger] is_matched(
                desired,
                remote,
                j,
            ) implies remote[j].content == content by {
            lemma_matched_member(desired, remote, remote[j]);
            lemma_changed_member(p.matched, content, remote[j]);
        }
    }
    if p.unmatched.len() > 0 {
        let x = p.unmatched[0];
        lemma_unmatched_names(desired, remote, desired.len() as int, x);
    }
    if p.matched_changed().len() > 0 {
        let r = p.matched_changed()[0];
        lemma_changed_member(p.matched, content, r);
        lemma_matched_member(desired, remote, r);
    }
}

/// Where the store serves every desired name and all its records publish the
/// content, the plan asks for no write.
pub proof fn lemma_in_step_needs_no_write(
    desired: Seq<Seq<char>>,
    remote: Seq<RecordView>,
    content: Seq<char>,
)
    requires
        forall|x: Seq<char>| #[trigger] desired.contains(x) ==> record_names(remote).contains(x),
        forall|j: int| 0 <= j < remote.len() ==> (#[trigger] remote[j]).content == content,
    ensures
        plan_of(desired, remote, content).converged(),
{
    lemma_converged(desired, remote, content);
}

/// What the store lists once the writes of the plan are done: each record
/// that answered a desired name publishes the content, and behind the old
/// records stands a new one for each unmatched name, under the identifier
/// that the store gave it.
pub open spec fn after_writes(
    desired: Seq<Seq<char>>,
    remote: Seq<RecordView>,
    content: Seq<char>,
    created: Seq<Seq<char>>,
) -> Seq<RecordView> {
    let fresh = unmatched(desired, remote);
    Seq::new(
        remote.len(),
        |j: int|
            if is_matched(desired, remote, j) {
                RecordView { id: remote[j].id, name: remote[j].name, content: content }
            } else {
                remote[j]
            },
    ) + Seq::new(
        fresh.len(),
        |k: int| RecordView { id: created[k], name: fresh[k], content: content },
    )
}

/// Reconciling is idempotent: against the store as the writes of a first plan
/// leave it, the plan for the same names and the same content asks for no
/// write.
pub proof fn lemma_reconcile_twice(
    desired: Seq<Seq<char>>,
    remote: Seq<RecordView>,
    content: Seq<char>,
    created: Seq<Seq<char>>,
)
    ensures
        plan_of(desired, after_writes(desired, remote, content, created), content).converged(),
{
    let fresh = unmatched(desired, remote);
    let later = after_writes(desired, remote, content, created);
    lemma_converged(desired, later, content);
    assert(desired.take(desired.len() as int) =~= desired);
    assert forall|x: Seq<char>| #[trigger] desired.contains(x) implies record_names(
        later,
    ).contains(x) by {
        if record_names(remote).contains(x) {
            let k = choose|k: int| 0 <= k < remote.len() && record_names(remote)[k] == x;
            assert(record_names(later)[k] == x);
        } else {
            lemma_unmatched_names(desired, remote, desired.len() as int, x);
            let k = choose|k: int| 0 <= k < fresh.len() && fresh[k] == x;
            assert(record_names(later)[remote.len() + k] == x);
        }
    }
    assert forall|j: int|
        0 <= j < later.len() && #[trigger] is_matched(
            desired,
            later,
            j,
        ) implies later[j].content == content by {
        if j < remote.len() {
            assert(record_names(later).take(j) =~= record_names(remote).take(j));
        }
    }
}

/// The identifiers that the watch keeps in step: those of the matched records,
/// in the store's order, and behind them those that the store gave to the
/// records it created, in the order of the creations.
pub open spec fn synced_ids(p: ReconciliationPlanView, created: Seq<Seq<char>>) -> Seq<Seq<char>> {
    p.ids() + created
}

/// A desired name that the store lacks is created, by exactly one entry of
/// the plan's creations, and the identifier that the store returns at that
/// entry's place stands in the final list behind the matched ones, at the
/// same place among the created.
pub proof fn lemma_missing_name_is_created(
    desired: Seq<Seq<char>>,
    remote: Seq<RecordView>,
    content: Seq<char>,
    created: Seq<Seq<char>>,
    x: Seq<char>,
)
    requires
        desired.contains(x),
        !record_names(remote).contains(x),
    ensures
        ({
            let p = plan_of(desired, remote, content);
            &&& !p.converged()
            &&& exists|k: int|
                {
                    &&& 0 <= k < p.posts().len()
                    &&& (#[trigger] p.posts()[k]).name == x
                    &&& forall|m: int|
                        0 <= m < p.posts().len() && (#[trigger] p.posts()[m]).name == x ==> m == k
                    &&& k < created.len() ==> synced_ids(p, created)[p.matched.len() + k]
                        == created[k]
                }
        }),
{
    let p = plan_of(desired, remote, content);
    assert(desired.take(desired.len() as int) =~= desired);
    lemma_unmatched_names(desired, remote, desired.len() as int, x);
    lemma_plan_repeats_nothing(desired, remote);
    let k = choose|k: int| 0 <= k < p.unmatched.len() && p.unmatched[k] == x;
    assert(p.posts()[k].name == x);
}

} // verus!
