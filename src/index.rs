use vstd::prelude::*;

verus! {

/// A stored artifact seen as (content id, file name).
pub type ArtifactView = (Seq<char>, Seq<char>);

/// What the storage backend confirmed for one upload.
pub struct StoredArtifact {
    pub content_id: String,
    pub file_name: String,
}

impl View for StoredArtifact {
    type V = ArtifactView;

    open spec fn view(&self) -> ArtifactView {
        (self.content_id@, self.file_name@)
    }
}

impl StoredArtifact {
    pub fn new(content_id: String, file_name: String) -> (r: StoredArtifact)
        ensures
            r.content_id == content_id,
            r.file_name == file_name,
    {
        StoredArtifact { content_id, file_name }
    }

    /// A copy with the same content id and file name.
    pub fn duplicate(&self) -> (r: StoredArtifact)
        ensures
            r@ == self@,
    {
        StoredArtifact { content_id: self.content_id.clone(), file_name: self.file_name.clone() }
    }
}

/// The artifacts of one owner, in the order they were recorded.
pub struct OwnerReports {
    pub owner: String,
    pub artifacts: Vec<StoredArtifact>,
}

impl OwnerReports {
    pub open spec fn artifacts_view(&self) -> Seq<ArtifactView> {
        self.artifacts@.map_values(|a: StoredArtifact| a@)
    }
}

/// The artifacts of `owner` in an index model: none when the owner is unknown.
pub open spec fn reports_in(m: Map<Seq<char>, Seq<ArtifactView>>, owner: Seq<char>) -> Seq<
    ArtifactView,
> {
    if m.contains_key(owner) {
        m[owner]
    } else {
        Seq::empty()
    }
}

/// An index model after `artifact` was appended to the sequence of `owner`.
pub open spec fn recorded(
    m: Map<Seq<char>, Seq<ArtifactView>>,
    owner: Seq<char>,
    artifact: ArtifactView,
) -> Map<Seq<char>, Seq<ArtifactView>> {
    m.insert(owner, reports_in(m, owner).push(artifact))
}

/// An owner that nothing was ever recorded for has an empty sequence.
pub proof fn lemma_unknown_owner_has_no_reports(m: Map<Seq<char>, Seq<ArtifactView>>, owner: Seq<char>)
    requires
        !m.contains_key(owner),
    ensures
        reports_in(m, owner) == Seq::<ArtifactView>::empty(),
{
}

/// Recording appends exactly one artifact at the end of the owner's sequence
/// and leaves every other owner's sequence as it was.
pub proof fn lemma_record_appends(
    m: Map<Seq<char>, Seq<ArtifactView>>,
    owner: Seq<char>,
    artifact: ArtifactView,
)
    ensures
        reports_in(recorded(m, owner, artifact), owner) == reports_in(m, owner).push(artifact),
        reports_in(recorded(m, owner, artifact), owner).last() == artifact,
        forall|other: Seq<char>|
            other != owner ==> #[trigger] reports_in(recorded(m, owner, artifact), other)
                == reports_in(m, other),
{
}

/// Two artifacts recorded for one owner, in either order, are both kept after
/// what was there before, each exactly once: no update is lost.
pub proof fn lemma_two_records_both_kept(
    m: Map<Seq<char>, Seq<ArtifactView>>,
    owner: Seq<char>,
    first: ArtifactView,
    second: ArtifactView,
)
    ensures
        reports_in(recorded(recorded(m, owner, first), owner, second), owner) == reports_in(
            m,
            owner,
        ) + seq![first, second],
        reports_in(recorded(recorded(m, owner, first), owner, second), owner).len() == reports_in(
            m,
            owner,
        ).len() + 2,
{
    lemma_record_appends(m, owner, first);
    lemma_record_appends(recorded(m, owner, first), owner, second);
    assert(reports_in(m, owner).push(first).push(second) =~= reports_in(m, owner) + seq![
        first,
        second,
    ]);
}

/// Append-only index from owner identifier to the artifacts stored for it.
pub struct ReportIndex {
    entries: Vec<OwnerReports>,
}

impl ReportIndex {
    pub closed spec fn owner_at(&self, i: int) -> Seq<char> {
        self.entries@[i].owner@
    }

    pub closed spec fn holds_owner(&self, owner: Seq<char>) -> bool {
        exists|i: int| 0 <= i < self.entries@.len() && self.owner_at(i) == owner
    }

    pub closed spec fn position_of(&self, owner: Seq<char>) -> int {
        choose|i: int| 0 <= i < self.entries@.len() && self.owner_at(i) == owner
    }

    /// Each owner has at most one entry, and no entry is empty.
    pub closed spec fn wf(&self) -> bool {
        &&& forall|i: int, j: int|
            0 <= i < j < self.entries@.len() ==> self.owner_at(i) != self.owner_at(j)
        &&& forall|i: int|
            0 <= i < self.entries@.len() ==> #[trigger] self.entries@[i].artifacts@.len() > 0
    }

    /// An owner that the index knows has at least one artifact.
    pub proof fn lemma_known_owner_has_reports(&self, owner: Seq<char>)
        requires
            self.wf(),
        ensures
            self@.contains_key(owner) <==> reports_in(self@, owner).len() > 0,
    {
        if self@.contains_key(owner) {
            let k = self.position_of(owner);
            assert(self.entries@[k].artifacts_view().len() == self.entries@[k].artifacts@.len());
        }
    }

    pub closed spec fn model(&self) -> Map<Seq<char>, Seq<ArtifactView>> {
        Map::new(
            |o: Seq<char>| self.holds_owner(o),
            |o: Seq<char>| self.entries@[self.position_of(o)].artifacts_view(),
        )
    }

    proof fn lemma_position(&self, k: int)
        requires
            self.wf(),
            0 <= k < self.entries@.len(),
        ensures
            self.holds_owner(self.owner_at(k)),
            self.position_of(self.owner_at(k)) == k,
    {
        let o = self.owner_at(k);
        assert(0 <= k < self.entries@.len() && self.owner_at(k) == o);
        let p = self.position_of(o);
        if p != k {
            if p < k {
                assert(self.owner_at(p) != self.owner_at(k));
            } else {
                assert(self.owner_at(k) != self.owner_at(p));
            }
        }
    }

    pub fn new() -> (r: ReportIndex)
        ensures
            r.wf(),
            r@ == Map::<Seq<char>, Seq<ArtifactView>>::empty(),
    {
        let r = ReportIndex { entries: Vec::new() };
        assert(r@ =~= Map::<Seq<char>, Seq<ArtifactView>>::empty());
        r
    }

    fn find(&self, owner: &String) -> (r: Option<usize>)
        requires
            self.wf(),
        ensures
            match r {
                Some(k) => k < self.entries@.len() && self.owner_at(k as int) == owner@,
                None => !self.holds_owner(owner@),
            },
    {
        let mut i: usize = 0;
        while i < self.entries.len()
            invariant
                i <= self.entries@.len(),
                forall|j: int| 0 <= j < i ==> self.owner_at(j) != owner@,
            decreases self.entries@.len() - i,
        {
            if self.entries[i].owner == *owner {
                return Some(i);
            }
            i = i + 1;
        }
        None
    }

    /// Appends an artifact to the owner's sequence, creating it on first sight.
    pub fn record(&mut self, owner: &String, artifact: StoredArtifact)
        requires
            old(self).wf(),
        ensures
            final(self).wf(),
            final(self)@ == recorded(old(self)@, owner@, artifact@),
    {
        let ghost before = self@;
        match self.find(owner) {
            Some(k) => {
                let mut slot = OwnerReports { owner: String::new(), artifacts: Vec::new() };
                self.entries.set_and_swap(k, &mut slot);
                slot.artifacts.push(artifact);
                self.entries.set_and_swap(k, &mut slot);
                proof {
                    let ghost old_idx = *old(self);
                    old_idx.lemma_position(k as int);
                    assert(forall|i: int|
                        0 <= i < self.entries@.len() ==> #[trigger] self.owner_at(i)
                            == old_idx.owner_at(i));
                    assert(self.entries@[k as int].artifacts_view() =~= old_idx.entries@[
                        k as int].artifacts_view().push(artifact@));
                    assert forall|o: Seq<char>| #[trigger] self.holds_owner(o) && o != owner@ implies self.position_of(o) == old_idx.position_of(o) && self.position_of(o)
                        != k by {
                        let j = choose|j: int|
                            0 <= j < self.entries@.len() && self.owner_at(j) == o;
                        self.lemma_position(j);
                        old_idx.lemma_position(j);
                    }
                    assert forall|o: Seq<char>| #[trigger] old_idx.holds_owner(o) implies self.holds_owner(o) by {
                        let j = choose|j: int|
                            0 <= j < old_idx.entries@.len() && old_idx.owner_at(j) == o;
                        assert(self.owner_at(j) == o);
                    }
                    self.lemma_position(k as int);
                    assert(self@ =~= recorded(before, owner@, artifact@));
                }
            },
            None => {
                let mut artifacts = Vec::new();
                artifacts.push(artifact);
                self.entries.push(OwnerReports { owner: owner.clone(), artifacts });
                proof {
                    let ghost old_idx = *old(self);
                    let n = old_idx.entries@.len() as int;
                    assert(forall|i: int|
                        0 <= i < n ==> #[trigger] self.owner_at(i) == old_idx.owner_at(i));
                    assert(self.owner_at(n) == owner@);
                    self.lemma_position(n);
                    assert(self.entries@[n].artifacts_view() =~= seq![artifact@]);
                    assert forall|o: Seq<char>| #[trigger] self.holds_owner(o) && o != owner@ implies old_idx.holds_owner(o) && self.position_of(o) == old_idx.position_of(o) by {
                        let j = choose|j: int|
                            0 <= j < self.entries@.len() && self.owner_at(j) == o;
                        self.lemma_position(j);
                        old_idx.lemma_position(j);
                    }
                    assert forall|o: Seq<char>| #[trigger] old_idx.holds_owner(o) implies self.holds_owner(o) by {
                        let j = choose|j: int|
                            0 <= j < old_idx.entries@.len() && old_idx.owner_at(j) == o;
                        assert(self.owner_at(j) == o);
                    }
                    assert(reports_in(before, owner@) =~= Seq::empty());
                    assert(self@ =~= recorded(before, owner@, artifact@));
                }
            },
        }
    }

    /// The owner's artifacts in the order they were recorded; empty for an unknown owner.
    pub fn lookup(&self, owner: &String) -> (r: Vec<StoredArtifact>)
        requires
            self.wf(),
        ensures
            r@.len() == reports_in(self@, owner@).len(),
            r@.map_values(|a: StoredArtifact| a@) == reports_in(self@, owner@),
    {
        match self.find(owner) {
            Some(k) => {
                proof {
                    self.lemma_position(k as int);
                }
                let source = &self.entries[k].artifacts;
                let mut out: Vec<StoredArtifact> = Vec::new();
                let mut i: usize = 0;
                while i < source.len()
                    invariant
                        i <= source@.len(),
                        out@.len() == i,
                        forall|j: int| 0 <= j < i ==> #[trigger] out@[j]@ == source@[j]@,
                    decreases source@.len() - i,
                {
                    out.push(source[i].duplicate());
                    i = i + 1;
                }
                assert(out@.map_values(|a: StoredArtifact| a@) =~= source@.map_values(
                    |a: StoredArtifact| a@,
                ));
                out
            },
            None => {
                let out: Vec<StoredArtifact> = Vec::new();
                assert(out@.map_values(|a: StoredArtifact| a@) =~= Seq::empty());
                out
            },
        }
    }
}

impl View for ReportIndex {
    type V = Map<Seq<char>, Seq<ArtifactView>>;

    open spec fn view(&self) -> Map<Seq<char>, Seq<ArtifactView>> {
        self.model()
    }
}

} // verus!
