//! Bibliographic records, the arena that holds them, and the ancestor
//! queries that the style asks of it.
use vstd::prelude::*;

verus! {

/// The closed taxonomy of record kinds.
#[derive(Clone, Copy, Debug, PartialEq, Eq, Structural)]
pub enum EntryKind {
    Article,
    Chapter,
    Entry,
    Anthos,
    Report,
    Thesis,
    Web,
    Scene,
    Artwork,
    Case,
    Legislation,
    Manuscript,
    Post,
    Misc,
    Performance,
    Periodical,
    Proceedings,
    Book,
    Blog,
    Reference,
    Conference,
    Anthology,
    Repository,
    Thread,
    Video,
    Audio,
    Exhibition,
    Patent,
}

/// The role a person took in making a work, besides authoring or editing it.
#[derive(Clone, Copy, Debug, PartialEq, Eq, Structural)]
pub enum PersonRole {
    Translator,
    Director,
    Writer,
    ExecutiveProducer,
    Producer,
    Composer,
    CastMember,
    Illustrator,
    Narrator,
}

/// A calendar date: a year, and optionally a zero-based month and a
/// zero-based day of that month.
#[derive(Clone, Copy, Debug, PartialEq, Eq, Structural)]
pub struct Date {
    pub year: i32,
    pub month: Option<u8>,
    pub day: Option<u8>,
}

/// An inclusive range of numbers, such as pages or volumes.
#[derive(Clone, Copy, Debug, PartialEq, Eq, Structural)]
pub struct IntRange {
    pub start: i64,
    pub end: i64,
}

/// A value that is either a number or free text.
#[derive(Clone, Debug)]
pub enum NumOrStr {
    Number(i64),
    Str(String),
}

/// A title together with its sentence-cased and title-cased forms.
#[derive(Clone, Debug)]
pub struct Title {
    pub value: String,
    pub sentence_case: String,
    pub title_case: String,
}

/// A URL, its host name if it has one, and the date it was visited.
#[derive(Clone, Debug)]
pub struct QualifiedUrl {
    pub value: String,
    pub host: Option<String>,
    pub visit_date: Option<Date>,
}

/// A person named with a role.
#[derive(Clone, Debug)]
pub struct Affiliated {
    pub role: PersonRole,
    pub name: String,
}

/// One bibliographic record. People are given by their display names;
/// `parents` holds indices into the [`Library`] that holds the record, the
/// first being the primary parent.
#[derive(Clone, Debug)]
pub struct Record {
    pub kind: EntryKind,
    pub title: Option<Title>,
    pub serial_number: Option<String>,
    pub volume: Option<IntRange>,
    pub issue: Option<NumOrStr>,
    pub edition: Option<NumOrStr>,
    pub page_range: Option<IntRange>,
    pub location: Option<String>,
    pub publisher: Option<String>,
    pub organization: Option<String>,
    pub language: Option<String>,
    pub archive: Option<String>,
    pub doi: Option<String>,
    pub note: Option<String>,
    pub url: Option<QualifiedUrl>,
    pub date: Option<Date>,
    pub authors: Vec<String>,
    pub editors: Vec<String>,
    pub affiliated: Vec<Affiliated>,
    pub parents: Vec<usize>,
}

impl Record {
    /// A record of the given kind with every other field absent or empty.
    pub fn new(kind: EntryKind) -> (r: Record)
        ensures
            r.kind == kind,
            r.title is None,
            r.serial_number is None,
            r.volume is None,
            r.issue is None,
            r.edition is None,
            r.page_range is None,
            r.location is None,
            r.publisher is None,
            r.organization is None,
            r.language is None,
            r.archive is None,
            r.doi is None,
            r.note is None,
            r.url is None,
            r.date is None,
            r.authors@.len() == 0,
            r.editors@.len() == 0,
            r.affiliated@.len() == 0,
            r.parents@.len() == 0,
    {
        Record {
            kind,
            title: None,
            serial_number: None,
            volume: None,
            issue: None,
            edition: None,
            page_range: None,
            location: None,
            publisher: None,
            organization: None,
            language: None,
            archive: None,
            doi: None,
            note: None,
            url: None,
            date: None,
            authors: Vec::new(),
            editors: Vec::new(),
            affiliated: Vec::new(),
            parents: Vec::new(),
        }
    }
}

/// The records of a bibliography. Every parent of a record comes before it,
/// so the parent relation has no cycles.
pub struct Library {
    pub records: Vec<Record>,
}

impl Library {
    /// Every parent index of a record is smaller than the record's own.
    pub open spec fn wf(&self) -> bool {
        forall|i: int, j: int|
            0 <= i < self.records@.len() && 0 <= j < self.records@[i].parents@.len()
                ==> #[trigger] self.records@[i].parents@[j] < i
    }

    /// The record at index `i`.
    pub open spec fn rec(&self, i: int) -> Record {
        self.records@[i]
    }

    /// The kind of the record at index `i`.
    pub open spec fn kind(&self, i: int) -> EntryKind {
        self.records@[i].kind
    }

    /// The parents of the record at index `i`.
    pub open spec fn parents_of(&self, i: int) -> Seq<usize> {
        self.records@[i].parents@
    }

    /// An empty library.
    pub fn new() -> (r: Library)
        ensures
            r.records@.len() == 0,
            r.wf(),
    {
        Library { records: Vec::new() }
    }

    /// Adds a record whose parents are already held, and returns its index;
    /// refuses one that names a parent not yet held.
    pub fn add(&mut self, r: Record) -> (idx: Option<usize>)
        requires
            old(self).wf(),
        ensures
            final(self).wf(),
            match idx {
                Some(i) => {
                    &&& i == old(self).records@.len()
                    &&& final(self).records@ == old(self).records@.push(r)
                },
                None => {
                    &&& final(self).records@ == old(self).records@
                    &&& exists|j: int|
                        0 <= j < r.parents@.len() && #[trigger] r.parents@[j]
                            >= old(self).records@.len()
                },
            },
    {
        let n = self.records.len();
        let mut j: usize = 0;
        while j < r.parents.len()
            invariant
                n == self.records@.len(),
                self.wf(),
                self.records@ == old(self).records@,
                forall|k: int| 0 <= k < j ==> #[trigger] r.parents@[k] < n,
            decreases r.parents@.len() - j,
        {
            if r.parents[j] >= n {
                return None;
            }
            j = j + 1;
        }
        self.records.push(r);
        assert forall|i: int, k: int|
            0 <= i < self.records@.len() && 0 <= k < self.records@[i].parents@.len()
                implies #[trigger] self.records@[i].parents@[k] < i by {
            if i < n {
                assert(self.records@[i] == old(self).records@[i]);
            }
        }
        Some(n)
    }
}

/// A set of kinds that a query looks for.
#[derive(Clone, Copy, Debug, PartialEq, Eq, Structural)]
pub enum KindGroup {
    Anthology,
    ReferenceOrRepository,
    ConferenceOrProceedings,
    Repository,
    BlogOrWeb,
    ProceedingsAnthologyOrMisc,
}

/// Whether kind `k` belongs to group `g`.
pub open spec fn in_group(g: KindGroup, k: EntryKind) -> bool {
    match g {
        KindGroup::Anthology => k == EntryKind::Anthology,
        KindGroup::ReferenceOrRepository => k == EntryKind::Reference || k
            == EntryKind::Repository,
        KindGroup::ConferenceOrProceedings => k == EntryKind::Conference || k
            == EntryKind::Proceedings,
        KindGroup::Repository => k == EntryKind::Repository,
        KindGroup::BlogOrWeb => k == EntryKind::Blog || k == EntryKind::Web,
        KindGroup::ProceedingsAnthologyOrMisc => k == EntryKind::Proceedings || k
            == EntryKind::Anthology || k == EntryKind::Misc,
    }
}

/// Tests whether kind `k` belongs to group `g`.
pub fn group_has(g: KindGroup, k: EntryKind) -> (r: bool)
    ensures
        r == in_group(g, k),
{
    match g {
        KindGroup::Anthology => k == EntryKind::Anthology,
        KindGroup::ReferenceOrRepository => k == EntryKind::Reference || k
            == EntryKind::Repository,
        KindGroup::ConferenceOrProceedings => k == EntryKind::Conference || k
            == EntryKind::Proceedings,
        KindGroup::Repository => k == EntryKind::Repository,
        KindGroup::BlogOrWeb => k == EntryKind::Blog || k == EntryKind::Web,
        KindGroup::ProceedingsAnthologyOrMisc => k == EntryKind::Proceedings || k
            == EntryKind::Anthology || k == EntryKind::Misc,
    }
}

/// The first parent of record `i`, from position `k` of its parent list on,
/// whose kind is in `g`.
pub open spec fn parent_in_from(lib: &Library, i: int, g: KindGroup, k: int) -> Option<usize>
    decreases lib.parents_of(i).len() - k,
{
    if k < 0 || k >= lib.parents_of(i).len() {
        None
    } else if in_group(g, lib.kind(lib.parents_of(i)[k] as int)) {
        Some(lib.parents_of(i)[k])
    } else {
        parent_in_from(lib, i, g, k + 1)
    }
}

/// The first direct parent of record `i` whose kind is in `g`.
pub open spec fn parent_in(lib: &Library, i: int, g: KindGroup) -> Option<usize> {
    parent_in_from(lib, i, g, 0)
}

/// Finds the first direct parent of record `i` whose kind is in `g`.
pub fn find_parent_in(lib: &Library, i: usize, g: KindGroup) -> (r: Option<usize>)
    requires
        lib.wf(),
        i < lib.records@.len(),
    ensures
        r == parent_in(lib, i as int, g),
        r matches Some(p) ==> p < i,
{
    let ps = &lib.records[i].parents;
    let mut k: usize = 0;
    while k < ps.len()
        invariant
            lib.wf(),
            i < lib.records@.len(),
            ps@ == lib.parents_of(i as int),
            k <= ps@.len(),
            parent_in(lib, i as int, g) == parent_in_from(lib, i as int, g, k as int),
        decreases ps@.len() - k,
    {
        let p = ps[k];
        assert(p < i);
        if group_has(g, lib.records[p].kind) {
            return Some(p);
        }
        k = k + 1;
    }
    None
}

/// The first ancestor of record `i` whose kind is in `g`, searching depth
/// first: each parent in order from position `k` of the parent list on,
/// and each parent's own ancestors before the next parent.
pub open spec fn ancestor_in_from(lib: &Library, i: int, g: KindGroup, k: int) -> Option<usize>
    decreases i, lib.parents_of(i).len() - k,
{
    if i < 0 || k < 0 || k >= lib.parents_of(i).len() {
        None
    } else {
        let p = lib.parents_of(i)[k];
        if in_group(g, lib.kind(p as int)) {
            Some(p)
        } else if p < i {
            match ancestor_in_from(lib, p as int, g, 0) {
                Some(a) => Some(a),
                None => ancestor_in_from(lib, i, g, k + 1),
            }
        } else {
            ancestor_in_from(lib, i, g, k + 1)
        }
    }
}

/// The first ancestor of record `i`, depth first, whose kind is in `g`.
pub open spec fn ancestor_in(lib: &Library, i: int, g: KindGroup) -> Option<usize> {
    ancestor_in_from(lib, i, g, 0)
}

proof fn lemma_ancestor_below(lib: &Library, i: int, g: KindGroup, k: int)
    requires
        lib.wf(),
        0 <= i < lib.records@.len(),
    ensures
        ancestor_in_from(lib, i, g, k) matches Some(a) ==> a < i,
    decreases i, lib.parents_of(i).len() - k,
{
    if k >= 0 && k < lib.parents_of(i).len() {
        let p = lib.parents_of(i)[k];
        assert(p < i);
        lemma_ancestor_below(lib, p as int, g, 0);
        lemma_ancestor_below(lib, i, g, k + 1);
    }
}

/// Searches the ancestors of record `i`, from position `k` of its parent
/// list on, for one whose kind is in `g`.
pub fn find_ancestor_in_from(lib: &Library, i: usize, g: KindGroup, k: usize) -> (r: Option<
    usize,
>)
    requires
        lib.wf(),
        i < lib.records@.len(),
    ensures
        r == ancestor_in_from(lib, i as int, g, k as int),
        r matches Some(a) ==> a < i,
    decreases i, lib.parents_of(i as int).len() - k,
{
    proof {
        lemma_ancestor_below(lib, i as int, g, k as int);
    }
    let ps = &lib.records[i].parents;
    if k >= ps.len() {
        return None;
    }
    let p = ps[k];
    assert(p < i);
    if group_has(g, lib.records[p].kind) {
        Some(p)
    } else {
        match find_ancestor_in_from(lib, p, g, 0) {
            Some(a) => Some(a),
            None => find_ancestor_in_from(lib, i, g, k + 1),
        }
    }
}

/// Finds the first ancestor of record `i`, depth first, whose kind is in `g`.
pub fn find_ancestor_in(lib: &Library, i: usize, g: KindGroup) -> (r: Option<usize>)
    requires
        lib.wf(),
        i < lib.records@.len(),
    ensures
        r == ancestor_in(lib, i as int, g),
        r matches Some(a) ==> a < i,
{
    find_ancestor_in_from(lib, i, g, 0)
}

/// The record that supplies container-level facts for record `i`, if it is
/// not the record itself: the primary parent of a chapter, scene or web
/// page; else the anthology above a piece in one; else the reference work
/// or repository above a generic entry; else any conference or proceedings
/// above the record.
pub open spec fn canonical_parent(lib: &Library, i: int) -> Option<usize> {
    let k = lib.kind(i);
    if (k == EntryKind::Chapter || k == EntryKind::Scene || k == EntryKind::Web)
        && lib.parents_of(i).len() > 0 {
        Some(lib.parents_of(i)[0])
    } else if k == EntryKind::Anthos && ancestor_in(lib, i, KindGroup::Anthology) is Some {
        ancestor_in(lib, i, KindGroup::Anthology)
    } else if k == EntryKind::Entry && ancestor_in(lib, i, KindGroup::ReferenceOrRepository) is Some {
        ancestor_in(lib, i, KindGroup::ReferenceOrRepository)
    } else {
        ancestor_in(lib, i, KindGroup::ConferenceOrProceedings)
    }
}

/// Resolves the record that supplies container-level facts for record `i`.
pub fn get_canonical_parent(lib: &Library, i: usize) -> (r: Option<usize>)
    requires
        lib.wf(),
        i < lib.records@.len(),
    ensures
        r == canonical_parent(lib, i as int),
        r matches Some(p) ==> p < i,
{
    let rec = &lib.records[i];
    let k = rec.kind;
    if (k == EntryKind::Chapter || k == EntryKind::Scene || k == EntryKind::Web)
        && rec.parents.len() > 0 {
        assert(rec.parents@[0] < i);
        return Some(rec.parents[0]);
    }
    if k == EntryKind::Anthos {
        let a = find_ancestor_in(lib, i, KindGroup::Anthology);
        if a.is_some() {
            return a;
        }
    }
    if k == EntryKind::Entry {
        let a = find_ancestor_in(lib, i, KindGroup::ReferenceOrRepository);
        if a.is_some() {
            return a;
        }
    }
    find_ancestor_in(lib, i, KindGroup::ConferenceOrProceedings)
}

/// A chapter with parents takes its primary parent as its container, even
/// when a conference or proceedings stands further up.
pub proof fn lemma_chapter_prefers_direct_parent(lib: &Library, i: int)
    requires
        lib.wf(),
        0 <= i < lib.records@.len(),
        lib.kind(i) == EntryKind::Chapter,
        lib.parents_of(i).len() > 0,
        ancestor_in(lib, i, KindGroup::ConferenceOrProceedings) is Some,
    ensures
        canonical_parent(lib, i) == Some(lib.parents_of(i)[0]),
{
}

} // verus!
