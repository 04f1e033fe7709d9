//! The IEEE reference-list style: the author clause, the title clause, the
//! trailing descriptive fields, and the citation that joins them.
use vstd::prelude::*;
use crate::names::{iso639_1_name, language_name};
use crate::record::{
    find_parent_in, parent_in, Date, Affiliated, EntryKind, IntRange, KindGroup, Library,
    NumOrStr, PersonRole, Record,
};
use crate::rich::{push_plain, push_run, RichText};
use crate::text::{
    cat, cat3, int_text, int_to_text, month_abbr, month_abbr_text, nat_text, nat_to_text,
    ordinal, ordinal_text,
};

verus! {

/// The characters of each string, in order.
pub open spec fn strs(v: Seq<String>) -> Seq<Seq<char>> {
    v.map_values(|s: String| s@)
}

pub(crate) fn push_item(v: &mut Vec<String>, s: String)
    ensures
        strs(final(v)@) == strs(old(v)@).push(s@),
{
    v.push(s);
    assert(strs(final(v)@) =~= strs(old(v)@).push(s@));
}

/// The generator of IEEE reference-list entries.
///
/// `title_case_min_len` is the title-casing policy that the title-cased forms
/// of the records' titles follow: words at least this long are always
/// capitalized. `journal_abbreviations` pairs full container titles with
/// their abbreviations.
pub struct Ieee {
    pub et_al_threshold: Option<u32>,
    pub title_case_min_len: Option<u32>,
    pub journal_abbreviations: Vec<(String, String)>,
}

/// The name-list text of one name at position `i` of `n`: the name, then
/// ", " unless it is the last, then "and " if it is the second to last.
pub open spec fn and_list_item(names: Seq<Seq<char>>, i: int) -> Seq<char> {
    let n = names.len() as int;
    names[i] + (if i <= n - 2 {
        ", "@
    } else {
        Seq::empty()
    }) + (if i == n - 2 {
        "and "@
    } else {
        Seq::empty()
    })
}

/// The name-list texts of the first `k` names, joined.
pub open spec fn and_list_prefix(names: Seq<Seq<char>>, k: int) -> Seq<char>
    decreases k,
{
    if k <= 0 {
        Seq::empty()
    } else {
        and_list_prefix(names, k - 1) + and_list_item(names, k - 1)
    }
}

/// Whether a list of `n` names is cut short at threshold `t` (0: never).
pub open spec fn et_al_applies(n: nat, t: nat) -> bool {
    t > 0 && n >= t
}

/// The names joined with commas and "and"; a list at or above a nonzero
/// threshold keeps its first two names and ends in "et al.".
pub open spec fn and_list_text(names: Seq<Seq<char>>, t: nat) -> Seq<char> {
    if et_al_applies(names.len(), t) {
        and_list_prefix(names, if names.len() < 2 { names.len() as int } else { 2 }) + "et al."@
    } else {
        and_list_prefix(names, names.len() as int)
    }
}

/// The abbreviation that the first entry of `table` from position `k` on
/// with full title `t` gives; `t` itself if none has it.
pub open spec fn abbreviated_from(table: Seq<(String, String)>, t: Seq<char>, k: int) -> Seq<char>
    decreases table.len() - k,
{
    if k < 0 || k >= table.len() {
        t
    } else if table[k].0@ == t {
        table[k].1@
    } else {
        abbreviated_from(table, t, k + 1)
    }
}

/// `", Ed."` after one editor, `", Eds."` after more.
pub open spec fn editor_label(n: nat) -> Seq<char> {
    if n == 1 {
        ", Ed."@
    } else {
        ", Eds."@
    }
}

/// "p. 5" for a single number, "pp. 10-15" for a range.
pub open spec fn range_text(single: Seq<char>, multiple: Seq<char>, r: IntRange) -> Seq<char> {
    if r.start == r.end {
        single + " "@ + int_text(r.start as int)
    } else {
        multiple + " "@ + int_text(r.start as int) + "-"@ + int_text(r.end as int)
    }
}

/// The text of a number or of free text.
pub open spec fn num_or_str_text(v: NumOrStr) -> Seq<char> {
    match v {
        NumOrStr::Number(n) => int_text(n as int),
        NumOrStr::Str(s) => s@,
    }
}

/// The edition fragment: "2nd ed." for a numbered edition past the first,
/// free text as it stands, nothing else.
pub open spec fn edition_item(e: Option<NumOrStr>) -> Option<Seq<char>> {
    match e {
        Some(NumOrStr::Number(n)) => if n > 1 {
            Some(ordinal_text(n as nat) + " ed."@)
        } else {
            None
        },
        Some(NumOrStr::Str(s)) => Some(s@),
        None => None,
    }
}

/// The year of a date.
pub open spec fn year_text(d: Date) -> Seq<char> {
    int_text(d.year as int)
}

/// The month of a date and its day (stored from zero, shown from one), as
/// "Mar. 3" or "Mar."; nothing without a known month.
pub open spec fn month_day_text(d: Date) -> Option<Seq<char>> {
    match d.month {
        Some(m) => match month_abbr_text(m as nat) {
            Some(a) => match d.day {
                Some(day) => Some(a + " "@ + nat_text(day as nat + 1)),
                None => Some(a),
            },
            None => None,
        },
        None => None,
    }
}

/// A full date: "Mar. 3, 2020", "Mar. 2020" or "2020".
pub open spec fn date_text(d: Date) -> Seq<char> {
    match d.month {
        Some(m) => match month_abbr_text(m as nat) {
            Some(a) => match d.day {
                Some(day) => a + " "@ + nat_text(day as nat + 1) + ", "@ + year_text(d),
                None => a + " "@ + year_text(d),
            },
            None => year_text(d),
        },
        None => year_text(d),
    }
}

/// `a` with `o` added at its end when there is one.
pub open spec fn push_some(a: Seq<Seq<char>>, o: Option<Seq<char>>) -> Seq<Seq<char>> {
    match o {
        Some(s) => a.push(s),
        None => a,
    }
}

impl Ieee {
    /// The threshold at and above which name lists are cut short (0: never).
    pub open spec fn threshold(&self) -> nat {
        match self.et_al_threshold {
            Some(t) => t as nat,
            None => 0,
        }
    }

    /// The abbreviation of a container title, or the title itself.
    pub open spec fn abbreviation(&self, t: Seq<char>) -> Seq<char> {
        abbreviated_from(self.journal_abbreviations@, t, 0)
    }

    /// A generator with the style's defaults: name lists of six or more are
    /// cut short, words of four or more letters are capitalized in titles,
    /// and no container title is abbreviated.
    pub fn new() -> (r: Ieee)
        ensures
            r.et_al_threshold == Some(6u32),
            r.title_case_min_len == Some(4u32),
            r.journal_abbreviations@.len() == 0,
    {
        Ieee {
            et_al_threshold: Some(6),
            title_case_min_len: Some(4),
            journal_abbreviations: Vec::new(),
        }
    }

    /// This generator with the given table of container-title abbreviations.
    pub fn with_journal_abbreviations(self, table: Vec<(String, String)>) -> (r: Ieee)
        ensures
            r.et_al_threshold == self.et_al_threshold,
            r.title_case_min_len == self.title_case_min_len,
            r.journal_abbreviations@ == table@,
    {
        Ieee { journal_abbreviations: table, ..self }
    }

    /// Looks up the abbreviation of a container title.
    pub fn abbreviate(&self, t: &str) -> (r: String)
        ensures
            r@ == self.abbreviation(t@),
    {
        let table = &self.journal_abbreviations;
        let want = String::from_str(t);
        let mut k: usize = 0;
        while k < table.len()
            invariant
                k <= table@.len(),
                want@ == t@,
                self.abbreviation(t@) == abbreviated_from(table@, t@, k as int),
            decreases table@.len() - k,
        {
            if table[k].0 == want {
                return table[k].1.clone();
            }
            k = k + 1;
        }
        want
    }

    /// Joins names with commas and "and", cutting long lists short with
    /// "et al.".
    pub fn and_list(&self, names: &Vec<String>) -> (r: String)
        ensures
            r@ == and_list_text(strs(names@), self.threshold()),
    {
        let n = names.len();
        let threshold: u32 = match self.et_al_threshold {
            Some(t) => t,
            None => 0,
        };
        let cut = threshold > 0 && n >= threshold as usize;
        let ghost ns = strs(names@);
        let mut res = String::new();
        let kept: usize = if cut && n > 2 {
            2
        } else {
            n
        };
        let mut i: usize = 0;
        while i < kept
            invariant
                n == names@.len(),
                ns == strs(names@),
                kept <= n,
                i <= kept,
                res@ == and_list_prefix(ns, i as int),
            decreases kept - i,
        {
            res.append(names[i].as_str());
            if i + 1 < n {
                res.append(", ");
            }
            if i + 1 == n - 1 {
                res.append("and ");
            }
            i = i + 1;
            assert(res@ =~= and_list_prefix(ns, i as int));
        }
        if cut {
            res.append("et al.");
        }
        res
    }
}

/// Renders a range as "p. 5" or "pp. 10-15".
pub(crate) fn format_range(single: &str, multiple: &str, r: IntRange) -> (s: String)
    ensures
        s@ == range_text(single@, multiple@, r),
{
    let mut s = if r.start == r.end {
        cat(single, " ")
    } else {
        cat(multiple, " ")
    };
    let a = int_to_text(r.start);
    s.append(a.as_str());
    if r.start != r.end {
        s.append("-");
        let b = int_to_text(r.end);
        s.append(b.as_str());
        assert(s@ =~= multiple@ + " "@ + int_text(r.start as int) + "-"@ + int_text(r.end as int));
    } else {
        assert(s@ =~= single@ + " "@ + int_text(r.start as int));
    }
    s
}

/// Renders a number or free text.
pub(crate) fn num_or_str(v: &NumOrStr) -> (s: String)
    ensures
        s@ == num_or_str_text(*v),
{
    match v {
        NumOrStr::Number(n) => int_to_text(*n),
        NumOrStr::Str(t) => t.clone(),
    }
}

/// Renders the edition fragment, if there is one.
pub(crate) fn edition(e: &Option<NumOrStr>) -> (r: Option<String>)
    ensures
        match r {
            Some(s) => edition_item(*e) == Some(s@),
            None => edition_item(*e) is None,
        },
{
    match e {
        Some(NumOrStr::Number(n)) => {
            if *n > 1 {
                let o = ordinal(*n as u64);
                Some(cat(o.as_str(), " ed."))
            } else {
                None
            }
        },
        Some(NumOrStr::Str(s)) => Some(s.clone()),
        None => None,
    }
}

/// Renders the year of a date.
pub(crate) fn year(d: &Date) -> (s: String)
    ensures
        s@ == year_text(*d),
{
    int_to_text(d.year as i64)
}

/// Renders the month and day of a date, if its month is known.
pub(crate) fn month_day(d: &Date) -> (r: Option<String>)
    ensures
        match r {
            Some(s) => month_day_text(*d) == Some(s@),
            None => month_day_text(*d) is None,
        },
{
    match d.month {
        Some(m) => match month_abbr(m) {
            Some(a) => match d.day {
                Some(day) => {
                    let n = nat_to_text(day as u64 + 1);
                    Some(cat3(a, " ", n.as_str()))
                },
                None => Some(String::from_str(a)),
            },
            None => None,
        },
        None => None,
    }
}

/// Renders a full date.
pub(crate) fn format_date(d: &Date) -> (s: String)
    ensures
        s@ == date_text(*d),
{
    let y = year(d);
    match d.month {
        Some(m) => match month_abbr(m) {
            Some(a) => match d.day {
                Some(day) => {
                    let n = nat_to_text(day as u64 + 1);
                    let mut s = cat3(a, " ", n.as_str());
                    s.append(", ");
                    s.append(y.as_str());
                    s
                },
                None => cat3(a, " ", y.as_str()),
            },
            None => y,
        },
        None => y,
    }
}

/// The characters of a string that may be absent.
pub open spec fn text_of(o: Option<String>) -> Option<Seq<char>> {
    match o {
        Some(s) => Some(s@),
        None => None,
    }
}

/// `a` if it is there, else `b`.
pub open spec fn either<T>(a: Option<T>, b: Option<T>) -> Option<T> {
    match a {
        Some(x) => Some(x),
        None => b,
    }
}

pub(crate) fn either_text(a: &Option<String>, b: &Option<String>) -> (r: Option<String>)
    ensures
        text_of(r) == either(text_of(*a), text_of(*b)),
{
    match a {
        Some(x) => Some(x.clone()),
        None => match b {
            Some(y) => Some(y.clone()),
            None => None,
        },
    }
}

pub(crate) fn push_some_item(v: &mut Vec<String>, o: Option<String>)
    ensures
        strs(final(v)@) == push_some(strs(old(v)@), text_of(o)),
{
    match o {
        Some(s) => push_item(v, s),
        None => {},
    }
}

/// The names of the people with role `role`, in order.
pub open spec fn role_names(aff: Seq<Affiliated>, role: PersonRole) -> Seq<Seq<char>>
    decreases aff.len(),
{
    if aff.len() == 0 {
        Seq::empty()
    } else {
        let rest = role_names(aff.drop_last(), role);
        if aff.last().role == role {
            rest.push(aff.last().name@)
        } else {
            rest
        }
    }
}

/// Each name with `suffix` after it.
pub open spec fn suffixed(names: Seq<Seq<char>>, suffix: Seq<char>) -> Seq<Seq<char>> {
    names.map_values(|n: Seq<char>| n + suffix)
}

/// Whether record `p` is a video with both an issue and a volume: a series.
pub open spec fn is_series_video(lib: &Library, p: int) -> bool {
    lib.kind(p) == EntryKind::Video && lib.rec(p).issue is Some && lib.rec(p).volume is Some
}

/// Whether record `i` is an episode: a video whose parents include a series.
pub open spec fn is_episode(lib: &Library, i: int) -> bool {
    lib.kind(i) == EntryKind::Video && exists|j: int|
        0 <= j < lib.parents_of(i).len() && is_series_video(lib, #[trigger] lib.parents_of(i)[j] as int)
}

/// Collects the names of the people with role `role`, in order.
fn names_with_role(aff: &Vec<Affiliated>, role: PersonRole) -> (r: Vec<String>)
    ensures
        strs(r@) == role_names(aff@, role),
{
    let mut r: Vec<String> = Vec::new();
    let mut k: usize = 0;
    while k < aff.len()
        invariant
            k <= aff@.len(),
            strs(r@) == role_names(aff@.subrange(0, k as int), role),
        decreases aff@.len() - k,
    {
        assert(aff@.subrange(0, k + 1).drop_last() =~= aff@.subrange(0, k as int));
        if aff[k].role == role {
            push_item(&mut r, aff[k].name.clone());
        }
        k = k + 1;
    }
    assert(aff@.subrange(0, k as int) =~= aff@);
    r
}

/// Puts `suffix` after each name.
fn suffix_each(v: Vec<String>, suffix: &str) -> (r: Vec<String>)
    ensures
        strs(r@) == suffixed(strs(v@), suffix@),
{
    let mut r: Vec<String> = Vec::new();
    let mut k: usize = 0;
    while k < v.len()
        invariant
            k <= v@.len(),
            strs(r@) == suffixed(strs(v@.subrange(0, k as int)), suffix@),
        decreases v@.len() - k,
    {
        push_item(&mut r, cat(v[k].as_str(), suffix));
        k = k + 1;
        assert(strs(r@) =~= suffixed(strs(v@.subrange(0, k as int)), suffix@));
    }
    assert(v@.subrange(0, k as int) =~= v@);
    r
}

/// Tests whether record `i` is an episode of a series.
fn episode(lib: &Library, i: usize) -> (r: bool)
    requires
        lib.wf(),
        i < lib.records@.len(),
    ensures
        r == is_episode(lib, i as int),
{
    if lib.records[i].kind != EntryKind::Video {
        return false;
    }
    let ps = &lib.records[i].parents;
    let mut k: usize = 0;
    while k < ps.len()
        invariant
            lib.wf(),
            i < lib.records@.len(),
            ps@ == lib.parents_of(i as int),
            lib.kind(i as int) == EntryKind::Video,
            k <= ps@.len(),
            forall|j: int| 0 <= j < k ==> !is_series_video(lib, #[trigger] ps@[j] as int),
        decreases ps@.len() - k,
    {
        let p = ps[k];
        assert(p < i);
        let pr = &lib.records[p];
        if pr.kind == EntryKind::Video && pr.issue.is_some() && pr.volume.is_some() {
            assert(is_series_video(lib, lib.parents_of(i as int)[k as int] as int));
            return true;
        }
        k = k + 1;
    }
    false
}

impl Ieee {
    /// The author clause when no role-specific rule applies: the record's
    /// authors, else the container's, else the record's editors labelled
    /// "Ed."/"Eds.", else nothing.
    pub open spec fn plain_author_text(&self, r: Record, cr: Record) -> Seq<char> {
        if r.authors@.len() > 0 {
            and_list_text(strs(r.authors@), self.threshold())
        } else if cr.authors@.len() > 0 {
            and_list_text(strs(cr.authors@), self.threshold())
        } else if r.editors@.len() > 0 {
            and_list_text(strs(r.editors@), self.threshold()) + editor_label(r.editors@.len())
        } else {
            Seq::empty()
        }
    }

    /// The author clause of record `i` with container record `c`. An episode
    /// lists its directors, then its writers, each marked with the role; a
    /// film its directors; a series its executive producers.
    pub open spec fn author_text(&self, lib: &Library, i: int, c: int) -> Seq<char> {
        let r = lib.rec(i);
        let t = self.threshold();
        let dirs = role_names(r.affiliated@, PersonRole::Director);
        let prods = role_names(r.affiliated@, PersonRole::ExecutiveProducer);
        if r.kind != EntryKind::Video {
            self.plain_author_text(r, lib.rec(c))
        } else if is_episode(lib, i) {
            if dirs.len() > 0 {
                and_list_text(
                    suffixed(dirs, " (Director)"@) + suffixed(
                        role_names(r.affiliated@, PersonRole::Writer),
                        " (Writer)"@,
                    ),
                    t,
                )
            } else {
                self.plain_author_text(r, lib.rec(c))
            }
        } else if dirs.len() > 0 {
            and_list_text(dirs, t) + (if dirs.len() == 1 {
                ", Director"@
            } else {
                ", Directors"@
            })
        } else if prods.len() > 0 {
            and_list_text(prods, t) + (if prods.len() == 1 {
                ", Executive Prod"@
            } else {
                ", Executive Prods"@
            })
        } else {
            self.plain_author_text(r, lib.rec(c))
        }
    }

    fn plain_author(&self, r: &Record, cr: &Record) -> (s: String)
        ensures
            s@ == self.plain_author_text(*r, *cr),
    {
        if r.authors.len() > 0 {
            self.and_list(&r.authors)
        } else if cr.authors.len() > 0 {
            self.and_list(&cr.authors)
        } else if r.editors.len() > 0 {
            let names = self.and_list(&r.editors);
            if r.editors.len() == 1 {
                cat(names.as_str(), ", Ed.")
            } else {
                cat(names.as_str(), ", Eds.")
            }
        } else {
            String::new()
        }
    }

    /// Builds the author clause of record `i` with container record `c`.
    pub fn get_author(&self, lib: &Library, i: usize, c: usize) -> (s: String)
        requires
            lib.wf(),
            i < lib.records@.len(),
            c < lib.records@.len(),
        ensures
            s@ == self.author_text(lib, i as int, c as int),
    {
        let r = &lib.records[i];
        let cr = &lib.records[c];
        if r.kind != EntryKind::Video {
            return self.plain_author(r, cr);
        }
        let dirs = names_with_role(&r.affiliated, PersonRole::Director);
        if episode(lib, i) {
            if dirs.len() > 0 {
                let mut named = suffix_each(dirs, " (Director)");
                let writers = suffix_each(
                    names_with_role(&r.affiliated, PersonRole::Writer),
                    " (Writer)",
                );
                let ghost a = strs(named@);
                let mut w = writers;
                let ghost b = strs(w@);
                named.append(&mut w);
                assert(strs(named@) =~= a + b);
                self.and_list(&named)
            } else {
                self.plain_author(r, cr)
            }
        } else if dirs.len() > 0 {
            let names = self.and_list(&dirs);
            if dirs.len() == 1 {
                cat(names.as_str(), ", Director")
            } else {
                cat(names.as_str(), ", Directors")
            }
        } else {
            let prods = names_with_role(&r.affiliated, PersonRole::ExecutiveProducer);
            if prods.len() > 0 {
                let names = self.and_list(&prods);
                if prods.len() == 1 {
                    cat(names.as_str(), ", Executive Prod")
                } else {
                    cat(names.as_str(), ", Executive Prods")
                }
            } else {
                self.plain_author(r, cr)
            }
        }
    }
}

/// The English name of the language of record `r`, else of its container
/// `cr`: none where the code that applies is not known.
pub open spec fn language_name_of(r: Record, cr: Record) -> Option<Seq<char>> {
    match r.language {
        Some(l) => iso639_1_name(l@),
        None => match cr.language {
            Some(l) => iso639_1_name(l@),
            None => None,
        },
    }
}

/// Looks up the English name of the language of a record or its container.
pub(crate) fn language_of(r: &Record, cr: &Record) -> (n: Option<String>)
    ensures
        match n {
            Some(s) => language_name_of(*r, *cr) == Some(s@),
            None => language_name_of(*r, *cr) is None,
        },
{
    match &r.language {
        Some(l) => language_name(l.as_str()),
        None => match &cr.language {
            Some(l) => language_name(l.as_str()),
            None => None,
        },
    }
}

/// Whether record `p` is an anthology with a title.
pub open spec fn is_titled_anthology(lib: &Library, p: int) -> bool {
    lib.kind(p) == EntryKind::Anthology && lib.rec(p).title is Some
}

/// The first parent of record `c`, from position `k` of its parent list on,
/// that is an anthology with a title.
pub open spec fn series_parent_from(lib: &Library, c: int, k: int) -> Option<usize>
    decreases lib.parents_of(c).len() - k,
{
    if k < 0 || k >= lib.parents_of(c).len() {
        None
    } else if is_titled_anthology(lib, lib.parents_of(c)[k] as int) {
        Some(lib.parents_of(c)[k])
    } else {
        series_parent_from(lib, c, k + 1)
    }
}

/// Finds the first parent of record `c` that is an anthology with a title.
pub(crate) fn find_series_parent(lib: &Library, c: usize) -> (r: Option<usize>)
    requires
        lib.wf(),
        c < lib.records@.len(),
    ensures
        r == series_parent_from(lib, c as int, 0),
        r matches Some(p) ==> p < c && is_titled_anthology(lib, p as int),
{
    let ps = &lib.records[c].parents;
    let mut k: usize = 0;
    while k < ps.len()
        invariant
            lib.wf(),
            c < lib.records@.len(),
            ps@ == lib.parents_of(c as int),
            k <= ps@.len(),
            series_parent_from(lib, c as int, 0) == series_parent_from(lib, c as int, k as int),
        decreases ps@.len() - k,
    {
        let p = ps[k];
        assert(p < c);
        if lib.records[p].kind == EntryKind::Anthology && lib.records[p].title.is_some() {
            return Some(p);
        }
        k = k + 1;
    }
    None
}

/// A title in sentence case between curly quotes, with a comma inside the
/// closing quote.
pub open spec fn quoted(sentence_case: Seq<char>) -> Seq<char> {
    "“"@ + sentence_case + ",”"@
}

/// Whether a record of this kind, cited on its own, has its title in italics.
pub open spec fn italic_title_kind(k: EntryKind) -> bool {
    k == EntryKind::Legislation || k == EntryKind::Repository || k == EntryKind::Video || k
        == EntryKind::Reference || k == EntryKind::Book || k == EntryKind::Proceedings || k
        == EntryKind::Anthology
}

impl Ieee {
    /// The title clause of record `i` inside a different container record
    /// `c`. Within a conference: the title and a period, then "Presented at"
    /// and the conference. Elsewhere: the quoted title, then the language
    /// where known, "in" (not for an article in a periodical), the container
    /// in italics, the series of an anthology and the series of proceedings.
    pub open spec fn contained_title_runs(&self, lib: &Library, i: int, c: int) -> Seq<(Seq<char>, bool, bool)> {
        let r = lib.rec(i);
        let cr = lib.rec(c);
        let e = Seq::<(Seq<char>, bool, bool)>::empty();
        let v1 = match r.title {
            Some(t) => {
                let v = if cr.kind == EntryKind::Conference {
                    push_plain(e, t.sentence_case@ + "."@)
                } else {
                    push_plain(e, quoted(t.sentence_case@))
                };
                if cr.title is Some {
                    push_plain(v, " "@)
                } else {
                    v
                }
            },
            None => e,
        };
        match cr.title {
            None => v1,
            Some(ct) => {
                let abbr = self.abbreviation(ct.title_case@);
                if cr.kind == EntryKind::Conference {
                    push_plain(push_plain(v1, "Presented at "@), abbr)
                } else {
                    let v2 = match language_name_of(r, cr) {
                        Some(n) => push_plain(v1, "(in "@ + n + ") "@),
                        None => v1,
                    };
                    let v3 = if r.kind == EntryKind::Article && cr.kind == EntryKind::Periodical {
                        v2
                    } else {
                        push_plain(v2, "in "@)
                    };
                    let v4 = push_run(v3, abbr, true, false);
                    let v5 = if cr.kind == EntryKind::Anthology {
                        match series_parent_from(lib, c, 0) {
                            Some(p) => push_plain(
                                v4,
                                " ("@ + lib.rec(p as int).title.unwrap().title_case@ + match lib.rec(
                                    p as int,
                                ).issue {
                                    Some(n) => ", no. "@ + num_or_str_text(n),
                                    None => Seq::empty(),
                                } + ")"@,
                            ),
                            None => v4,
                        }
                    } else {
                        v4
                    };
                    if cr.kind == EntryKind::Proceedings {
                        match parent_in(lib, c, KindGroup::ProceedingsAnthologyOrMisc) {
                            Some(p) => match lib.rec(p as int).title {
                                Some(pt) => push_plain(v5, " in "@ + pt.title_case@),
                                None => v5,
                            },
                            None => v5,
                        }
                    } else {
                        v5
                    }
                }
            },
        }
    }

    /// The title clause of a record that is its own container: in italics
    /// for legislation (after its serial number), repositories, videos,
    /// reference works, books, proceedings and anthologies; else quoted.
    pub open spec fn own_title_runs(&self, r: Record) -> Seq<(Seq<char>, bool, bool)> {
        let e = Seq::<(Seq<char>, bool, bool)>::empty();
        if italic_title_kind(r.kind) {
            let v1 = if r.kind == EntryKind::Legislation {
                match r.serial_number {
                    Some(sn) => push_run(e, sn@, true, false),
                    None => e,
                }
            } else {
                e
            };
            match r.title {
                Some(t) => {
                    let v2 = if v1.len() > 0 {
                        push_run(v1, ", "@, true, false)
                    } else {
                        v1
                    };
                    push_run(v2, t.title_case@, true, false)
                },
                None => v1,
            }
        } else {
            match r.title {
                Some(t) => push_plain(e, quoted(t.sentence_case@)),
                None => e,
            }
        }
    }

    /// The title clause of record `i` with container record `c`.
    pub open spec fn title_runs(&self, lib: &Library, i: int, c: int) -> Seq<(Seq<char>, bool, bool)> {
        if i != c {
            self.contained_title_runs(lib, i, c)
        } else {
            self.own_title_runs(lib.rec(i))
        }
    }

    fn contained_title(&self, lib: &Library, i: usize, c: usize) -> (res: RichText)
        requires
            lib.wf(),
            i < lib.records@.len(),
            c < lib.records@.len(),
        ensures
            res@ == self.contained_title_runs(lib, i as int, c as int),
    {
        let r = &lib.records[i];
        let cr = &lib.records[c];
        let mut res = RichText::new();
        match &r.title {
            Some(t) => {
                if cr.kind == EntryKind::Conference {
                    res.push(cat(t.sentence_case.as_str(), ".").as_str());
                } else {
                    res.push(cat3("“", t.sentence_case.as_str(), ",”").as_str());
                }
                if cr.title.is_some() {
                    res.push(" ");
                }
            },
            None => {},
        }
        match &cr.title {
            None => {},
            Some(ct) => {
                let abbr = self.abbreviate(ct.title_case.as_str());
                if cr.kind == EntryKind::Conference {
                    res.push("Presented at ");
                    res.push(abbr.as_str());
                } else {
                    match language_of(r, cr) {
                        Some(n) => res.push(cat3("(in ", n.as_str(), ") ").as_str()),
                        None => {},
                    }
                    if !(r.kind == EntryKind::Article && cr.kind == EntryKind::Periodical) {
                        res.push("in ");
                    }
                    res.push_italic(abbr.as_str());
                    if cr.kind == EntryKind::Anthology {
                        match find_series_parent(lib, c) {
                            Some(p) => {
                                let pr = &lib.records[p];
                                let mut s = String::from_str(" (");
                                match &pr.title {
                                    Some(pt) => s.append(pt.title_case.as_str()),
                                    None => {},
                                }
                                match &pr.issue {
                                    Some(n) => {
                                        s.append(", no. ");
                                        s.append(num_or_str(n).as_str());
                                    },
                                    None => {},
                                }
                                s.append(")");
                                assert(s@ =~= " ("@ + pr.title.unwrap().title_case@ + match pr.issue {
                                    Some(n) => ", no. "@ + num_or_str_text(n),
                                    None => Seq::empty(),
                                } + ")"@);
                                res.push(s.as_str());
                            },
                            None => {},
                        }
                    }
                    if cr.kind == EntryKind::Proceedings {
                        match find_parent_in(lib, c, KindGroup::ProceedingsAnthologyOrMisc) {
                            Some(p) => match &lib.records[p].title {
                                Some(pt) => res.push(cat(" in ", pt.title_case.as_str()).as_str()),
                                None => {},
                            },
                            None => {},
                        }
                    }
                }
            },
        }
        res
    }

    fn own_title(&self, r: &Record) -> (res: RichText)
        ensures
            res@ == self.own_title_runs(*r),
    {
        let mut res = RichText::new();
        let k = r.kind;
        if k == EntryKind::Legislation || k == EntryKind::Repository || k == EntryKind::Video || k
            == EntryKind::Reference || k == EntryKind::Book || k == EntryKind::Proceedings || k
            == EntryKind::Anthology {
            if k == EntryKind::Legislation {
                match &r.serial_number {
                    Some(sn) => res.push_italic(sn.as_str()),
                    None => {},
                }
            }
            match &r.title {
                Some(t) => {
                    if !res.is_empty() {
                        res.push_italic(", ");
                    }
                    res.push_italic(t.title_case.as_str());
                },
                None => {},
            }
        } else {
            match &r.title {
                Some(t) => res.push(cat3("“", t.sentence_case.as_str(), ",”").as_str()),
                None => {},
            }
        }
        res
    }

    /// Builds the title clause of record `i` with container record `c`.
    pub fn get_title_element(&self, lib: &Library, i: usize, c: usize) -> (res: RichText)
        requires
            lib.wf(),
            i < lib.records@.len(),
            c < lib.records@.len(),
        ensures
            res@ == self.title_runs(lib, i as int, c as int),
    {
        if i != c {
            self.contained_title(lib, i, c)
        } else {
            self.own_title(&lib.records[i])
        }
    }
}

} // verus!
