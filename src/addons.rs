//! The trailing descriptive fields of an IEEE reference ("addons"), chosen
//! by the kind of the container record.
use vstd::prelude::*;
use crate::ieee::{
    and_list_text, date_text, edition, edition_item, editor_label, either, either_text,
    format_date, format_range, language_name_of, language_of, month_day, month_day_text,
    num_or_str, num_or_str_text, push_item, push_some, push_some_item, range_text, strs,
    text_of, year, year_text, Ieee,
};
use crate::names::{lower_of, lowercase};
use crate::record::{
    find_parent_in, parent_in, Date, EntryKind, IntRange, KindGroup, Library, NumOrStr, Record,
};
use crate::text::{cat, cat3, contains, nat_to_text, nat_text, str_contains};

verus! {

/// "vol. 3" or "vols. 3-4".
pub open spec fn volume_item(v: Option<IntRange>) -> Option<Seq<char>> {
    match v {
        Some(r) => Some(range_text("vol."@, "vols."@, r)),
        None => None,
    }
}

/// "p. 5" or "pp. 10-15".
pub open spec fn pages_item(v: Option<IntRange>) -> Option<Seq<char>> {
    match v {
        Some(r) => Some(range_text("p."@, "pp."@, r)),
        None => None,
    }
}

/// "no. 2".
pub open spec fn issue_item(v: Option<NumOrStr>) -> Option<Seq<char>> {
    match v {
        Some(n) => Some("no. "@ + num_or_str_text(n)),
        None => None,
    }
}

/// `prefix` before a text that is there.
pub open spec fn prefixed(prefix: Seq<char>, o: Option<String>) -> Option<Seq<char>> {
    match o {
        Some(s) => Some(prefix + s@),
        None => None,
    }
}

/// The full date, as one field, of a date that is there.
pub open spec fn dated(a: Seq<Seq<char>>, d: Option<Date>) -> Seq<Seq<char>> {
    match d {
        Some(d) => a.push(date_text(d)),
        None => a,
    }
}

/// The month and day, then the year, as two fields, of a date that is there.
pub open spec fn month_day_year(a: Seq<Seq<char>>, d: Option<Date>) -> Seq<Seq<char>> {
    match d {
        Some(d) => push_some(a, month_day_text(d)).push(year_text(d)),
        None => a,
    }
}

/// A publisher, after the container's location and a colon, and before the
/// language in parentheses, each where known.
pub open spec fn publisher_text(r: Record, cr: Record, p: Option<Seq<char>>) -> Option<Seq<char>> {
    match p {
        Some(p) => Some(
            match cr.location {
                Some(l) => l@ + ": "@,
                None => Seq::empty(),
            } + p + match language_name_of(r, cr) {
                Some(n) => " (in "@ + n + ")"@,
                None => Seq::empty(),
            },
        ),
        None => None,
    }
}

/// Whether a preprint's serial number gets the "arXiv: " prefix, given the
/// lowercased serial number, URL host and repository title: when the serial
/// number does not mention arXiv and the host or the repository is arXiv.
pub open spec fn arxiv_rule(serial: Seq<char>, host: Seq<char>, repository: Seq<char>) -> bool {
    !contains(serial, "arxiv"@) && (host == "arxiv.org"@ || repository == "arxiv"@)
}

/// The host of a URL, or nothing.
pub open spec fn host_text(r: Record) -> Seq<char> {
    match r.url {
        Some(u) => match u.host {
            Some(h) => h@,
            None => Seq::empty(),
        },
        None => Seq::empty(),
    }
}

/// The title of a record as given, or nothing.
pub open spec fn raw_title_text(r: Record) -> Seq<char> {
    match r.title {
        Some(t) => t.value@,
        None => Seq::empty(),
    }
}

/// The serial number of a preprint: prefixed "arXiv: " where the rule
/// applies to a record with a URL, and followed by the archive in brackets
/// where the record or its repository `pr` names one.
pub open spec fn preprint_serial(r: Record, pr: Record, sn: Seq<char>) -> Seq<char> {
    let base = if r.url is Some && arxiv_rule(
        lower_of(sn),
        lower_of(host_text(r)),
        lower_of(raw_title_text(pr)),
    ) {
        "arXiv: "@ + sn
    } else {
        sn
    };
    match either(text_of(r.archive), text_of(pr.archive)) {
        Some(a) => base + " ["@ + a + "]"@,
        None => base,
    }
}

impl Ieee {
    /// Within a conference or proceedings: for proceedings, their editors,
    /// the volume and the edition; then the location; the date (not for a
    /// conference paper with a URL); then the paper number for a conference,
    /// else the pages and the DOI.
    pub open spec fn conference_addons(&self, r: Record, cr: Record) -> Seq<Seq<char>> {
        let a0 = Seq::<Seq<char>>::empty();
        let a1 = if cr.kind == EntryKind::Proceedings {
            let b1 = if cr.editors@.len() > 0 {
                a0.push(
                    and_list_text(strs(cr.editors@), self.threshold()) + editor_label(
                        cr.editors@.len(),
                    ),
                )
            } else {
                a0
            };
            let b2 = push_some(b1, volume_item(either(r.volume, cr.volume)));
            push_some(b2, edition_item(cr.edition))
        } else {
            a0
        };
        let a2 = push_some(a1, text_of(cr.location));
        let a3 = if cr.kind != EntryKind::Conference || r.url is None {
            dated(a2, r.date)
        } else {
            a2
        };
        if cr.kind == EntryKind::Conference {
            push_some(a3, prefixed("Paper "@, r.serial_number))
        } else {
            push_some(push_some(a3, pages_item(r.page_range)), prefixed("doi: "@, r.doi))
        }
    }

    /// Within a reference work: the edition; without a URL, the publisher
    /// and location, the date and the pages; with one, the date in
    /// parentheses.
    pub open spec fn reference_addons(&self, r: Record, cr: Record) -> Seq<Seq<char>> {
        let a1 = push_some(Seq::empty(), edition_item(cr.edition));
        if r.url is None {
            let a2 = match either(text_of(cr.organization), text_of(cr.publisher)) {
                Some(p) => push_some(a1.push(p), text_of(cr.location)),
                None => a1,
            };
            let a3 = match r.date {
                Some(d) => a2.push(date_text(d)),
                None => a2,
            };
            push_some(a3, pages_item(r.page_range))
        } else {
            match r.date {
                Some(d) => a1.push("("@ + date_text(d) + ")"@),
                None => a1,
            }
        }
    }

    /// Within a repository: the version, else the year, in parentheses; then
    /// the publisher.
    pub open spec fn repository_addons(&self, r: Record, cr: Record) -> Seq<Seq<char>> {
        let a1 = match cr.serial_number {
            Some(sn) => seq!["(version "@ + sn@ + ")"@],
            None => match either(cr.date, r.date) {
                Some(d) => seq!["("@ + year_text(d) + ")"@],
                None => Seq::empty(),
            },
        };
        push_some(
            a1,
            publisher_text(r, cr, either(text_of(cr.publisher), text_of(cr.organization))),
        )
    }

    /// Within a video: the year in parentheses.
    pub open spec fn video_addons(&self, r: Record, cr: Record) -> Seq<Seq<char>> {
        match either(cr.date, r.date) {
            Some(d) => seq!["("@ + year_text(d) + ")"@],
            None => Seq::empty(),
        }
    }

    /// The patent designation: location, "Patent" and number.
    pub open spec fn patent_text(&self, cr: Record) -> Seq<char> {
        let place = match cr.location {
            Some(l) => l@ + " "@,
            None => Seq::empty(),
        };
        let number = match cr.serial_number {
            Some(sn) => " "@ + sn@,
            None => Seq::empty(),
        };
        place + "Patent"@ + number
    }

    /// Within a patent: with a URL, the date in parentheses and a period
    /// before the designation; without, the designation, then the date.
    pub open spec fn patent_addons(&self, r: Record, cr: Record) -> Seq<Seq<char>> {
        let start = self.patent_text(cr);
        if r.url is Some {
            let pre = match r.date {
                Some(d) => "("@ + year_text(d) + match month_day_text(d) {
                    Some(md) => ", "@ + md,
                    None => Seq::empty(),
                } + "). "@,
                None => Seq::empty(),
            };
            seq![pre + start]
        } else {
            month_day_year(seq![start], r.date)
        }
    }

    /// Within a periodical: volume, issue, pages or else the article
    /// number, date, DOI.
    pub open spec fn periodical_addons(&self, r: Record, cr: Record) -> Seq<Seq<char>> {
        let a1 = push_some(Seq::empty(), volume_item(cr.volume));
        let a2 = push_some(a1, issue_item(cr.issue));
        let a3 = if r.page_range is Some {
            push_some(a2, pages_item(r.page_range))
        } else {
            push_some(a2, prefixed("Art. no. "@, r.serial_number))
        };
        let a4 = dated(a3, r.date);
        push_some(a4, prefixed("doi: "@, r.doi))
    }

    /// Within a report: the institution and location, the report number,
    /// the date (here without a URL), the volume, the issue, the date (here
    /// with one).
    pub open spec fn report_addons(&self, r: Record, cr: Record) -> Seq<Seq<char>> {
        let a1 = match either(text_of(cr.organization), text_of(cr.publisher)) {
            Some(p) => push_some(seq![p], text_of(cr.location)),
            None => Seq::empty(),
        };
        let a2 = push_some(a1, prefixed("Rep. "@, cr.serial_number));
        let dt = match r.date {
            Some(d) => Some(date_text(d)),
            None => None,
        };
        let a3 = if r.url is None {
            push_some(a2, dt)
        } else {
            a2
        };
        let a4 = push_some(a3, volume_item(either(cr.volume, r.volume)));
        let a5 = push_some(a4, issue_item(cr.issue));
        if r.url is Some {
            push_some(a5, dt)
        } else {
            a5
        }
    }

    /// Within a thesis: "Thesis", the abbreviated institution and its
    /// location, the serial number, the year.
    pub open spec fn thesis_addons(&self, r: Record, cr: Record) -> Seq<Seq<char>> {
        let a1 = seq!["Thesis"@];
        let a2 = match cr.organization {
            Some(o) => push_some(a1.push(self.abbreviation(o@)), text_of(cr.location)),
            None => a1,
        };
        let a3 = push_some(a2, text_of(r.serial_number));
        match r.date {
            Some(d) => a3.push(year_text(d)),
            None => a3,
        }
    }

    /// A preprint in repository `pr`: its serial number, then its date.
    pub open spec fn preprint_addons(&self, r: Record, pr: Record) -> Seq<Seq<char>> {
        let a1 = match r.serial_number {
            Some(sn) => seq![preprint_serial(r, pr, sn@)],
            None => Seq::empty(),
        };
        dated(a1, r.date)
    }

    /// A web page or blog: its publisher, else its organization.
    pub open spec fn web_addons(&self, r: Record) -> Seq<Seq<char>> {
        push_some(Seq::empty(), either(text_of(r.publisher), text_of(r.organization)))
    }

    /// A record below web page or blog `pr`: the first there of the parent's
    /// title, the parent's publisher, the record's publisher, the parent's
    /// organization, the record's organization.
    pub open spec fn web_parented_addons(&self, r: Record, pr: Record) -> Seq<Seq<char>> {
        let t = match pr.title {
            Some(t) => Some(t.value@),
            None => None,
        };
        push_some(
            Seq::empty(),
            either(
                t,
                either(
                    text_of(pr.publisher),
                    either(
                        text_of(r.publisher),
                        either(text_of(pr.organization), text_of(r.organization)),
                    ),
                ),
            ),
        )
    }

    /// The first fields of any other record: its editors (where it has
    /// authors), the volume, the edition, the publisher.
    pub open spec fn fallback_head(&self, r: Record, cr: Record) -> Seq<Seq<char>> {
        let eds = if r.editors@.len() > 0 {
            r.editors@
        } else {
            cr.editors@
        };
        let a1 = if r.authors@.len() > 0 && eds.len() > 0 {
            seq![and_list_text(strs(eds), self.threshold()) + editor_label(eds.len())]
        } else {
            Seq::empty()
        };
        let a2 = push_some(a1, volume_item(either(r.volume, cr.volume)));
        let a3 = push_some(a2, edition_item(cr.edition));
        push_some(
            a3,
            publisher_text(r, cr, either(text_of(cr.publisher), text_of(cr.organization))),
        )
    }

    /// Any other record: the fields of `fallback_head`, then the container's
    /// year, the chapter and section numbers, the pages.
    pub open spec fn fallback_addons(
        &self,
        r: Record,
        cr: Record,
        chapter: Option<u32>,
        section: Option<u32>,
    ) -> Seq<Seq<char>> {
        let a4 = self.fallback_head(r, cr);
        let a5 = match cr.date {
            Some(d) => a4.push(year_text(d)),
            None => a4,
        };
        let a6 = match chapter {
            Some(n) => a5.push("ch. "@ + nat_text(n as nat)),
            None => a5,
        };
        let a7 = match section {
            Some(n) => a6.push("sec. "@ + nat_text(n as nat)),
            None => a6,
        };
        push_some(a7, pages_item(r.page_range))
    }

    /// The descriptive fields of record `i` with container record `c`, by
    /// the container's kind; for other containers by the record's shape: a
    /// preprint, a web page or blog, a record below one, anything else.
    pub open spec fn addons(
        &self,
        lib: &Library,
        i: int,
        c: int,
        chapter: Option<u32>,
        section: Option<u32>,
    ) -> Seq<Seq<char>> {
        let r = lib.rec(i);
        let cr = lib.rec(c);
        match cr.kind {
            EntryKind::Conference | EntryKind::Proceedings => self.conference_addons(r, cr),
            EntryKind::Reference => self.reference_addons(r, cr),
            EntryKind::Repository => self.repository_addons(r, cr),
            EntryKind::Video => self.video_addons(r, cr),
            EntryKind::Patent => self.patent_addons(r, cr),
            EntryKind::Periodical => self.periodical_addons(r, cr),
            EntryKind::Report => self.report_addons(r, cr),
            EntryKind::Thesis => self.thesis_addons(r, cr),
            EntryKind::Legislation => Seq::empty(),
            EntryKind::Manuscript => seq!["unpublished"@],
            _ => {
                let preprint = (r.kind == EntryKind::Article || r.kind == EntryKind::Book
                    || r.kind == EntryKind::Anthos) && parent_in(lib, i, KindGroup::Repository) is Some;
                if preprint {
                    self.preprint_addons(r, lib.rec(parent_in(lib, i, KindGroup::Repository).unwrap() as int))
                } else if r.kind == EntryKind::Web || r.kind == EntryKind::Blog {
                    self.web_addons(r)
                } else if parent_in(lib, i, KindGroup::BlogOrWeb) is Some {
                    self.web_parented_addons(r, lib.rec(parent_in(lib, i, KindGroup::BlogOrWeb).unwrap() as int))
                } else {
                    self.fallback_addons(r, cr, chapter, section)
                }
            },
        }
    }
}

fn volume_of(v: Option<IntRange>) -> (r: Option<String>)
    ensures
        text_of(r) == volume_item(v),
{
    match v {
        Some(x) => Some(format_range("vol.", "vols.", x)),
        None => None,
    }
}

fn pages_of(v: Option<IntRange>) -> (r: Option<String>)
    ensures
        text_of(r) == pages_item(v),
{
    match v {
        Some(x) => Some(format_range("p.", "pp.", x)),
        None => None,
    }
}

fn issue_of(v: &Option<NumOrStr>) -> (r: Option<String>)
    ensures
        text_of(r) == issue_item(*v),
{
    match v {
        Some(n) => Some(cat("no. ", num_or_str(n).as_str())),
        None => None,
    }
}

fn prefixed_of(prefix: &str, o: &Option<String>) -> (r: Option<String>)
    ensures
        text_of(r) == prefixed(prefix@, *o),
{
    match o {
        Some(x) => Some(cat(prefix, x.as_str())),
        None => None,
    }
}

fn text_opt(o: &Option<String>) -> (r: Option<String>)
    ensures
        text_of(r) == text_of(*o),
{
    match o {
        Some(x) => Some(x.clone()),
        None => None,
    }
}

fn push_date(v: &mut Vec<String>, d: Option<Date>)
    ensures
        strs(final(v)@) == dated(strs(old(v)@), d),
{
    match d {
        Some(d) => push_item(v, format_date(&d)),
        None => {},
    }
}

fn push_month_day_year(v: &mut Vec<String>, d: Option<Date>)
    ensures
        strs(final(v)@) == month_day_year(strs(old(v)@), d),
{
    match d {
        Some(d) => {
            push_some_item(v, month_day(&d));
            push_item(v, year(&d));
        },
        None => {},
    }
}

fn publisher_of(r: &Record, cr: &Record, p: Option<String>) -> (res: Option<String>)
    ensures
        text_of(res) == publisher_text(*r, *cr, text_of(p)),
{
    match p {
        Some(p) => {
            let mut s = String::new();
            match &cr.location {
                Some(l) => {
                    s.append(l.as_str());
                    s.append(": ");
                },
                None => {},
            }
            s.append(p.as_str());
            match language_of(r, cr) {
                Some(n) => {
                    s.append(" (in ");
                    s.append(n.as_str());
                    s.append(")");
                },
                None => {},
            }
            let ghost want = publisher_text(*r, *cr, text_of(Some(p))).unwrap();
            assert(s@ =~= want);
            Some(s)
        },
        None => None,
    }
}

/// Decides whether a preprint's serial number gets the "arXiv: " prefix,
/// from the lowercased serial number, URL host and repository title.
pub fn arxiv_prefix_applies(serial: &str, host: &str, repository: &str) -> (r: bool)
    ensures
        r == arxiv_rule(serial@, host@, repository@),
{
    if str_contains(serial, "arxiv") {
        return false;
    }
    let h = String::from_str(host);
    let t = String::from_str(repository);
    h == String::from_str("arxiv.org") || t == String::from_str("arxiv")
}

fn preprint_serial_of(r: &Record, pr: &Record, sn: &String) -> (res: String)
    ensures
        res@ == preprint_serial(*r, *pr, sn@),
{
    let mut base = match &r.url {
        Some(u) => {
            let empty = String::new();
            let host = match &u.host {
                Some(h) => lowercase(h.as_str()),
                None => lowercase(empty.as_str()),
            };
            let title = match &pr.title {
                Some(t) => lowercase(t.value.as_str()),
                None => lowercase(empty.as_str()),
            };
            let serial = lowercase(sn.as_str());
            if arxiv_prefix_applies(serial.as_str(), host.as_str(), title.as_str()) {
                cat("arXiv: ", sn.as_str())
            } else {
                sn.clone()
            }
        },
        None => sn.clone(),
    };
    match either_text(&r.archive, &pr.archive) {
        Some(a) => {
            let ghost b = base@;
            base.append(" [");
            base.append(a.as_str());
            base.append("]");
            assert(base@ =~= b + " ["@ + a@ + "]"@);
        },
        None => {},
    }
    base
}

impl Ieee {
    fn conference_items(&self, r: &Record, cr: &Record) -> (v: Vec<String>)
        ensures
            strs(v@) == self.conference_addons(*r, *cr),
    {
        let mut v: Vec<String> = Vec::new();
        if cr.kind == EntryKind::Proceedings {
            if cr.editors.len() > 0 {
                let names = self.and_list(&cr.editors);
                if cr.editors.len() > 1 {
                    push_item(&mut v, cat(names.as_str(), ", Eds."));
                } else {
                    push_item(&mut v, cat(names.as_str(), ", Ed."));
                }
            }
            let vol = match r.volume {
                Some(x) => Some(x),
                None => cr.volume,
            };
            push_some_item(&mut v, volume_of(vol));
            push_some_item(&mut v, edition(&cr.edition));
        }
        push_some_item(&mut v, text_opt(&cr.location));
        if cr.kind != EntryKind::Conference || r.url.is_none() {
            push_date(&mut v, r.date);
        }
        if cr.kind == EntryKind::Conference {
            push_some_item(&mut v, prefixed_of("Paper ", &r.serial_number));
        } else {
            push_some_item(&mut v, pages_of(r.page_range));
            push_some_item(&mut v, prefixed_of("doi: ", &r.doi));
        }
        v
    }

    fn reference_items(&self, r: &Record, cr: &Record) -> (v: Vec<String>)
        ensures
            strs(v@) == self.reference_addons(*r, *cr),
    {
        let mut v: Vec<String> = Vec::new();
        push_some_item(&mut v, edition(&cr.edition));
        if r.url.is_none() {
            match either_text(&cr.organization, &cr.publisher) {
                Some(p) => {
                    push_item(&mut v, p);
                    push_some_item(&mut v, text_opt(&cr.location));
                },
                None => {},
            }
            match r.date {
                Some(d) => push_item(&mut v, format_date(&d)),
                None => {},
            }
            push_some_item(&mut v, pages_of(r.page_range));
        } else {
            match r.date {
                Some(d) => push_item(&mut v, cat3("(", format_date(&d).as_str(), ")")),
                None => {},
            }
        }
        v
    }

    fn repository_items(&self, r: &Record, cr: &Record) -> (v: Vec<String>)
        ensures
            strs(v@) == self.repository_addons(*r, *cr),
    {
        let mut v: Vec<String> = Vec::new();
        match &cr.serial_number {
            Some(sn) => push_item(&mut v, cat3("(version ", sn.as_str(), ")")),
            None => {
                let d = match cr.date {
                    Some(d) => Some(d),
                    None => r.date,
                };
                match d {
                    Some(d) => push_item(&mut v, cat3("(", year(&d).as_str(), ")")),
                    None => {},
                }
            },
        }
        let p = either_text(&cr.publisher, &cr.organization);
        push_some_item(&mut v, publisher_of(r, cr, p));
        v
    }

    fn video_items(&self, r: &Record, cr: &Record) -> (v: Vec<String>)
        ensures
            strs(v@) == self.video_addons(*r, *cr),
    {
        let mut v: Vec<String> = Vec::new();
        let d = match cr.date {
            Some(d) => Some(d),
            None => r.date,
        };
        match d {
            Some(d) => push_item(&mut v, cat3("(", year(&d).as_str(), ")")),
            None => {},
        }
        v
    }

    fn patent_items(&self, r: &Record, cr: &Record) -> (v: Vec<String>)
        ensures
            strs(v@) == self.patent_addons(*r, *cr),
    {
        let mut v: Vec<String> = Vec::new();
        let mut start = String::new();
        match &cr.location {
            Some(l) => {
                start.append(l.as_str());
                start.append(" ");
            },
            None => {},
        }
        start.append("Patent");
        match &cr.serial_number {
            Some(sn) => {
                start.append(" ");
                start.append(sn.as_str());
            },
            None => {},
        }
        assert(start@ =~= self.patent_text(*cr));
        if r.url.is_some() {
            let mut fin = String::new();
            match r.date {
                Some(d) => {
                    fin.append("(");
                    fin.append(year(&d).as_str());
                    match month_day(&d) {
                        Some(md) => {
                            fin.append(", ");
                            fin.append(md.as_str());
                        },
                        None => {},
                    }
                    fin.append("). ");
                    assert(fin@ =~= "("@ + year_text(d) + match month_day_text(d) {
                        Some(md) => ", "@ + md,
                        None => Seq::empty(),
                    } + "). "@);
                },
                None => {},
            }
            let ghost pre = fin@;
            fin.append(start.as_str());
            assert(fin@ == pre + start@);
            push_item(&mut v, fin);
            assert(strs(v@) =~= self.patent_addons(*r, *cr));
        } else {
            push_item(&mut v, start);
            push_month_day_year(&mut v, r.date);
        }
        v
    }

    fn periodical_items(&self, r: &Record, cr: &Record) -> (v: Vec<String>)
        ensures
            strs(v@) == self.periodical_addons(*r, *cr),
    {
        let mut v: Vec<String> = Vec::new();
        push_some_item(&mut v, volume_of(cr.volume));
        push_some_item(&mut v, issue_of(&cr.issue));
        if r.page_range.is_some() {
            push_some_item(&mut v, pages_of(r.page_range));
        } else {
            push_some_item(&mut v, prefixed_of("Art. no. ", &r.serial_number));
        }
        push_date(&mut v, r.date);
        push_some_item(&mut v, prefixed_of("doi: ", &r.doi));
        v
    }

    fn report_items(&self, r: &Record, cr: &Record) -> (v: Vec<String>)
        ensures
            strs(v@) == self.report_addons(*r, *cr),
    {
        let mut v: Vec<String> = Vec::new();
        match either_text(&cr.organization, &cr.publisher) {
            Some(p) => {
                push_item(&mut v, p);
                push_some_item(&mut v, text_opt(&cr.location));
            },
            None => {},
        }
        push_some_item(&mut v, prefixed_of("Rep. ", &cr.serial_number));
        let has_url = r.url.is_some();
        if !has_url {
            match r.date {
                Some(d) => push_item(&mut v, format_date(&d)),
                None => {},
            }
        }
        let vol = match cr.volume {
            Some(x) => Some(x),
            None => r.volume,
        };
        push_some_item(&mut v, volume_of(vol));
        push_some_item(&mut v, issue_of(&cr.issue));
        if has_url {
            match r.date {
                Some(d) => push_item(&mut v, format_date(&d)),
                None => {},
            }
        }
        v
    }

    fn thesis_items(&self, r: &Record, cr: &Record) -> (v: Vec<String>)
        ensures
            strs(v@) == self.thesis_addons(*r, *cr),
    {
        let mut v: Vec<String> = Vec::new();
        push_item(&mut v, String::from_str("Thesis"));
        match &cr.organization {
            Some(o) => {
                push_item(&mut v, self.abbreviate(o.as_str()));
                push_some_item(&mut v, text_opt(&cr.location));
            },
            None => {},
        }
        push_some_item(&mut v, text_opt(&r.serial_number));
        match r.date {
            Some(d) => push_item(&mut v, year(&d)),
            None => {},
        }
        v
    }

    fn preprint_items(&self, r: &Record, pr: &Record) -> (v: Vec<String>)
        ensures
            strs(v@) == self.preprint_addons(*r, *pr),
    {
        let mut v: Vec<String> = Vec::new();
        match &r.serial_number {
            Some(sn) => push_item(&mut v, preprint_serial_of(r, pr, sn)),
            None => {},
        }
        push_date(&mut v, r.date);
        v
    }

    fn web_items(&self, r: &Record) -> (v: Vec<String>)
        ensures
            strs(v@) == self.web_addons(*r),
    {
        let mut v: Vec<String> = Vec::new();
        push_some_item(&mut v, either_text(&r.publisher, &r.organization));
        v
    }

    fn web_parented_items(&self, r: &Record, pr: &Record) -> (v: Vec<String>)
        ensures
            strs(v@) == self.web_parented_addons(*r, *pr),
    {
        let mut v: Vec<String> = Vec::new();
        let t = match &pr.title {
            Some(t) => Some(t.value.clone()),
            None => None,
        };
        let rest = either_text(
            &pr.publisher,
            &either_text(&r.publisher, &either_text(&pr.organization, &r.organization)),
        );
        push_some_item(&mut v, either_text(&t, &rest));
        v
    }

    fn fallback_head_items(&self, r: &Record, cr: &Record) -> (v: Vec<String>)
        ensures
            strs(v@) == self.fallback_head(*r, *cr),
    {
        let mut v: Vec<String> = Vec::new();
        let eds = if r.editors.len() > 0 {
            &r.editors
        } else {
            &cr.editors
        };
        if r.authors.len() > 0 && eds.len() > 0 {
            let names = self.and_list(eds);
            if eds.len() > 1 {
                push_item(&mut v, cat(names.as_str(), ", Eds."));
            } else {
                push_item(&mut v, cat(names.as_str(), ", Ed."));
            }
        }
        let vol = match r.volume {
            Some(x) => Some(x),
            None => cr.volume,
        };
        push_some_item(&mut v, volume_of(vol));
        push_some_item(&mut v, edition(&cr.edition));
        let p = either_text(&cr.publisher, &cr.organization);
        push_some_item(&mut v, publisher_of(r, cr, p));
        v
    }

    fn fallback_items(
        &self,
        r: &Record,
        cr: &Record,
        chapter: Option<u32>,
        section: Option<u32>,
    ) -> (v: Vec<String>)
        ensures
            strs(v@) == self.fallback_addons(*r, *cr, chapter, section),
    {
        let mut v = self.fallback_head_items(r, cr);
        match cr.date {
            Some(d) => push_item(&mut v, year(&d)),
            None => {},
        }
        match chapter {
            Some(n) => push_item(&mut v, cat("ch. ", nat_to_text(n as u64).as_str())),
            None => {},
        }
        match section {
            Some(n) => push_item(&mut v, cat("sec. ", nat_to_text(n as u64).as_str())),
            None => {},
        }
        push_some_item(&mut v, pages_of(r.page_range));
        v
    }

    /// Assembles the descriptive fields of record `i` with container record
    /// `c`, given the chapter and section numbers collected above it.
    pub fn get_addons(
        &self,
        lib: &Library,
        i: usize,
        c: usize,
        chapter: Option<u32>,
        section: Option<u32>,
    ) -> (v: Vec<String>)
        requires
            lib.wf(),
            i < lib.records@.len(),
            c < lib.records@.len(),
        ensures
            strs(v@) == self.addons(lib, i as int, c as int, chapter, section),
    {
        let r = &lib.records[i];
        let cr = &lib.records[c];
        match cr.kind {
            EntryKind::Conference | EntryKind::Proceedings => self.conference_items(r, cr),
            EntryKind::Reference => self.reference_items(r, cr),
            EntryKind::Repository => self.repository_items(r, cr),
            EntryKind::Video => self.video_items(r, cr),
            EntryKind::Patent => self.patent_items(r, cr),
            EntryKind::Periodical => self.periodical_items(r, cr),
            EntryKind::Report => self.report_items(r, cr),
            EntryKind::Thesis => self.thesis_items(r, cr),
            EntryKind::Legislation => {
                let v: Vec<String> = Vec::new();
                assert(strs(v@) =~= Seq::<Seq<char>>::empty());
                v
            },
            EntryKind::Manuscript => {
                let mut v: Vec<String> = Vec::new();
                push_item(&mut v, String::from_str("unpublished"));
                assert(strs(v@) =~= seq!["unpublished"@]);
                v
            },
            _ => {
                let repo = if r.kind == EntryKind::Article || r.kind == EntryKind::Book || r.kind
                    == EntryKind::Anthos {
                    find_parent_in(lib, i, KindGroup::Repository)
                } else {
                    None
                };
                match repo {
                    Some(p) => self.preprint_items(r, &lib.records[p]),
                    None => {
                        if r.kind == EntryKind::Web || r.kind == EntryKind::Blog {
                            self.web_items(r)
                        } else {
                            match find_parent_in(lib, i, KindGroup::BlogOrWeb) {
                                Some(p) => self.web_parented_items(r, &lib.records[p]),
                                None => self.fallback_items(r, cr, chapter, section),
                            }
                        }
                    },
                }
            },
        }
    }
}

} // verus!
