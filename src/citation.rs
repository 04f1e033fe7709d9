//! The full IEEE reference: the walk above untitled chapters and scenes,
//! and the joining of the clauses with the style's punctuation.
use vstd::prelude::*;
use crate::ieee::{date_text, format_date, strs, Ieee};
use crate::record::{
    canonical_parent, get_canonical_parent, Date, EntryKind, Library, NumOrStr, Record,
};
use crate::rich::{last_ends_with, plain_text, push_plain, push_run, trim_last, RichText};
use crate::ieee::quoted;
use crate::text::{cat3, parse_u32, parsed_u32};

verus! {

/// From record `i`, the walk up untitled chapters and scenes through their
/// primary parents: the record where it stops, and the serial numbers of
/// the records it left, in order.
pub open spec fn walk(lib: &Library, i: int) -> (int, Seq<Seq<char>>)
    decreases i,
{
    let r = lib.rec(i);
    if i >= 0 && r.title is None && (r.kind == EntryKind::Chapter || r.kind == EntryKind::Scene) {
        let here = match r.serial_number {
            Some(sn) => seq![sn@],
            None => Seq::empty(),
        };
        if r.parents@.len() > 0 && r.parents@[0] < i {
            let (f, rest) = walk(lib, r.parents@[0] as int);
            (f, here + rest)
        } else {
            (i, here)
        }
    } else {
        (i, Seq::empty())
    }
}

/// The serial numbers collected for record `i`: those of the walk, then
/// that of the record where it stopped if that is a chapter.
pub open spec fn serials(lib: &Library, i: int) -> Seq<Seq<char>> {
    let (f, s) = walk(lib, i);
    let r = lib.rec(f);
    if r.kind == EntryKind::Chapter && r.serial_number is Some {
        s.push(r.serial_number.unwrap()@)
    } else {
        s
    }
}

/// The numbers among `ss`, in order; the rest are dropped.
pub open spec fn numbers(ss: Seq<Seq<char>>) -> Seq<u32>
    decreases ss.len(),
{
    if ss.len() == 0 {
        Seq::empty()
    } else {
        let rest = numbers(ss.drop_last());
        match parsed_u32(ss.last()) {
            Some(n) => rest.push(n),
            None => rest,
        }
    }
}

/// The chapter: the first number collected.
pub open spec fn chapter_of(nums: Seq<u32>) -> Option<u32> {
    if nums.len() > 0 {
        Some(nums[0])
    } else {
        None
    }
}

/// The section: the last number collected, where there are two or more.
pub open spec fn section_of(nums: Seq<u32>) -> Option<u32> {
    if nums.len() > 1 {
        Some(nums.last())
    } else {
        None
    }
}

/// `v` with a plain run of `s` added if `v` is not empty.
pub open spec fn separated(v: Seq<(Seq<char>, bool, bool)>, s: Seq<char>) -> Seq<(Seq<char>, bool, bool)> {
    if v.len() > 0 {
        push_plain(v, s)
    } else {
        v
    }
}

/// The items joined with ", ".
pub open spec fn joined(items: Seq<Seq<char>>) -> Seq<char>
    decreases items.len(),
{
    if items.len() == 0 {
        Seq::empty()
    } else if items.len() == 1 {
        items[0]
    } else {
        joined(items.drop_last()) + ", "@ + items.last()
    }
}

/// Adds the descriptive fields after the title clause. Where the last run
/// is longer than a closing `,”` and ends with it, the comma goes, and a
/// space comes before any fields; otherwise ", " comes between a nonempty
/// text and the fields.
pub open spec fn with_addons(v: Seq<(Seq<char>, bool, bool)>, addons: Seq<Seq<char>>) -> Seq<(Seq<char>, bool, bool)> {
    let v1 = if last_ends_with(v, ",”"@) && v.last().0.len() > 2 {
        let w = push_plain(trim_last(v, 2), "”"@);
        if addons.len() > 0 {
            push_plain(w, " "@)
        } else {
            w
        }
    } else if v.len() > 0 && addons.len() > 0 {
        push_plain(v, ", "@)
    } else {
        v
    };
    push_plain(v1, joined(addons))
}

/// `v` without one trailing comma or period of its last run.
pub open spec fn without_stop(v: Seq<(Seq<char>, bool, bool)>) -> Seq<(Seq<char>, bool, bool)> {
    if last_ends_with(v, ","@) || last_ends_with(v, "."@) {
        trim_last(v, 1)
    } else {
        v
    }
}

/// Ends the text with a single period, inside a closing quote that ends it:
/// a trailing comma or period gives way to it.
pub open spec fn end_with_period(v: Seq<(Seq<char>, bool, bool)>) -> Seq<(Seq<char>, bool, bool)> {
    if last_ends_with(v, "”"@) {
        push_plain(without_stop(trim_last(v, 1)), ".”"@)
    } else {
        push_plain(without_stop(v), "."@)
    }
}

/// The link to an online record `r` with container `cr`: the access date,
/// "[Online]" (or "[Online Video]") and the URL; for web pages and blogs
/// the URL, then the access date.
pub open spec fn url_suffix(v: Seq<(Seq<char>, bool, bool)>, r: Record, cr: Record) -> Seq<(Seq<char>, bool, bool)> {
    match r.url {
        None => v,
        Some(u) => {
            let w = separated(v, " "@);
            if cr.kind != EntryKind::Web && cr.kind != EntryKind::Blog {
                let w1 = match u.visit_date {
                    Some(d) => push_plain(w, "Accessed: "@ + date_text(d) + ". "@),
                    None => w,
                };
                let w2 = push_plain(
                    w1,
                    if cr.kind == EntryKind::Video {
                        "[Online Video]"@
                    } else {
                        "[Online]"@
                    },
                );
                push_run(push_plain(w2, ". Available: "@), u.value@, false, true)
            } else {
                let w1 = push_run(w, u.value@, false, true);
                match u.visit_date {
                    Some(d) => push_plain(w1, " (accessed: "@ + date_text(d) + ")."@),
                    None => w1,
                }
            }
        },
    }
}

/// The note of record `r` in parentheses at the end.
pub open spec fn note_suffix(v: Seq<(Seq<char>, bool, bool)>, r: Record) -> Seq<(Seq<char>, bool, bool)> {
    match r.note {
        Some(n) => push_plain(separated(v, " "@), "("@ + n@ + ")"@),
        None => v,
    }
}

/// Whether the title clause follows ". " rather than ", ".
pub open spec fn dot_before_title(cr: Record, url: bool) -> bool {
    cr.kind == EntryKind::Legislation || cr.kind == EntryKind::Video || ((cr.kind
        == EntryKind::Conference || cr.kind == EntryKind::Patent) && url)
}

/// A titled record inside a different container that is not a conference
/// and has no title of its own gets a title clause that ends in a closing
/// `,”`.
pub proof fn lemma_contained_title_ends_quoted(ieee: &Ieee, lib: &Library, i: int, c: int)
    requires
        i != c,
        lib.kind(c) != EntryKind::Conference,
        lib.rec(i).title is Some,
        lib.rec(c).title is None,
    ensures
        ieee.title_runs(lib, i, c) == seq![(quoted(lib.rec(i).title.unwrap().sentence_case@), false, false)],
        last_ends_with(ieee.title_runs(lib, i, c), ",”"@),
{
    reveal_strlit("“");
    reveal_strlit(",”");
    let q = quoted(lib.rec(i).title.unwrap().sentence_case@);
    assert(q.subrange(q.len() - 2, q.len() as int) =~= ",”"@);
    assert(Seq::<(Seq<char>, bool, bool)>::empty().push((q, false, false)) =~= seq![(q, false, false)]);
}

/// Within a conference the title clause opens with the record's title and a
/// period, unquoted, so no closing `,”` comes before "Presented at".
pub proof fn lemma_conference_title_unquoted(ieee: &Ieee, lib: &Library, i: int, c: int)
    requires
        i != c,
        lib.kind(c) == EntryKind::Conference,
        lib.rec(i).title is Some,
    ensures
        ieee.title_runs(lib, i, c)[0] == (lib.rec(i).title.unwrap().sentence_case@ + "."@, false, false),
{
    reveal_strlit(".");
    reveal_strlit(" ");
}

/// Before descriptive fields, a text whose last run ends in a closing `,”`
/// loses that comma: its plain text becomes the text without the last two
/// characters, then `”`, a space and the fields joined with ", ".
pub proof fn lemma_comma_dropped_before_addons(v: Seq<(Seq<char>, bool, bool)>, addons: Seq<Seq<char>>)
    requires
        last_ends_with(v, ",”"@),
        v.last().0.len() > 2,
        addons.len() > 0,
    ensures
        plain_text(with_addons(v, addons)) == plain_text(v).subrange(0, plain_text(v).len() - 2)
            + "”"@ + " "@ + joined(addons),
{
    reveal_strlit("”");
    reveal_strlit(" ");
    reveal_strlit(",”");
    let last = v.last();
    let t = last.0.subrange(0, last.0.len() - 2);
    let w0 = trim_last(v, 2);
    assert(w0 == v.update(v.len() - 1, (t, last.1, last.2)));
    assert(w0.drop_last() =~= v.drop_last());
    assert(plain_text(w0) == plain_text(v.drop_last()) + t);
    assert(plain_text(v) == plain_text(v.drop_last()) + last.0);
    let p = plain_text(v);
    assert(p.subrange(0, p.len() - 2) =~= plain_text(v.drop_last()) + t);
    let w1 = push_plain(w0, "”"@);
    let w2 = push_plain(w1, " "@);
    assert(w1.drop_last() == w0);
    assert(w2.drop_last() == w1);
    assert(w1.last().0 == "”"@);
    assert(w2.last().0 == " "@);
    assert(plain_text(w1) == plain_text(w0) + "”"@);
    assert(plain_text(w2) == plain_text(w1) + " "@);
    if joined(addons).len() > 0 {
        let w3 = push_plain(w2, joined(addons));
        assert(w3.drop_last() == w2);
        assert(plain_text(w3) == plain_text(w2) + joined(addons));
    } else {
        assert(plain_text(w2) + joined(addons) =~= plain_text(w2));
    }
    assert(plain_text(w2) =~= plain_text(w0) + "”"@ + " "@);
}

proof fn lemma_walk_below(lib: &Library, i: int)
    requires
        lib.wf(),
        0 <= i < lib.records@.len(),
    ensures
        0 <= walk(lib, i).0 <= i,
    decreases i,
{
    let r = lib.rec(i);
    if r.parents@.len() > 0 {
        assert(r.parents@[0] < i);
        lemma_walk_below(lib, r.parents@[0] as int);
    }
}

fn walk_up(lib: &Library, i: usize) -> (res: (usize, Vec<String>))
    requires
        lib.wf(),
        i < lib.records@.len(),
    ensures
        res.0 == walk(lib, i as int).0,
        strs(res.1@) == walk(lib, i as int).1,
    decreases i,
{
    let r = &lib.records[i];
    if r.title.is_none() && (r.kind == EntryKind::Chapter || r.kind == EntryKind::Scene) {
        let mut here: Vec<String> = Vec::new();
        match &r.serial_number {
            Some(sn) => here.push(sn.clone()),
            None => {},
        }
        assert(strs(here@) =~= match r.serial_number {
            Some(sn) => seq![sn@],
            None => Seq::<Seq<char>>::empty(),
        });
        if r.parents.len() > 0 {
            let p = r.parents[0];
            assert(p < i);
            let (f, mut rest) = walk_up(lib, p);
            let ghost a = strs(here@);
            let ghost b = strs(rest@);
            here.append(&mut rest);
            assert(strs(here@) =~= a + b);
            (f, here)
        } else {
            (i, here)
        }
    } else {
        let v: Vec<String> = Vec::new();
        assert(strs(v@) =~= Seq::<Seq<char>>::empty());
        (i, v)
    }
}

fn parse_numbers(ss: &Vec<String>) -> (r: Vec<u32>)
    ensures
        r@ == numbers(strs(ss@)),
{
    let mut r: Vec<u32> = Vec::new();
    let mut k: usize = 0;
    while k < ss.len()
        invariant
            k <= ss@.len(),
            r@ == numbers(strs(ss@.subrange(0, k as int))),
        decreases ss@.len() - k,
    {
        assert(strs(ss@.subrange(0, k + 1)).drop_last() =~= strs(ss@.subrange(0, k as int)));
        assert(strs(ss@.subrange(0, k + 1)).last() == ss@[k as int]@);
        match parse_u32(ss[k].as_str()) {
            Some(n) => r.push(n),
            None => {},
        }
        k = k + 1;
    }
    assert(ss@.subrange(0, k as int) =~= ss@);
    r
}

fn join_items(items: &Vec<String>) -> (s: String)
    ensures
        s@ == joined(strs(items@)),
{
    let mut s = String::new();
    let mut k: usize = 0;
    while k < items.len()
        invariant
            k <= items@.len(),
            s@ == joined(strs(items@.subrange(0, k as int))),
        decreases items@.len() - k,
    {
        let ghost pre = strs(items@.subrange(0, k as int));
        let ghost next = strs(items@.subrange(0, k + 1));
        assert(next.drop_last() =~= pre);
        if k > 0 {
            s.append(", ");
        } else {
            assert(s@ =~= Seq::<char>::empty());
        }
        s.append(items[k].as_str());
        k = k + 1;
        assert(s@ =~= joined(next));
    }
    assert(items@.subrange(0, k as int) =~= items@);
    s
}

impl Ieee {
    /// The author clause, then the session of legislation, then the
    /// location of a video or the date of legislation and of conference
    /// papers and patents online, then the title clause after ". " or ", ".
    pub open spec fn head_runs(&self, lib: &Library, e: int, c: int) -> Seq<(Seq<char>, bool, bool)> {
        let r = lib.rec(e);
        let cr = lib.rec(c);
        let url = r.url is Some;
        let v0 = push_plain(Seq::empty(), self.author_text(lib, e, c));
        let v1 = if cr.kind == EntryKind::Legislation {
            match r.edition {
                Some(NumOrStr::Str(session)) => push_plain(separated(v0, ". "@), session@),
                _ => v0,
            }
        } else {
            v0
        };
        let v2 = if cr.kind == EntryKind::Video {
            match cr.location {
                Some(l) => push_plain(separated(v1, ", "@), l@),
                None => v1,
            }
        } else if cr.kind == EntryKind::Legislation || ((cr.kind == EntryKind::Conference
            || cr.kind == EntryKind::Patent) && url) {
            match r.date {
                Some(d) => push_plain(separated(v1, ". "@), "("@ + date_text(d) + ")"@),
                None => v1,
            }
        } else {
            v1
        };
        let title = self.title_runs(lib, e, c);
        let v3 = if v2.len() > 0 && title.len() > 0 {
            push_plain(
                v2,
                if dot_before_title(cr, url) {
                    ". "@
                } else {
                    ", "@
                },
            )
        } else {
            v2
        };
        v3 + title
    }

    /// The IEEE reference for record `i`.
    pub open spec fn citation(&self, lib: &Library, i: int) -> Seq<(Seq<char>, bool, bool)> {
        let e = walk(lib, i).0;
        let nums = numbers(serials(lib, i));
        let c = match canonical_parent(lib, e) {
            Some(p) => p as int,
            None => e,
        };
        let v1 = self.head_runs(lib, e, c);
        let v2 = with_addons(v1, self.addons(lib, e, c, chapter_of(nums), section_of(nums)));
        let v3 = end_with_period(v2);
        note_suffix(url_suffix(v3, lib.rec(e), lib.rec(c)), lib.rec(e))
    }

    /// Whether the reference links to the record online.
    pub fn show_url(&self, r: &Record) -> (b: bool)
        ensures
            b == r.url is Some,
    {
        r.url.is_some()
    }

    /// Renders a date as "Mar. 3, 2020", "Mar. 2020" or "2020".
    pub fn formt_date(&self, d: &Date) -> (s: String)
        ensures
            s@ == date_text(*d),
    {
        format_date(d)
    }

    fn head(&self, lib: &Library, e: usize, c: usize) -> (res: RichText)
        requires
            lib.wf(),
            e < lib.records@.len(),
            c < lib.records@.len(),
        ensures
            res@ == self.head_runs(lib, e as int, c as int),
    {
        let r = &lib.records[e];
        let cr = &lib.records[c];
        let url = self.show_url(r);
        let mut res = RichText::new();
        res.push(self.get_author(lib, e, c).as_str());
        if cr.kind == EntryKind::Legislation {
            match &r.edition {
                Some(NumOrStr::Str(session)) => {
                    if !res.is_empty() {
                        res.push(". ");
                    }
                    res.push(session.as_str());
                },
                _ => {},
            }
        }
        if cr.kind == EntryKind::Video {
            match &cr.location {
                Some(l) => {
                    if !res.is_empty() {
                        res.push(", ");
                    }
                    res.push(l.as_str());
                },
                None => {},
            }
        } else if cr.kind == EntryKind::Legislation || ((cr.kind == EntryKind::Conference
            || cr.kind == EntryKind::Patent) && url) {
            match r.date {
                Some(d) => {
                    if !res.is_empty() {
                        res.push(". ");
                    }
                    res.push(cat3("(", self.formt_date(&d).as_str(), ")").as_str());
                },
                None => {},
            }
        }
        let title = self.get_title_element(lib, e, c);
        if !res.is_empty() && !title.is_empty() {
            if cr.kind == EntryKind::Legislation || cr.kind == EntryKind::Video || ((cr.kind
                == EntryKind::Conference || cr.kind == EntryKind::Patent) && url) {
                res.push(". ");
            } else {
                res.push(", ");
            }
        }
        res.append(title);
        res
    }

    /// Formats record `i` as an IEEE reference-list entry.
    pub fn format(&self, lib: &Library, i: usize) -> (res: RichText)
        requires
            lib.wf(),
            i < lib.records@.len(),
        ensures
            res@ == self.citation(lib, i as int),
    {
        let (e, mut stack) = walk_up(lib, i);
        proof {
            lemma_walk_below(lib, i as int);
        }
        let er = &lib.records[e];
        if er.kind == EntryKind::Chapter {
            match &er.serial_number {
                Some(sn) => {
                    let ghost before = strs(stack@);
                    stack.push(sn.clone());
                    assert(strs(stack@) =~= before.push(sn@));
                },
                None => {},
            }
        }
        let nums = parse_numbers(&stack);
        let chapter = if nums.len() > 0 {
            Some(nums[0])
        } else {
            None
        };
        let section = if nums.len() > 1 {
            Some(nums[nums.len() - 1])
        } else {
            None
        };
        let c = match get_canonical_parent(lib, e) {
            Some(p) => p,
            None => e,
        };
        let addons = self.get_addons(lib, e, c, chapter, section);
        let head = self.head(lib, e, c);
        let joined = attach_addons(head, &addons);
        let ended = finish_with_period(joined);
        let linked = add_url(ended, &lib.records[e], &lib.records[c]);
        add_note(linked, &lib.records[e])
    }
}

fn attach_addons(v: RichText, addons: &Vec<String>) -> (res: RichText)
    ensures
        res@ == with_addons(v@, strs(addons@)),
{
    let mut res = v;
    if res.ends_with(",”") && res.last_len() > 2 {
        res.trim_end(2);
        res.push("”");
        if addons.len() > 0 {
            res.push(" ");
        }
    } else if !res.is_empty() && addons.len() > 0 {
        res.push(", ");
    }
    res.push(join_items(addons).as_str());
    res
}

fn finish_with_period(v: RichText) -> (res: RichText)
    ensures
        res@ == end_with_period(v@),
{
    proof {
        reveal_strlit("”");
        reveal_strlit(",");
        reveal_strlit(".");
    }
    let mut res = v;
    if res.ends_with("”") {
        res.trim_end(1);
        if res.ends_with(",") || res.ends_with(".") {
            res.trim_end(1);
        }
        res.push(".”");
    } else {
        if res.ends_with(",") || res.ends_with(".") {
            res.trim_end(1);
        }
        res.push(".");
    }
    res
}

fn add_url(v: RichText, r: &Record, cr: &Record) -> (res: RichText)
    ensures
        res@ == url_suffix(v@, *r, *cr),
{
    let mut res = v;
    match &r.url {
        Some(u) => {
            if !res.is_empty() {
                res.push(" ");
            }
            if cr.kind != EntryKind::Web && cr.kind != EntryKind::Blog {
                match u.visit_date {
                    Some(d) => res.push(
                        cat3("Accessed: ", format_date(&d).as_str(), ". ").as_str(),
                    ),
                    None => {},
                }
                if cr.kind == EntryKind::Video {
                    res.push("[Online Video]");
                } else {
                    res.push("[Online]");
                }
                res.push(". Available: ");
                res.push_no_hyphenation(u.value.as_str());
            } else {
                res.push_no_hyphenation(u.value.as_str());
                match u.visit_date {
                    Some(d) => res.push(
                        cat3(" (accessed: ", format_date(&d).as_str(), ").").as_str(),
                    ),
                    None => {},
                }
            }
        },
        None => {},
    }
    res
}

fn add_note(v: RichText, r: &Record) -> (res: RichText)
    ensures
        res@ == note_suffix(v@, *r),
{
    let mut res = v;
    match &r.note {
        Some(n) => {
            if !res.is_empty() {
                res.push(" ");
            }
            res.push(cat3("(", n.as_str(), ")").as_str());
        },
        None => {},
    }
    res
}

} // verus!
