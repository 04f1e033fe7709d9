//! Rich text: a sequence of text runs, each marked italic and/or
//! not to be hyphenated.
use vstd::prelude::*;
use crate::text::{ends_with, str_ends_with};

verus! {

/// One run of text and its formatting.
#[derive(Clone, Debug)]
pub struct Run {
    pub text: String,
    pub italic: bool,
    pub no_hyphenation: bool,
}

/// Formatted text, run by run.
#[derive(Clone, Debug)]
pub struct RichText {
    pub runs: Vec<Run>,
}

/// The model of a run: its characters, whether it is italic, and whether it
/// must not be hyphenated.
pub open spec fn run_view(r: Run) -> (Seq<char>, bool, bool) {
    (r.text@, r.italic, r.no_hyphenation)
}

impl View for RichText {
    type V = Seq<(Seq<char>, bool, bool)>;

    open spec fn view(&self) -> Seq<(Seq<char>, bool, bool)> {
        self.runs@.map_values(|r: Run| run_view(r))
    }
}

/// `v` with a run of `s` added at its end, unless `s` is empty.
pub open spec fn push_run(v: Seq<(Seq<char>, bool, bool)>, s: Seq<char>, italic: bool, no_hyphenation: bool) -> Seq<(Seq<char>, bool, bool)> {
    if s.len() == 0 {
        v
    } else {
        v.push((s, italic, no_hyphenation))
    }
}

/// `v` with a plain run of `s` added at its end, unless `s` is empty.
pub open spec fn push_plain(v: Seq<(Seq<char>, bool, bool)>, s: Seq<char>) -> Seq<(Seq<char>, bool, bool)> {
    push_run(v, s, false, false)
}

/// The text of all runs, in order, without formatting.
pub open spec fn plain_text(v: Seq<(Seq<char>, bool, bool)>) -> Seq<char>
    decreases v.len(),
{
    if v.len() == 0 {
        Seq::empty()
    } else {
        plain_text(v.drop_last()) + v.last().0
    }
}

/// Whether the last run's text ends with `suffix`.
pub open spec fn last_ends_with(v: Seq<(Seq<char>, bool, bool)>, suffix: Seq<char>) -> bool {
    v.len() > 0 && ends_with(v.last().0, suffix)
}

/// `v` with `n` characters removed from the end of its last run, and that run
/// dropped if nothing of it is left.
pub open spec fn trim_last(v: Seq<(Seq<char>, bool, bool)>, n: nat) -> Seq<(Seq<char>, bool, bool)> {
    let last = v.last();
    let t = last.0.subrange(0, last.0.len() - n);
    if t.len() == 0 {
        v.drop_last()
    } else {
        v.update(v.len() - 1, (t, last.1, last.2))
    }
}

impl RichText {
    /// Empty rich text.
    pub fn new() -> (r: RichText)
        ensures
            r@ == Seq::<(Seq<char>, bool, bool)>::empty(),
    {
        let r = RichText { runs: Vec::new() };
        assert(r@ =~= Seq::<(Seq<char>, bool, bool)>::empty());
        r
    }

    /// Adds a run of `s` with the given formatting, unless `s` is empty.
    pub fn push_formatted(&mut self, s: &str, italic: bool, no_hyphenation: bool)
        ensures
            final(self)@ == push_run(old(self)@, s@, italic, no_hyphenation),
    {
        if s.unicode_len() > 0 {
            self.runs.push(Run { text: String::from_str(s), italic, no_hyphenation });
            assert(self@ =~= old(self)@.push((s@, italic, no_hyphenation)));
        }
    }

    /// Adds a plain run of `s`, unless `s` is empty.
    pub fn push(&mut self, s: &str)
        ensures
            final(self)@ == push_plain(old(self)@, s@),
    {
        self.push_formatted(s, false, false);
    }

    /// Adds an italic run of `s`, unless `s` is empty.
    pub fn push_italic(&mut self, s: &str)
        ensures
            final(self)@ == push_run(old(self)@, s@, true, false),
    {
        self.push_formatted(s, true, false);
    }

    /// Adds a run of `s` that must not be hyphenated, unless `s` is empty.
    pub fn push_no_hyphenation(&mut self, s: &str)
        ensures
            final(self)@ == push_run(old(self)@, s@, false, true),
    {
        self.push_formatted(s, false, true);
    }

    /// Adds the runs of `other` after those of `self`.
    pub fn append(&mut self, other: RichText)
        ensures
            final(self)@ == old(self)@ + other@,
    {
        let ghost added = other@;
        let mut other = other;
        self.runs.append(&mut other.runs);
        assert(self@ =~= old(self)@ + added);
    }

    /// Whether there are no runs.
    pub fn is_empty(&self) -> (r: bool)
        ensures
            r == (self@.len() == 0),
    {
        self.runs.len() == 0
    }

    /// Tests whether the last run's text ends with `suffix`.
    pub fn ends_with(&self, suffix: &str) -> (r: bool)
        ensures
            r == last_ends_with(self@, suffix@),
    {
        let n = self.runs.len();
        if n == 0 {
            false
        } else {
            str_ends_with(self.runs[n - 1].text.as_str(), suffix)
        }
    }

    /// The number of characters in the last run.
    pub fn last_len(&self) -> (r: usize)
        requires
            self@.len() > 0,
        ensures
            r == self@.last().0.len(),
    {
        self.runs[self.runs.len() - 1].text.as_str().unicode_len()
    }

    /// Removes `n` characters from the end of the last run, and the run
    /// itself if nothing of it is left.
    pub fn trim_end(&mut self, n: usize)
        requires
            old(self)@.len() > 0,
            n <= old(self)@.last().0.len(),
        ensures
            final(self)@ == trim_last(old(self)@, n as nat),
    {
        let mut last = self.runs.pop().unwrap();
        assert(run_view(last) == old(self)@.last());
        let len = last.text.as_str().unicode_len();
        if len - n == 0 {
            assert(self@ =~= old(self)@.drop_last());
        } else {
            let kept = String::from_str(last.text.as_str().substring_char(0, len - n));
            last.text = kept;
            self.runs.push(last);
            assert(self@ =~= trim_last(old(self)@, n as nat));
        }
    }

    /// The text of all runs without formatting.
    pub fn text(&self) -> (r: String)
        ensures
            r@ == plain_text(self@),
    {
        let mut s = String::new();
        let mut i: usize = 0;
        while i < self.runs.len()
            invariant
                i <= self.runs@.len(),
                s@ == plain_text(self@.subrange(0, i as int)),
            decreases self.runs@.len() - i,
        {
            s.append(self.runs[i].text.as_str());
            i = i + 1;
            assert(self@.subrange(0, i as int).drop_last() =~= self@.subrange(0, i - 1));
        }
        assert(self@.subrange(0, i as int) =~= self@);
        s
    }
}

} // verus!
