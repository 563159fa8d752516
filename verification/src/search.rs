//! Search for a pattern in a line.
//!
//! A searcher holds a pattern and reports where it matches in a line, as byte
//! offsets. There are three: one that never matches, one that looks for the
//! pattern as it is written, and one that takes it as a regular expression.
//! What any of them does is a function of its [`Engine`].

use vstd::prelude::*;
use crate::text::{
    byte_len, byte_pos, lemma_byte_pos_bound, lemma_byte_pos_increasing, lemma_byte_pos_step,
    str_byte_len, to_chars, utf8_len,
};

verus! {

/// A compiled regular expression of the `regex` crate.
#[verifier::external_type_specification]
#[verifier::external_body]
pub struct ExRegex(regex::Regex);

/// The error of the `regex` crate.
#[verifier::external_type_specification]
#[verifier::external_body]
pub struct ExRegexError(regex::Error);

/// What `regex::Regex::new` returns for the pattern `pat`.
pub uninterp spec fn regex_compile(pat: Seq<char>) -> Result<regex::Regex, regex::Error>;

/// What `regex::Regex::as_str` returns for `re`: the pattern that it was
/// compiled from.
pub uninterp spec fn regex_source(re: regex::Regex) -> Seq<char>;

/// What `regex::Regex::find` returns for `re` in `text`: the byte offsets of
/// the two ends of the first match.
pub uninterp spec fn regex_first(re: regex::Regex, text: Seq<char>) -> Option<(usize, usize)>;

/// What `regex::Regex::find_iter` yields for `re` in `text`: the byte offsets
/// of the two ends of each match, in the order in which they come.
pub uninterp spec fn regex_all(re: regex::Regex, text: Seq<char>) -> Seq<(usize, usize)>;

/// Calls `regex::Regex::new`. The result is a function of the pattern alone
/// and goes by the name [`regex_compile`]; a regular expression that was
/// compiled gives back its pattern as its source.
#[verifier::external_body]
fn regex_new(pat: &str) -> (r: Result<regex::Regex, regex::Error>)
    ensures
        r == regex_compile(pat@),
        r matches Ok(re) ==> regex_source(re) == pat@,
{
    regex::Regex::new(pat)
}

/// Calls `regex::Regex::as_str`, which gives the pattern that `re` was
/// compiled from.
#[verifier::external_body]
fn regex_as_str(re: &regex::Regex) -> (r: &str)
    ensures
        r@ == regex_source(*re),
{
    re.as_str()
}

/// Whether the matches with the two ends `ends` lie in a line of `len`
/// bytes, one behind the other: each starts where it ends or in front of it,
/// none overlaps the one in front of it, and none ends behind the line.
pub open spec fn ends_in_order(ends: Seq<(usize, usize)>, len: nat) -> bool {
    &&& forall|i: int| 0 <= i < ends.len() ==> (#[trigger] ends[i]).0 <= ends[i].1 <= len
    &&& forall|i: int, j: int|
        0 <= i < j < ends.len() ==> (#[trigger] ends[i]).1 <= (#[trigger] ends[j]).0
}

/// Calls `regex::Regex::find` and takes the two ends of the match. The result
/// is a function of `re` and `text` alone and goes by the name
/// [`regex_first`]. A match starts where it ends or in front of it, and it
/// lies in the text.
#[verifier::external_body]
fn regex_find(re: &regex::Regex, text: &str) -> (r: Option<(usize, usize)>)
    ensures
        r == regex_first(*re, text@),
        r matches Some(ends) ==> ends.0 <= ends.1 <= byte_len(text@),
{
    re.find(text).map(|m| (m.start(), m.end()))
}

/// Calls `regex::Regex::find_iter` and takes the two ends of each match. The
/// result is a function of `re` and `text` alone and goes by the name
/// [`regex_all`]. The matches come one behind the other, none overlaps
/// another, and all lie in the text.
#[verifier::external_body]
fn regex_find_iter(re: &regex::Regex, text: &str) -> (r: Vec<(usize, usize)>)
    ensures
        r@ == regex_all(*re, text@),
        ends_in_order(r@, byte_len(text@)),
{
    re.find_iter(text).map(|m| (m.start(), m.end())).collect()
}

/// A match: the byte offsets of its start and of its end in the line.
#[derive(Clone, Debug, PartialEq)]
pub struct Match {
    pub start: usize,
    pub end: usize,
}

impl Match {
    /// The byte offset at which the match starts.
    #[inline]
    pub fn start(&self) -> (r: usize)
        ensures
            r == self.start,
    {
        self.start
    }

    /// The byte offset at which the match ends.
    #[inline]
    pub fn end(&self) -> (r: usize)
        ensures
            r == self.end,
    {
        self.end
    }

    /// The match from `start` to `end`.
    pub fn new(start: usize, end: usize) -> (m: Match)
        ensures
            m == (Match { start, end }),
    {
        Match { start, end }
    }
}

/// The match with the two ends `ends`.
pub open spec fn match_of(ends: (usize, usize)) -> Match {
    Match { start: ends.0, end: ends.1 }
}

/// Whether `pat` stands in `text` at the character index `k`.
pub open spec fn occurs_at(text: Seq<char>, pat: Seq<char>, k: int) -> bool {
    &&& 0 <= k
    &&& k + pat.len() <= text.len()
    &&& text.subrange(k, k + pat.len()) == pat
}

/// The match of `pat` in `text` at the character index `k`.
pub open spec fn plain_match(text: Seq<char>, pat: Seq<char>, k: int) -> Match {
    Match {
        start: byte_pos(text, k) as usize,
        end: (byte_pos(text, k) + byte_len(pat)) as usize,
    }
}

/// The first character index from `from` on at which `pat` stands in `text`.
pub open spec fn first_occurrence(text: Seq<char>, pat: Seq<char>, from: int) -> Option<int>
    decreases text.len() + 1 - from,
{
    if from < 0 || from + pat.len() > text.len() {
        None
    } else if occurs_at(text, pat, from) {
        Some(from)
    } else {
        first_occurrence(text, pat, from + 1)
    }
}

/// The first match of `pat` in `text`.
pub open spec fn plain_first(text: Seq<char>, pat: Seq<char>) -> Option<Match> {
    match first_occurrence(text, pat, 0) {
        Some(k) => Some(plain_match(text, pat, k)),
        None => None,
    }
}

/// The matches of `pat` in `text` from the character index `from` on, from
/// left to right, none overlapping another: after a match the search goes on
/// behind it. The empty pattern matches in front of every character and at
/// the end of the line.
pub open spec fn plain_all(text: Seq<char>, pat: Seq<char>, from: int) -> Seq<Match>
    decreases text.len() + 1 - from,
{
    if from < 0 || from + pat.len() > text.len() {
        seq![]
    } else if occurs_at(text, pat, from) {
        seq![plain_match(text, pat, from)] + plain_all(
            text,
            pat,
            if pat.len() == 0 {
                from + 1
            } else {
                from + pat.len()
            },
        )
    } else {
        plain_all(text, pat, from + 1)
    }
}

/// Whether the matches `matches` lie in a line of `len` bytes, one behind
/// the other: each starts where it ends or in front of it, none overlaps
/// the one in front of it, and none ends behind the line.
pub open spec fn in_order(matches: Seq<Match>, len: nat) -> bool {
    &&& forall|i: int| 0 <= i < matches.len() ==> (#[trigger] matches[i]).start <= matches[i].end <= len
    &&& forall|i: int, j: int|
        0 <= i < j < matches.len() ==> (#[trigger] matches[i]).end <= (#[trigger] matches[j]).start
}

/// The matches of a pattern as it is written come one behind the other, from
/// the place where the search starts on.
pub proof fn lemma_plain_all_in_order(text: Seq<char>, pat: Seq<char>, from: int)
    requires
        0 <= from,
        byte_len(text) <= usize::MAX,
    ensures
        in_order(plain_all(text, pat, from), byte_len(text)),
        forall|i: int|
            0 <= i < plain_all(text, pat, from).len() ==> byte_pos(text, from) <= (
            #[trigger] plain_all(text, pat, from)[i]).start,
    decreases text.len() + 1 - from,
{
    if from + pat.len() <= text.len() {
        let next = if occurs_at(text, pat, from) {
            if pat.len() == 0 {
                from + 1
            } else {
                from + pat.len()
            }
        } else {
            from + 1
        };
        lemma_plain_all_in_order(text, pat, next);
        let rest = plain_all(text, pat, next);
        if next <= text.len() {
            lemma_byte_pos_increasing(text, from, next);
        } else {
            assert(rest.len() == 0);
        }
        if occurs_at(text, pat, from) {
            lemma_match_end(text, pat, from);
            lemma_byte_pos_bound(text, from);
            let m = plain_match(text, pat, from);
            let all = plain_all(text, pat, from);
            assert(all =~= seq![m] + rest);
            if pat.len() > 0 {
                assert(m.end == byte_pos(text, next));
            } else {
                assert(m.end == m.start);
            }
            assert forall|i: int| 0 <= i < all.len() implies (#[trigger] all[i]).start <= all[i].end
                <= byte_len(text) by {
                if i > 0 {
                    assert(all[i] == rest[i - 1]);
                }
            }
            assert forall|i: int, j: int| 0 <= i < j < all.len() implies (#[trigger] all[i]).end <= (
            #[trigger] all[j]).start by {
                assert(all[j] == rest[j - 1]);
                if i > 0 {
                    assert(all[i] == rest[i - 1]);
                }
            }
            assert forall|i: int| 0 <= i < all.len() implies byte_pos(text, from) <= (
            #[trigger] all[i]).start by {
                if i > 0 {
                    assert(all[i] == rest[i - 1]);
                }
            }
        }
    }
}

/// The first match of a pattern as it is written is the first of all its
/// matches, and there is none where there are no matches.
pub proof fn lemma_plain_first_is_head(text: Seq<char>, pat: Seq<char>, from: int)
    requires
        0 <= from,
    ensures
        match first_occurrence(text, pat, from) {
            Some(k) => plain_all(text, pat, from).len() > 0 && plain_all(text, pat, from)[0]
                == plain_match(text, pat, k),
            None => plain_all(text, pat, from).len() == 0,
        },
    decreases text.len() + 1 - from,
{
    if from + pat.len() <= text.len() && !occurs_at(text, pat, from) {
        lemma_plain_first_is_head(text, pat, from + 1);
    }
}

/// The first occurrence is an occurrence, and there is none in front of it.
pub proof fn lemma_first_occurrence(text: Seq<char>, pat: Seq<char>, from: int)
    requires
        0 <= from,
    ensures
        match first_occurrence(text, pat, from) {
            Some(k) => from <= k && occurs_at(text, pat, k) && forall|j: int|
                from <= j < k ==> !occurs_at(text, pat, j),
            None => forall|j: int| from <= j ==> !occurs_at(text, pat, j),
        },
    decreases text.len() + 1 - from,
{
    if from + pat.len() <= text.len() && !occurs_at(text, pat, from) {
        lemma_first_occurrence(text, pat, from + 1);
    }
}

/// A match ends where the pattern ends in the line: inside the line.
pub proof fn lemma_match_end(text: Seq<char>, pat: Seq<char>, k: int)
    requires
        occurs_at(text, pat, k),
    ensures
        byte_pos(text, k) + byte_len(pat) == byte_pos(text, k + pat.len()),
        byte_pos(text, k + pat.len()) <= byte_len(text),
{
    lemma_byte_pos_increasing(text, k, k + pat.len());
    lemma_byte_pos_bound(text, k + pat.len());
}

/// What a searcher is, as far as its answers go: its kind and its pattern.
pub enum Engine {
    /// Holds no pattern and never matches.
    Null,
    /// Looks for the pattern as it is written.
    Plain(Seq<char>),
    /// Matches the regular expression that it holds.
    Regex(regex::Regex),
}

impl Engine {
    /// The pattern.
    pub open spec fn pattern(self) -> Seq<char> {
        match self {
            Engine::Null => seq![],
            Engine::Plain(pat) => pat,
            Engine::Regex(re) => regex_source(re),
        }
    }

    /// The first match in `text`.
    pub open spec fn first(self, text: Seq<char>) -> Option<Match> {
        match self {
            Engine::Null => None,
            Engine::Plain(pat) => plain_first(text, pat),
            Engine::Regex(re) => match regex_first(re, text) {
                Some(ends) => Some(match_of(ends)),
                None => None,
            },
        }
    }

    /// All matches in `text`, in order.
    pub open spec fn all(self, text: Seq<char>) -> Seq<Match> {
        match self {
            Engine::Null => seq![],
            Engine::Plain(pat) => plain_all(text, pat, 0),
            Engine::Regex(re) => regex_all(re, text).map_values(|ends: (usize, usize)| match_of(ends)),
        }
    }

    /// Whether `pat` is a pattern that this kind of searcher takes. Only a
    /// regular expression can be refused: when it does not compile.
    pub open spec fn accepts(self, pat: Seq<char>) -> bool {
        match self {
            Engine::Regex(_) => regex_compile(pat) is Ok,
            _ => true,
        }
    }

    /// The searcher after `pat` was set: unchanged where `pat` is refused.
    pub open spec fn with_pattern(self, pat: Seq<char>) -> Engine {
        match self {
            Engine::Null => Engine::Null,
            Engine::Plain(_) => Engine::Plain(pat),
            Engine::Regex(_) => match regex_compile(pat) {
                Ok(re) => Engine::Regex(re),
                Err(_) => self,
            },
        }
    }
}

/// Why a pattern was refused.
#[derive(Copy, Clone, Debug, PartialEq, Eq)]
pub enum SearchError {
    /// The pattern is not one that the searcher can take.
    InvalidPattern,
}

/// The matches in a line, handed out one by one.
#[derive(Debug)]
pub struct MatchIter {
    matches: Vec<Match>,
    index: usize,
}

impl MatchIter {
    #[verifier::type_invariant]
    spec fn inv(&self) -> bool {
        self.index <= self.matches.len()
    }

    /// The matches that were not handed out yet.
    pub closed spec fn remaining(&self) -> Seq<Match> {
        self.matches@.skip(self.index as int)
    }

    /// An iterator over `matches`.
    pub fn new(matches: Vec<Match>) -> (it: MatchIter)
        ensures
            it.remaining() == matches@,
    {
        assert(matches@.skip(0) =~= matches@);
        MatchIter { matches, index: 0 }
    }

    /// Hands out the next match, if one is left.
    pub fn next(&mut self) -> (r: Option<Match>)
        ensures
            old(self).remaining().len() == 0 ==> r is None,
            old(self).remaining().len() == 0 ==> final(self).remaining() == old(self).remaining(),
            old(self).remaining().len() > 0 ==> r == Some(old(self).remaining()[0]),
            old(self).remaining().len() > 0 ==> final(self).remaining() == old(self).remaining().drop_first(),
    {
        proof {
            use_type_invariant(&*self);
        }
        if self.index >= self.matches.len() {
            return None;
        }
        let m = Match::new(self.matches[self.index].start, self.matches[self.index].end);
        assert(old(self).remaining().drop_first() =~= self.matches@.skip(self.index + 1));
        self.index = self.index + 1;
        Some(m)
    }
}

/// A searcher: it holds a pattern and finds its matches in a line.
pub trait Search {
    /// What the searcher is.
    spec fn engine(&self) -> Engine;

    /// The pattern.
    fn as_str(&self) -> (r: &str)
        ensures
            r@ == self.engine().pattern(),
    ;

    /// The first match in `text`: it lies in the text.
    fn find(&self, text: &str) -> (r: Option<Match>)
        ensures
            r == self.engine().first(text@),
            r matches Some(m) ==> m.start <= m.end <= byte_len(text@),
    ;

    /// All matches in `text`: they come one behind the other, none overlaps
    /// another, and all lie in the text.
    fn find_iter(&self, text: &str) -> (r: MatchIter)
        ensures
            r.remaining() == self.engine().all(text@),
            in_order(r.remaining(), byte_len(text@)),
    ;

    /// Sets the pattern. A pattern that the searcher cannot take is refused,
    /// and the searcher stays as it was.
    fn set_pattern(&mut self, pat: &str) -> (r: Result<(), SearchError>)
        ensures
            final(self).engine() == old(self).engine().with_pattern(pat@),
            old(self).engine().accepts(pat@) ==> r is Ok,
            !old(self).engine().accepts(pat@) ==> r == Err::<(), SearchError>(
                SearchError::InvalidPattern,
            ),
    ;
}

/// The searcher that never matches.
pub struct NullSearcher;

impl Default for NullSearcher {
    fn default() -> (s: Self)
        ensures
            s.engine() == Engine::Null,
    {
        Self::new()
    }
}

impl NullSearcher {
    pub fn new() -> (s: Self)
        ensures
            s.engine() == Engine::Null,
    {
        NullSearcher {  }
    }
}

impl Search for NullSearcher {
    open spec fn engine(&self) -> Engine {
        Engine::Null
    }

    fn as_str(&self) -> (r: &str) {
        let r = "";
        proof {
            reveal_strlit("");
        }
        assert(r@ =~= Seq::<char>::empty());
        r
    }

    fn find(&self, _text: &str) -> (r: Option<Match>) {
        None
    }

    fn find_iter(&self, _text: &str) -> (r: MatchIter) {
        MatchIter::new(Vec::new())
    }

    fn set_pattern(&mut self, _pat: &str) -> (r: Result<(), SearchError>) {
        Ok(())
    }
}

/// Whether `pat` stands in `text` at the character index `k`.
fn matches_at(text: &Vec<char>, pat: &Vec<char>, k: usize) -> (r: bool)
    requires
        k + pat.len() <= text.len(),
    ensures
        r == occurs_at(text@, pat@, k as int),
{
    let mut j: usize = 0;
    while j < pat.len()
        invariant
            j <= pat.len(),
            k + pat.len() <= text.len(),
            text@.subrange(k as int, k + j) == pat@.take(j as int),
        decreases pat.len() - j,
    {
        if text[k + j] != pat[j] {
            assert(text@.subrange(k as int, k + pat.len())[j as int] != pat@[j as int]);
            return false;
        }
        assert(text@.subrange(k as int, k + j + 1) =~= text@.subrange(k as int, k + j).push(
            text@[k + j],
        ));
        assert(pat@.take(j + 1) =~= pat@.take(j as int).push(pat@[j as int]));
        j = j + 1;
    }
    assert(pat@.take(pat.len() as int) =~= pat@);
    true
}

/// The searcher that looks for its pattern as it is written.
#[derive(Clone)]
pub struct PlaneSearcher {
    pat: String,
}

impl Default for PlaneSearcher {
    fn default() -> (s: Self)
        ensures
            s.engine() == Engine::Plain(Seq::<char>::empty()),
    {
        Self::new()
    }
}

impl PlaneSearcher {
    pub fn new() -> (s: Self)
        ensures
            s.engine() == Engine::Plain(Seq::<char>::empty()),
    {
        Self { pat: String::new() }
    }
}

impl Search for PlaneSearcher {
    closed spec fn engine(&self) -> Engine {
        Engine::Plain(self.pat@)
    }

    fn as_str(&self) -> (r: &str) {
        self.pat.as_str()
    }

    fn find(&self, text: &str) -> (r: Option<Match>) {
        let t = to_chars(text);
        let p = to_chars(self.pat.as_str());
        let total = str_byte_len(text);
        let plen = str_byte_len(self.pat.as_str());
        if p.len() > t.len() {
            return None;
        }
        let limit = t.len() - p.len();
        let mut k: usize = 0;
        let mut pos: usize = 0;
        proof {
            lemma_byte_pos_bound(t@, 0);
        }
        loop
            invariant
                t@ == text@,
                p@ == self.pat@,
                k <= limit,
                limit == t.len() - p.len(),
                p.len() <= t.len(),
                pos == byte_pos(t@, k as int),
                total == byte_len(t@),
                plen == byte_len(p@),
                first_occurrence(t@, p@, k as int) == first_occurrence(t@, p@, 0),
            decreases limit - k,
        {
            if matches_at(&t, &p, k) {
                proof {
                    lemma_match_end(t@, p@, k as int);
                }
                let m = Match::new(pos, pos + plen);
                assert(first_occurrence(t@, p@, k as int) == Some(k as int));
                assert(m == plain_match(t@, p@, k as int));
                return Some(m);
            }
            if k == limit {
                assert(first_occurrence(t@, p@, k + 1) is None);
                return None;
            }
            proof {
                lemma_byte_pos_step(t@, k as int);
            }
            pos = pos + utf8_len(t[k]);
            k = k + 1;
        }
    }

    fn find_iter(&self, text: &str) -> (r: MatchIter) {
        let t = to_chars(text);
        let p = to_chars(self.pat.as_str());
        let total = str_byte_len(text);
        let plen = str_byte_len(self.pat.as_str());
        let mut found: Vec<Match> = Vec::new();
        if p.len() > t.len() {
            return MatchIter::new(found);
        }
        proof {
            lemma_plain_all_in_order(t@, p@, 0);
        }
        let limit = t.len() - p.len();
        let mut k: usize = 0;
        let mut pos: usize = 0;
        let mut done = false;
        proof {
            lemma_byte_pos_bound(t@, 0);
        }
        while !done && k <= limit
            invariant
                k <= t.len(),
                limit == t.len() - p.len(),
                p.len() <= t.len(),
                pos == byte_pos(t@, k as int),
                total == byte_len(t@),
                plen == byte_len(p@),
                !done ==> found@ + plain_all(t@, p@, k as int) == plain_all(t@, p@, 0),
                done ==> found@ == plain_all(t@, p@, 0),
            decreases (if done { 0int } else { 1int }), t.len() - k,
        {
            let ghost before = found@;
            if matches_at(&t, &p, k) {
                proof {
                    lemma_match_end(t@, p@, k as int);
                }
                found.push(Match::new(pos, pos + plen));
                if p.len() == 0 {
                    proof {
                        assert(before + (seq![plain_match(t@, p@, k as int)] + plain_all(
                            t@,
                            p@,
                            k + 1,
                        )) =~= found@ + plain_all(t@, p@, k + 1));
                    }
                    if k < t.len() {
                        proof {
                            lemma_byte_pos_step(t@, k as int);
                        }
                        pos = pos + utf8_len(t[k]);
                        k = k + 1;
                    } else {
                        assert(plain_all(t@, p@, k + 1) =~= Seq::<Match>::empty());
                        assert(found@ + Seq::<Match>::empty() =~= found@);
                        done = true;
                    }
                } else {
                    proof {
                        assert(before + (seq![plain_match(t@, p@, k as int)] + plain_all(
                            t@,
                            p@,
                            k + p.len(),
                        )) =~= found@ + plain_all(t@, p@, k + p.len()));
                    }
                    pos = pos + plen;
                    k = k + p.len();
                }
            } else {
                if k < t.len() {
                    proof {
                        lemma_byte_pos_step(t@, k as int);
                    }
                    pos = pos + utf8_len(t[k]);
                    k = k + 1;
                } else {
                    assert(plain_all(t@, p@, k + 1) =~= Seq::<Match>::empty());
                    assert(found@ + Seq::<Match>::empty() =~= found@);
                    done = true;
                }
            }
        }
        proof {
            if !done {
                assert(plain_all(t@, p@, k as int) =~= Seq::<Match>::empty());
            }
            assert(found@ + Seq::<Match>::empty() =~= found@);
            lemma_plain_all_in_order(t@, p@, 0);
        }
        MatchIter::new(found)
    }

    fn set_pattern(&mut self, pat: &str) -> (r: Result<(), SearchError>) {
        self.pat = pat.to_owned();
        Ok(())
    }
}

/// The searcher that takes its pattern as a regular expression.
pub struct RegexSearcher {
    pat: regex::Regex,
}

impl RegexSearcher {
    /// The searcher for the regular expression `pat`, which has to be one
    /// that compiles.
    pub fn new(pat: &str) -> (s: Self)
        requires
            regex_compile(pat@) is Ok,
        ensures
            s.engine() == Engine::Regex(regex_compile(pat@)->Ok_0),
            s.engine().pattern() == pat@,
    {
        match regex_new(pat) {
            Ok(re) => Self { pat: re },
            Err(_) => {
                assert(false);
                vstd::pervasive::unreached()
            },
        }
    }

    /// The searcher for the regular expression `pat`, or `None` where `pat`
    /// does not compile.
    pub fn try_new(pat: &str) -> (r: Option<Self>)
        ensures
            match r {
                Some(s) => regex_compile(pat@) is Ok && s.engine() == Engine::Regex(
                    regex_compile(pat@)->Ok_0,
                ) && s.engine().pattern() == pat@,
                None => regex_compile(pat@) is Err,
            },
    {
        match regex_new(pat) {
            Ok(_) => Some(Self::new(pat)),
            Err(_) => None,
        }
    }
}

impl Search for RegexSearcher {
    closed spec fn engine(&self) -> Engine {
        Engine::Regex(self.pat)
    }

    fn as_str(&self) -> (r: &str) {
        regex_as_str(&self.pat)
    }

    fn find(&self, text: &str) -> (r: Option<Match>) {
        match regex_find(&self.pat, text) {
            Some(ends) => Some(Match::new(ends.0, ends.1)),
            None => None,
        }
    }

    fn find_iter(&self, text: &str) -> (r: MatchIter) {
        let ends = regex_find_iter(&self.pat, text);
        let mut found: Vec<Match> = Vec::new();
        let mut i: usize = 0;
        while i < ends.len()
            invariant
                i <= ends.len(),
                found@ == ends@.take(i as int).map_values(|e: (usize, usize)| match_of(e)),
            decreases ends.len() - i,
        {
            found.push(Match::new(ends[i].0, ends[i].1));
            i = i + 1;
            assert(found@ =~= ends@.take(i as int).map_values(|e: (usize, usize)| match_of(e)));
        }
        assert(ends@.take(ends.len() as int) =~= ends@);
        assert(in_order(found@, byte_len(text@))) by {
            assert forall|i: int| 0 <= i < found@.len() implies (#[trigger] found@[i]).start
                <= found@[i].end <= byte_len(text@) by {
                assert(found@[i] == match_of(ends@[i]));
            }
            assert forall|i: int, j: int| 0 <= i < j < found@.len() implies (
            #[trigger] found@[i]).end <= (#[trigger] found@[j]).start by {
                assert(found@[i] == match_of(ends@[i]));
                assert(found@[j] == match_of(ends@[j]));
            }
        }
        MatchIter::new(found)
    }

    fn set_pattern(&mut self, pat: &str) -> (r: Result<(), SearchError>) {
        match regex_new(pat) {
            Ok(re) => {
                self.pat = re;
                Ok(())
            },
            Err(_) => Err(SearchError::InvalidPattern),
        }
    }
}

/// One of the three searchers.
pub enum Searcher {
    Null(NullSearcher),
    Plane(PlaneSearcher),
    Regex(RegexSearcher),
}

impl Search for Searcher {
    open spec fn engine(&self) -> Engine {
        match self {
            Searcher::Null(s) => s.engine(),
            Searcher::Plane(s) => s.engine(),
            Searcher::Regex(s) => s.engine(),
        }
    }

    fn as_str(&self) -> (r: &str) {
        match self {
            Searcher::Null(s) => s.as_str(),
            Searcher::Plane(s) => s.as_str(),
            Searcher::Regex(s) => s.as_str(),
        }
    }

    fn find(&self, text: &str) -> (r: Option<Match>) {
        match self {
            Searcher::Null(s) => s.find(text),
            Searcher::Plane(s) => s.find(text),
            Searcher::Regex(s) => s.find(text),
        }
    }

    fn find_iter(&self, text: &str) -> (r: MatchIter) {
        match self {
            Searcher::Null(s) => s.find_iter(text),
            Searcher::Plane(s) => s.find_iter(text),
            Searcher::Regex(s) => s.find_iter(text),
        }
    }

    fn set_pattern(&mut self, pat: &str) -> (r: Result<(), SearchError>) {
        match self {
            Searcher::Null(s) => s.set_pattern(pat),
            Searcher::Plane(s) => s.set_pattern(pat),
            Searcher::Regex(s) => s.set_pattern(pat),
        }
    }
}

} // verus!
