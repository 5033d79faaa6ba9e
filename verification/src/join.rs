//! The join watcher: finds the pending join request in what a control host
//! lists, and decides whether to approve, to poll again or to give up.
//!
//! Names are recognised by a regular expression of the `regex` crate. What
//! that crate answers is taken on trust; all that is done with its answers
//! is verified.

use vstd::prelude::*;
use vstd::string::*;
use regex::Regex;
use crate::text::{owned, str_eq, views};

verus! {

/// `c` is white space, as Unicode defines it.
pub open spec fn is_space(c: char) -> bool {
    ||| ('\u{9}' <= c && c <= '\u{d}')
    ||| c == ' '
    ||| c == '\u{85}'
    ||| c == '\u{a0}'
    ||| c == '\u{1680}'
    ||| ('\u{2000}' <= c && c <= '\u{200a}')
    ||| c == '\u{2028}'
    ||| c == '\u{2029}'
    ||| c == '\u{202f}'
    ||| c == '\u{205f}'
    ||| c == '\u{3000}'
}

/// Whether `c` is white space.
pub fn is_whitespace(c: char) -> (r: bool)
    ensures
        r == is_space(c),
{
    ('\u{9}' <= c && c <= '\u{d}') || c == ' ' || c == '\u{85}' || c == '\u{a0}' || c
        == '\u{1680}' || ('\u{2000}' <= c && c <= '\u{200a}') || c == '\u{2028}' || c
        == '\u{2029}' || c == '\u{202f}' || c == '\u{205f}' || c == '\u{3000}'
}

/// The length of the run of characters at the start of `s` that are not
/// white space.
pub open spec fn word_len(s: Seq<char>) -> int
    decreases s.len(),
{
    if s.len() == 0 || is_space(s[0]) {
        0
    } else {
        1 + word_len(s.drop_first())
    }
}

/// The words of `s`: its longest runs of characters that are not white
/// space, in order.
pub open spec fn tokens(s: Seq<char>) -> Seq<Seq<char>>
    decreases s.len(),
    via tokens_decreases
{
    if s.len() == 0 {
        Seq::empty()
    } else if is_space(s[0]) {
        tokens(s.drop_first())
    } else {
        seq![s.take(word_len(s))] + tokens(s.skip(word_len(s)))
    }
}

#[via_fn]
proof fn tokens_decreases(s: Seq<char>) {
    if s.len() > 0 && !is_space(s[0]) {
        word_len_bounds(s);
    }
}

proof fn word_len_bounds(s: Seq<char>)
    ensures
        0 <= word_len(s) <= s.len(),
        s.len() > 0 && !is_space(s[0]) ==> word_len(s) >= 1,
    decreases s.len(),
{
    if s.len() > 0 && !is_space(s[0]) {
        word_len_bounds(s.drop_first());
    }
}

proof fn word_len_of_run(s: Seq<char>, i: int, j: int)
    requires
        0 <= i <= j <= s.len(),
        forall|k: int| i <= k < j ==> !is_space(s[k]),
        j == s.len() || is_space(s[j]),
    ensures
        word_len(s.skip(i)) == j - i,
    decreases j - i,
{
    let t = s.skip(i);
    if i < j {
        assert(t[0] == s[i]);
        assert(t.drop_first() =~= s.skip(i + 1));
        word_len_of_run(s, i + 1, j);
    } else if j < s.len() {
        assert(t[0] == s[j]);
    }
}

/// Splits `s` at white space into its words.
pub fn split_whitespace(s: &str) -> (r: Vec<String>)
    ensures
        views(r@) == tokens(s@),
{
    let n: usize = s.unicode_len();
    let mut out: Vec<String> = Vec::new();
    let mut i: usize = 0;
    proof {
        assert(s@.skip(0) =~= s@);
        assert(views(out@) =~= Seq::<Seq<char>>::empty());
    }
    while i < n
        invariant
            n == s@.len(),
            i <= n,
            views(out@) + tokens(s@.skip(i as int)) == tokens(s@),
        decreases n - i,
    {
        let ghost rest = s@.skip(i as int);
        if is_whitespace(s.get_char(i)) {
            proof {
                assert(rest[0] == s@[i as int]);
                assert(rest.drop_first() =~= s@.skip(i + 1));
            }
            i = i + 1;
        } else {
            let mut j: usize = i + 1;
            while j < n && !is_whitespace(s.get_char(j))
                invariant
                    n == s@.len(),
                    i < j <= n,
                    forall|k: int| i <= k < j ==> !is_space(s@[k]),
                decreases n - j,
            {
                j = j + 1;
            }
            let word = s.substring_char(i, j);
            let ghost before = views(out@);
            out.push(owned(word));
            proof {
                word_len_of_run(s@, i as int, j as int);
                assert(rest[0] == s@[i as int]);
                assert(rest.take(j - i) =~= s@.subrange(i as int, j as int));
                assert(rest.skip(j - i) =~= s@.skip(j as int));
                assert(views(out@) =~= before + seq![word@]);
                assert(tokens(rest) == seq![word@] + tokens(s@.skip(j as int)));
                assert(views(out@) + tokens(s@.skip(j as int)) =~= before + tokens(rest));
            }
            i = j;
        }
    }
    proof {
        assert(s@.skip(n as int) =~= Seq::<char>::empty());
        assert(views(out@) + tokens(s@.skip(n as int)) =~= views(out@));
    }
    out
}

/// No word holds white space, and no word is empty.
pub proof fn tokens_hold_no_space(s: Seq<char>, k: int)
    requires
        0 <= k < tokens(s).len(),
    ensures
        tokens(s)[k].len() > 0,
        forall|i: int| 0 <= i < tokens(s)[k].len() ==> !is_space(tokens(s)[k][i]),
    decreases s.len(),
{
    if s.len() == 0 {
    } else if is_space(s[0]) {
        tokens_hold_no_space(s.drop_first(), k);
    } else {
        word_len_bounds(s);
        if k == 0 {
            word_has_no_space(s);
        } else {
            tokens_hold_no_space(s.skip(word_len(s)), k - 1);
        }
    }
}

proof fn word_has_no_space(s: Seq<char>)
    ensures
        0 <= word_len(s) <= s.len(),
        forall|i: int| 0 <= i < word_len(s) ==> !is_space(s[i]),
    decreases s.len(),
{
    word_len_bounds(s);
    if s.len() > 0 && !is_space(s[0]) {
        word_has_no_space(s.drop_first());
        assert forall|i: int| 0 <= i < word_len(s) implies !is_space(s[i]) by {
            if i > 0 {
                assert(s[i] == s.drop_first()[i - 1]);
            }
        }
    }
}

/// The error with which the `regex` crate refuses a pattern. Nothing is
/// known of what it holds.
#[verifier::external_type_specification]
#[verifier::external_body]
pub struct ExRegexError(regex::Error);

/// Whether `Regex::new` of the `regex` crate accepts `pattern` as a regular
/// expression.
pub uninterp spec fn regex_valid(pattern: Seq<char>) -> bool;

/// What `Regex::is_match` answers for the expression that `Regex::new`
/// makes of `pattern`: whether it matches anywhere in `haystack`.
pub uninterp spec fn regex_accepts(pattern: Seq<char>, haystack: Seq<char>) -> bool;

/// Compiles `pattern` with `regex::Regex::new` and asks `Regex::is_match`
/// whether it matches anywhere in `haystack`. A pattern that the crate
/// refuses gives the crate's error. The claim is only that both answers are
/// the ones named above: whether a pattern is accepted depends on the
/// pattern alone, and whether it matches on the pattern and the text alone.
#[verifier::external_body]
fn search(pattern: &str, haystack: &str) -> (r: Result<bool, regex::Error>)
    ensures
        r is Ok <==> regex_valid(pattern@),
        r is Ok ==> r->Ok_0 == regex_accepts(pattern@, haystack@),
{
    match Regex::new(pattern) {
        Ok(regex) => Ok(regex.is_match(haystack)),
        Err(error) => Err(error),
    }
}

/// The pattern that the names of pending join requests are recognised by.
pub const JOIN_REQUEST_PATTERN: &'static str = r#"node-csr-\S*"#;

/// Why the watcher cannot be set up.
#[derive(Clone, Copy, Debug, PartialEq, Eq, Structural)]
pub enum JoinError {
    /// The name pattern is no regular expression.
    InvalidPattern,
}

/// A pattern for the names of join requests: a regular expression that was
/// found to be one.
#[derive(Debug)]
pub struct NamePattern {
    source: String,
}

impl NamePattern {
    #[verifier::type_invariant]
    spec fn accepted(self) -> bool {
        regex_valid(self.source@)
    }

    /// The text of the pattern.
    pub closed spec fn spec_source(&self) -> Seq<char> {
        self.source@
    }

    /// The pattern matches somewhere in `name`.
    pub open spec fn spec_matches(&self, name: Seq<char>) -> bool {
        regex_accepts(self.spec_source(), name)
    }

    /// The pattern `pattern`, if it is a regular expression; else the error
    /// `InvalidPattern`.
    pub fn new(pattern: &str) -> (r: Result<NamePattern, JoinError>)
        ensures
            r is Ok <==> regex_valid(pattern@),
            r is Ok ==> r->Ok_0.spec_source() == pattern@,
            r is Err ==> r->Err_0 == JoinError::InvalidPattern,
    {
        match search(pattern, "") {
            Ok(_) => Ok(NamePattern { source: owned(pattern) }),
            Err(_) => Err(JoinError::InvalidPattern),
        }
    }

    /// The text of the pattern.
    pub fn source(&self) -> (r: &str)
        ensures
            r@ == self.spec_source(),
    {
        self.source.as_str()
    }

    /// Whether the pattern matches somewhere in `name`.
    pub fn matches(&self, name: &str) -> (r: bool)
        ensures
            r == self.spec_matches(name@),
    {
        proof {
            use_type_invariant(self);
        }
        match search(self.source.as_str(), name) {
            Ok(found) => found,
            Err(_) => false,
        }
    }
}

/// The words of `output` that `pattern` matches, in order.
pub open spec fn matching_tokens_spec(pattern: NamePattern, output: Seq<char>) -> Seq<Seq<char>> {
    tokens(output).filter(|t: Seq<char>| pattern.spec_matches(t))
}

/// The words of `output` that `pattern` matches, in order.
pub fn matching_tokens(pattern: &NamePattern, output: &str) -> (r: Vec<String>)
    ensures
        views(r@) == matching_tokens_spec(*pattern, output@),
{
    let words = split_whitespace(output);
    let mut out: Vec<String> = Vec::new();
    let ghost pred = |t: Seq<char>| pattern.spec_matches(t);
    let n: usize = words.len();
    let mut i: usize = 0;
    proof {
        assert(views(out@) =~= tokens(output@).subrange(0, 0).filter(pred)) by {
            reveal(Seq::filter);
        }
    }
    while i < n
        invariant
            n == words@.len(),
            i <= n,
            views(words@) == tokens(output@),
            pred == |t: Seq<char>| pattern.spec_matches(t),
            views(out@) == tokens(output@).subrange(0, i as int).filter(pred),
        decreases n - i,
    {
        let ghost prev = tokens(output@).subrange(0, i as int);
        let ghost next = tokens(output@).subrange(0, i + 1);
        let ghost before = views(out@);
        proof {
            assert(next.drop_last() =~= prev);
            assert(next.last() == words@[i as int]@) by {
                assert(views(words@)[i as int] == words@[i as int]@);
            }
            reveal(Seq::filter);
        }
        if pattern.matches(words[i].as_str()) {
            out.push(words[i].clone());
            proof {
                assert(views(out@) =~= before.push(words@[i as int]@));
            }
        }
        i = i + 1;
    }
    proof {
        assert(tokens(output@).subrange(0, n as int) =~= tokens(output@));
    }
    out
}

/// `found` is the position of the first of `candidates` that is not among
/// `handled`, or nothing if all of them are.
pub open spec fn is_first_new(
    candidates: Seq<Seq<char>>,
    handled: Seq<Seq<char>>,
    found: Option<usize>,
) -> bool {
    match found {
        Some(i) => {
            &&& i < candidates.len()
            &&& !handled.contains(candidates[i as int])
            &&& forall|k: int| 0 <= k < i ==> handled.contains(#[trigger] candidates[k])
        },
        None => forall|k: int|
            0 <= k < candidates.len() ==> handled.contains(#[trigger] candidates[k]),
    }
}

/// Whether `name` is one of `list`.
pub fn is_listed(list: &Vec<String>, name: &str) -> (r: bool)
    ensures
        r == views(list@).contains(name@),
{
    let mut i: usize = 0;
    while i < list.len()
        invariant
            i <= list.len(),
            forall|k: int| 0 <= k < i ==> views(list@)[k] != name@,
        decreases list.len() - i,
    {
        if str_eq(list[i].as_str(), name) {
            proof {
                assert(views(list@)[i as int] == name@);
            }
            return true;
        }
        i = i + 1;
    }
    false
}

/// The position of the first of `candidates` that is not among `handled`.
pub fn first_new(candidates: &Vec<String>, handled: &Vec<String>) -> (r: Option<usize>)
    ensures
        is_first_new(views(candidates@), views(handled@), r),
{
    let mut i: usize = 0;
    while i < candidates.len()
        invariant
            i <= candidates.len(),
            forall|k: int|
                0 <= k < i ==> views(handled@).contains(#[trigger] views(candidates@)[k]),
        decreases candidates.len() - i,
    {
        if !is_listed(handled, candidates[i].as_str()) {
            return Some(i);
        }
        i = i + 1;
    }
    None
}

/// The watcher polled as often as it may and found no request to approve.
#[derive(Clone, Copy, Debug, PartialEq, Eq, Structural)]
pub struct JoinTimeoutError {
    /// The number of polls that were made.
    pub polls: u64,
}

/// What the watcher asks its caller to do next.
#[derive(Debug, PartialEq, Eq)]
pub enum WatchAction {
    /// Wait for the poll interval, list the pending requests again and hand
    /// over what comes back.
    PollAgain,
    /// Approve the request of this name; it is the identifier that the
    /// watcher reports.
    Approve(String),
    /// Stop: the bound on the number of polls is reached.
    GiveUp(JoinTimeoutError),
}

/// The watcher of one control host: how often it has polled, how often it
/// may, and the requests it has asked to approve already.
#[derive(Debug)]
pub struct JoinWatcher {
    polls: u64,
    max_polls: u64,
    handled: Vec<String>,
}

/// The number of polls after one more, which stops at the largest number.
pub open spec fn one_more(polls: u64) -> u64 {
    if polls < u64::MAX {
        (polls + 1) as u64
    } else {
        polls
    }
}

impl JoinWatcher {
    /// The number of polls made so far.
    pub closed spec fn spec_polls(&self) -> u64 {
        self.polls
    }

    /// The number of polls after which the watcher gives up.
    pub closed spec fn spec_max_polls(&self) -> u64 {
        self.max_polls
    }

    /// The names of the requests that the watcher has asked to approve.
    pub closed spec fn spec_handled(&self) -> Seq<Seq<char>> {
        views(self.handled@)
    }

    /// How one poll changes the watcher and what it asks for, where `found`
    /// is the position of the first new name among `candidates`.
    pub open spec fn polled_with(
        before: JoinWatcher,
        after: JoinWatcher,
        candidates: Seq<Seq<char>>,
        found: Option<usize>,
        action: WatchAction,
    ) -> bool {
        &&& is_first_new(candidates, before.spec_handled(), found)
        &&& after.spec_polls() == one_more(before.spec_polls())
        &&& after.spec_max_polls() == before.spec_max_polls()
        &&& match found {
            Some(i) => {
                &&& action is Approve
                &&& action->Approve_0@ == candidates[i as int]
                &&& after.spec_handled() == before.spec_handled().push(candidates[i as int])
            },
            None => {
                &&& after.spec_handled() == before.spec_handled()
                &&& if after.spec_polls() >= after.spec_max_polls() {
                    action == WatchAction::GiveUp(JoinTimeoutError { polls: after.spec_polls() })
                } else {
                    action == WatchAction::PollAgain
                }
            },
        }
    }

    /// How one poll that listed the matching names `candidates` changes the
    /// watcher and what it asks for. The first name that was not handed out
    /// before is approved and remembered: a name seen again is taken as
    /// pending already and passed over. With no new name the watcher polls
    /// again, until the bound is reached.
    pub open spec fn polled(
        before: JoinWatcher,
        after: JoinWatcher,
        candidates: Seq<Seq<char>>,
        action: WatchAction,
    ) -> bool {
        exists|found: Option<usize>|
            JoinWatcher::polled_with(before, after, candidates, found, action)
    }

    /// A watcher that gives up after `max_polls` polls without a request to
    /// approve.
    pub fn new(max_polls: u64) -> (r: JoinWatcher)
        ensures
            r.spec_polls() == 0,
            r.spec_max_polls() == max_polls,
            r.spec_handled() == Seq::<Seq<char>>::empty(),
    {
        let r = JoinWatcher { polls: 0, max_polls, handled: Vec::new() };
        proof {
            assert(views(r.handled@) =~= Seq::<Seq<char>>::empty());
        }
        r
    }

    /// The number of polls made so far.
    pub fn polls(&self) -> (r: u64)
        ensures
            r == self.spec_polls(),
    {
        self.polls
    }

    /// Whether the request named `name` was handed out for approval.
    pub fn has_handled(&self, name: &str) -> (r: bool)
        ensures
            r == self.spec_handled().contains(name@),
    {
        is_listed(&self.handled, name)
    }

    /// Takes the matching names of one poll and decides what to do next.
    pub fn next(&mut self, candidates: &Vec<String>) -> (r: WatchAction)
        ensures
            JoinWatcher::polled(*old(self), *final(self), views(candidates@), r),
    {
        if self.polls < u64::MAX {
            self.polls = self.polls + 1;
        }
        let found = first_new(candidates, &self.handled);
        match found {
            Some(i) => {
                let name = candidates[i].clone();
                let ghost before = views(self.handled@);
                self.handled.push(candidates[i].clone());
                let action = WatchAction::Approve(name);
                proof {
                    assert(views(candidates@)[i as int] == candidates@[i as int]@);
                    assert(views(self.handled@) =~= before.push(candidates@[i as int]@));
                    assert(JoinWatcher::polled_with(
                        *old(self),
                        *self,
                        views(candidates@),
                        found,
                        action,
                    ));
                }
                action
            },
            None => {
                let action = if self.polls >= self.max_polls {
                    WatchAction::GiveUp(JoinTimeoutError { polls: self.polls })
                } else {
                    WatchAction::PollAgain
                };
                proof {
                    assert(JoinWatcher::polled_with(
                        *old(self),
                        *self,
                        views(candidates@),
                        found,
                        action,
                    ));
                }
                action
            },
        }
    }

    /// Takes what one poll of the control host printed: picks the words that
    /// `pattern` matches and decides on them as `next` does.
    pub fn on_poll(&mut self, pattern: &NamePattern, output: &str) -> (r: WatchAction)
        ensures
            JoinWatcher::polled(
                *old(self),
                *final(self),
                matching_tokens_spec(*pattern, output@),
                r,
            ),
    {
        let candidates = matching_tokens(pattern, output);
        self.next(&candidates)
    }
}

/// A name that was handed out for approval is never handed out again: the
/// name that a poll approves was not among those handled before.
pub proof fn no_name_is_approved_twice(
    before: JoinWatcher,
    after: JoinWatcher,
    candidates: Seq<Seq<char>>,
    action: WatchAction,
)
    requires
        JoinWatcher::polled(before, after, candidates, action),
        action is Approve,
    ensures
        !before.spec_handled().contains(action->Approve_0@),
        after.spec_handled().contains(action->Approve_0@),
{
    let found = choose|found: Option<usize>|
        JoinWatcher::polled_with(before, after, candidates, found, action);
    assert(found is Some);
    let i = found->Some_0;
    assert(after.spec_handled()[before.spec_handled().len() as int] == candidates[i as int]);
}

/// A poll without a matching word never reports a name: the watcher polls
/// again or gives up.
pub proof fn no_match_approves_nothing(
    before: JoinWatcher,
    after: JoinWatcher,
    action: WatchAction,
)
    requires
        JoinWatcher::polled(before, after, Seq::empty(), action),
    ensures
        !(action is Approve),
        after.spec_handled() == before.spec_handled(),
{
    let found = choose|found: Option<usize>|
        JoinWatcher::polled_with(before, after, Seq::empty(), found, action);
    assert(found is None);
}

} // verus!
