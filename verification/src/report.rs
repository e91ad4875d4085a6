//! Violation reports.
//!
//! A [`MessageAccumulator`] collects the violations found during one pass
//! over the actor state, in the order in which they were found. A pass never
//! stops at a violation: what a report means is decided afterwards, either
//! strictly (nothing may have been reported) or against a set of expected
//! patterns.

use regex::Regex;
use vstd::prelude::*;
use vstd::string::StringExecFns;

verus! {

/// `regex::Regex`, a compiled pattern.
#[verifier::external_type_specification]
#[verifier::external_body]
pub struct ExRegex(Regex);

/// `regex::Error`, the reason for which a pattern text was refused.
#[verifier::external_type_specification]
#[verifier::external_body]
pub struct ExRegexError(regex::Error);

/// What `Regex::is_match` answers for a compiled pattern and a text: whether
/// the pattern matches anywhere in the text.
pub uninterp spec fn matches(pattern: Regex, text: Seq<char>) -> bool;

/// What `Regex::new` makes of a pattern text: the compiled pattern, or
/// nothing where the text is refused.
pub uninterp spec fn compiled(pattern: Seq<char>) -> Option<Regex>;

/// `Regex::is_match`: a search of the text that depends on the compiled
/// pattern and the text alone.
#[verifier::external_body]
fn is_match(pattern: &Regex, text: &str) -> (r: bool)
    ensures
        r == matches(*pattern, text@),
{
    pattern.is_match(text)
}

/// `Regex::new`: compiles a pattern text, or refuses it. Which texts are
/// accepted is left to the outside crate.
#[verifier::external_body]
fn new_regex(pattern: &str) -> (r: Result<Regex, regex::Error>)
    ensures
        r.is_ok() == compiled(pattern@).is_some(),
        r matches Ok(re) ==> compiled(pattern@) == Some(re),
{
    Regex::new(pattern)
}

/// Compiles a pattern text; `None` where the text is not a valid pattern.
pub fn compile(pattern: &str) -> (r: Option<Regex>)
    ensures
        r == compiled(pattern@),
{
    match new_regex(pattern) {
        Ok(re) => Some(re),
        Err(_) => None,
    }
}

/// The texts of a list of messages.
pub open spec fn texts(msgs: Seq<String>) -> Seq<Seq<char>> {
    msgs.map_values(|s: String| s@)
}

/// Each message with the prefix before it.
pub open spec fn prefixed(prefix: Seq<char>, msgs: Seq<Seq<char>>) -> Seq<Seq<char>> {
    msgs.map_values(|m: Seq<char>| prefix + m)
}

/// Whether some pattern of the list matches the text.
pub open spec fn matched_by_some(patterns: Seq<Regex>, text: Seq<char>) -> bool {
    exists|j: int| 0 <= j < patterns.len() && matches(#[trigger] patterns[j], text)
}

/// Whether the pattern matches some message of the list.
pub open spec fn matches_some(pattern: Regex, msgs: Seq<Seq<char>>) -> bool {
    exists|i: int| 0 <= i < msgs.len() && matches(pattern, #[trigger] msgs[i])
}

/// Whether a report is the expected one: every message is matched by one of
/// the patterns, and every pattern matches one of the messages.
pub open spec fn expected_by(msgs: Seq<Seq<char>>, patterns: Seq<Regex>) -> bool {
    &&& forall|i: int| 0 <= i < msgs.len() ==> matched_by_some(patterns, #[trigger] msgs[i])
    &&& forall|j: int| 0 <= j < patterns.len() ==> matches_some(#[trigger] patterns[j], msgs)
}

/// An ordered, append-only list of violation messages.
#[derive(Clone, Debug)]
pub struct MessageAccumulator {
    msgs: Vec<String>,
}

impl View for MessageAccumulator {
    type V = Seq<Seq<char>>;

    closed spec fn view(&self) -> Seq<Seq<char>> {
        texts(self.msgs@)
    }
}

impl MessageAccumulator {
    /// An empty report.
    pub fn new() -> (acc: MessageAccumulator)
        ensures
            acc@ == Seq::<Seq<char>>::empty(),
    {
        MessageAccumulator { msgs: Vec::new() }
    }

    /// A report that holds the given messages in their order.
    pub fn from_messages(msgs: Vec<String>) -> (acc: MessageAccumulator)
        ensures
            acc@ == texts(msgs@),
    {
        MessageAccumulator { msgs }
    }

    /// Appends a violation message.
    pub fn add(&mut self, msg: String)
        ensures
            final(self)@ == old(self)@.push(msg@),
    {
        self.msgs.push(msg);
    }

    /// Appends the message unless the predicate holds.
    pub fn require(&mut self, predicate: bool, msg: String)
        ensures
            final(self)@ == if predicate {
                old(self)@
            } else {
                old(self)@.push(msg@)
            },
    {
        if !predicate {
            self.add(msg);
        }
    }

    /// Appends all messages of another report, in their order.
    pub fn add_all(&mut self, other: &MessageAccumulator)
        ensures
            final(self)@ == old(self)@ + other@,
    {
        let n = other.msgs.len();
        let mut i: usize = 0;
        while i < n
            invariant
                n == other.msgs.len(),
                0 <= i <= n,
                self@ == old(self)@ + other@.subrange(0, i as int),
            decreases n - i,
        {
            let msg = other.msgs[i].clone();
            self.add(msg);
            i += 1;
        }
    }

    /// Appends all messages of another report, in their order, each with
    /// the prefix before it.
    pub fn add_all_prefixed(&mut self, prefix: &str, other: &MessageAccumulator)
        ensures
            final(self)@ == old(self)@ + prefixed(prefix@, other@),
    {
        let ghost tail = prefixed(prefix@, other@);
        let n = other.msgs.len();
        let mut i: usize = 0;
        while i < n
            invariant
                n == other.msgs.len(),
                0 <= i <= n,
                tail == prefixed(prefix@, other@),
                self@ == old(self)@ + tail.subrange(0, i as int),
            decreases n - i,
        {
            let msg = String::from_str(prefix).concat(other.msgs[i].as_str());
            self.add(msg);
            i += 1;
        }
    }

    /// The number of messages.
    pub fn len(&self) -> (n: usize)
        ensures
            n == self@.len(),
    {
        self.msgs.len()
    }

    /// Whether nothing was reported.
    pub fn is_empty(&self) -> (r: bool)
        ensures
            r == (self@.len() == 0),
    {
        self.msgs.len() == 0
    }

    /// The messages, in the order in which they were reported.
    pub fn messages(&self) -> (r: Vec<String>)
        ensures
            texts(r@) == self@,
    {
        let mut out: Vec<String> = Vec::new();
        let n = self.msgs.len();
        let mut i: usize = 0;
        while i < n
            invariant
                n == self.msgs.len(),
                0 <= i <= n,
                out@ == self.msgs@.subrange(0, i as int),
            decreases n - i,
        {
            out.push(self.msgs[i].clone());
            i += 1;
        }
        out
    }

    /// Whether some pattern of the list matches the message at `index`.
    fn message_is_expected(&self, index: usize, patterns: &[Regex]) -> (r: bool)
        requires
            index < self@.len(),
        ensures
            r == matched_by_some(patterns@, self@[index as int]),
    {
        let mut j: usize = 0;
        while j < patterns.len()
            invariant
                index < self.msgs.len(),
                0 <= j <= patterns.len(),
                forall|k: int| 0 <= k < j ==> !matches(#[trigger] patterns@[k], self@[index as int]),
            decreases patterns.len() - j,
        {
            if is_match(&patterns[j], self.msgs[index].as_str()) {
                return true;
            }
            j += 1;
        }
        false
    }

    /// Whether the pattern matches some message of the report.
    fn pattern_is_met(&self, pattern: &Regex) -> (r: bool)
        ensures
            r == matches_some(*pattern, self@),
    {
        let mut i: usize = 0;
        while i < self.msgs.len()
            invariant
                0 <= i <= self.msgs.len(),
                forall|k: int| 0 <= k < i ==> !matches(*pattern, #[trigger] self@[k]),
            decreases self.msgs.len() - i,
        {
            if is_match(pattern, self.msgs[i].as_str()) {
                assert(matches(*pattern, self@[i as int]));
                return true;
            }
            i += 1;
        }
        false
    }

    /// Whether the report is the expected one: every message is matched by
    /// one of the patterns and every pattern matches one of the messages.
    pub fn matches_expected(&self, expected_patterns: &[Regex]) -> (r: bool)
        ensures
            r == expected_by(self@, expected_patterns@),
    {
        let mut i: usize = 0;
        while i < self.msgs.len()
            invariant
                0 <= i <= self.msgs.len(),
                forall|k: int|
                    0 <= k < i ==> matched_by_some(expected_patterns@, #[trigger] self@[k]),
            decreases self.msgs.len() - i,
        {
            if !self.message_is_expected(i, expected_patterns) {
                return false;
            }
            i += 1;
        }
        let mut j: usize = 0;
        while j < expected_patterns.len()
            invariant
                0 <= j <= expected_patterns.len(),
                forall|k: int|
                    0 <= k < self@.len() ==> matched_by_some(expected_patterns@, #[trigger] self@[k]),
                forall|k: int| 0 <= k < j ==> matches_some(#[trigger] expected_patterns@[k], self@),
            decreases expected_patterns.len() - j,
        {
            if !self.pattern_is_met(&expected_patterns[j]) {
                return false;
            }
            j += 1;
        }
        true
    }
}

} // verus!
