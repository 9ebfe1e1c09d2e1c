//! What an automation script is given and what its run means.
//!
//! A message that is written into the text of a script stands there between
//! double quotes, with every backslash and every double quote escaped. What a
//! script run reports is read into a delivery outcome.
use crate::router::{DeliveryOutcome, OutcomeView};
use crate::text::{chars_of, copy_text, push_char, same_text, trim, trimmed};
use vstd::prelude::*;

verus! {

/// Whether `c` has a meaning of its own inside a quoted string of a script.
pub open spec fn is_meta(c: char) -> bool {
    c == '\\' || c == '"'
}

/// How `c` is written inside a quoted string: after a backslash where it has a
/// meaning of its own, plainly otherwise.
pub open spec fn escaped_char(c: char) -> Seq<char> {
    if is_meta(c) {
        seq!['\\', c]
    } else {
        seq![c]
    }
}

/// How `s` is written inside a quoted string.
pub open spec fn escaped(s: Seq<char>) -> Seq<char>
    decreases s.len(),
{
    if s.len() == 0 {
        Seq::empty()
    } else {
        escaped_char(s[0]) + escaped(s.drop_first())
    }
}

/// What the inside of a quoted string stands for: each backslash gives way to
/// the character behind it.
pub open spec fn unescaped(s: Seq<char>) -> Seq<char>
    decreases s.len(),
{
    if s.len() == 0 {
        Seq::empty()
    } else if s[0] == '\\' && s.len() >= 2 {
        seq![s[1]] + unescaped(s.subrange(2, s.len() as int))
    } else {
        seq![s[0]] + unescaped(s.drop_first())
    }
}

/// `s` as a quoted string of a script.
pub open spec fn quoted(s: Seq<char>) -> Seq<char> {
    seq!['"'] + escaped(s) + seq!['"']
}

/// The index in `s` of the double quote that closes a quoted string whose
/// inside starts at `from`: the first double quote that no backslash escapes.
/// Where there is none, the length of `s`.
pub open spec fn closing_quote(s: Seq<char>, from: int) -> int
    decreases s.len() - from,
{
    if from < 0 || from >= s.len() {
        s.len() as int
    } else if s[from] == '"' {
        from
    } else if s[from] == '\\' && from + 2 <= s.len() {
        closing_quote(s, from + 2)
    } else {
        closing_quote(s, from + 1)
    }
}

/// Escaping one more character appends its escaped form.
pub proof fn lemma_escaped_push(s: Seq<char>, c: char)
    ensures
        escaped(s.push(c)) == escaped(s) + escaped_char(c),
    decreases s.len(),
{
    if s.len() == 0 {
        let one = s.push(c);
        assert(one[0] == c);
        assert(one.drop_first() == Seq::<char>::empty());
        assert(escaped(one.drop_first()) == Seq::<char>::empty());
        assert(escaped(one) == escaped_char(c) + Seq::<char>::empty());
        assert(escaped(s) == Seq::<char>::empty());
    } else {
        assert(s.push(c).drop_first() == s.drop_first().push(c));
        lemma_escaped_push(s.drop_first(), c);
        assert(escaped_char(s[0]) + (escaped(s.drop_first()) + escaped_char(c)) == (escaped_char(
            s[0],
        ) + escaped(s.drop_first())) + escaped_char(c));
    }
}

/// Escaping loses nothing: what the escaped form of a message stands for is the
/// message, whatever characters it holds.
pub proof fn lemma_escape_round_trip(s: Seq<char>)
    ensures
        unescaped(escaped(s)) == s,
    decreases s.len(),
{
    if s.len() > 0 {
        let rest = escaped(s.drop_first());
        let e = escaped(s);
        lemma_escape_round_trip(s.drop_first());
        if is_meta(s[0]) {
            assert(e[0] == '\\');
            assert(e[1] == s[0]);
            assert(e.subrange(2, e.len() as int) == rest);
        } else {
            assert(e[0] == s[0]);
            assert(e.drop_first() == rest);
        }
        assert(seq![s[0]] + s.drop_first() == s);
    }
}

/// A quoted message cannot end its own quotes: in a script text that holds the
/// quoted form of `s` behind `before`, the quote that closes it is the last
/// character of that form, whatever `s` holds and whatever follows.
pub proof fn lemma_quoted_closes_at_end(before: Seq<char>, s: Seq<char>, after: Seq<char>)
    ensures
        closing_quote(before + quoted(s) + after, (before.len() + 1) as int) == before.len() + 1 + escaped(
            s,
        ).len(),
    decreases s.len(),
{
    let whole = before + quoted(s) + after;
    let from = (before.len() + 1) as int;
    if s.len() == 0 {
        assert(whole[from] == '"');
    } else {
        let head = escaped_char(s[0]);
        let tail = s.drop_first();
        // The same text from the escaped tail on, behind a prefix that ends in
        // a quote: the scan never looks back.
        let prefix = (before + seq!['"'] + head).drop_last();
        let again = prefix + quoted(tail) + after;
        assert(again.len() == whole.len());
        assert forall|i: int| from + head.len() <= i < whole.len() implies whole[i] == again[i] by {}
        lemma_closing_quote_local(whole, again, from + head.len());
        lemma_quoted_closes_at_end(prefix, tail, after);
        assert(whole[from] == head[0]);
        assert(escaped(s).len() == head.len() + escaped(tail).len());
    }
}

/// The scan for the closing quote depends only on the text from where it starts.
proof fn lemma_closing_quote_local(a: Seq<char>, b: Seq<char>, from: int)
    requires
        a.len() == b.len(),
        0 <= from,
        forall|i: int| from <= i < a.len() ==> a[i] == b[i],
    ensures
        closing_quote(a, from) == closing_quote(b, from),
    decreases a.len() - from,
{
    if from < a.len() {
        if a[from] == '"' {
        } else if a[from] == '\\' && from + 2 <= a.len() {
            lemma_closing_quote_local(a, b, from + 2);
        } else {
            lemma_closing_quote_local(a, b, from + 1);
        }
    }
}

/// `message` as it is written inside a quoted string of a script: every
/// backslash and every double quote behind a backslash.
pub fn escape_for_script(message: &str) -> (r: String)
    ensures
        r@ == escaped(message@),
{
    let v = chars_of(message);
    let mut r = String::new();
    let mut i: usize = 0;
    assert(v@.subrange(0, 0) == Seq::<char>::empty());
    while i < v.len()
        invariant
            i <= v.len(),
            r@ == escaped(v@.subrange(0, i as int)),
        decreases v.len() - i,
    {
        let c = v[i];
        proof {
            assert(v@.subrange(0, i + 1) == v@.subrange(0, i as int).push(c));
            lemma_escaped_push(v@.subrange(0, i as int), c);
        }
        if c == '\\' || c == '"' {
            push_char(&mut r, '\\');
        }
        push_char(&mut r, c);
        i = i + 1;
    }
    assert(v@.subrange(0, v@.len() as int) == v@);
    r
}

/// `message` as a quoted string of a script.
pub fn quote_for_script(message: &str) -> (r: String)
    ensures
        r@ == quoted(message@),
{
    let inner = escape_for_script(message);
    let mut r = String::new();
    push_char(&mut r, '"');
    r.append(inner.as_str());
    push_char(&mut r, '"');
    assert(r@ == seq!['"'] + escaped(message@) + seq!['"']);
    r
}

/// What came of running an automation script.
#[derive(Debug)]
pub enum ScriptRun {
    /// The automation tool could not be run at all; the text says why.
    NotStarted(String),
    /// The tool ran to its end.
    Exited { success: bool, stdout: String, stderr: String },
}

/// How the answer of a script that ran well is read.
#[derive(Debug, Clone, Copy, PartialEq, Eq, Structural)]
pub enum ReplyRule {
    /// The script looked for a session: it delivered unless it answers `false`.
    UnlessFalse,
    /// The script typed into the front window: it delivered only if it answers
    /// `true`.
    OnlyTrue,
}

/// Whether the answer of a script that ran well, without the white space around
/// it, says that the message was delivered.
pub open spec fn reply_delivers(reply: Seq<char>, rule: ReplyRule) -> bool {
    match rule {
        ReplyRule::UnlessFalse => reply != "false"@,
        ReplyRule::OnlyTrue => reply == "true"@,
    }
}

/// The outcome that a script run stands for. A tool that could not be run is a
/// failed attempt, with the tool's error for a reason. A run that ended in
/// failure means that the application is not there to be driven. A run that
/// ended well delivered or found no matching session, as its answer says.
pub open spec fn script_outcome(run: ScriptRun, rule: ReplyRule) -> OutcomeView {
    match run {
        ScriptRun::NotStarted(reason) => OutcomeView::BackendAttemptedButFailed(reason@),
        ScriptRun::Exited { success, stdout, stderr } => {
            if !success {
                OutcomeView::BackendUnavailable
            } else if reply_delivers(trimmed(stdout@), rule) {
                OutcomeView::Delivered
            } else {
                OutcomeView::BackendAttemptedButFailed("no matching session"@)
            }
        },
    }
}

/// Reads a script run into a delivery outcome.
pub fn outcome_of_script(run: &ScriptRun, rule: ReplyRule) -> (outcome: DeliveryOutcome)
    ensures
        outcome@ == script_outcome(*run, rule),
{
    match run {
        ScriptRun::NotStarted(reason) => DeliveryOutcome::BackendAttemptedButFailed(
            reason.clone(),
        ),
        ScriptRun::Exited { success, stdout, stderr } => {
            if !*success {
                DeliveryOutcome::BackendUnavailable
            } else {
                let reply = trim(stdout.as_str());
                let delivered = match rule {
                    ReplyRule::UnlessFalse => !same_text(reply.as_str(), "false"),
                    ReplyRule::OnlyTrue => same_text(reply.as_str(), "true"),
                };
                if delivered {
                    DeliveryOutcome::Delivered
                } else {
                    DeliveryOutcome::BackendAttemptedButFailed(copy_text("no matching session"))
                }
            }
        },
    }
}


} // verus!
