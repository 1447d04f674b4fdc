use vstd::prelude::*;

use crate::commit_type::ConventionalCommitType;

verus! {

/// The first line of a message: the class, the scope in parentheses when
/// there is one, then the summary.
pub open spec fn commit_header(class: Seq<char>, scope: Seq<char>, short: Seq<char>) -> Seq<char> {
    if scope.len() == 0 {
        class + ": "@ + short
    } else {
        class + "("@ + scope + "): "@ + short
    }
}

/// The whole message: the header, then a blank line and the body when the body
/// is not empty.
pub open spec fn commit_message(
    class: Seq<char>,
    scope: Seq<char>,
    short: Seq<char>,
    long: Seq<char>,
) -> Seq<char> {
    if long.len() == 0 {
        commit_header(class, scope, short)
    } else {
        commit_header(class, scope, short) + "\n\n"@ + long
    }
}

/// Composes the message for `conventional_commit`. The summary and the body are
/// taken verbatim and the scope is not escaped.
pub fn compose_commit_message(
    conventional_commit: &ConventionalCommitType,
    scope: &str,
    short_commit_message: &str,
    long_commit_message: &str,
) -> (r: String)
    ensures
        r@ == commit_message(
            conventional_commit.class@,
            scope@,
            short_commit_message@,
            long_commit_message@,
        ),
        scope@.len() == 0 && long_commit_message@.len() == 0 ==> r@ == conventional_commit.class@
            + ": "@ + short_commit_message@,
        scope@.len() != 0 && long_commit_message@.len() == 0 ==> r@ == conventional_commit.class@
            + "("@ + scope@ + "): "@ + short_commit_message@,
        long_commit_message@.len() != 0 ==> r@ == commit_header(
            conventional_commit.class@,
            scope@,
            short_commit_message@,
        ) + "\n\n"@ + long_commit_message@,
{
    let mut commit_message = conventional_commit.class.to_owned();
    if scope.is_empty() {
        commit_message.append(": ");
    } else {
        commit_message.append("(");
        commit_message.append(scope);
        commit_message.append("): ");
    }
    commit_message.append(short_commit_message);
    if !long_commit_message.is_empty() {
        commit_message.append("\n\n");
        commit_message.append(long_commit_message);
    }
    commit_message
}

/// The lower-case form of `s`, as `str::to_lowercase` gives it.
pub uninterp spec fn lower_of(s: Seq<char>) -> Seq<char>;

/// Relies on `str::to_lowercase`: its result depends on the characters of `s`
/// alone.
#[verifier::external_body]
fn lowercase(s: &str) -> (r: String)
    ensures
        r@ == lower_of(s@),
{
    s.to_lowercase()
}

/// Composes the message as `compose_commit_message` does, with the summary
/// first put in lower case when `fold_case` is set.
pub fn compose_commit_message_with(
    conventional_commit: &ConventionalCommitType,
    scope: &str,
    short_commit_message: &str,
    long_commit_message: &str,
    fold_case: bool,
) -> (r: String)
    ensures
        r@ == commit_message(
            conventional_commit.class@,
            scope@,
            if fold_case {
                lower_of(short_commit_message@)
            } else {
                short_commit_message@
            },
            long_commit_message@,
        ),
{
    if fold_case {
        let folded = lowercase(short_commit_message);
        compose_commit_message(conventional_commit, scope, folded.as_str(), long_commit_message)
    } else {
        compose_commit_message(conventional_commit, scope, short_commit_message, long_commit_message)
    }
}

/// With no scope and no body the message is the class, a colon and a space,
/// then the summary.
pub proof fn lemma_message_without_scope(t: ConventionalCommitType, msg: Seq<char>)
    ensures
        commit_message(t.class@, Seq::empty(), msg, Seq::empty()) == t.class@ + ": "@ + msg,
{
}

/// With a scope and no body the message is the class, the scope in
/// parentheses, a colon and a space, then the summary.
pub proof fn lemma_message_with_scope(t: ConventionalCommitType, s: Seq<char>, msg: Seq<char>)
    requires
        s.len() != 0,
    ensures
        commit_message(t.class@, s, msg, Seq::empty()) == t.class@ + "("@ + s + "): "@ + msg,
{
}

/// A non-empty body comes last, after a blank line, and what precedes the
/// blank line is the message that the same inputs give without a body.
pub proof fn lemma_body_is_suffix(
    t: ConventionalCommitType,
    s: Seq<char>,
    msg: Seq<char>,
    long: Seq<char>,
)
    requires
        long.len() != 0,
    ensures
        ({
            let full = commit_message(t.class@, s, msg, long);
            let tail = "\n\n"@ + long;
            &&& tail.len() <= full.len()
            &&& full.subrange(full.len() - tail.len(), full.len() as int) == tail
            &&& full.subrange(0, full.len() - tail.len()) == commit_message(
                t.class@,
                s,
                msg,
                Seq::empty(),
            )
        }),
{
    let head = commit_message(t.class@, s, msg, Seq::empty());
    let full = commit_message(t.class@, s, msg, long);
    let tail = "\n\n"@ + long;
    assert(full == head + tail);
    assert(full.subrange(full.len() - tail.len(), full.len() as int) =~= tail);
    assert(full.subrange(0, full.len() - tail.len()) =~= head);
}

/// Two messages composed from the same inputs are the same text.
pub proof fn lemma_compose_deterministic(
    t: ConventionalCommitType,
    scope: Seq<char>,
    short: Seq<char>,
    long: Seq<char>,
    first: String,
    second: String,
)
    requires
        first@ == commit_message(t.class@, scope, short, long),
        second@ == commit_message(t.class@, scope, short, long),
    ensures
        first@ == second@,
{
}

} // verus!
