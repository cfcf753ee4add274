//! Quoting a file name for the unpack command.
//!
//! The quoting is minimal: a name with a space or a tab in it is put between
//! double quotes, and the double quotes it holds get a backslash. Any other
//! name is used as it is.

use vstd::prelude::*;
use vstd::string::StringExecFns;

verus! {

/// A character that makes quoting necessary: a space or a tab.
pub open spec fn is_blank(c: char) -> bool {
    c == ' ' || c == '\t'
}

/// The name holds a space or a tab.
pub open spec fn needs_quotes(name: Seq<char>) -> bool {
    exists|i: int| 0 <= i < name.len() && is_blank(#[trigger] name[i])
}

/// What one character of a name becomes between double quotes: a double quote
/// gets a backslash in front, any other character stays.
pub open spec fn escaped_char(c: char) -> Seq<char> {
    if c == '"' {
        seq!['\\', '"']
    } else {
        seq![c]
    }
}

/// The name with a backslash in front of each double quote.
pub open spec fn backslashed(name: Seq<char>) -> Seq<char>
    decreases name.len(),
{
    if name.len() == 0 {
        Seq::empty()
    } else {
        backslashed(name.drop_last()) + escaped_char(name.last())
    }
}

/// The name as the unpack command shows it.
pub open spec fn escaped_filename(name: Seq<char>) -> Seq<char> {
    if needs_quotes(name) {
        seq!['"'] + backslashed(name) + seq!['"']
    } else {
        name
    }
}

/// `String::push` appends one character to the end of the string.
pub assume_specification[ String::push ](s: &mut String, ch: char)
    ensures
        final(s)@ == old(s)@.push(ch),
;

/// Tells whether the name holds a space or a tab.
pub fn has_blank(name: &str) -> (found: bool)
    ensures
        found == needs_quotes(name@),
{
    for c in it: name.chars()
        invariant
            it.seq() == name@,
            forall|k: int| 0 <= k < it.index() ==> !is_blank(#[trigger] name@[k]),
    {
        if c == ' ' || c == '\t' {
            assert(is_blank(name@[it.index() as int]));
            return true;
        }
    }
    false
}

/// Prepares a file name for the unpack command: quotes it where it holds a
/// space or a tab, and leaves it alone otherwise.
pub fn escape_filename(name: &str) -> (shown: String)
    ensures
        shown@ == escaped_filename(name@),
{
    if !has_blank(name) {
        return String::from_str(name);
    }
    let mut shown = String::new();
    shown.push('"');
    for c in it: name.chars()
        invariant
            it.seq() == name@,
            shown@ == seq!['"'] + backslashed(name@.subrange(0, it.index() as int)),
    {
        proof {
            let done = name@.subrange(0, it.index() + 1);
            assert(done.drop_last() =~= name@.subrange(0, it.index() as int));
            assert(done.last() == c);
        }
        if c == '"' {
            shown.push('\\');
        }
        shown.push(c);
        assert(shown@ =~= seq!['"'] + backslashed(name@.subrange(0, it.index() + 1)));
    }
    assert(name@.subrange(0, name@.len() as int) =~= name@);
    shown.push('"');
    assert(shown@ =~= escaped_filename(name@));
    shown
}

/// `part` stands somewhere in `whole`, character for character.
pub open spec fn occurs_in(part: Seq<char>, whole: Seq<char>) -> bool {
    exists|at: int|
        0 <= at && at + part.len() <= whole.len() && #[trigger] whole.subrange(
            at,
            at + part.len(),
        ) == part
}

/// The name holds a double quote.
pub open spec fn has_double_quote(name: Seq<char>) -> bool {
    exists|i: int| 0 <= i < name.len() && #[trigger] name[i] == '"'
}

/// A name without a space or a tab is shown unchanged, whatever else it
/// holds.
pub proof fn lemma_plain_name_unchanged(name: Seq<char>)
    requires
        !needs_quotes(name),
    ensures
        escaped_filename(name) == name,
{
}

/// A name with a space or a tab is wrapped whole: what is shown opens and
/// closes with a double quote, and between the two stands the name with its
/// double quotes backslashed.
pub proof fn lemma_blank_name_wrapped(name: Seq<char>)
    requires
        needs_quotes(name),
    ensures
        escaped_filename(name).len() == backslashed(name).len() + 2,
        escaped_filename(name).first() == '"',
        escaped_filename(name).last() == '"',
        escaped_filename(name).subrange(1, escaped_filename(name).len() - 1) == backslashed(name),
{
    let shown = escaped_filename(name);
    assert(shown.subrange(1, shown.len() - 1) =~= backslashed(name));
}

/// In a backslashed name every double quote has a backslash in front of it.
pub proof fn lemma_quotes_backslashed(name: Seq<char>, i: int)
    requires
        0 <= i < backslashed(name).len(),
        backslashed(name)[i] == '"',
    ensures
        i > 0,
        backslashed(name)[i - 1] == '\\',
    decreases name.len(),
{
    if name.len() > 0 {
        let front = backslashed(name.drop_last());
        if i < front.len() {
            lemma_quotes_backslashed(name.drop_last(), i);
        }
    }
}

/// In what is shown of a name with a space or a tab, every double quote
/// between the two that wrap it has a backslash in front of it.
pub proof fn lemma_inner_quotes_backslashed(name: Seq<char>, i: int)
    requires
        needs_quotes(name),
        0 < i < escaped_filename(name).len() - 1,
        escaped_filename(name)[i] == '"',
    ensures
        escaped_filename(name)[i - 1] == '\\',
{
    lemma_quotes_backslashed(name, i - 1);
}

/// A name without a double quote is not changed by backslashing.
pub proof fn lemma_backslashed_without_quotes(name: Seq<char>)
    requires
        !has_double_quote(name),
    ensures
        backslashed(name) == name,
    decreases name.len(),
{
    if name.len() > 0 {
        let front = name.drop_last();
        assert forall|i: int| 0 <= i < front.len() implies front[i] != '"' by {
            assert(front[i] == name[i]);
        }
        lemma_backslashed_without_quotes(front);
        assert(name.last() == name[name.len() - 1]);
    }
    assert(backslashed(name) =~= name);
}

/// What is shown of a name holds the name itself, character for character,
/// unless the name has both a blank and a double quote: then the backslashes
/// part it.
pub proof fn lemma_escaped_holds_name(name: Seq<char>)
    requires
        !(needs_quotes(name) && has_double_quote(name)),
    ensures
        occurs_in(name, escaped_filename(name)),
{
    let shown = escaped_filename(name);
    if needs_quotes(name) {
        lemma_backslashed_without_quotes(name);
        assert(shown.subrange(1, 1 + name.len() as int) =~= name);
    } else {
        assert(shown.subrange(0, 0 + name.len() as int) =~= name);
    }
}

} // verus!
