//! The journal's content: one block per saved record, the newest first.
//!
//! Reading and writing the journal file is the caller's part. This module
//! says what the file holds after a save, given what it held before.

use crate::entry::{labelled_line, lemma_plaintext_holds_brand, CoffeeEntry, CoffeeEntryView};
use crate::text::occurs_at;
use vstd::prelude::*;
use vstd::string::*;

verus! {

/// What a journal holds before a save: the content read from it, or nothing
/// where there is no journal yet.
pub open spec fn content_before(existing: Option<&str>) -> Seq<char> {
    match existing {
        Some(content) => content@,
        None => Seq::empty(),
    }
}

/// What a journal holds after a save: the new block, a line feed, and then
/// all it held before.
pub open spec fn prepended(rendered: Seq<char>, existing: Seq<char>) -> Seq<char> {
    rendered + seq!['\n'] + existing
}

/// The new block stands at the top of the journal, and whatever stood in the
/// journal before still stands there, moved down by the block and one line
/// feed.
pub proof fn lemma_prepended_order(
    rendered: Seq<char>,
    existing: Seq<char>,
    earlier: Seq<char>,
    at: int,
)
    requires
        occurs_at(existing, earlier, at),
    ensures
        occurs_at(prepended(rendered, existing), rendered, 0),
        occurs_at(prepended(rendered, existing), earlier, rendered.len() + 1 + at),
{
    let content = prepended(rendered, existing);
    let moved = rendered.len() + 1 + at;
    assert(content.subrange(0, rendered.len() as int) =~= rendered);
    assert(content.subrange(moved, moved + earlier.len()) =~= existing.subrange(
        at,
        at + earlier.len(),
    ));
}

/// Saving `older` to an empty journal, and then `newer`, leaves a journal
/// made of the newer block, a line feed, the older block and a line feed:
/// the newer block stands strictly before the older one.
pub proof fn lemma_newest_block_first(older: Seq<char>, newer: Seq<char>)
    ensures
        ({
            let content = prepended(newer, prepended(older, Seq::empty()));
            &&& content == newer + seq!['\n'] + older + seq!['\n']
            &&& occurs_at(content, newer, 0)
            &&& occurs_at(content, older, newer.len() as int + 1)
            &&& 0 < newer.len() + 1
        }),
{
    let first = prepended(older, Seq::empty());
    let content = prepended(newer, first);
    assert(first =~= older + seq!['\n']);
    assert(content =~= newer + seq!['\n'] + older + seq!['\n']);
    assert(first.subrange(0, older.len() as int) =~= older);
    lemma_prepended_order(newer, first, older, 0);
}

/// After two records are saved one after the other, starting from an empty
/// journal, the journal holds the brand line of each, and that of the newer
/// record stands before that of the older one.
pub proof fn lemma_newest_entry_first(older: CoffeeEntryView, newer: CoffeeEntryView)
    ensures
        ({
            let content = prepended(
                newer.plaintext(),
                prepended(older.plaintext(), Seq::empty()),
            );
            let newer_at = newer.timestamp.text().len() as int + 1;
            let older_at = newer.plaintext().len() as int + 1 + older.timestamp.text().len() + 1;
            &&& occurs_at(content, labelled_line("Brand: "@, newer.brand), newer_at)
            &&& occurs_at(content, labelled_line("Brand: "@, older.brand), older_at)
            &&& newer_at < older_at
        }),
{
    let first = prepended(older.plaintext(), Seq::empty());
    let content = prepended(newer.plaintext(), first);
    let older_line = labelled_line("Brand: "@, older.brand);
    let newer_line = labelled_line("Brand: "@, newer.brand);
    let newer_at = newer.timestamp.text().len() as int + 1;
    lemma_plaintext_holds_brand(older);
    lemma_plaintext_holds_brand(newer);
    // The older brand line within the journal after the first save.
    let in_first = older.timestamp.text().len() as int + 1;
    assert(first.subrange(in_first, in_first + older_line.len()) =~= older.plaintext().subrange(
        in_first,
        in_first + older_line.len(),
    ));
    lemma_prepended_order(newer.plaintext(), first, older_line, in_first);
    // The newer brand line lies within the newer block, which stands first.
    assert(content.subrange(newer_at, newer_at + newer_line.len())
        =~= newer.plaintext().subrange(newer_at, newer_at + newer_line.len()));
}

/// The journal's content after `rendered_text` is saved: the block, a line
/// feed, and what the journal held before. Without a journal (`None`) that is
/// the block and a line feed.
pub fn prepend_entry(rendered_text: &str, existing: Option<&str>) -> (content: String)
    ensures
        content@ == prepended(rendered_text@, content_before(existing)),
        existing is None ==> content@ == rendered_text@ + seq!['\n'],
        occurs_at(content@, rendered_text@, 0),
{
    proof {
        reveal_strlit("\n");
    }
    let mut content = String::from_str(rendered_text);
    content.append("\n");
    match existing {
        Some(earlier) => {
            content.append(earlier);
        },
        None => {},
    }
    let ghost before = content_before(existing);
    assert(content@ =~= prepended(rendered_text@, before));
    assert(content@.subrange(0, rendered_text@.len() as int) =~= rendered_text@);
    content
}

/// The journal's content after `entry` is saved: its block, a line feed, and
/// what the journal held before.
pub fn journal_with_entry(entry: &CoffeeEntry, existing: Option<&str>) -> (content: String)
    ensures
        content@ == prepended(entry@.plaintext(), content_before(existing)),
        existing is None ==> content@ == entry@.plaintext() + seq!['\n'],
        occurs_at(content@, entry@.plaintext(), 0),
{
    let rendered = entry.to_plaintext();
    prepend_entry(rendered.as_str(), existing)
}

} // verus!
