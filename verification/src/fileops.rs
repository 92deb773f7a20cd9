//! The data file, as text.
//!
//! Actors and abilities are kept in one flat file:
//!
//! ```text
//! _ACTORS_
//! [UID]:[Name]:[Position]:[Fatigue]:[Abilities]
//! ...
//! _ABILITIES_
//! [UID]:[Name]:[Potency]:[Aspects]
//! ...
//! ```
//!
//! Reading and writing the file is left to the caller. What stands here is
//! what is done to its text: cutting it into lines, finding the line of an
//! actor, putting a line in or replacing it, and joining the lines again.

use vstd::prelude::*;

use crate::ability::{ability_line, Ability};
use crate::actor::{actor_line, Actor};
use crate::text::{uid_text, uuid_text};

verus! {

/// The text of the line that begins the actors.
pub open spec fn actor_header() -> Seq<char> {
    "_ACTORS_"@
}

/// The text of the line that begins the abilities.
pub open spec fn ability_header() -> Seq<char> {
    "_ABILITIES_"@
}

/// The lines of a list, as texts.
pub open spec fn texts(lines: Seq<String>) -> Seq<Seq<char>> {
    lines.map_values(|l: String| l@)
}

/// `needle` stands in `text` at position `at`.
pub open spec fn occurs_at(text: Seq<char>, needle: Seq<char>, at: int) -> bool {
    &&& 0 <= at
    &&& at + needle.len() <= text.len()
    &&& text.subrange(at, at + needle.len()) == needle
}

/// `text` begins with `prefix`.
pub open spec fn has_prefix(text: Seq<char>, prefix: Seq<char>) -> bool {
    occurs_at(text, prefix, 0)
}

/// `needle` stands somewhere in `text`.
pub open spec fn has_part(text: Seq<char>, needle: Seq<char>) -> bool {
    exists|at: int| occurs_at(text, needle, at)
}

/// The lines of a text: what stands between its line feeds. A text without
/// a line feed is one line; a text that ends in a line feed has an empty
/// last line.
pub open spec fn lines_of(text: Seq<char>) -> Seq<Seq<char>>
    decreases text.len(),
{
    if text.len() == 0 {
        seq![Seq::empty()]
    } else {
        let before = lines_of(text.drop_last());
        if text.last() == '\n' {
            before.push(Seq::empty())
        } else {
            before.update(before.len() - 1, before.last().push(text.last()))
        }
    }
}

/// The text of the given lines, with a line feed between each two.
pub open spec fn joined(lines: Seq<Seq<char>>) -> Seq<char>
    decreases lines.len(),
{
    if lines.len() == 0 {
        Seq::empty()
    } else if lines.len() == 1 {
        lines[0]
    } else {
        joined(lines.drop_last()) + seq!['\n'] + lines.last()
    }
}

/// The first line at or after `from` that is the place of an actor with the
/// given identity: the line that begins with the identity, or the line that
/// begins the abilities, whichever comes first. The number of lines if
/// there is none.
pub open spec fn actor_slot(lines: Seq<Seq<char>>, uid: Seq<char>, from: int) -> int
    decreases lines.len() - from,
{
    if from >= lines.len() {
        lines.len() as int
    } else if has_part(lines[from], ability_header()) || has_prefix(lines[from], uid) {
        from
    } else {
        actor_slot(lines, uid, from + 1)
    }
}

/// The lines after the line of an actor has been put in: before the line
/// that begins the abilities if the actor is new, in place of its old line
/// otherwise. Lines without either are left as they are.
pub open spec fn with_actor(lines: Seq<Seq<char>>, uid: Seq<char>, line: Seq<char>) -> Seq<Seq<char>> {
    let slot = actor_slot(lines, uid, 0);
    if slot >= lines.len() {
        lines
    } else if has_part(lines[slot], ability_header()) {
        lines.insert(slot, line)
    } else {
        lines.update(slot, line)
    }
}

/// The first line at or after `from` that begins with the given identity;
/// the number of lines if there is none.
pub open spec fn ability_slot(lines: Seq<Seq<char>>, uid: Seq<char>, from: int) -> int
    decreases lines.len() - from,
{
    if from >= lines.len() {
        lines.len() as int
    } else if has_prefix(lines[from], uid) {
        from
    } else {
        ability_slot(lines, uid, from + 1)
    }
}

/// The lines after the line of an ability has been put in: in place of its
/// old line, or at the end if the ability is new.
pub open spec fn with_ability(lines: Seq<Seq<char>>, uid: Seq<char>, line: Seq<char>) -> Seq<Seq<char>> {
    let slot = ability_slot(lines, uid, 0);
    if lines.len() == 0 {
        lines
    } else if slot >= lines.len() {
        lines.push(line)
    } else {
        lines.update(slot, line)
    }
}

/// The first line at or after `from` in which the given identity stands;
/// the number of lines if there is none.
pub open spec fn mention(lines: Seq<Seq<char>>, uid: Seq<char>, from: int) -> int
    decreases lines.len() - from,
{
    if from >= lines.len() {
        lines.len() as int
    } else if has_part(lines[from], uid) {
        from
    } else {
        mention(lines, uid, from + 1)
    }
}

/// Whether `needle` stands in `text` at the given position.
pub fn stands_at(text: &str, needle: &str, at: usize) -> (b: bool)
    ensures
        b == occurs_at(text@, needle@, at as int),
{
    let text_len = text.unicode_len();
    let needle_len = needle.unicode_len();
    if at > text_len || needle_len > text_len - at {
        return false;
    }
    let mut k: usize = 0;
    while k < needle_len
        invariant
            k <= needle_len,
            needle_len == needle@.len(),
            text_len == text@.len(),
            at + needle_len <= text_len,
            forall|j: int| 0 <= j < k ==> text@[at + j] == needle@[j],
        decreases needle_len - k,
    {
        if text.get_char(at + k) != needle.get_char(k) {
            assert(text@.subrange(at as int, at + needle_len)[k as int] != needle@[k as int]);
            return false;
        }
        k += 1;
    }
    assert(text@.subrange(at as int, at + needle_len) =~= needle@);
    true
}

/// Whether `text` begins with `prefix`.
pub fn starts_with(text: &str, prefix: &str) -> (b: bool)
    ensures
        b == has_prefix(text@, prefix@),
{
    stands_at(text, prefix, 0)
}

/// Whether `needle` stands somewhere in `text`.
pub fn contains(text: &str, needle: &str) -> (b: bool)
    ensures
        b == has_part(text@, needle@),
{
    let text_len = text.unicode_len();
    let mut at: usize = 0;
    while at < text_len
        invariant
            at <= text_len,
            text_len == text@.len(),
            forall|j: int| 0 <= j < at ==> !occurs_at(text@, needle@, j),
        decreases text_len - at,
    {
        if stands_at(text, needle, at) {
            return true;
        }
        at += 1;
    }
    stands_at(text, needle, text_len)
}

/// Cuts a text into its lines.
pub fn split_lines(data: &str) -> (lines: Vec<String>)
    ensures
        texts(lines@) == lines_of(data@),
        lines@.len() >= 1,
{
    let len = data.unicode_len();
    let mut lines: Vec<String> = Vec::new();
    let mut start: usize = 0;
    let mut i: usize = 0;
    assert(data@.take(0) =~= Seq::<char>::empty());
    assert(texts(lines@).push(data@.subrange(0, 0)) =~= lines_of(data@.take(0)));
    while i < len
        invariant
            start <= i <= len,
            len == data@.len(),
            texts(lines@).push(data@.subrange(start as int, i as int)) == lines_of(
                data@.take(i as int),
            ),
        decreases len - i,
    {
        let c = data.get_char(i);
        proof {
            let shorter = data@.take(i as int);
            let longer = data@.take(i + 1);
            assert(longer.drop_last() =~= shorter);
            assert(longer.last() == c);
        }
        if c == '\n' {
            let ghost before = texts(lines@);
            let ghost closed_line = data@.subrange(start as int, i as int);
            lines.push(data.substring_char(start, i).to_owned());
            start = i + 1;
            proof {
                assert(texts(lines@) =~= before.push(closed_line));
                assert(data@.subrange(start as int, i + 1) =~= Seq::<char>::empty());
            }
        } else {
            proof {
                let open_line = data@.subrange(start as int, i as int);
                assert(data@.subrange(start as int, i + 1) =~= open_line.push(c));
                let before = texts(lines@).push(open_line);
                assert(texts(lines@).push(open_line.push(c)) =~= before.update(
                    before.len() - 1,
                    before.last().push(c),
                ));
            }
        }
        i += 1;
    }
    let ghost closed = texts(lines@);
    lines.push(data.substring_char(start, len).to_owned());
    proof {
        assert(data@.take(len as int) =~= data@);
        assert(texts(lines@) =~= closed.push(data@.subrange(start as int, len as int)));
    }
    lines
}

/// Joins lines into one text, with a line feed between each two.
pub fn join_lines(lines: &Vec<String>) -> (data: String)
    ensures
        data@ == joined(texts(lines@)),
{
    let mut data = String::new();
    let mut i: usize = 0;
    let ghost all = texts(lines@);
    assert(all.take(0) =~= Seq::<Seq<char>>::empty());
    while i < lines.len()
        invariant
            i <= lines.len(),
            all == texts(lines@),
            data@ == joined(all.take(i as int)),
        decreases lines.len() - i,
    {
        proof {
            reveal_strlit("\n");
            assert(all.take(i + 1).drop_last() =~= all.take(i as int));
            assert(all.take(i + 1).last() == lines@[i as int]@);
        }
        if i > 0 {
            data.append("\n");
        }
        data.append(lines[i].as_str());
        proof {
            if i == 0 {
                assert(data@ =~= all.take(1)[0]);
            } else {
                assert(data@ =~= joined(all.take(i as int)) + seq!['\n'] + all.take(i + 1).last());
            }
        }
        i += 1;
    }
    assert(all.take(i as int) =~= all);
    data
}

/// The first line at or after `from` in which the identity stands.
pub fn find_mention(lines: &Vec<String>, uid: &str, from: usize) -> (at: usize)
    ensures
        at == mention(texts(lines@), uid@, from as int),
        from <= at || at == lines@.len(),
    decreases lines@.len() - from,
{
    if from >= lines.len() {
        lines.len()
    } else if contains(lines[from].as_str(), uid) {
        from
    } else {
        find_mention(lines, uid, from + 1)
    }
}

/// Puts the line of an actor with the given identity among the lines.
pub fn put_actor(lines: &mut Vec<String>, uid: &str, line: String)
    ensures
        texts(final(lines)@) == with_actor(texts(old(lines)@), uid@, line@),
{
    let ghost before = texts(lines@);
    let mut i: usize = 0;
    while i < lines.len()
        invariant
            i <= lines.len(),
            lines@ == old(lines)@,
            before == texts(lines@),
            actor_slot(before, uid@, i as int) == actor_slot(before, uid@, 0),
        decreases lines.len() - i,
    {
        // Did not find the actor: a new entry goes before the abilities
        if contains(lines[i].as_str(), "_ABILITIES_") {
            lines.insert(i, line);
            assert(texts(lines@) =~= before.insert(i as int, line@));
            return ;
        }
        // Found the actor: its line is overwritten
        if starts_with(lines[i].as_str(), uid) {
            lines.set(i, line);
            assert(texts(lines@) =~= before.update(i as int, line@));
            return ;
        }
        i += 1;
    }
}

/// Puts the line of an ability with the given identity among the lines.
pub fn put_ability(lines: &mut Vec<String>, uid: &str, line: String)
    ensures
        texts(final(lines)@) == with_ability(texts(old(lines)@), uid@, line@),
{
    let ghost before = texts(lines@);
    let mut i: usize = 0;
    while i < lines.len()
        invariant
            i <= lines.len(),
            lines@ == old(lines)@,
            before == texts(lines@),
            ability_slot(before, uid@, i as int) == ability_slot(before, uid@, 0),
        decreases lines.len() - i,
    {
        // Found the ability: its line is overwritten
        if starts_with(lines[i].as_str(), uid) {
            lines.set(i, line);
            assert(texts(lines@) =~= before.update(i as int, line@));
            return ;
        }
        i += 1;
    }
    // The end is reached: a new entry is added
    if lines.len() > 0 {
        lines.push(line);
        assert(texts(lines@) =~= before.push(line@));
    }
}

/// The text of a data file that holds neither actors nor abilities.
pub fn template() -> (data: String)
    ensures
        data@ == "_ACTORS_\n_ABILITIES_"@,
{
    "_ACTORS_\n_ABILITIES_".to_owned()
}

/// The line of the actor in the text of a data file: the first line in
/// which the identity of the actor stands, if there is one.
pub fn read_actor(data: &str, actor: &Actor) -> (r: Option<String>)
    ensures
        ({
            let lines = lines_of(data@);
            let at = mention(lines, uuid_text(actor@.uid@), 0);
            match r {
                Some(line) => at < lines.len() && line@ == lines[at],
                None => at >= lines.len(),
            }
        }),
{
    let lines = split_lines(data);
    let uid = uid_text(actor.uid());
    let at = find_mention(&lines, uid.as_str(), 0);
    if at < lines.len() {
        assert(texts(lines@)[at as int] == lines@[at as int]@);
        Some(lines[at].clone())
    } else {
        None
    }
}

/// The text of a data file after the actor has been written to it: its
/// line replaces the line that begins with its identity, or is put before
/// the line that begins the abilities.
pub fn write_actor(data: &str, actor: &Actor) -> (r: String)
    ensures
        r@ == joined(
            with_actor(
                lines_of(data@),
                uuid_text(actor@.uid@),
                actor_line(uuid_text(actor@.uid@), actor@),
            ),
        ),
{
    let mut data_lines = split_lines(data);
    let uid = uid_text(actor.uid());
    put_actor(&mut data_lines, uid.as_str(), actor.line_with(uid.as_str()));
    join_lines(&data_lines)
}

/// The text of a data file after the ability has been written to it: its
/// line replaces the line that begins with its identity, or is put at the
/// end.
pub fn write_ability(data: &str, abil: &Ability) -> (r: String)
    ensures
        r@ == joined(
            with_ability(
                lines_of(data@),
                uuid_text(abil@.uid@),
                ability_line(uuid_text(abil@.uid@), abil@),
            ),
        ),
{
    let mut data_lines = split_lines(data);
    let uid = uid_text(abil.uid());
    put_ability(&mut data_lines, uid.as_str(), abil.line_with(uid.as_str()));
    join_lines(&data_lines)
}

/// Cutting a text into lines and joining them again gives the text back.
pub proof fn lemma_join_undoes_split(text: Seq<char>)
    ensures
        lines_of(text).len() >= 1,
        joined(lines_of(text)) == text,
    decreases text.len(),
{
    if text.len() > 0 {
        let shorter = text.drop_last();
        lemma_join_undoes_split(shorter);
        let before = lines_of(shorter);
        if text.last() == '\n' {
            let after = before.push(Seq::<char>::empty());
            assert(after.drop_last() =~= before);
            assert(joined(after) =~= text);
        } else {
            let after = before.update(before.len() - 1, before.last().push(text.last()));
            if before.len() == 1 {
                assert(joined(after) =~= text);
            } else {
                assert(after.drop_last() =~= before.drop_last());
                assert(joined(after) =~= joined(before) + seq![text.last()]);
                assert(joined(after) =~= text);
            }
        }
    } else {
        assert(joined(lines_of(text)) =~= text);
    }
}

} // verus!
