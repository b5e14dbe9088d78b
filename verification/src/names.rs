//! Names the tool derives: archive member names, the in-flight sibling of a
//! file being transcoded, and the extensions of the archive and its backup.

use vstd::prelude::*;

verus! {

/// What `String::push` does to the text: the character is added at the end.
pub assume_specification[ String::push ](text: &mut String, ch: char)
    ensures
        final(text)@ == old(text)@.push(ch),
;

/// The separator every archive member name uses, whatever the host uses.
pub open spec fn normalized_char(c: char) -> char {
    if c == '\\' {
        '/'
    } else {
        c
    }
}

/// The archive member name of a path relative to the working root: the same
/// text with every backslash turned into a forward slash.
pub open spec fn member_name(relative_path: Seq<char>) -> Seq<char> {
    relative_path.map_values(|c: char| normalized_char(c))
}

/// Computes the archive member name of `relative_path`.
pub fn entry_name(relative_path: &str) -> (name: String)
    ensures
        name@ == member_name(relative_path@),
{
    let mut name = String::new();
    for c in chars: relative_path.chars()
        invariant
            chars.seq() == relative_path@,
            name@ == member_name(relative_path@.take(chars.index())),
    {
        proof {
            let done = chars.index();
            assert(relative_path@.take(done + 1) =~= relative_path@.take(done).push(c));
            assert(member_name(relative_path@.take(done + 1)) =~= member_name(
                relative_path@.take(done),
            ).push(normalized_char(c)));
        }
        name.push(normalized(c));
    }
    proof {
        assert(relative_path@.take(relative_path@.len() as int) =~= relative_path@);
    }
    name
}

fn normalized(c: char) -> (n: char)
    ensures
        n == normalized_char(c),
{
    if c == '\\' {
        '/'
    } else {
        c
    }
}

/// The extension of the archive format.
pub const ARCHIVE_EXTENSION: &'static str = "xp3";

/// The extension the input archive is renamed to before a new one is
/// written in its place.
pub const BACKUP_EXTENSION: &'static str = "xp3.bak";

/// The position of the last dot in `name`, or -1 if it has none.
pub open spec fn last_dot(name: Seq<char>) -> int
    decreases name.len(),
{
    if name.len() == 0 {
        -1
    } else if name.last() == '.' {
        name.len() - 1
    } else {
        last_dot(name.drop_last())
    }
}

/// A file name without its extension: what stands before the last dot. A
/// name without a dot, or whose only dot opens it, has no extension.
pub open spec fn stem_of(name: Seq<char>) -> Seq<char> {
    if last_dot(name) <= 0 {
        name
    } else {
        name.take(last_dot(name))
    }
}

/// A file name with its extension replaced. An empty extension only removes
/// the old one.
pub open spec fn with_extension(name: Seq<char>, extension: Seq<char>) -> Seq<char> {
    if extension.len() == 0 {
        stem_of(name)
    } else {
        stem_of(name).push('.') + extension
    }
}

/// Replaces the extension of a file name (not of a path: `file_name` is the
/// last component, without separators).
pub fn replace_extension(file_name: &str, extension: &str) -> (name: String)
    ensures
        name@ == with_extension(file_name@, extension@),
{
    let length = file_name.unicode_len();
    let mut dot: Option<usize> = None;
    let mut seen: usize = 0;
    proof {
        assert(file_name@.take(0) =~= Seq::<char>::empty());
    }
    for c in chars: file_name.chars()
        invariant
            chars.seq() == file_name@,
            length == file_name@.len(),
            seen == chars.index(),
            dot is None ==> last_dot(file_name@.take(seen as int)) == -1,
            dot matches Some(at) ==> last_dot(file_name@.take(seen as int)) == at,
    {
        proof {
            let longer = file_name@.take(seen + 1);
            assert(longer.drop_last() =~= file_name@.take(seen as int));
            assert(longer.last() == c);
        }
        if c == '.' {
            dot = Some(seen);
        }
        seen = seen + 1;
    }
    proof {
        assert(file_name@.take(seen as int) =~= file_name@);
        last_dot_is_inside(file_name@);
    }
    let stem = match dot {
        Some(at) => if at > 0 {
            file_name.substring_char(0, at)
        } else {
            file_name
        },
        None => file_name,
    };
    let mut name = stem.to_string();
    if !extension.is_empty() {
        name.push('.');
        name.append(extension);
    }
    name
}

/// The last dot, if there is one, is a position of the name.
pub proof fn last_dot_is_inside(name: Seq<char>)
    ensures
        -1 <= last_dot(name) < name.len(),
        last_dot(name) >= 0 ==> name[last_dot(name)] == '.',
    decreases name.len(),
{
    if name.len() > 0 && name.last() != '.' {
        last_dot_is_inside(name.drop_last());
    }
}

/// The name of the archive that is written for an input called `file_name`:
/// the same name with the archive extension.
pub fn archive_file_name(file_name: &str) -> (name: String)
    ensures
        name@ == with_extension(file_name@, ARCHIVE_EXTENSION@),
{
    replace_extension(file_name, ARCHIVE_EXTENSION)
}

/// The name an archive called `file_name` is renamed to before a new archive
/// takes its place.
pub fn backup_file_name(file_name: &str) -> (name: String)
    ensures
        name@ == with_extension(file_name@, BACKUP_EXTENSION@),
{
    replace_extension(file_name, BACKUP_EXTENSION)
}

} // verus!
