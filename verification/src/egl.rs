//! Finding the directory of the process's GL libraries.
//!
//! On some systems `libEGL.so.1` is in no standard search path, while the host has already mapped
//! `libGL` or `libGLdispatch` from the directory that holds it. The memory map of the process
//! (`/proc/self/maps`) names that directory.

use vstd::prelude::*;

use crate::text::{
    characters, contains_text, has_part, occurs_at, text_of, text_view, texts_view, white_space,
};

verus! {

/// How many names the EGL library is tried under.
pub const EGL_NAMES: usize = 2;

/// The names under which the EGL library is tried, in order.
pub open spec fn egl_names() -> Seq<Seq<char>> {
    seq!["libEGL.so.1"@, "libEGL.so"@]
}

/// The names under which the EGL library is tried, in order.
pub fn egl_library_names() -> (r: Vec<String>)
    ensures
        texts_view(r@) == egl_names(),
{
    let mut names: Vec<String> = Vec::new();
    names.push("libEGL.so.1".to_owned());
    names.push("libEGL.so".to_owned());
    proof {
        assert(texts_view(names@) =~= egl_names());
    }
    names
}

/// The longest suffix of a text that holds no white space.
pub open spec fn trailing_word(text: Seq<char>) -> Seq<char>
    decreases text.len(),
{
    if text.len() == 0 || white_space(text.last()) {
        Seq::empty()
    } else {
        trailing_word(text.drop_last()).push(text.last())
    }
}

/// The last word of a line: white space separates words.
pub open spec fn last_word(line: Seq<char>) -> Option<Seq<char>>
    decreases line.len(),
{
    if line.len() == 0 {
        None
    } else if white_space(line.last()) {
        last_word(line.drop_last())
    } else {
        Some(trailing_word(line))
    }
}

/// Whether a path is that of a GL library.
pub open spec fn names_gl_library(path: Seq<char>) -> bool {
    ||| contains_text(path, "libGL"@)
    ||| contains_text(path, "libGLdispatch"@)
    ||| contains_text(path, "libglvnd"@)
}

/// The first line break at or after `from`, or the end of the text.
pub open spec fn line_end(text: Seq<char>, from: int) -> int
    decreases text.len() - from,
{
    if from >= text.len() {
        text.len() as int
    } else if text[from] == '\n' {
        from
    } else {
        line_end(text, from + 1)
    }
}

/// The GL library that a line of the memory map ends in, if any.
pub open spec fn line_library(line: Seq<char>) -> Seq<Seq<char>> {
    match last_word(line) {
        Some(path) => if names_gl_library(path) {
            seq![path]
        } else {
            seq![]
        },
        None => seq![],
    }
}

/// The GL libraries that the lines from `from` on end in, in order.
pub open spec fn libraries_from(maps: Seq<char>, from: int) -> Seq<Seq<char>>
    decreases maps.len() - from,
{
    if from < 0 || from > maps.len() {
        seq![]
    } else {
        let end = line_end(maps, from);
        let here = line_library(maps.subrange(from, end));
        if from <= end < maps.len() {
            here + libraries_from(maps, end + 1)
        } else {
            here
        }
    }
}

proof fn line_end_skips(text: Seq<char>, from: int, to: int)
    requires
        0 <= from <= to <= text.len(),
        forall|k: int| from <= k < to ==> text[k] != '\n',
        to == text.len() || text[to] == '\n',
    ensures
        line_end(text, from) == to,
    decreases to - from,
{
    if from < to {
        line_end_skips(text, from + 1, to);
    }
}

proof fn last_word_ends(line: Seq<char>, end: int)
    requires
        0 <= end <= line.len(),
        forall|k: int| end <= k < line.len() ==> white_space(line[k]),
    ensures
        last_word(line) == last_word(line.take(end)),
    decreases line.len() - end,
{
    if end == line.len() {
        assert(line.take(end) =~= line);
    } else {
        last_word_ends(line.drop_last(), end);
        assert(line.drop_last().take(end) =~= line.take(end));
    }
}

proof fn trailing_word_starts(text: Seq<char>, start: int)
    requires
        0 <= start <= text.len(),
        forall|k: int| start <= k < text.len() ==> !white_space(text[k]),
        start == 0 || white_space(text[start - 1]),
    ensures
        trailing_word(text) == text.skip(start),
    decreases text.len() - start,
{
    if start == text.len() {
        assert(text.skip(start) =~= Seq::<char>::empty());
    } else {
        trailing_word_starts(text.drop_last(), start);
        assert(text.drop_last().skip(start).push(text.last()) =~= text.skip(start));
    }
}

/// Finds the last word of characters `from..to`.
fn last_word_span(chars: &Vec<char>, from: usize, to: usize) -> (r: Option<(usize, usize)>)
    requires
        from <= to <= chars.len(),
    ensures
        r is None <==> last_word(chars@.subrange(from as int, to as int)) is None,
        r matches Some((start, end)) ==> {
            &&& from <= start <= end <= to
            &&& last_word(chars@.subrange(from as int, to as int)) == Some(
                chars@.subrange(start as int, end as int),
            )
        },
{
    let ghost line = chars@.subrange(from as int, to as int);
    let mut end: usize = to;
    while end > from && chars[end - 1].is_whitespace()
        invariant
            from <= end <= to <= chars.len(),
            line == chars@.subrange(from as int, to as int),
            forall|k: int| end - from <= k < line.len() ==> white_space(#[trigger] line[k]),
        decreases end,
    {
        end = end - 1;
    }
    proof {
        last_word_ends(line, end - from);
    }
    if end == from {
        proof {
            assert(line.take(0).len() == 0);
        }
        return None;
    }
    let ghost text = line.take(end - from);
    let mut start: usize = end;
    while start > from && !chars[start - 1].is_whitespace()
        invariant
            from <= start <= end <= to <= chars.len(),
            line == chars@.subrange(from as int, to as int),
            text == line.take(end - from),
            forall|k: int| start - from <= k < text.len() ==> !white_space(#[trigger] text[k]),
        decreases start,
    {
        start = start - 1;
    }
    proof {
        assert(text.last() == chars@[end - 1]);
        trailing_word_starts(text, start - from);
        assert(text.skip(start - from) =~= chars@.subrange(start as int, end as int));
    }
    Some((start, end))
}

/// The GL libraries that the process has mapped, in the order in which `maps`, the text of its
/// memory map, names them. The EGL library is looked for in their directories.
pub fn gl_library_paths(maps: &str) -> (r: Vec<String>)
    ensures
        texts_view(r@) == libraries_from(maps@, 0),
{
    let chars: Vec<char> = characters(maps);
    let mut paths: Vec<String> = Vec::new();
    let mut from: usize = 0;
    loop
        invariant
            chars@ == maps@,
            from <= chars.len(),
            texts_view(paths@) + libraries_from(maps@, from as int) == libraries_from(maps@, 0),
        decreases chars.len() - from,
    {
        let mut to: usize = from;
        while to < chars.len() && chars[to] != '\n'
            invariant
                from <= to <= chars.len(),
                forall|k: int| from <= k < to ==> chars@[k] != '\n',
            decreases chars.len() - to,
        {
            to = to + 1;
        }
        let ghost before = texts_view(paths@);
        let ghost line = maps@.subrange(from as int, to as int);
        proof {
            line_end_skips(maps@, from as int, to as int);
        }
        match last_word_span(&chars, from, to) {
            Some((start, end)) => {
                if has_part(&chars, start, end, "libGL") || has_part(
                    &chars,
                    start,
                    end,
                    "libGLdispatch",
                ) || has_part(&chars, start, end, "libglvnd") {
                    let path: String = text_of(&chars, start, end);
                    paths.push(path);
                }
            },
            None => {},
        }
        proof {
            assert(texts_view(paths@) =~= before + line_library(line));
        }
        if to == chars.len() {
            proof {
                assert(libraries_from(maps@, from as int) == line_library(line));
            }
            return paths;
        }
        proof {
            assert(before + (line_library(line) + libraries_from(maps@, to + 1)) =~= (before
                + line_library(line)) + libraries_from(maps@, to + 1));
        }
        from = to + 1;
    }
}

/// A path without the separators and the `.` components that it ends in.
pub open spec fn trimmed(path: Seq<char>) -> Seq<char>
    decreases path.len(),
{
    if path.len() >= 1 && path.last() == '/' {
        trimmed(path.drop_last())
    } else if path.len() >= 2 && path.last() == '.' && path[path.len() - 2] == '/' {
        trimmed(path.drop_last())
    } else {
        path
    }
}

/// A path up to its last separator, with it. It is empty where the path has none.
pub open spec fn up_to_separator(path: Seq<char>) -> Seq<char>
    decreases path.len(),
{
    if path.len() == 0 || path.last() == '/' {
        path
    } else {
        up_to_separator(path.drop_last())
    }
}

/// A directory without the separators and the `.` components that it ends in, and with one
/// separator, such that a file's name can follow it. The root stays, and so does the empty path.
pub open spec fn with_separator(directory: Seq<char>) -> Seq<char> {
    if trimmed(directory).len() == 0 {
        if directory.len() == 0 {
            seq![]
        } else {
            seq!['/']
        }
    } else {
        trimmed(directory).push('/')
    }
}

/// The directory that holds what a path names, such that a file's name can follow it. The root and
/// the empty path are in no directory.
pub open spec fn directory_of(path: Seq<char>) -> Option<Seq<char>> {
    if trimmed(path).len() == 0 {
        None
    } else {
        Some(with_separator(up_to_separator(trimmed(path))))
    }
}

/// The directories of some libraries, in order.
pub open spec fn directories_of(libraries: Seq<Seq<char>>) -> Seq<Seq<char>>
    decreases libraries.len(),
{
    if libraries.len() == 0 {
        seq![]
    } else {
        let before = directories_of(libraries.drop_last());
        match directory_of(libraries.last()) {
            Some(directory) => before.push(directory),
            None => before,
        }
    }
}

/// Where the separators and the `.` components begin that characters `..end` end in.
fn trimmed_end(chars: &Vec<char>, end: usize) -> (r: usize)
    requires
        end <= chars.len(),
    ensures
        r <= end,
        trimmed(chars@.take(end as int)) == chars@.take(r as int),
{
    let mut to: usize = end;
    while to >= 1 && (chars[to - 1] == '/' || (to >= 2 && chars[to - 1] == '.' && chars[to - 2]
        == '/'))
        invariant
            to <= end <= chars.len(),
            trimmed(chars@.take(to as int)) == trimmed(chars@.take(end as int)),
        decreases to,
    {
        proof {
            assert(chars@.take(to as int).drop_last() =~= chars@.take(to - 1));
        }
        to = to - 1;
    }
    proof {
        assert(trimmed(chars@.take(to as int)) == chars@.take(to as int));
    }
    to
}

/// The directory that holds what a path names, such that a file's name can follow it.
pub fn directory(path: &str) -> (r: Option<String>)
    ensures
        text_view(r) == directory_of(path@),
{
    let chars: Vec<char> = characters(path);
    proof {
        assert(chars@.take(chars@.len() as int) =~= path@);
    }
    let end: usize = trimmed_end(&chars, chars.len());
    if end == 0 {
        return None;
    }
    let mut last: usize = end;
    while last > 0 && chars[last - 1] != '/'
        invariant
            last <= end <= chars.len(),
            up_to_separator(chars@.take(last as int)) == up_to_separator(chars@.take(end as int)),
        decreases last,
    {
        proof {
            assert(chars@.take(last as int).drop_last() =~= chars@.take(last - 1));
        }
        last = last - 1;
    }
    proof {
        assert(up_to_separator(chars@.take(last as int)) == chars@.take(last as int));
    }
    let to: usize = trimmed_end(&chars, last);
    let mut text: String = text_of(&chars, 0, to);
    proof {
        assert(chars@.take(to as int) =~= chars@.subrange(0, to as int));
    }
    if last > 0 {
        text.push('/');
    }
    proof {
        assert(text@ =~= with_separator(chars@.take(last as int)));
    }
    Some(text)
}

/// The path of the file called `name` in a directory that [`directory`] gave.
fn file_in(directory: &str, name: &str) -> (r: String)
    ensures
        r@ == directory@ + name@,
{
    let name: Vec<char> = characters(name);
    let mut path: String = directory.to_owned();
    let mut i: usize = 0;
    while i < name.len()
        invariant
            i <= name.len(),
            path@ == directory@ + name@.take(i as int),
        decreases name.len() - i,
    {
        path.push(name[i]);
        proof {
            assert(name@.take(i + 1) =~= name@.take(i as int).push(name@[i as int]));
            assert(path@ =~= directory@ + name@.take(i + 1));
        }
        i = i + 1;
    }
    proof {
        assert(name@.take(i as int) =~= name@);
    }
    path
}

/// How far the search for the EGL library has come.
#[derive(Clone, Copy, Debug, PartialEq, Eq, Structural)]
pub enum EglStage {
    /// Looking for `libEGL.so.1` in the directory with this index.
    Looking(usize),
    /// Loading the EGL library under the name with index `name`, from `directory`.
    Loading { directory: usize, name: usize },
    /// The EGL library was loaded.
    Loaded,
}

/// What the search for the EGL library needs next. The caller does it, and reports whether it
/// succeeded.
pub enum EglRequest {
    /// Look whether there is a file with this path.
    LookFor(String),
    /// Load the library with this path. A file that is missing counts as one that does not load.
    Load(String),
    /// Nothing: no directory holds the EGL library.
    NoDirectory,
    /// Nothing: the EGL library does not load.
    NotLoaded,
    /// Nothing: the EGL library is loaded.
    Loaded,
}

/// The contents of an [`EglRequest`].
pub enum EglRequestView {
    LookFor(Seq<char>),
    Load(Seq<char>),
    NoDirectory,
    NotLoaded,
    Loaded,
}

impl View for EglRequest {
    type V = EglRequestView;

    open spec fn view(&self) -> EglRequestView {
        match self {
            EglRequest::LookFor(path) => EglRequestView::LookFor(path@),
            EglRequest::Load(path) => EglRequestView::Load(path@),
            EglRequest::NoDirectory => EglRequestView::NoDirectory,
            EglRequest::NotLoaded => EglRequestView::NotLoaded,
            EglRequest::Loaded => EglRequestView::Loaded,
        }
    }
}

/// A search for the EGL library in the directories of the GL libraries that the process has mapped.
pub struct EglSearch {
    pub directories: Vec<String>,
    pub stage: EglStage,
}

impl EglSearch {
    /// The stage speaks of directories and names that exist, or stands at their end.
    pub open spec fn wf(self) -> bool {
        match self.stage {
            EglStage::Looking(directory) => directory <= self.directories@.len(),
            EglStage::Loading { directory, name } => directory < self.directories@.len() && name
                <= egl_names().len(),
            EglStage::Loaded => true,
        }
    }

    /// What the search needs next.
    pub open spec fn requested(self) -> EglRequestView {
        match self.stage {
            EglStage::Looking(directory) => if directory < self.directories@.len() {
                EglRequestView::LookFor(self.directories@[directory as int]@ + egl_names()[0])
            } else {
                EglRequestView::NoDirectory
            },
            EglStage::Loading { directory, name } => if name < egl_names().len() {
                EglRequestView::Load(
                    self.directories@[directory as int]@ + egl_names()[name as int],
                )
            } else {
                EglRequestView::NotLoaded
            },
            EglStage::Loaded => EglRequestView::Loaded,
        }
    }

    /// Whether the search has come to its end.
    pub open spec fn finished(self) -> bool {
        self.requested() is NoDirectory || self.requested() is NotLoaded
            || self.requested() is Loaded
    }

    /// The stage after what was requested succeeded or did not: the first directory that holds the
    /// library is taken, and the first name that loads.
    pub open spec fn next_stage(self, success: bool) -> EglStage {
        if self.finished() {
            self.stage
        } else {
            match self.stage {
                EglStage::Looking(directory) => if success {
                    EglStage::Loading { directory, name: 0 }
                } else {
                    EglStage::Looking((directory + 1) as usize)
                },
                EglStage::Loading { directory, name } => if success {
                    EglStage::Loaded
                } else {
                    EglStage::Loading { directory, name: (name + 1) as usize }
                },
                EglStage::Loaded => EglStage::Loaded,
            }
        }
    }

    /// How many more reports the search can take at most.
    pub open spec fn remaining(self) -> int {
        match self.stage {
            EglStage::Looking(directory) => self.directories@.len() - directory + egl_names().len(),
            EglStage::Loading { name, .. } => egl_names().len() - name,
            EglStage::Loaded => 0,
        }
    }

    /// A search beside the GL libraries that `maps`, the text of the process's memory map, names.
    pub fn new(maps: &str) -> (r: EglSearch)
        ensures
            r.wf(),
            texts_view(r.directories@) == directories_of(libraries_from(maps@, 0)),
            r.stage == EglStage::Looking(0),
    {
        let libraries: Vec<String> = gl_library_paths(maps);
        let ghost all = texts_view(libraries@);
        let mut directories: Vec<String> = Vec::new();
        let mut i: usize = 0;
        while i < libraries.len()
            invariant
                i <= libraries.len(),
                all == texts_view(libraries@),
                texts_view(directories@) == directories_of(all.take(i as int)),
            decreases libraries.len() - i,
        {
            let ghost before = texts_view(directories@);
            proof {
                assert(all.take(i + 1).drop_last() =~= all.take(i as int));
                assert(all.take(i + 1).last() == libraries@[i as int]@);
            }
            if let Some(found) = directory(libraries[i].as_str()) {
                let ghost added = found@;
                directories.push(found);
                proof {
                    assert(texts_view(directories@) =~= before.push(added));
                }
            }
            i = i + 1;
        }
        proof {
            assert(all.take(i as int) =~= all);
        }
        EglSearch { directories, stage: EglStage::Looking(0) }
    }

    /// What the search needs next.
    pub fn request(&self) -> (r: EglRequest)
        requires
            self.wf(),
        ensures
            r@ == self.requested(),
    {
        let names: Vec<String> = egl_library_names();
        proof {
            assert(texts_view(names@).len() == names@.len());
            assert(texts_view(names@)[0] == names@[0]@);
            assert(texts_view(names@)[1] == names@[1]@);
        }
        match self.stage {
            EglStage::Looking(directory) => {
                if directory < self.directories.len() {
                    EglRequest::LookFor(
                        file_in(self.directories[directory].as_str(), names[0].as_str()),
                    )
                } else {
                    EglRequest::NoDirectory
                }
            },
            EglStage::Loading { directory, name } => {
                if name < names.len() {
                    EglRequest::Load(
                        file_in(self.directories[directory].as_str(), names[name].as_str()),
                    )
                } else {
                    EglRequest::NotLoaded
                }
            },
            EglStage::Loaded => EglRequest::Loaded,
        }
    }

    /// Takes in whether what was requested succeeded. A search that has come to its end stays there.
    pub fn report(&mut self, success: bool)
        requires
            old(self).wf(),
        ensures
            final(self).wf(),
            final(self).directories == old(self).directories,
            final(self).stage == old(self).next_stage(success),
    {
        match self.stage {
            EglStage::Looking(directory) => {
                if directory < self.directories.len() {
                    self.stage = if success {
                        EglStage::Loading { directory, name: 0 }
                    } else {
                        EglStage::Looking(directory + 1)
                    };
                }
            },
            EglStage::Loading { directory, name } => {
                if name < EGL_NAMES {
                    self.stage = if success {
                        EglStage::Loaded
                    } else {
                        EglStage::Loading { directory, name: name + 1 }
                    };
                }
            },
            EglStage::Loaded => {},
        }
    }
}

/// Every search comes to its end: each report brings it nearer.
pub proof fn every_search_ends(before: EglSearch, after: EglSearch, success: bool)
    requires
        before.wf(),
        !before.finished(),
        after.directories == before.directories,
        after.stage == before.next_stage(success),
    ensures
        0 <= after.remaining() < before.remaining(),
        after.remaining() == 0 ==> after.finished(),
{
    assert(before.directories@.len() == before.directories.len());
}

/// A library is loaded only from a directory in which `libEGL.so.1` was found, and each further
/// attempt is made in the same directory.
pub proof fn loading_stays_in_the_directory_that_was_found(before: EglSearch, success: bool)
    requires
        before.wf(),
    ensures
        before.next_stage(success) matches EglStage::Loading { directory, .. } ==> {
            ||| before.stage == EglStage::Looking(directory) && success
            ||| (before.stage matches EglStage::Loading { directory: d, .. } && d == directory)
        },
{
}

/// Every library that is looked beside has a path that names a GL library.
pub proof fn only_gl_libraries_are_looked_beside(maps: Seq<char>, from: int, i: int)
    requires
        0 <= i < libraries_from(maps, from).len(),
    ensures
        names_gl_library(libraries_from(maps, from)[i]),
    decreases maps.len() - from,
{
    let end = line_end(maps, from);
    let here = line_library(maps.subrange(from, end));
    if i >= here.len() {
        only_gl_libraries_are_looked_beside(maps, end + 1, i - here.len());
    }
}

/// Every directory that is searched is that of one of the libraries.
pub proof fn every_directory_is_that_of_a_library(libraries: Seq<Seq<char>>, i: int)
    requires
        0 <= i < directories_of(libraries).len(),
    ensures
        exists|k: int|
            0 <= k < libraries.len() && directory_of(#[trigger] libraries[k]) == Some(
                directories_of(libraries)[i],
            ),
    decreases libraries.len(),
{
    let rest = libraries.drop_last();
    if i < directories_of(rest).len() {
        every_directory_is_that_of_a_library(rest, i);
        let k = choose|k: int|
            0 <= k < rest.len() && directory_of(#[trigger] rest[k]) == Some(
                directories_of(rest)[i],
            );
        assert(libraries[k] == rest[k]);
    } else {
        assert(directory_of(libraries[libraries.len() - 1]) == Some(directories_of(libraries)[i]));
    }
}

/// A word at the end of a text, after white space or nothing, is its trailing word.
proof fn trailing_word_is_found(head: Seq<char>, word: Seq<char>)
    requires
        head.len() == 0 || white_space(head.last()),
        forall|i: int| 0 <= i < word.len() ==> !white_space(#[trigger] word[i]),
    ensures
        trailing_word(head + word) == word,
    decreases word.len(),
{
    let text = head + word;
    if word.len() == 0 {
        assert(text =~= head);
        assert(trailing_word(head) =~= seq![]);
    } else {
        let rest = word.drop_last();
        assert forall|i: int| 0 <= i < rest.len() implies !white_space(#[trigger] rest[i]) by {
            assert(rest[i] == word[i]);
        }
        trailing_word_is_found(head, rest);
        assert(text.drop_last() =~= head + rest);
        assert(!white_space(word[word.len() - 1]));
        assert(text.last() == word.last());
        assert(rest.push(word.last()) =~= word);
    }
}

/// The last word of a line is what stands after the last white space that something follows, and a
/// line of white space has none: `head` is what stands before the word, `tail` what stands after.
pub proof fn the_last_word_is_found(head: Seq<char>, word: Seq<char>, tail: Seq<char>)
    requires
        head.len() == 0 || white_space(head.last()),
        forall|i: int| 0 <= i < word.len() ==> !white_space(#[trigger] word[i]),
        forall|i: int| 0 <= i < tail.len() ==> white_space(#[trigger] tail[i]),
    ensures
        word.len() > 0 ==> last_word(head + word + tail) == Some(word),
        last_word(tail) is None,
    decreases tail.len(),
{
    let line = head + word + tail;
    if tail.len() == 0 {
        assert(line =~= head + word);
        if word.len() > 0 {
            trailing_word_is_found(head, word);
            assert(!white_space(word[word.len() - 1]));
            assert(line.last() == word.last());
        }
    } else {
        let rest = tail.drop_last();
        assert forall|i: int| 0 <= i < rest.len() implies white_space(#[trigger] rest[i]) by {
            assert(rest[i] == tail[i]);
        }
        the_last_word_is_found(head, word, rest);
        assert(line.drop_last() =~= head + word + rest);
        assert(white_space(tail[tail.len() - 1]));
        assert(line.last() == tail.last());
    }
}

/// A line names a library exactly where its last word has `libGL` or `libglvnd` in it, and then it
/// is that word.
pub proof fn a_line_names_the_library_that_it_ends_in(line: Seq<char>, word: Seq<char>)
    ensures
        last_word(line) == Some(word) && ((exists|i: int| #[trigger] occurs_at(word, "libGL"@, i))
            || exists|i: int| #[trigger] occurs_at(word, "libglvnd"@, i)) ==> line_library(line).len()
            == 1 && line_library(line)[0] == word,
        last_word(line) == Some(word) && (forall|i: int| !#[trigger] occurs_at(word, "libGL"@, i))
            && (forall|i: int| !#[trigger] occurs_at(word, "libglvnd"@, i)) ==> line_library(
            line,
        ).len() == 0,
        last_word(line) is None ==> line_library(line).len() == 0,
{
    reveal_strlit("libGL");
    reveal_strlit("libGLdispatch");
    if contains_text(word, "libGLdispatch"@) {
        let i = choose|i: int| occurs_at(word, "libGLdispatch"@, i);
        assert(word.subrange(i, i + 5) =~= "libGL"@) by {
            assert forall|k: int| 0 <= k < 5 implies word.subrange(i, i + 5)[k] == "libGL"@[k] by {
                assert(word.subrange(i, i + 13)[k] == "libGLdispatch"@[k]);
            }
        }
        assert(occurs_at(word, "libGL"@, i));
    }
}

/// Where a line ends does not depend on the lines before it.
proof fn line_end_shifts(text: Seq<char>, by: int, from: int)
    requires
        0 <= by,
        0 <= from,
        by + from <= text.len(),
    ensures
        line_end(text, by + from) == by + line_end(text.skip(by), from),
        by + from <= line_end(text, by + from) <= text.len(),
    decreases text.len() - (by + from),
{
    if by + from < text.len() && text[by + from] != '\n' {
        line_end_shifts(text, by, from + 1);
    }
}

/// The libraries that lines name do not depend on the lines before them.
proof fn libraries_shift(text: Seq<char>, by: int, from: int)
    requires
        0 <= by,
        0 <= from,
        by + from <= text.len(),
    ensures
        libraries_from(text, by + from) == libraries_from(text.skip(by), from),
    decreases text.len() - (by + from),
{
    let rest = text.skip(by);
    line_end_shifts(text, by, from);
    let end = line_end(rest, from);
    assert(text.subrange(by + from, by + end) =~= rest.subrange(from, end));
    if by + end < text.len() {
        libraries_shift(text, by, end + 1);
    }
}

/// The memory map is read line by line, in order: a line gives the library that it names, if any,
/// and the lines after it give theirs.
pub proof fn the_map_is_read_line_by_line(line: Seq<char>, rest: Seq<char>)
    requires
        forall|i: int| 0 <= i < line.len() ==> #[trigger] line[i] != '\n',
    ensures
        libraries_from(line, 0) == line_library(line),
        libraries_from(line.push('\n') + rest, 0) == line_library(line) + libraries_from(rest, 0),
{
    let text = line.push('\n') + rest;
    let n = line.len() as int;
    assert forall|k: int| 0 <= k < n implies text[k] != '\n' by {
        assert(text[k] == line[k]);
    }
    line_end_skips(text, 0, n);
    line_end_skips(line, 0, n);
    assert(text[n] == '\n');
    assert(line_end(text, n) == n);
    assert(line_end(line, n) == n);
    assert(text.subrange(0, n) =~= line);
    assert(line.subrange(0, n) =~= line);
    libraries_shift(text, n + 1, 0);
    assert(text.skip(n + 1) =~= rest);
}

/// A separator and a name after it are cut off together.
proof fn the_name_is_cut_off(directory: Seq<char>, name: Seq<char>)
    requires
        directory.len() == 0 || directory.last() == '/',
        forall|i: int| 0 <= i < name.len() ==> #[trigger] name[i] != '/',
    ensures
        up_to_separator(directory + name) == directory,
    decreases name.len(),
{
    let path = directory + name;
    if name.len() == 0 {
        assert(path =~= directory);
    } else {
        let rest = name.drop_last();
        assert forall|i: int| 0 <= i < rest.len() implies #[trigger] rest[i] != '/' by {
            assert(rest[i] == name[i]);
        }
        the_name_is_cut_off(directory, rest);
        assert(path.drop_last() =~= directory + rest);
        assert(name[name.len() - 1] != '/');
        assert(path.last() == name.last());
    }
}

/// What is searched beside a library is the directory before the last separator of its path, and a
/// file's name can follow it. A path without a separator is beside what has no directory before it,
/// and what is in the root is beside what is in the root.
pub proof fn a_library_is_in_the_directory_before_its_name(directory: Seq<char>, name: Seq<char>)
    requires
        name.len() > 0,
        name != seq!['.'],
        forall|i: int| 0 <= i < name.len() ==> #[trigger] name[i] != '/',
        directory.len() > 0 ==> directory.last() != '/',
        directory.len() > 1 ==> !(directory.last() == '.' && directory[directory.len() - 2] == '/'),
    ensures
        directory.len() > 0 ==> directory_of(directory.push('/') + name) == Some(
            directory.push('/'),
        ),
        directory_of(seq!['/'] + name) == Some(seq!['/']),
        directory_of(name) == Some(Seq::<char>::empty()),
{
    assert(name[name.len() - 1] != '/');
    let full = directory.push('/') + name;
    let rooted = seq!['/'] + name;
    assert(full.last() == name.last());
    assert(rooted.last() == name.last());
    if name.len() >= 2 {
        assert(name[name.len() - 2] != '/');
        assert(full[full.len() - 2] == name[name.len() - 2]);
        assert(rooted[rooted.len() - 2] == name[name.len() - 2]);
    } else {
        assert(name =~= seq![name[0]]);
    }
    assert(trimmed(full) == full);
    assert(trimmed(rooted) == rooted);
    assert(trimmed(name) == name);
    the_name_is_cut_off(directory.push('/'), name);
    the_name_is_cut_off(seq!['/'], name);
    the_name_is_cut_off(seq![], name);
    assert(seq![] + name =~= name);
    reveal_with_fuel(trimmed, 3);
    assert(directory.push('/').drop_last() =~= directory);
    assert(seq!['/'].drop_last() =~= seq![]);
}

/// The directories of libraries are taken library by library, in order: one that is in a directory
/// gives that, one that is in none gives nothing.
pub proof fn directories_are_taken_in_order(first: Seq<Seq<char>>, second: Seq<Seq<char>>)
    ensures
        directories_of(first + second) == directories_of(first) + directories_of(second),
        forall|library: Seq<char>|
            directory_of(library) is Some ==> #[trigger] directories_of(seq![library]) == seq![
                directory_of(library)->0,
            ],
        forall|library: Seq<char>|
            directory_of(library) is None ==> #[trigger] directories_of(seq![library]).len() == 0,
    decreases second.len(),
{
    reveal_with_fuel(directories_of, 2);
    assert forall|library: Seq<char>|
        (directory_of(library) is Some ==> #[trigger] directories_of(seq![library]) == seq![
            directory_of(library)->0,
        ]) && (directory_of(library) is None ==> directories_of(seq![library]).len() == 0) by {
        assert(seq![library].drop_last() =~= seq![]);
    }
    if second.len() == 0 {
        assert(first + second =~= first);
        assert(directories_of(first) + directories_of(second) =~= directories_of(first));
    } else {
        directories_are_taken_in_order(first, second.drop_last());
        assert((first + second).drop_last() =~= first + second.drop_last());
        assert((first + second).last() == second.last());
        assert(directories_of(first + second) =~= directories_of(first) + directories_of(second));
    }
}

/// A search looks for `libEGL.so.1` in each directory in turn until it finds it, loads `libEGL.so.1`
/// and then `libEGL.so` from there, and stops at the first that loads.
pub proof fn a_search_goes_through_the_directories(search: EglSearch)
    requires
        search.wf(),
    ensures
        search.stage matches EglStage::Looking(i) ==> {
            &&& i < search.directories@.len() ==> search.requested() == EglRequestView::LookFor(
                search.directories@[i as int]@ + "libEGL.so.1"@,
            )
            &&& i == search.directories@.len() ==> search.requested() is NoDirectory
            &&& i < search.directories@.len() ==> search.next_stage(false) == EglStage::Looking(
                (i + 1) as usize,
            )
            &&& i < search.directories@.len() ==> search.next_stage(true) == EglStage::Loading {
                directory: i,
                name: 0,
            }
        },
        search.stage matches EglStage::Loading { directory, name } ==> {
            &&& name == 0 ==> search.requested() == EglRequestView::Load(
                search.directories@[directory as int]@ + "libEGL.so.1"@,
            )
            &&& name == 1 ==> search.requested() == EglRequestView::Load(
                search.directories@[directory as int]@ + "libEGL.so"@,
            )
            &&& name == 2 ==> search.requested() is NotLoaded
            &&& name < 2 ==> search.next_stage(true) is Loaded
            &&& name < 2 ==> search.next_stage(false) == EglStage::Loading {
                directory,
                name: (name + 1) as usize,
            }
        },
        search.stage is Loaded ==> search.requested() is Loaded && search.next_stage(true) is Loaded
            && search.next_stage(false) is Loaded,
{
}

/// A request is handed over with the path that was made for it.
pub proof fn a_request_is_handed_over_whole(request: EglRequest)
    ensures
        request matches EglRequest::LookFor(path) ==> request@ == EglRequestView::LookFor(path@),
        request matches EglRequest::Load(path) ==> request@ == EglRequestView::Load(path@),
        request is NoDirectory ==> request@ is NoDirectory,
        request is NotLoaded ==> request@ is NotLoaded,
        request is Loaded ==> request@ is Loaded,
{
}

/// Separators and `.` components do not matter, neither at the end of a path nor before the name of
/// the library: the directory is the same with them and without.
pub proof fn doubled_separators_do_not_matter(path: Seq<char>, name: Seq<char>)
    requires
        name.len() > 0,
        name != seq!['.'],
        forall|i: int| 0 <= i < name.len() ==> #[trigger] name[i] != '/',
    ensures
        directory_of(path.push('/')) == directory_of(path),
        directory_of(path.push('/').push('.')) == directory_of(path),
        directory_of(path.push('/').push('/') + name) == directory_of(path.push('/') + name),
        directory_of(path.push('/').push('.').push('/') + name) == directory_of(
            path.push('/') + name,
        ),
{
    let once = path.push('/');
    let twice = once.push('/');
    let dotted = once.push('.');
    let through = dotted.push('/');
    assert(once.drop_last() =~= path);
    assert(twice.drop_last() =~= once);
    assert(dotted.drop_last() =~= once);
    assert(through.drop_last() =~= dotted);
    assert(name[name.len() - 1] != '/');
    if name.len() >= 2 {
        assert(name[name.len() - 2] != '/');
    } else {
        assert(name =~= seq![name[0]]);
    }
    the_name_is_cut_off(once, name);
    the_name_is_cut_off(twice, name);
    the_name_is_cut_off(through, name);
    assert((once + name).last() == name.last());
    assert((twice + name).last() == name.last());
    assert((through + name).last() == name.last());
    if name.len() >= 2 {
        assert((once + name)[(once + name).len() - 2] == name[name.len() - 2]);
        assert((twice + name)[(twice + name).len() - 2] == name[name.len() - 2]);
        assert((through + name)[(through + name).len() - 2] == name[name.len() - 2]);
    }
    assert(trimmed(once + name) == once + name);
    assert(trimmed(twice + name) == twice + name);
    assert(trimmed(through + name) == through + name);
}

/// A search stands at one of its directories, or behind the last; while it loads, it is in one of
/// them, at one of the names, or behind the last.
pub proof fn a_search_stays_in_its_directories(search: EglSearch)
    requires
        search.wf(),
    ensures
        search.stage matches EglStage::Looking(directory) ==> directory
            <= search.directories@.len(),
        search.stage matches EglStage::Loading { directory, name } ==> directory
            < search.directories@.len() && name <= egl_names().len(),
{
}

} // verus!
