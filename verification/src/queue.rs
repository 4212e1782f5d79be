//! Queue entries, and how a selection of paths becomes a list of them.

use vstd::prelude::*;
use std::path::PathBuf;
use crate::classify::{kind_from_name, kind_of, photo_tag, video_tag};
use crate::paths::{file_name_of, file_name_text, lossy_text, path_text, path_to_string, text_of};

verus! {

/// One selected media asset.
#[derive(Clone, Debug)]
pub struct QueueItem {
    /// Identity of the entry, generated when it is selected.
    pub id: String,
    /// File name shown to the user.
    pub name: String,
    /// Path of the asset, as text.
    pub path: String,
    /// `"photo"` or `"video"`.
    pub kind: String,
}

/// Can `c` stand at `position` in the hyphenated form of a random
/// identifier? The positions 8, 13, 18 and 23 hold a hyphen, the position 14
/// holds the version, 4, and every other one a lower-case hexadecimal digit.
pub open spec fn is_id_char(position: int, c: char) -> bool {
    if position == 8 || position == 13 || position == 18 || position == 23 {
        c == '-'
    } else if position == 14 {
        c == '4'
    } else {
        ('0' <= c && c <= '9') || ('a' <= c && c <= 'f')
    }
}

/// Is `text` the hyphenated form of a random identifier: 36 characters, each
/// one fit for its position?
pub open spec fn is_id_text(text: Seq<char>) -> bool {
    &&& text.len() == 36
    &&& forall|i: int| 0 <= i < 36 ==> is_id_char(i, #[trigger] text[i])
}

/// The name an entry is shown under: the file name where the selection has
/// one, else `"file"`.
pub open spec fn display_name(file_name: Option<Seq<char>>) -> Seq<char> {
    match file_name {
        Some(name) => name,
        None => "file"@,
    }
}

/// The name every folder entry carries.
pub open spec fn folder_name() -> Seq<char> {
    "folder_item.jpg"@
}

impl QueueItem {
    /// An entry is well formed when it has an identity and one of the two
    /// kinds.
    pub open spec fn wf(&self) -> bool {
        &&& self.id@.len() > 0
        &&& (self.kind@ == photo_tag() || self.kind@ == video_tag())
    }

    /// Is this the entry of a selected file with the given file name and
    /// path text?
    pub open spec fn is_file_entry(&self, file_name: Option<Seq<char>>, path: Seq<char>) -> bool {
        &&& self.name@ == display_name(file_name)
        &&& self.path@ == path
        &&& self.kind@ == kind_of(display_name(file_name))
    }

    /// Is this the entry of the selected file at `path`: named after its
    /// final segment, classified by that name, with a well-formed
    /// identifier?
    pub open spec fn is_entry_of(&self, path: PathBuf) -> bool {
        &&& is_id_text(self.id@)
        &&& self.wf()
        &&& self.is_file_entry(file_name_text(path), path_text(path))
    }

    /// Is this the entry that stands for a selected folder with the given
    /// path text?
    pub open spec fn is_folder_entry(&self, path: Seq<char>) -> bool {
        &&& self.name@ == folder_name()
        &&& self.path@ == path
        &&& self.kind@ == photo_tag()
    }
}

/// Draws a random identifier with `uuid::Uuid::new_v4` and renders it with
/// the `Display` impl of `Uuid`. Trusted: the text is the hyphenated
/// lower-case form of a version 4 identifier. Nothing is claimed of which
/// identifier is drawn: two calls may even give the same. The call panics
/// where the operating system has no random bytes to give.
#[verifier::external_body]
fn fresh_id() -> (id: String)
    ensures
        is_id_text(id@),
{
    uuid::Uuid::new_v4().to_string()
}

/// The entry of one selected file: named after the file, or `"file"` where
/// it has no name, and classified by that name.
pub fn file_entry(id: String, file_name: Option<String>, path: String) -> (item: QueueItem)
    ensures
        item.id@ == id@,
        item.is_file_entry(text_of(file_name), path@),
        id@.len() > 0 ==> item.wf(),
{
    let name: String = match file_name {
        Some(name) => name,
        None => "file".to_string(),
    };
    let kind: String = kind_from_name(name.as_str());
    QueueItem { id, name, path, kind }
}

/// The entry that stands for a selected folder: always a photo, always
/// under the same name, whatever the folder holds.
pub fn folder_entry(id: String, path: String) -> (item: QueueItem)
    ensures
        item.id@ == id@,
        item.is_folder_entry(path@),
        id@.len() > 0 ==> item.wf(),
{
    QueueItem { id, name: "folder_item.jpg".to_string(), path, kind: "photo".to_string() }
}

/// The paths that a multi-file dialog returned: none where it was
/// cancelled.
pub open spec fn selected_paths(selections: Option<Vec<PathBuf>>) -> Seq<PathBuf> {
    match selections {
        Some(paths) => paths@,
        None => Seq::empty(),
    }
}

/// Are `items` the queue of `paths`: as many entries as paths, the entry at
/// each position being that of the path at the same position?
pub open spec fn is_queue_of(items: Seq<QueueItem>, paths: Seq<PathBuf>) -> bool {
    &&& items.len() == paths.len()
    &&& forall|i: int| 0 <= i < paths.len() ==> (#[trigger] items[i]).is_entry_of(paths[i])
}

/// The queue entries for what a multi-file dialog returned: none where the
/// dialog was cancelled, else one entry per selected path, in the order of
/// selection, a path selected twice giving two entries. Each entry gets an
/// identifier drawn afresh. Never fails.
pub fn pick_files(selections: Option<Vec<PathBuf>>) -> (result: Result<Vec<QueueItem>, String>)
    ensures
        result is Ok,
        is_queue_of(result->Ok_0@, selected_paths(selections)),
{
    let mut items: Vec<QueueItem> = Vec::new();
    match selections {
        None => {},
        Some(paths) => {
            let mut i: usize = 0;
            while i < paths.len()
                invariant
                    i <= paths@.len(),
                    is_queue_of(items@, paths@.take(i as int)),
                decreases paths@.len() - i,
            {
                let path: &PathBuf = &paths[i];
                let item: QueueItem = file_entry(fresh_id(), file_name_of(path), lossy_text(path));
                items.push(item);
                i += 1;
            }
            assert(paths@.take(i as int) =~= paths@);
        },
    }
    Ok(items)
}

/// A cancelled dialog and an empty selection both give the empty queue.
pub proof fn lemma_no_selection_no_entries(items: Seq<QueueItem>)
    requires
        is_queue_of(items, Seq::empty()),
    ensures
        items.len() == 0,
{
}

/// A path selected twice has two entries, each at the position of its
/// selection, with the same name, path and kind.
pub proof fn lemma_same_path_twice(items: Seq<QueueItem>, paths: Seq<PathBuf>, i: int, j: int)
    requires
        is_queue_of(items, paths),
        0 <= i < j < paths.len(),
        paths[i] == paths[j],
    ensures
        items[i].name@ == items[j].name@,
        items[i].path@ == items[j].path@,
        items[i].kind@ == items[j].kind@,
{
    assert(items[i].is_entry_of(paths[i]));
    assert(items[j].is_entry_of(paths[j]));
}

/// The text of the path that a single-choice dialog returned, or the empty
/// text where it was cancelled.
pub open spec fn chosen_text(choice: Option<PathBuf>) -> Seq<char> {
    match choice {
        Some(path) => path_text(path),
        None => Seq::empty(),
    }
}

fn chosen_path(choice: Option<PathBuf>) -> (text: String)
    ensures
        text@ == chosen_text(choice),
{
    match choice {
        Some(path) => path_to_string(path),
        None => String::new(),
    }
}

/// The queue for a folder given by the text of its path: empty for the
/// empty text, else the one entry that stands for the folder, with an
/// identifier drawn afresh.
pub fn folder_queue(path: String) -> (items: Vec<QueueItem>)
    ensures
        path@.len() == 0 ==> items@.len() == 0,
        path@.len() > 0 ==> {
            &&& items@.len() == 1
            &&& is_id_text(items@[0].id@)
            &&& items@[0].wf()
            &&& items@[0].is_folder_entry(path@)
        },
{
    let mut items: Vec<QueueItem> = Vec::new();
    if path.as_str().is_empty() {
        return items;
    }
    items.push(folder_entry(fresh_id(), path));
    items
}

/// The queue entries for what a folder dialog returned: none where it was
/// cancelled or the path's text is empty, else the one entry that stands for
/// the folder. The folder's files are not listed. Never fails.
pub fn pick_folder(choice: Option<PathBuf>) -> (result: Result<Vec<QueueItem>, String>)
    ensures
        result is Ok,
        chosen_text(choice).len() == 0 ==> result->Ok_0@.len() == 0,
        chosen_text(choice).len() > 0 ==> {
            &&& result->Ok_0@.len() == 1
            &&& is_id_text(result->Ok_0@[0].id@)
            &&& result->Ok_0@[0].wf()
            &&& result->Ok_0@[0].is_folder_entry(chosen_text(choice))
        },
{
    Ok(folder_queue(chosen_path(choice)))
}

/// The output directory that a folder dialog returned, as text; the empty
/// text where the dialog was cancelled. Never fails.
pub fn pick_output(choice: Option<PathBuf>) -> (result: Result<String, String>)
    ensures
        result is Ok,
        result->Ok_0@ == chosen_text(choice),
{
    Ok(chosen_path(choice))
}

/// The converter binary that a file dialog returned, as text; the empty text
/// where the dialog was cancelled. The file is not looked at. Never fails.
pub fn pick_ffmpeg(choice: Option<PathBuf>) -> (result: Result<String, String>)
    ensures
        result is Ok,
        result->Ok_0@ == chosen_text(choice),
{
    Ok(chosen_path(choice))
}

} // verus!
