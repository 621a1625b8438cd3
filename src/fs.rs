use vstd::prelude::*;

use crate::file::{File, FileExtension, FileView};
use crate::file_list::{cursor_clamped, files_view, FileListType, FileListView};
use crate::state::{App, AppView};

verus! {

/// Which of the known extensions `e` is; anything else, including another
/// letter case, is `NotImplemented`.
pub open spec fn extension_kind(e: Seq<char>) -> FileExtension {
    if e == "webp"@ {
        FileExtension::Webp
    } else if e == "png"@ {
        FileExtension::Png
    } else if e == "jpg"@ {
        FileExtension::Jpg
    } else if e == "txt"@ {
        FileExtension::Txt
    } else {
        FileExtension::NotImplemented
    }
}

/// Whether two strings hold the same characters.
fn same_chars(a: &str, b: &str) -> (r: bool)
    ensures
        r == (a@ == b@),
{
    let n = a.unicode_len();
    if n != b.unicode_len() {
        return false;
    }
    let mut i: usize = 0;
    while i < n
        invariant
            n == a@.len(),
            n == b@.len(),
            i <= n,
            forall|j: int| 0 <= j < i ==> a@[j] == b@[j],
        decreases n - i,
    {
        if a.get_char(i) != b.get_char(i) {
            return false;
        }
        i = i + 1;
    }
    proof {
        assert(a@ == b@);
    }
    true
}

/// Maps an extension (case-sensitive, without the dot) to the kind the
/// display colours by.
pub fn match_file_extension(file_extension: &str) -> (r: FileExtension)
    ensures
        r == extension_kind(file_extension@),
{
    if same_chars(file_extension, "webp") {
        FileExtension::Webp
    } else if same_chars(file_extension, "png") {
        FileExtension::Png
    } else if same_chars(file_extension, "jpg") {
        FileExtension::Jpg
    } else if same_chars(file_extension, "txt") {
        FileExtension::Txt
    } else {
        FileExtension::NotImplemented
    }
}

/// Index of the last `.` in `s`, or -1 when there is none.
pub open spec fn last_dot(s: Seq<char>) -> int
    decreases s.len(),
{
    if s.len() == 0 {
        -1
    } else if s.last() == '.' {
        s.len() - 1
    } else {
        last_dot(s.drop_last())
    }
}

/// A file name split at its last dot into stem and extension. A name without
/// a dot has no extension, nor has one whose only dot is its first character
/// (a hidden file such as `.profile`).
pub open spec fn stem_and_extension(s: Seq<char>) -> Option<(Seq<char>, Seq<char>)> {
    let d = last_dot(s);
    if d <= 0 {
        None
    } else {
        Some((s.take(d), s.skip(d + 1)))
    }
}

/// Splits a file name into stem and extension at its last dot.
pub fn split_file_name(file_name: &str) -> (r: Option<(String, String)>)
    ensures
        match r {
            Some((stem, ext)) => stem_and_extension(file_name@) == Some((stem@, ext@)),
            None => stem_and_extension(file_name@) is None,
        },
{
    let ghost s = file_name@;
    let n = file_name.unicode_len();
    let mut k: usize = n;
    proof {
        assert(s.take(n as int) == s);
    }
    while k > 0 && file_name.get_char(k - 1) != '.'
        invariant
            s == file_name@,
            n == s.len(),
            k <= n,
            last_dot(s) == last_dot(s.take(k as int)),
        decreases k,
    {
        proof {
            assert(s.take(k as int).drop_last() == s.take(k - 1));
        }
        k = k - 1;
    }
    proof {
        if k > 0 {
            assert(s.take(k as int).last() == '.');
        } else {
            assert(s.take(0).len() == 0);
        }
    }
    if k <= 1 {
        None
    } else {
        let stem = file_name.substring_char(0, k - 1).to_owned();
        let ext = file_name.substring_char(k, n).to_owned();
        proof {
            assert(s.subrange(0, k - 1) == s.take(k - 1));
            assert(s.subrange(k as int, n as int) == s.skip(k as int));
        }
        Some((stem, ext))
    }
}

/// An entry of a directory listing: its full path and its file name.
#[derive(Debug, Clone)]
pub struct DirEntry {
    pub path: String,
    pub file_name: String,
}

/// The file that a directory entry becomes, if its name has an extension.
pub open spec fn entry_file(path: Seq<char>, file_name: Seq<char>) -> Option<FileView> {
    match stem_and_extension(file_name) {
        Some((name, extension)) => Some(
            FileView { path, name, extension, is_selected: false },
        ),
        None => None,
    }
}

/// The files that a listing becomes, in listing order; entries without an
/// extension are left out.
pub open spec fn files_of_entries(entries: Seq<DirEntry>) -> Seq<FileView>
    decreases entries.len(),
{
    if entries.len() == 0 {
        Seq::empty()
    } else {
        let rest = files_of_entries(entries.drop_last());
        match entry_file(entries.last().path@, entries.last().file_name@) {
            Some(f) => rest.push(f),
            None => rest,
        }
    }
}

/// Builds the unselected files of a directory listing, skipping the entries
/// whose names have no extension.
pub fn files_from_entries(entries: &Vec<DirEntry>) -> (r: Vec<File>)
    ensures
        files_view(r@) == files_of_entries(entries@),
{
    let mut files: Vec<File> = Vec::new();
    let mut i: usize = 0;
    while i < entries.len()
        invariant
            i <= entries.len(),
            files_view(files@) == files_of_entries(entries@.take(i as int)),
        decreases entries.len() - i,
    {
        proof {
            assert(entries@.take(i + 1).drop_last() == entries@.take(i as int));
        }
        let entry = &entries[i];
        match split_file_name(entry.file_name.as_str()) {
            Some((name, extension)) => {
                let f = File::init(entry.path.clone(), name, extension);
                files.push(f);
                proof {
                    assert(files_view(files@) == files_view(files@.drop_last()).push(f@));
                }
            },
            None => {},
        }
        i = i + 1;
    }
    proof {
        assert(entries@.take(i as int) == entries@);
    }
    files
}

/// The two ways the file-system side of the program fails: a directory that
/// cannot be listed, and a file that cannot be renamed. Each carries the
/// system's message.
#[derive(Debug, Clone, PartialEq, Eq)]
pub enum FsError {
    DirectoryReadError(String),
    FileMoveError(String),
}

/// The state once a listing of `path` has been loaded into the chosen list.
pub open spec fn loaded(
    s: AppView,
    list_type: FileListType,
    files: Seq<FileView>,
    path: Seq<char>,
) -> AppView {
    match list_type {
        FileListType::FileListFrom => AppView { from: s.from.replace_contents(files, path), ..s },
        FileListType::FileListTo => AppView { to: s.to.replace_contents(files, path), ..s },
    }
}

/// Loads the listing of the directory `dir_path` into the chosen list. A
/// listing that could not be read leaves everything as it was and is reported.
pub fn load_directory(
    app: &mut App,
    list_type: FileListType,
    dir_path: String,
    listing: Result<Vec<DirEntry>, String>,
) -> (r: Result<(), FsError>)
    requires
        old(app).wf(),
    ensures
        final(app).wf(),
        match listing {
            Ok(entries) => r is Ok && final(app)@ == loaded(
                old(app)@,
                list_type,
                files_of_entries(entries@),
                dir_path@,
            ),
            Err(e) => {
                &&& r == Err::<(), FsError>(FsError::DirectoryReadError(e))
                &&& final(app)@ == old(app)@
            },
        },
{
    match listing {
        Err(e) => Err(FsError::DirectoryReadError(e)),
        Ok(entries) => {
            let files = files_from_entries(&entries);
            match list_type {
                FileListType::FileListFrom => app.files_from.replace_contents(files, dir_path),
                FileListType::FileListTo => app.files_to.replace_contents(files, dir_path),
            }
            Ok(())
        },
    }
}

/// Where a file lands in the directory `dir`: `dir/name.extension`.
pub open spec fn destination_path(dir: Seq<char>, name: Seq<char>, extension: Seq<char>) -> Seq<
    char,
> {
    dir + seq!['/'] + name + seq!['.'] + extension
}

/// Builds `dir/name.extension`.
pub fn join_destination(dir: &str, name: &str, extension: &str) -> (r: String)
    ensures
        r@ == destination_path(dir@, name@, extension@),
{
    proof {
        reveal_strlit("/");
        reveal_strlit(".");
    }
    let mut r = dir.to_owned();
    r.append("/");
    r.append(name);
    r.append(".");
    r.append(extension);
    r
}

/// Picks the marked entries.
pub open spec fn marked() -> spec_fn(FileView) -> bool {
    |f: FileView| f.is_selected
}

/// Picks the unmarked entries.
pub open spec fn unmarked() -> spec_fn(FileView) -> bool {
    |f: FileView| !f.is_selected
}

/// The entry as it stands once moved into `dir`.
pub open spec fn moved_to(f: FileView, dir: Seq<char>) -> FileView {
    FileView { path: destination_path(dir, f.name, f.extension), ..f }
}

/// The entries moved into `dir`, in list order, with their new paths.
pub open spec fn moved_files(items: Seq<FileView>, dir: Seq<char>) -> Seq<FileView> {
    items.filter(marked()).map_values(|f: FileView| moved_to(f, dir))
}

/// One rename to carry out: from the file's path to its place in the
/// destination directory.
#[derive(Debug, Clone)]
pub struct PendingMove {
    pub from: String,
    pub to: String,
}

impl View for PendingMove {
    type V = (Seq<char>, Seq<char>);

    open spec fn view(&self) -> (Seq<char>, Seq<char>) {
        (self.from@, self.to@)
    }
}

/// The renames that moving the marked entries of `items` into `dir` takes, in
/// list order.
pub open spec fn moves_of(items: Seq<FileView>, dir: Seq<char>) -> Seq<(Seq<char>, Seq<char>)> {
    items.filter(marked()).map_values(
        |f: FileView| (f.path, destination_path(dir, f.name, f.extension)),
    )
}

/// The state once every marked file has been moved: the source list keeps the
/// unmarked entries, in order, with its cursor pulled back into range; the
/// destination list gains the moved entries at its end.
pub open spec fn after_move(s: AppView) -> AppView {
    let kept = s.from.items.filter(unmarked());
    AppView {
        from: FileListView { items: kept, cursor: cursor_clamped(s.from.cursor, kept.len()), ..s.from },
        to: FileListView { items: s.to.items + moved_files(s.from.items, s.to.path), ..s.to },
        ..s
    }
}

/// The renames that moving the marked entries of the source list into the
/// destination directory takes, in list order.
pub fn planned_moves(app: &App) -> (r: Vec<PendingMove>)
    ensures
        r@.map_values(|m: PendingMove| m@) == moves_of(app@.from.items, app@.to.path),
{
    let ghost items = app@.from.items;
    let ghost dir = app@.to.path;
    let mut moves: Vec<PendingMove> = Vec::new();
    let mut i: usize = 0;
    while i < app.files_from.items.len()
        invariant
            i <= app.files_from.items.len(),
            items == app@.from.items,
            dir == app@.to.path,
            moves@.map_values(|m: PendingMove| m@) == moves_of(items.take(i as int), dir),
        decreases app.files_from.items.len() - i,
    {
        proof {
            assert(items.take(i + 1) == items.take(i as int).push(items[i as int]));
            items.take(i as int).lemma_filter_push(items[i as int], marked());
        }
        let f = &app.files_from.items[i];
        if f.is_selected {
            let to = join_destination(
                app.files_to.path.as_str(),
                f.name.as_str(),
                f.extension.as_str(),
            );
            let m = PendingMove { from: f.path.clone(), to };
            moves.push(m);
            proof {
                assert(moves@.map_values(|m: PendingMove| m@) =~= moves@.drop_last().map_values(
                    |m: PendingMove| m@,
                ).push(m@));
                assert(moves_of(items.take(i + 1), dir) =~= moves_of(items.take(i as int), dir).push(
                    m@,
                ));
            }
        } else {
            proof {
                assert(moves_of(items.take(i + 1), dir) =~= moves_of(items.take(i as int), dir));
            }
        }
        i = i + 1;
    }
    proof {
        assert(items.take(i as int) == items);
    }
    moves
}

/// Finishes a move once the renames of [`planned_moves`] have been tried, in
/// order, stopping at the first failure. `outcome` is `Ok` when all of them
/// succeeded, and the first failure's message otherwise. On success the
/// marked entries leave the source list and join the destination list with
/// their new paths; on failure both lists stay as they were and the failure
/// is reported.
pub fn move_selected_files(app: &mut App, outcome: Result<(), String>) -> (r: Result<(), FsError>)
    requires
        old(app).wf(),
    ensures
        final(app).wf(),
        match outcome {
            Ok(_) => r is Ok && final(app)@ == after_move(old(app)@),
            Err(e) => {
                &&& r == Err::<(), FsError>(FsError::FileMoveError(e))
                &&& final(app)@ == old(app)@
            },
        },
{
    match outcome {
        Err(e) => Err(FsError::FileMoveError(e)),
        Ok(()) => {
            let ghost start = app@;
            let ghost items = app@.from.items;
            let ghost dir = app@.to.path;
            let mut kept: Vec<File> = Vec::new();
            let mut i: usize = 0;
            while i < app.files_from.items.len()
                invariant
                    i <= app.files_from.items.len(),
                    app@.from == start.from,
                    app@.to.cursor == start.to.cursor,
                    app@.to.path == dir,
                    app@.running == start.running,
                    app@.show_popup == start.show_popup,
                    items == start.from.items,
                    dir == start.to.path,
                    start.wf(),
                    app@.to.cursor is Some ==> app@.to.cursor->0 < app@.to.items.len(),
                    files_view(kept@) == items.take(i as int).filter(unmarked()),
                    app@.to.items == start.to.items + moved_files(items.take(i as int), dir),
                decreases app.files_from.items.len() - i,
            {
                proof {
                    assert(items.take(i + 1) == items.take(i as int).push(items[i as int]));
                    items.take(i as int).lemma_filter_push(items[i as int], marked());
                    items.take(i as int).lemma_filter_push(items[i as int], unmarked());
                }
                let f = &app.files_from.items[i];
                if f.is_selected {
                    let path = join_destination(
                        app.files_to.path.as_str(),
                        f.name.as_str(),
                        f.extension.as_str(),
                    );
                    let moved = File {
                        path,
                        name: f.name.clone(),
                        extension: f.extension.clone(),
                        is_selected: f.is_selected,
                    };
                    app.files_to.items.push(moved);
                    proof {
                        assert(files_view(app.files_to.items@) == files_view(
                            app.files_to.items@.drop_last(),
                        ).push(moved@));
                        assert(moved_files(items.take(i + 1), dir) =~= moved_files(
                            items.take(i as int),
                            dir,
                        ).push(moved@));
                        assert(start.to.items + moved_files(items.take(i + 1), dir) =~= (
                        start.to.items + moved_files(items.take(i as int), dir)).push(moved@));
                    }
                } else {
                    let copy = f.duplicate();
                    kept.push(copy);
                    proof {
                        assert(files_view(kept@) == files_view(kept@.drop_last()).push(copy@));
                        assert(moved_files(items.take(i + 1), dir) =~= moved_files(
                            items.take(i as int),
                            dir,
                        ));
                    }
                }
                i = i + 1;
            }
            proof {
                assert(items.take(i as int) == items);
            }
            let len = kept.len();
            app.files_from.items = kept;
            match app.files_from.cursor {
                Some(c) => {
                    if c >= len {
                        if len == 0 {
                            app.files_from.cursor = None;
                        } else {
                            app.files_from.cursor = Some(len - 1);
                        }
                    }
                },
                None => {},
            }
            Ok(())
        },
    }
}

} // verus!
