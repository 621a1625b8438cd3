use vstd::prelude::*;

verus! {

/// What a [`File`] holds, as mathematical values.
pub struct FileView {
    pub path: Seq<char>,
    pub name: Seq<char>,
    pub extension: Seq<char>,
    pub is_selected: bool,
}

impl FileView {
    /// The same entry with its selection flag flipped.
    pub open spec fn toggled(self) -> FileView {
        FileView { is_selected: !self.is_selected, ..self }
    }

    /// The same entry, not selected.
    pub open spec fn unselected(self) -> FileView {
        FileView { is_selected: false, ..self }
    }
}

/// One directory entry: its full path, its stem (the file name without the
/// final extension), its extension (without the leading dot), and whether the
/// user has marked it.
#[derive(Debug, Clone)]
pub struct File {
    pub path: String,
    pub name: String,
    pub extension: String,
    pub is_selected: bool,
}

impl View for File {
    type V = FileView;

    open spec fn view(&self) -> FileView {
        FileView {
            path: self.path@,
            name: self.name@,
            extension: self.extension@,
            is_selected: self.is_selected,
        }
    }
}

impl File {
    /// A new, unselected entry.
    pub fn init(path: String, name: String, extension: String) -> (r: File)
        ensures
            r@ == (FileView { path: path@, name: name@, extension: extension@, is_selected: false }),
    {
        File { path, name, extension, is_selected: false }
    }

    /// Flips the selection flag and leaves everything else as it was.
    pub fn toggle_selection(&mut self)
        ensures
            final(self)@ == old(self)@.toggled(),
    {
        self.is_selected = !self.is_selected;
    }

    /// Clears the selection flag and leaves everything else as it was.
    pub fn unselect(&mut self)
        ensures
            final(self)@ == old(self)@.unselected(),
    {
        self.is_selected = false;
    }

    /// A copy of this entry with the same fields.
    pub fn duplicate(&self) -> (r: File)
        ensures
            r@ == self@,
    {
        File {
            path: self.path.clone(),
            name: self.name.clone(),
            extension: self.extension.clone(),
            is_selected: self.is_selected,
        }
    }
}

/// The extensions that the display knows a colour for.
#[derive(Debug, Clone, Copy, PartialEq, Eq, Structural)]
pub enum FileExtension {
    Webp,
    Png,
    Jpg,
    Txt,
    NotImplemented,
}

} // verus!
