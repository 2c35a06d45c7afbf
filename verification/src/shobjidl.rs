//! The file-type filter list exported to the foreign dialog call, and the
//! display-name format codes of the foreign shell-item call.

use vstd::prelude::*;
use vstd::slice::slice_index_get;
use vstd::slice::slice_to_vec;
use crate::c_wide_string::valid_wide;
use crate::c_wide_string::CWideString;

verus! {

/// One exported descriptor entry: the terminator-inclusive code units that
/// its two foreign-visible pointers expose, filter name and filter pattern.
pub struct FilterDescriptor {
    /// The units of the filter's name, terminator included.
    pub name: Vec<u16>,
    /// The units of the filter's pattern, terminator included.
    pub pattern: Vec<u16>,
}

/// A file-type filter list: an append-only sequence of (name, pattern)
/// pairs and the descriptor entries exported for them, grown in lock-step.
///
/// No removal or reordering is offered, only appending: the exported
/// descriptors stay matched, entry by entry, with the owning storage for
/// the whole life of the list.
pub struct FileFilters {
    descriptors: Vec<FilterDescriptor>,
    storage: Vec<(CWideString, CWideString)>,
}

impl FileFilters {
    /// The exported descriptor entries, in order of appending.
    pub closed spec fn spec_descriptors(&self) -> Seq<FilterDescriptor> {
        self.descriptors@
    }

    /// The owned (name, pattern) pairs, in order of appending.
    pub closed spec fn spec_storage(&self) -> Seq<(CWideString, CWideString)> {
        self.storage@
    }

    /// How many filters the list holds.
    pub open spec fn spec_len(&self) -> int {
        self.spec_storage().len() as int
    }

    /// The storage-plus-descriptor invariant: descriptors and storage have
    /// the same length, every stored pair is terminator-valid, and each
    /// descriptor's units are exactly the matching stored pair's.
    pub open spec fn wf(&self) -> bool {
        &&& self.spec_descriptors().len() == self.spec_storage().len()
        &&& forall|i: int|
            0 <= i < self.spec_storage().len() ==> {
                &&& self.spec_storage()[i].0.wf()
                &&& self.spec_storage()[i].1.wf()
                &&& self.spec_descriptors()[i].name@ == self.spec_storage()[i].0@
                &&& self.spec_descriptors()[i].pattern@ == self.spec_storage()[i].1@
            }
    }

    /// Make an empty list of file type filters.
    pub fn new() -> (r: FileFilters)
        ensures
            r.wf(),
            r.spec_len() == 0,
    {
        FileFilters { descriptors: Vec::new(), storage: Vec::new() }
    }

    /// Make an empty list with room for `cap` filters.
    pub fn with_capacity(cap: usize) -> (r: FileFilters)
        ensures
            r.wf(),
            r.spec_len() == 0,
    {
        FileFilters { descriptors: Vec::with_capacity(cap), storage: Vec::with_capacity(cap) }
    }

    /// Get the number of file filters.
    pub fn len(&self) -> (n: usize)
        ensures
            n == self.spec_len(),
    {
        self.storage.len()
    }

    /// Check if this has file filters in it.
    pub fn is_empty(&self) -> (e: bool)
        ensures
            e == (self.spec_len() == 0),
    {
        self.storage.is_empty()
    }

    /// Add a filter: append a descriptor entry carrying the pair's units
    /// and the owning pair itself, in lock-step.
    pub fn add_filter(&mut self, name: CWideString, pattern: CWideString)
        requires
            old(self).wf(),
            name.wf(),
            pattern.wf(),
        ensures
            final(self).wf(),
            final(self).spec_storage() == old(self).spec_storage().push((name, pattern)),
            final(self).spec_len() == old(self).spec_len() + 1,
    {
        let name_units = slice_to_vec(name.as_slice_with_nul());
        let pattern_units = slice_to_vec(pattern.as_slice_with_nul());
        self.descriptors.push(FilterDescriptor { name: name_units, pattern: pattern_units });
        self.storage.push((name, pattern));
    }

    /// The `i`-th exported descriptor entry.
    pub fn descriptor(&self, i: usize) -> (r: &FilterDescriptor)
        requires
            self.wf(),
            i < self.spec_len(),
        ensures
            *r == self.spec_descriptors()[i as int],
    {
        slice_index_get(self.descriptors.as_slice(), i)
    }

    /// The `i`-th owned (name, pattern) pair.
    pub fn pair(&self, i: usize) -> (r: &(CWideString, CWideString))
        requires
            i < self.spec_len(),
        ensures
            *r == self.spec_storage()[i as int],
    {
        slice_index_get(self.storage.as_slice(), i)
    }
}

impl Default for FileFilters {
    /// An empty list of file type filters.
    fn default() -> (r: FileFilters)
        ensures
            r.wf(),
            r.spec_len() == 0,
    {
        FileFilters::new()
    }
}

/// Law: filter list invariant.  After appending any number of pairs, the
/// exported descriptor count equals the number of stored pairs, and the
/// `i`-th descriptor's units are terminator-valid and exactly the `i`-th
/// stored pair's, for every `i`.
pub proof fn lemma_descriptors_match_storage(filters: &FileFilters)
    requires
        filters.wf(),
    ensures
        filters.spec_descriptors().len() == filters.spec_storage().len(),
        forall|i: int|
            0 <= i < filters.spec_len() ==> {
                &&& valid_wide(filters.spec_descriptors()[i].name@)
                &&& valid_wide(filters.spec_descriptors()[i].pattern@)
                &&& filters.spec_descriptors()[i].name@ == filters.spec_storage()[i].0@
                &&& filters.spec_descriptors()[i].pattern@ == filters.spec_storage()[i].1@
            },
{
}

/// Which form of a shell item's display name to request from the foreign
/// call.
#[derive(Debug, Copy, Clone, Eq, PartialEq, Hash, Structural)]
pub enum DisplayNameType {
    /// The display name relative to the parent folder; generally ideal for
    /// display to the user.
    NormalDisplay,
    /// The parsing name relative to the parent folder; not suitable for UI.
    ParentRelativeParsing,
    /// The parsing name relative to the desktop; not suitable for UI.
    DesktopAbsoluteParsing,
    /// The editing name relative to the parent folder; suitable for UI.
    ParentRelativeEditing,
    /// The editing name relative to the desktop; suitable for UI.
    DesktopAbsoluteEditing,
    /// The item's file system path, if it has one.  Items without a file
    /// system backing have none, and the foreign call fails for them.
    FileSysPath,
    /// The item's URL, if it has one; the foreign call fails for items
    /// without one.
    Url,
    /// The path relative to the parent folder in the friendly format of an
    /// address bar.
    ParentRelativeForAddressBar,
    /// The path relative to the parent folder.
    ParentRelative,
    /// The parent-relative form used by newer shells for UI.
    ParentRelativeForUi,
}

/// The foreign format code that stands for each display-name option.
pub open spec fn spec_format_code(t: DisplayNameType) -> u32 {
    match t {
        DisplayNameType::NormalDisplay => 0,
        DisplayNameType::ParentRelativeParsing => 0x80018001,
        DisplayNameType::DesktopAbsoluteParsing => 0x80028000,
        DisplayNameType::ParentRelativeEditing => 0x80031001,
        DisplayNameType::DesktopAbsoluteEditing => 0x8004c000,
        DisplayNameType::FileSysPath => 0x80058000,
        DisplayNameType::Url => 0x80068000,
        DisplayNameType::ParentRelativeForAddressBar => 0x8007c001,
        DisplayNameType::ParentRelative => 0x80080001,
        DisplayNameType::ParentRelativeForUi => 0x80094001,
    }
}

impl DisplayNameType {
    /// The foreign format code that stands for this display-name option.
    pub fn format_code(&self) -> (c: u32)
        ensures
            c == spec_format_code(*self),
    {
        match self {
            DisplayNameType::NormalDisplay => 0,
            DisplayNameType::ParentRelativeParsing => 0x80018001,
            DisplayNameType::DesktopAbsoluteParsing => 0x80028000,
            DisplayNameType::ParentRelativeEditing => 0x80031001,
            DisplayNameType::DesktopAbsoluteEditing => 0x8004c000,
            DisplayNameType::FileSysPath => 0x80058000,
            DisplayNameType::Url => 0x80068000,
            DisplayNameType::ParentRelativeForAddressBar => 0x8007c001,
            DisplayNameType::ParentRelative => 0x80080001,
            DisplayNameType::ParentRelativeForUi => 0x80094001,
        }
    }
}

} // verus!
