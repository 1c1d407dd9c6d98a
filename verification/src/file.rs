//! The staged file record that every transform mutates in place, and the
//! contract all transforms answer to.

use crate::paths::AssetPath;
use vstd::prelude::*;

verus! {

/// The abstract state of a staged file.
pub ghost struct FileV {
    pub source: Seq<Seq<char>>,
    pub dest: Seq<Seq<char>>,
    pub content: Seq<u8>,
}

impl FileV {
    /// A staged file is well formed when both paths have components and the
    /// destination ends in a nonempty file name.
    pub open spec fn wf(self) -> bool {
        self.source.len() > 0 && self.dest.len() > 0 && self.dest.last().len() > 0
    }
}

/// A file in flight through the pipeline: the source path it came from, the
/// destination path it evolves toward, and its byte content.
pub struct File {
    pub source: AssetPath,
    pub dest: AssetPath,
    pub content: Vec<u8>,
}

impl View for File {
    type V = FileV;

    open spec fn view(&self) -> FileV {
        FileV { source: self.source@, dest: self.dest@, content: self.content@ }
    }
}

/// One content transformation, applied to a staged file with exclusive
/// access. A transform may replace the content and rewrite the destination
/// file name, but leaves the source path and the destination directory alone.
pub trait Preprocess {
    /// What the transform does, as a function on file states.
    spec fn spec_preprocess(&self, f: FileV) -> FileV;

    fn preprocess(&self, file: &mut File)
        requires
            old(file)@.wf(),
        ensures
            final(file)@ == self.spec_preprocess(old(file)@),
            final(file)@.wf(),
            final(file)@.source == old(file)@.source,
            final(file)@.dest.len() == old(file)@.dest.len(),
            final(file)@.dest.drop_last() == old(file)@.dest.drop_last(),
    ;
}

} // verus!
