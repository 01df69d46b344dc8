//! The animation files that the game loads, with the name of each and the
//! number of sprite sheets it brings.
use vstd::prelude::*;

verus! {

/// An animation file: a bundle of sprite sheets and animation definitions.
#[derive(PartialEq, Eq, Structural, PartialOrd, Ord, Hash, Debug, Clone, Copy)]
pub enum FileId {
    SpriteStudioSplash,
    Sample,
}

/// The directory name under which a file's assets are stored.
pub open spec fn file_name(f: FileId) -> Seq<char> {
    match f {
        FileId::SpriteStudioSplash => "splash1024"@,
        FileId::Sample => "sample"@,
    }
}

/// The number of sprite sheets that a file brings.
pub open spec fn sheet_count(f: FileId) -> nat {
    match f {
        FileId::SpriteStudioSplash => 1,
        FileId::Sample => 1,
    }
}

/// Every file has a name that is not empty and brings at least one sprite
/// sheet.
pub proof fn lemma_file_catalog_total(f: FileId)
    ensures
        file_name(f).len() > 0,
        sheet_count(f) >= 1,
{
    reveal_strlit("splash1024");
    reveal_strlit("sample");
}

impl FileId {
    /// The directory name under which this file's assets are stored.
    pub fn to_file_name(&self) -> (r: &'static str)
        ensures
            r@ == file_name(*self),
    {
        match self {
            FileId::SpriteStudioSplash => "splash1024",
            FileId::Sample => "sample",
        }
    }

    /// The number of sprite sheets that this file brings.
    pub fn sprite_sheet_num(&self) -> (r: usize)
        ensures
            r == sheet_count(*self),
            r >= 1,
    {
        match self {
            FileId::SpriteStudioSplash => 1,
            FileId::Sample => 1,
        }
    }
}

} // verus!
