use vstd::prelude::*;

verus! {

/// A value that is kept in step with a document on disk.
///
/// `Inner` is the document's structure; `update` replaces the value's
/// content with a freshly read document and `content` hands out the current
/// one, to be written back.
pub trait Updatable<Inner> {
    fn update(&self, new_data: Inner);

    /// Where the document lives.
    fn path() -> String;

    fn content(&self) -> Inner;
}

/// Saving, loading and reloading of a value from its document.
///
/// `Error` is what the reading and writing layer reports.
pub trait FileStructTrait<Error> {
    fn save(&self) -> Result<(), Error>;

    fn load() -> Result<Self, Error> where Self: Sized;

    fn reload(&self) -> Result<(), Error>;
}

} // verus!
