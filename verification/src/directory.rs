//! The destination directory.

use crate::error::DirectoryError;
use vstd::prelude::*;

verus! {

/// What the pipeline needs of a file system to prepare its destination.
///
/// The two relations say what an implementation may do; they promise
/// nothing on its behalf.
pub trait FileSystem: Sized {
    /// `path_exists` may answer `found` for `directory` in this state.
    /// Unless an implementation says more, it may answer either.
    open spec fn answers(&self, directory: Seq<char>, found: bool) -> bool {
        true
    }

    /// `create_dir_all` on `directory` may take this state to `after` and
    /// return `made`. Unless an implementation says more, it may do
    /// anything.
    open spec fn creates(
        &self,
        directory: Seq<char>,
        after: &Self,
        made: Result<(), DirectoryError>,
    ) -> bool {
        true
    }

    /// Creates `directory` and every directory above it that is missing.
    fn create_dir_all(&mut self, directory: &str) -> (made: Result<(), DirectoryError>)
        ensures
            old(self).creates(directory@, final(self), made),
    ;

    /// Whether something is at `directory`.
    fn path_exists(&self, directory: &str) -> (found: bool)
        ensures
            self.answers(directory@, found),
    ;
}

/// Makes sure that `directory` is there: it is created, with what is missing
/// above it, unless the file system finds it. A directory that is found is
/// left alone.
pub fn create_dir_all_with_fs<F: FileSystem>(fs: &mut F, directory: &str) -> (made: Result<
    (),
    DirectoryError,
>)
    ensures
        ({
            &&& old(fs).answers(directory@, true)
            &&& made is Ok
            &&& *final(fs) == *old(fs)
        }) || ({
            &&& old(fs).answers(directory@, false)
            &&& old(fs).creates(directory@, final(fs), made)
        }),
{
    if fs.path_exists(directory) {
        Ok(())
    } else {
        fs.create_dir_all(directory)
    }
}

} // verus!
