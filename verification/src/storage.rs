//! Stores that hold one state value and lend it out under guards.
//!
//! A read guard shares the value; a write guard has it alone. Releasing a
//! write guard of a disk-backed store replaces the whole file text with the
//! text of the value as it then is. The release is a call of its own: a
//! write guard that merely goes out of scope leaves the file as it was.
//!
//! A store never touches the file system. It is told what was found in the
//! file, and it says what the file is to hold; reading and writing the file
//! is left to the caller.

use crate::snapshot::decoded_as;
use crate::snapshot::encoded_as;
use crate::snapshot::Snapshot;
use core::ops::Deref;
use core::ops::DerefMut;
use vstd::prelude::*;
use vstd::string::StringExecFns;

verus! {

/// A shared view of the value in a store.
pub trait StorageReadGuard<'a, T>: Deref<Target = T> {
    /// The value that the guard shows.
    spec fn value(&self) -> T;
}

/// The one view of the value in a store through which it can be changed.
pub trait StorageWriteGuard<'a, T>: DerefMut<Target = T> + Sized {
    /// The value as it stands under the guard.
    spec fn value(&self) -> T;

    /// Ends the access and makes the value durable where the store is
    /// durable. An error is fatal: the durable copy lags behind the value,
    /// and the process should stop rather than go on with the two apart.
    fn release(self) -> (done: Result<(), String>);
}

/// A store of one value.
pub trait Storage<'a> {
    /// The type of the value.
    type S;

    /// The guard that `read` hands out.
    type ReadGuard: StorageReadGuard<'a, Self::S>;

    /// The guard that `write` hands out.
    type WriteGuard: StorageWriteGuard<'a, Self::S>;

    /// The value in the store.
    spec fn value(&self) -> Self::S;

    /// A shared view of the value. Any number may exist at a time.
    fn read(&'a self) -> (guard: Self::ReadGuard)
        ensures
            guard.value() == self.value(),
    ;

    /// The exclusive view of the value. While it lives the store is borrowed
    /// mutably, so no other guard of the store can exist.
    fn write(&'a mut self) -> (guard: Self::WriteGuard)
        ensures
            guard.value() == old(self).value(),
    ;
}

/// What was found at the location of a disk-backed store.
#[derive(Debug)]
pub enum StoredFile {
    /// The file could not be opened.
    Absent,
    /// The file was opened, but reading it as text failed; the text
    /// describes the failure.
    Unreadable(String),
    /// The whole text of the file.
    Contents(String),
}

/// Mathematical model of a [`DiskStorage`].
pub struct DiskStorageView<T> {
    /// The value in memory.
    pub value: T,
    /// The location of the file.
    pub path: Seq<char>,
    /// The text of the file.
    pub file: Seq<char>,
}

/// A store whose value is kept in a file as well as in memory.
#[derive(Debug)]
pub struct DiskStorage<T> {
    data: T,
    path: String,
    file: String,
}

impl<T> View for DiskStorage<T> {
    type V = DiskStorageView<T>;

    closed spec fn view(&self) -> DiskStorageView<T> {
        DiskStorageView { value: self.data, path: self.path@, file: self.file@ }
    }
}

/// The text that opens the message of every failure to load a file.
pub open spec fn read_failure_prefix() -> Seq<char> {
    "Couldn't read file: "@
}

/// The message for a failure to load a file, from the description of the
/// failure.
fn read_failure(detail: &str) -> (message: String)
    ensures
        message@ == read_failure_prefix() + detail@,
{
    String::from_str("Couldn't read file: ").concat(detail)
}

impl<T: Snapshot> DiskStorage<T> {
    /// Makes the store for the file at `path`, given what was `found` there.
    ///
    /// Where the file holds a text, the value is read from it, and a
    /// malformed text fails the construction; so does a file that could not
    /// be read. Only where the file is absent is `default` called for the
    /// value. The file is then taken to be empty: it is opened anew and cut
    /// off, ready for the first release of a write guard.
    pub fn new_with_default<F: Fn() -> T>(path: &str, found: StoredFile, default: F) -> (store:
        Result<Self, String>)
        requires
            default.requires(()),
        ensures
            match found {
                StoredFile::Absent => store matches Ok(s) && default.ensures((), s@.value),
                StoredFile::Unreadable(detail) => store matches Err(message) && message@
                    == read_failure_prefix() + detail@,
                StoredFile::Contents(text) => match store {
                    Ok(s) => exists|t: &str|
                        {
                            &&& t@ == text@
                            &&& #[trigger] decoded_as::<T>(t, Ok(s@.value))
                        },
                    Err(message) => exists|t: &str, detail: String|
                        {
                            &&& t@ == text@
                            &&& #[trigger] decoded_as::<T>(t, Err(detail))
                            &&& message@ == read_failure_prefix() + detail@
                        },
                },
            },
            store matches Ok(s) ==> s@.path == path@ && s@.file == Seq::<char>::empty(),
    {
        let loaded = match found {
            StoredFile::Absent => None,
            StoredFile::Unreadable(detail) => Some(Err(detail)),
            StoredFile::Contents(text) => {
                let contents = text.as_str();
                let outcome = T::decode(contents);
                assert(decoded_as::<T>(contents, outcome));
                Some(outcome)
            },
        };
        Self::with_loaded(path, loaded, default)
    }
}

impl<T> DiskStorage<T> {
    /// Makes the store for the file at `path` from what loading the file
    /// has come to: `None` where there was no file, else the value that was
    /// read from it or the description of why none could be read.
    ///
    /// A value that was read is taken. A failure fails the construction.
    /// Only where there was no file is `default` called for the value. The
    /// file is then taken to be empty: it is opened anew and cut off, ready
    /// for the first release of a write guard.
    pub fn with_loaded<F: Fn() -> T>(path: &str, loaded: Option<Result<T, String>>, default: F)
        -> (store: Result<Self, String>)
        requires
            default.requires(()),
        ensures
            match loaded {
                None => store matches Ok(s) && default.ensures((), s@.value),
                Some(Ok(value)) => store matches Ok(s) && s@.value == value,
                Some(Err(detail)) => store matches Err(message) && message@
                    == read_failure_prefix() + detail@,
            },
            store matches Ok(s) ==> s@.path == path@ && s@.file == Seq::<char>::empty(),
    {
        let data = match loaded {
            None => default(),
            Some(Ok(value)) => value,
            Some(Err(detail)) => {
                return Err(read_failure(detail.as_str()));
            },
        };
        Ok(DiskStorage { data, path: String::from_str(path), file: String::new() })
    }

    /// The location of the file.
    pub fn path(&self) -> (path: &str)
        ensures
            path@ == self@.path,
    {
        self.path.as_str()
    }

    /// The text that the file holds: empty after the construction, and after
    /// each release of a write guard the text of the value at that time.
    pub fn file(&self) -> (text: &str)
        ensures
            text@ == self@.file,
    {
        self.file.as_str()
    }
}

/// A shared view of the value in a [`DiskStorage`].
#[derive(Debug)]
pub struct DiskStorageReadGuard<'a, T> {
    storage: &'a DiskStorage<T>,
}

impl<'a, T> DiskStorageReadGuard<'a, T> {
    /// The store that the guard borrows.
    pub closed spec fn store(&self) -> DiskStorage<T> {
        *self.storage
    }

    fn new(storage: &'a DiskStorage<T>) -> (guard: Self)
        ensures
            guard.store() == *storage,
    {
        DiskStorageReadGuard { storage }
    }
}

impl<'a, T> Deref for DiskStorageReadGuard<'a, T> {
    type Target = T;

    fn deref(&self) -> (value: &T)
        ensures
            *value == self.store()@.value,
    {
        &self.storage.data
    }
}

impl<'a, T> StorageReadGuard<'a, T> for DiskStorageReadGuard<'a, T> {
    open spec fn value(&self) -> T {
        self.store()@.value
    }
}

/// The exclusive view of the value in a [`DiskStorage`]. Its release writes
/// the value to the file; without the release the file stays as it was.
#[derive(Debug)]
pub struct DiskStorageWriteGuard<'a, T> {
    /// The store that the guard borrows.
    pub storage: &'a mut DiskStorage<T>,
}

impl<'a, T> DiskStorageWriteGuard<'a, T> {
    /// The store as it stands under the guard.
    pub open spec fn store(&self) -> DiskStorage<T> {
        *self.storage
    }

    fn new(storage: &'a mut DiskStorage<T>) -> (guard: Self)
        ensures
            guard.store() == *old(storage),
            *final(storage) == *final(guard.storage),
    {
        DiskStorageWriteGuard { storage }
    }
}

impl<'a, T> Deref for DiskStorageWriteGuard<'a, T> {
    type Target = T;

    fn deref(&self) -> (value: &T)
        ensures
            *value == self.store()@.value,
    {
        &self.storage.data
    }
}

impl<'a, T> DerefMut for DiskStorageWriteGuard<'a, T> {
    /// Lends the value out for a change. Neither the file nor its location
    /// is touched.
    fn deref_mut(&mut self) -> (value: &mut T)
        ensures
            *value == old(self).store()@.value,
            final(self).store()@ == (DiskStorageView {
                value: *final(value),
                ..old(self).store()@
            }),
            *final(final(self).storage) == *final(old(self).storage),
    {
        &mut self.storage.data
    }
}

impl<'a, T> DiskStorageWriteGuard<'a, T> {
    /// Ends the access, given what writing the value out has come to. A
    /// text replaces all that the file held. A failure leaves the file as it
    /// was and is handed on.
    pub fn release_with(self, encoded: Result<String, String>) -> (done: Result<(), String>)
        ensures
            match encoded {
                Ok(text) => done is Ok && final(self.storage)@ == (DiskStorageView {
                    file: text@,
                    ..self.store()@
                }),
                Err(detail) => done == Err::<(), String>(detail) && final(self.storage)@
                    == self.store()@,
            },
    {
        match encoded {
            Ok(text) => {
                self.storage.file = text;
                Ok(())
            },
            Err(detail) => Err(detail),
        }
    }
}

impl<'a, T: Snapshot> StorageWriteGuard<'a, T> for DiskStorageWriteGuard<'a, T> {
    open spec fn value(&self) -> T {
        self.store()@.value
    }

    /// Ends the access. The value is written out first; then its text
    /// replaces all that the file held. A value that cannot be written out
    /// leaves the file as it was, and the description of the failure comes
    /// back as the error.
    fn release(self) -> (done: Result<(), String>)
        ensures
            match done {
                Ok(_) => exists|text: String|
                    {
                        &&& #[trigger] encoded_as(self.store()@.value, Ok(text))
                        &&& final(self.storage)@ == (DiskStorageView {
                            file: text@,
                            ..self.store()@
                        })
                    },
                Err(detail) => {
                    &&& encoded_as(self.store()@.value, Err(detail))
                    &&& final(self.storage)@ == self.store()@
                },
            },
    {
        let encoded = self.storage.data.encode();
        assert(encoded_as(self.store()@.value, encoded));
        self.release_with(encoded)
    }
}

impl<'a, T: Snapshot + 'a> Storage<'a> for DiskStorage<T> {
    type S = T;

    type ReadGuard = DiskStorageReadGuard<'a, T>;

    type WriteGuard = DiskStorageWriteGuard<'a, T>;

    open spec fn value(&self) -> T {
        self@.value
    }

    fn read(&'a self) -> (guard: DiskStorageReadGuard<'a, T>)
        ensures
            guard.store() == *self,
    {
        DiskStorageReadGuard::new(self)
    }

    fn write(&'a mut self) -> (guard: DiskStorageWriteGuard<'a, T>)
        ensures
            guard.store() == *old(self),
            *final(self) == *final(guard.storage),
    {
        DiskStorageWriteGuard::new(self)
    }
}

/// Any two read guards of one store show the same value.
pub proof fn lemma_read_guards_agree<'a, S: Storage<'a>>(
    store: &S,
    first: &S::ReadGuard,
    second: &S::ReadGuard,
)
    requires
        first.value() == store.value(),
        second.value() == store.value(),
    ensures
        first.value() == second.value(),
{
}

/// A store whose value is kept in memory only. Nothing of it outlives the
/// process.
#[derive(Debug)]
pub struct MemStorage<T> {
    data: T,
}

impl<T> View for MemStorage<T> {
    type V = T;

    closed spec fn view(&self) -> T {
        self.data
    }
}

impl<T> MemStorage<T> {
    /// Makes the store with the value that `default` returns. This never
    /// fails.
    pub fn new_with_default<F: Fn() -> T>(default: F) -> (store: Result<Self, String>)
        requires
            default.requires(()),
        ensures
            store matches Ok(s) && default.ensures((), s@),
    {
        Ok(MemStorage { data: default() })
    }
}

/// A shared view of the value in a [`MemStorage`].
#[derive(Debug)]
pub struct MemStorageReadGuard<'a, T> {
    storage: &'a MemStorage<T>,
}

impl<'a, T> MemStorageReadGuard<'a, T> {
    /// The store that the guard borrows.
    pub closed spec fn store(&self) -> MemStorage<T> {
        *self.storage
    }

    fn new(storage: &'a MemStorage<T>) -> (guard: Self)
        ensures
            guard.store() == *storage,
    {
        MemStorageReadGuard { storage }
    }
}

impl<'a, T> Deref for MemStorageReadGuard<'a, T> {
    type Target = T;

    fn deref(&self) -> (value: &T)
        ensures
            *value == self.store()@,
    {
        &self.storage.data
    }
}

impl<'a, T> StorageReadGuard<'a, T> for MemStorageReadGuard<'a, T> {
    open spec fn value(&self) -> T {
        self.store()@
    }
}

/// The exclusive view of the value in a [`MemStorage`].
#[derive(Debug)]
pub struct MemStorageWriteGuard<'a, T> {
    /// The store that the guard borrows.
    pub storage: &'a mut MemStorage<T>,
}

impl<'a, T> MemStorageWriteGuard<'a, T> {
    /// The store as it stands under the guard.
    pub open spec fn store(&self) -> MemStorage<T> {
        *self.storage
    }

    fn new(storage: &'a mut MemStorage<T>) -> (guard: Self)
        ensures
            guard.store() == *old(storage),
            *final(storage) == *final(guard.storage),
    {
        MemStorageWriteGuard { storage }
    }
}

impl<'a, T> Deref for MemStorageWriteGuard<'a, T> {
    type Target = T;

    fn deref(&self) -> (value: &T)
        ensures
            *value == self.store()@,
    {
        &self.storage.data
    }
}

impl<'a, T> DerefMut for MemStorageWriteGuard<'a, T> {
    fn deref_mut(&mut self) -> (value: &mut T)
        ensures
            *value == old(self).store()@,
            final(self).store()@ == *final(value),
            *final(final(self).storage) == *final(old(self).storage),
    {
        &mut self.storage.data
    }
}

impl<'a, T> StorageWriteGuard<'a, T> for MemStorageWriteGuard<'a, T> {
    open spec fn value(&self) -> T {
        self.store()@
    }

    /// Ends the access. There is nothing to write: this never fails, and the
    /// store keeps the value.
    fn release(self) -> (done: Result<(), String>)
        ensures
            done is Ok,
            *final(self.storage) == self.store(),
    {
        Ok(())
    }
}

impl<'a, T: 'a> Storage<'a> for MemStorage<T> {
    type S = T;

    type ReadGuard = MemStorageReadGuard<'a, T>;

    type WriteGuard = MemStorageWriteGuard<'a, T>;

    open spec fn value(&self) -> T {
        self@
    }

    fn read(&'a self) -> (guard: MemStorageReadGuard<'a, T>)
        ensures
            guard.store() == *self,
    {
        MemStorageReadGuard::new(self)
    }

    fn write(&'a mut self) -> (guard: MemStorageWriteGuard<'a, T>)
        ensures
            guard.store() == *old(self),
            *final(self) == *final(guard.storage),
    {
        MemStorageWriteGuard::new(self)
    }
}

} // verus!
