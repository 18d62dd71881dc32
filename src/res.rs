//! Loadable resources and raw data blobs.
use vstd::prelude::*;

verus! {

/// A resource that is filled in once its file has been read.
pub trait Resource {
    /// Takes the file's bytes.
    fn parse(&mut self, data: Vec<u8>) -> Result<(), String>;

    /// The resource is ready to use.
    fn is_loaded(&self) -> bool;
}

/// A resource that can be created from the name of its file.
pub trait ResourceConstructor: Sized {
    fn new(file: &str) -> Self;
}

/// Raw data; loaded once it holds at least one byte. A blob has a single
/// owner: share it by cloning or by reference.
#[derive(Clone, Debug)]
pub struct Blob {
    inner: Vec<u8>,
}

impl View for Blob {
    type V = Seq<u8>;

    closed spec fn view(&self) -> Seq<u8> {
        self.inner@
    }
}

impl Blob {
    /// The data.
    pub fn data(&self) -> (r: &Vec<u8>)
        ensures
            r@ == self@,
    {
        &self.inner
    }

    /// The data, for changes in place.
    pub fn data_mut(&mut self) -> (r: &mut Vec<u8>)
        ensures
            r@ == old(self)@,
            final(self)@ == final(r)@,
    {
        &mut self.inner
    }

    /// An empty blob.
    pub fn empty() -> (r: Blob)
        ensures
            r@.len() == 0,
    {
        Blob { inner: Vec::new() }
    }

    /// Replaces the data.
    pub fn set_data(&mut self, data: Vec<u8>)
        ensures
            final(self)@ == data@,
    {
        self.inner = data;
    }

    /// Holds at least one byte.
    pub fn loaded(&self) -> (r: bool)
        ensures
            r == (self@.len() != 0),
    {
        self.inner.len() != 0
    }
}

impl ResourceConstructor for Blob {
    /// An empty blob, to be filled when `file` has been read.
    fn new(file: &str) -> Blob {
        Blob::empty()
    }
}

impl Resource for Blob {
    fn parse(&mut self, data: Vec<u8>) -> (r: Result<(), String>)
        ensures
            r is Ok,
            final(self)@ == data@,
    {
        self.set_data(data);
        Ok(())
    }

    fn is_loaded(&self) -> (r: bool)
        ensures
            r == (self@.len() != 0),
    {
        self.loaded()
    }
}

} // verus!
