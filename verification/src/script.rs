//! The translation unit a bytecode method is defined in.

use vstd::prelude::*;
use std::rc::Rc;
use crate::abc::AbcFile;
use crate::value::MovieHandle;

verus! {

/// A loaded translation unit: the bytecode container together with the movie
/// it came from. Copies share the container, which lives as long as any
/// method that refers to it.
#[derive(Debug)]
pub struct TranslationUnit {
    pub abc: Rc<AbcFile>,
    pub movie: MovieHandle,
}

impl TranslationUnit {
    /// A translation unit for `abc`, loaded from `movie`.
    pub fn new(abc: Rc<AbcFile>, movie: MovieHandle) -> (unit: TranslationUnit)
        ensures
            unit.abc == abc,
            unit.movie == movie,
    {
        TranslationUnit { abc, movie }
    }

    /// The bytecode container of this unit.
    pub fn abc(&self) -> (abc: Rc<AbcFile>)
        ensures
            abc == self.abc,
    {
        self.abc.clone()
    }

    /// The movie this unit was loaded from.
    pub fn movie(&self) -> (movie: MovieHandle)
        ensures
            movie == self.movie,
    {
        self.movie
    }
}

impl Clone for TranslationUnit {
    fn clone(&self) -> (unit: TranslationUnit)
        ensures
            unit == *self,
    {
        TranslationUnit { abc: self.abc.clone(), movie: self.movie }
    }
}

} // verus!
