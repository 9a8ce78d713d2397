//! Access to guest code.

use vstd::prelude::*;

verus! {

/// What translation asks of the embedding program: the words of guest code.
pub trait TranslateCallbacks {
    /// The word of code at an address, if it may be executed.
    spec fn code(&self, vaddr: u32) -> Option<u32>;

    /// Reads the word of code at an address.
    fn memory_read_code(&self, vaddr: u32) -> (r: Option<u32>)
        ensures
            r == self.code(vaddr),
    ;
}

/// A stretch of code: words at consecutive addresses, and nothing elsewhere.
#[derive(Debug)]
pub struct CodeWords {
    pub base: u32,
    pub words: Vec<u32>,
}

impl TranslateCallbacks for CodeWords {
    open spec fn code(&self, vaddr: u32) -> Option<u32> {
        if self.base <= vaddr && (vaddr - self.base) % 4 == 0 && (vaddr - self.base) / 4
            < self.words@.len() {
            Some(self.words@[(vaddr - self.base) / 4])
        } else {
            None
        }
    }

    fn memory_read_code(&self, vaddr: u32) -> (r: Option<u32>) {
        if vaddr < self.base {
            return None;
        }
        let offset: u32 = vaddr - self.base;
        let index: usize = (offset / 4) as usize;
        if offset % 4 == 0 && index < self.words.len() {
            Some(self.words[index])
        } else {
            None
        }
    }
}

} // verus!
