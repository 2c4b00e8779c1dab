//! The clipboard of the desktop.
use crate::term::ClipboardType;
use vstd::prelude::*;

verus! {

/// The rules of access to the clipboard. The desktop has one text for both types.
#[derive(Debug)]
pub struct Clipboard {}

impl Clipboard {
    pub fn new() -> (r: Clipboard)
        ensures
            r == (Clipboard {  }),
    {
        Clipboard {  }
    }

    pub fn new_nop() -> (r: Clipboard)
        ensures
            r == (Clipboard {  }),
    {
        Clipboard {  }
    }

    /// The contents that the desktop's clipboard is set to, for either type.
    pub fn store(&mut self, ty: ClipboardType, text: String) -> (r: String)
        ensures
            r@ == text@,
            *final(self) == *old(self),
    {
        text
    }

    /// The text that was read from the desktop's clipboard; empty where it could not be read.
    pub fn load<E>(&mut self, ty: ClipboardType, contents: Result<String, E>) -> (r: String)
        ensures
            match contents {
                Ok(text) => r@ == text@,
                Err(_) => r@ == Seq::<char>::empty(),
            },
            *final(self) == *old(self),
    {
        match contents {
            Ok(text) => text,
            Err(_) => String::new(),
        }
    }
}

} // verus!
