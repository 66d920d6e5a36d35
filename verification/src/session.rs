//! The decode session: a single-slot, last-writer-wins binding of the
//! texture dictionary that texture references resolve against.  Binding is
//! explicit; decoding a texture reference while unbound fails immediately
//! rather than deferring.

use vstd::prelude::*;

use std::rc::Rc;

use crate::rc_clone;
use crate::texture::{spec_lookup, TexDictionary, TexDictionaryV, Texture};

verus! {

/// One decode session; hold one per logical load operation.
pub struct Instance {
    curr_dict: Option<Rc<TexDictionary>>,
}

impl View for Instance {
    type V = Option<TexDictionaryV>;

    closed spec fn view(&self) -> Option<TexDictionaryV> {
        match self.curr_dict {
            Some(d) => Some(d@),
            None => None,
        }
    }
}

impl Instance {
    /// A fresh session with no dictionary bound.
    pub fn new() -> (r: Instance)
        ensures
            r@ is None,
    {
        Instance { curr_dict: None }
    }

    /// Bind a dictionary; any earlier binding is replaced.
    pub fn bind_dictionary(&mut self, dictionary: &Rc<TexDictionary>)
        ensures
            final(self)@ == Some(dictionary@),
    {
        self.curr_dict = Some(rc_clone(dictionary));
    }

    /// Drop the binding; texture resolution fails until the next bind.
    pub fn unbind_dictionary(&mut self)
        ensures
            final(self)@ is None,
    {
        self.curr_dict = None;
    }

    /// Resolve a texture name against the bound dictionary, or `None` when
    /// no dictionary is bound or the name is not in it.  The lookup is
    /// case-insensitive and shares the stored texture.
    pub fn read_texture(&self, name: &[u8], mask: Option<&[u8]>) -> (r: Option<Rc<Texture>>)
        ensures
            match r {
                Some(t) => self@ matches Some(d) && spec_lookup(d.textures, name@) == Some(t@),
                None => match self@ {
                    Some(d) => spec_lookup(d.textures, name@) is None,
                    None => true,
                },
            },
    {
        match &self.curr_dict {
            Some(dict) => dict.read_texture(name, mask),
            None => None,
        }
    }
}

} // verus!
