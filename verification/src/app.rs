use vstd::prelude::*;

use crate::map::is_key_char;
use crate::map::PathMap;

verus! {

/// The share service: the key registry behind the delivery pipeline. It is
/// populated once at startup and read-only while serving.
#[derive(Debug)]
pub struct DirectShare {
    path_map: PathMap,
}

impl View for DirectShare {
    type V = Map<Seq<char>, Seq<char>>;

    closed spec fn view(&self) -> Map<Seq<char>, Seq<char>> {
        self.path_map@
    }
}

impl DirectShare {
    /// The key length every registration draws its key with.
    pub closed spec fn spec_key_length(&self) -> u8 {
        self.path_map.spec_key_length()
    }

    pub fn new(key_length: u8) -> (r: Self)
        requires
            key_length >= 1,
        ensures
            r@ == Map::<Seq<char>, Seq<char>>::empty(),
            r.spec_key_length() == key_length,
            crate::map::keys_wf(r@, key_length as int),
    {
        Self { path_map: PathMap::new(key_length) }
    }

    /// Register path and return shorten key
    #[inline]
    pub fn register(&mut self, path: String) -> (key: String)
        ensures
            final(self)@ == old(self)@.insert(key@, path@),
            final(self).spec_key_length() == old(self).spec_key_length(),
            key@.len() == old(self).spec_key_length() as int,
            forall|i: int| 0 <= i < key@.len() ==> is_key_char(#[trigger] key@[i]),
            crate::map::keys_wf(old(self)@, old(self).spec_key_length() as int)
                ==> crate::map::keys_wf(final(self)@, final(self).spec_key_length() as int),
    {
        self.path_map.register(path)
    }

    /// The registry that the delivery pipeline resolves keys against.
    pub fn path_map(&self) -> (r: &PathMap)
        ensures
            r@ == self@,
    {
        &self.path_map
    }
}

} // verus!
