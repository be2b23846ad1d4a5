//! The static identity of an actor.

use vstd::prelude::*;

verus! {

/// What an actor is from its start to its end: the name of its group and,
/// where the group tells its actors apart, its key in the group.
pub struct ObjectMeta {
    pub group: String,
    pub key: Option<String>,
}

/// An [`ObjectMeta`] as plain text.
pub struct ObjectMetaView {
    pub group: Seq<char>,
    pub key: Option<Seq<char>>,
}

impl View for ObjectMeta {
    type V = ObjectMetaView;

    open spec fn view(&self) -> ObjectMetaView {
        ObjectMetaView {
            group: self.group@,
            key: match self.key {
                Some(key) => Some(key@),
                None => None,
            },
        }
    }
}

impl ObjectMeta {
    /// The identity of the actor `key` of the group named `group`.
    pub fn new(group: String, key: Option<String>) -> (meta: ObjectMeta)
        ensures
            meta == (ObjectMeta { group, key }),
    {
        ObjectMeta { group, key }
    }
}

} // verus!
