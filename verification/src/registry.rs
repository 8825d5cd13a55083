//! The registered type set: the closed list of type tags that take part in the
//! node protocol, fixed once it has been assembled.

use crate::codec::{
    decoded, encodable, fits, global_id_text, to_global_id, DecodeError, SEPARATOR,
};
use vstd::prelude::*;
use vstd::string::*;

verus! {

/// The tags of `names`, each as its sequence of characters.
pub open spec fn tags_of(names: Seq<String>) -> Seq<Seq<char>> {
    Seq::new(names.len(), |i: int| names[i]@)
}

/// Whether `tag` can name a type: it holds no separator, and identifiers under it
/// can be encoded on this machine.
pub open spec fn valid_tag(tag: Seq<char>) -> bool {
    !tag.contains(SEPARATOR) && encodable(tag)
}

/// Whether no tag occurs twice in `tags`.
pub open spec fn distinct_tags(tags: Seq<Seq<char>>) -> bool {
    forall|i: int, j: int| 0 <= i < j < tags.len() ==> tags[i] != tags[j]
}

/// Whether `tags` can form a registry: every tag is valid and none occurs twice.
pub open spec fn well_formed_tags(tags: Seq<Seq<char>>) -> bool {
    (forall|i: int| 0 <= i < tags.len() ==> valid_tag(#[trigger] tags[i])) && distinct_tags(tags)
}

/// The slot of `tag` in `tags`, or `None` where `tag` is not registered.
pub open spec fn slot_of(tags: Seq<Seq<char>>, tag: Seq<char>) -> Option<int> {
    tags.index_of_first(tag)
}

/// Among distinct tags, the tag at slot `slot` is found at that slot.
pub proof fn lemma_slot_of_registered(tags: Seq<Seq<char>>, slot: int)
    requires
        distinct_tags(tags),
        0 <= slot < tags.len(),
    ensures
        slot_of(tags, tags[slot]) == Some(slot),
{
    tags.index_of_first_ensures(tags[slot]);
}

/// A tag that is not among `tags` has no slot.
pub proof fn lemma_slot_of_unregistered(tags: Seq<Seq<char>>, tag: Seq<char>)
    requires
        !tags.contains(tag),
    ensures
        slot_of(tags, tag) is None,
{
    tags.index_of_first_ensures(tag);
}

/// Whether `text` holds the character `sep`.
pub fn holds(text: &str, sep: char) -> (r: bool)
    ensures
        r == text@.contains(sep),
{
    for c in it: text.chars()
        invariant
            it.seq() == text@,
            forall|j: int| 0 <= j < it.index() ==> text@[j] != sep,
    {
        if c == sep {
            return true;
        }
    }
    false
}

/// The closed set of registered type tags. A type is known by its slot, the
/// position of its tag.
pub struct Registry {
    names: Vec<String>,
}

impl View for Registry {
    type V = Seq<Seq<char>>;

    closed spec fn view(&self) -> Seq<Seq<char>> {
        tags_of(self.names@)
    }
}

impl Registry {
    #[verifier::type_invariant]
    spec fn well_formed(self) -> bool {
        well_formed_tags(tags_of(self.names@))
    }

    /// Assembles the registry of `names`, in their order. Gives `None` where a
    /// tag is not valid or occurs twice.
    pub fn new(names: Vec<String>) -> (registry: Option<Registry>)
        ensures
            match registry {
                Some(r) => r@ == tags_of(names@) && well_formed_tags(r@),
                None => !well_formed_tags(tags_of(names@)),
            },
    {
        let ghost tags = tags_of(names@);
        let mut i: usize = 0;
        while i < names.len()
            invariant
                i <= names.len(),
                tags == tags_of(names@),
                forall|k: int| 0 <= k < i ==> valid_tag(#[trigger] tags[k]),
                forall|k: int, l: int| 0 <= k < l < i ==> tags[k] != tags[l],
            decreases names.len() - i,
        {
            let name = names[i].as_str();
            if holds(name, SEPARATOR) || !fits(name) {
                assert(!valid_tag(tags[i as int]));
                return None;
            }
            let mut j: usize = 0;
            while j < i
                invariant
                    j <= i,
                    i < names.len(),
                    tags == tags_of(names@),
                    forall|k: int| 0 <= k < j ==> tags[k] != tags[i as int],
                decreases i - j,
            {
                if names[j] == names[i] {
                    assert(tags[j as int] == tags[i as int]);
                    return None;
                }
                j = j + 1;
            }
            i = i + 1;
        }
        Some(Registry { names })
    }

    /// The number of registered types. Every registry holds valid, distinct tags.
    pub fn len(&self) -> (n: usize)
        ensures
            n == self@.len(),
            well_formed_tags(self@),
    {
        proof {
            use_type_invariant(self);
        }
        self.names.len()
    }

    /// The tag of the type at `slot`.
    pub fn tag(&self, slot: usize) -> (tag: &str)
        requires
            slot < self@.len(),
        ensures
            tag@ == self@[slot as int],
    {
        self.names[slot].as_str()
    }

    /// The slot of the type that `tag` names, or `None` where no registered type
    /// has that tag.
    pub fn lookup(&self, tag: &str) -> (slot: Option<usize>)
        ensures
            match slot {
                Some(s) => slot_of(self@, tag@) == Some(s as int),
                None => slot_of(self@, tag@) is None,
            },
    {
        let wanted = tag.to_owned();
        let ghost tags = self@;
        let mut i: usize = 0;
        while i < self.names.len()
            invariant
                i <= self.names.len(),
                tags == tags_of(self.names@),
                wanted@ == tag@,
                forall|k: int| 0 <= k < i ==> tags[k] != tag@,
            decreases self.names.len() - i,
        {
            if self.names[i] == wanted {
                proof {
                    assert(tags[i as int] == tag@);
                    tags.index_of_first_ensures(tag@);
                }
                return Some(i);
            }
            i = i + 1;
        }
        proof {
            tags.index_of_first_ensures(tag@);
        }
        None
    }

    /// The opaque identifier of `key` under the type at `slot`. Decoding it gives
    /// that type's tag and the key back.
    pub fn global_id(&self, slot: usize, key: u128) -> (global_id: String)
        requires
            slot < self@.len(),
        ensures
            global_id@ == global_id_text(self@[slot as int], key),
            decoded(global_id@) == Ok::<(Seq<char>, u128), DecodeError>((self@[slot as int], key)),
    {
        proof {
            use_type_invariant(self);
            assert(valid_tag(tags_of(self.names@)[slot as int]));
        }
        to_global_id(self.names[slot].as_str(), key)
    }
}

} // verus!
