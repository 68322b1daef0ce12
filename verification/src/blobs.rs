//! The blob store: the bytes of each upload under its stored name.

use crate::seqs::{first, first_at, lemma_first_at, lemma_first_at_push, lemma_first_without};
use vstd::prelude::*;
use vstd::string::*;

verus! {

/// One stored blob.
#[derive(Debug, PartialEq, Eq)]
pub struct Blob {
    pub name: String,
    pub content: Vec<u8>,
}

pub struct BlobView {
    pub name: Seq<char>,
    pub content: Seq<u8>,
}

impl View for Blob {
    type V = BlobView;

    open spec fn view(&self) -> BlobView {
        BlobView { name: self.name@, content: self.content@ }
    }
}

/// What a blob store holds: bytes by name.
pub type Blobs = Map<Seq<char>, Seq<u8>>;

/// Whether a blob is stored under `name`.
pub open spec fn holds(blobs: Blobs, name: Seq<char>) -> bool {
    blobs.dom().contains(name)
}

/// The bytes stored under `name`.
pub open spec fn content_of(blobs: Blobs, name: Seq<char>) -> Option<Seq<u8>> {
    if holds(blobs, name) {
        Some(blobs[name])
    } else {
        None
    }
}

/// The blobs after `content` has been written under `name`: a blob of
/// that name is overwritten.
pub open spec fn written(blobs: Blobs, name: Seq<char>, content: Seq<u8>) -> Blobs {
    blobs.insert(name, content)
}

/// The blobs after the one called `name` has been removed.
pub open spec fn removed(blobs: Blobs, name: Seq<char>) -> Blobs {
    blobs.remove(name)
}

/// The views of a list of blobs, in order.
spec fn blob_views(blobs: Seq<Blob>) -> Seq<BlobView> {
    blobs.map_values(|b: Blob| b@)
}

/// Blobs stored under `name`.
spec fn named(name: Seq<char>) -> spec_fn(BlobView) -> bool {
    |b: BlobView| b.name == name
}

/// What a list of blobs holds under each name: the first blob of that
/// name.
spec fn by_name(blobs: Seq<BlobView>) -> Blobs {
    Map::new(
        |name: Seq<char>| first_at(blobs, named(name), 0) is Some,
        |name: Seq<char>| first(blobs, named(name))->0.content,
    )
}

/// Replacing the first blob of a name by another of that name changes
/// what is held under that name and nothing else.
proof fn lemma_by_name_update(blobs: Seq<BlobView>, at: int, blob: BlobView)
    requires
        first_at(blobs, named(blob.name), 0) == Some(at),
    ensures
        by_name(blobs.update(at, blob)) == by_name(blobs).insert(blob.name, blob.content),
{
    let after = blobs.update(at, blob);
    lemma_first_at(blobs, named(blob.name), 0);
    assert forall|name: Seq<char>|
        first_at(after, named(name), 0) == first_at(blobs, named(name), 0) by {
        lemma_first_at(blobs, named(name), 0);
        lemma_first_at(after, named(name), 0);
        match first_at(blobs, named(name), 0) {
            Some(found) => {
                assert(after[found].name == blobs[found].name);
                assert forall|j: int| 0 <= j < found implies !named(name)(
                    #[trigger] after[j],
                ) by {
                    assert(after[j].name == blobs[j].name);
                }
                crate::seqs::lemma_first_at_is(after, named(name), found);
            },
            None => {
                assert forall|j: int| 0 <= j < after.len() implies !named(name)(
                    #[trigger] after[j],
                ) by {
                    assert(after[j].name == blobs[j].name);
                }
            },
        }
    }
    assert forall|name: Seq<char>| #[trigger]
        by_name(after).dom().contains(name) implies by_name(after)[name] == by_name(
        blobs,
    ).insert(blob.name, blob.content)[name] by {
        lemma_first_at(blobs, named(name), 0);
    }
    assert(by_name(after) =~= by_name(blobs).insert(blob.name, blob.content));
}

/// Adding a blob under a name that was free changes what is held under
/// that name and nothing else.
proof fn lemma_by_name_push(blobs: Seq<BlobView>, blob: BlobView)
    requires
        first_at(blobs, named(blob.name), 0) is None,
    ensures
        by_name(blobs.push(blob)) == by_name(blobs).insert(blob.name, blob.content),
{
    let after = blobs.push(blob);
    assert forall|name: Seq<char>|
        first_at(after, named(name), 0) == (if name == blob.name {
            Some(blobs.len() as int)
        } else {
            first_at(blobs, named(name), 0)
        }) by {
        lemma_first_at_push(blobs, named(name), blob, 0);
    }
    assert forall|name: Seq<char>| #[trigger]
        by_name(after).dom().contains(name) implies by_name(after)[name] == by_name(
        blobs,
    ).insert(blob.name, blob.content)[name] by {
        lemma_first_at(blobs, named(name), 0);
        if name != blob.name {
            let found = first_at(blobs, named(name), 0)->0;
            assert(after[found] == blobs[found]);
        }
    }
    assert(by_name(after) =~= by_name(blobs).insert(blob.name, blob.content));
}

/// Taking a blob away changes nothing under any other name.
proof fn lemma_by_name_remove(blobs: Seq<BlobView>, at: int)
    requires
        0 <= at < blobs.len(),
    ensures
        by_name(blobs.remove(at)).remove(blobs[at].name) == by_name(blobs).remove(
            blobs[at].name,
        ),
{
    let after = blobs.remove(at);
    let gone = blobs[at].name;
    assert forall|name: Seq<char>| name != gone implies first(after, named(name)) == first(
        blobs,
        named(name),
    ) by {
        lemma_first_without(blobs, named(name), at);
    }
    assert forall|name: Seq<char>| name != gone implies (first_at(after, named(name), 0) is Some
        <==> first_at(blobs, named(name), 0) is Some) by {
        lemma_first_without(blobs, named(name), at);
    }
    assert(by_name(after).remove(gone) =~= by_name(blobs).remove(gone));
}

/// Blobs by name.
pub struct BlobStore {
    blobs: Vec<Blob>,
}

impl View for BlobStore {
    type V = Blobs;

    closed spec fn view(&self) -> Blobs {
        by_name(blob_views(self.blobs@))
    }
}

impl BlobStore {
    pub fn new() -> (store: BlobStore)
        ensures
            store@ == Map::<Seq<char>, Seq<u8>>::empty(),
    {
        let store = BlobStore { blobs: Vec::new() };
        assert(store@ =~= Map::<Seq<char>, Seq<u8>>::empty());
        store
    }

    fn find(&self, name: &String) -> (found: Option<usize>)
        ensures
            match found {
                Some(at) => first_at(blob_views(self.blobs@), named(name@), 0) == Some(at as int)
                    && at < self.blobs.len(),
                None => first_at(blob_views(self.blobs@), named(name@), 0) is None,
            },
            found is Some <==> holds(self@, name@),
    {
        let ghost views = blob_views(self.blobs@);
        let mut at: usize = 0;
        while at < self.blobs.len()
            invariant
                at <= self.blobs.len(),
                views == blob_views(self.blobs@),
                first_at(views, named(name@), 0) == first_at(views, named(name@), at as int),
            decreases self.blobs.len() - at,
        {
            assert(views[at as int] == self.blobs@[at as int]@);
            if self.blobs[at].name == *name {
                return Some(at);
            }
            at += 1;
        }
        None
    }

    /// Whether a blob is stored under `name`.
    pub fn contains(&self, name: &String) -> (yes: bool)
        ensures
            yes == holds(self@, name@),
    {
        self.find(name).is_some()
    }

    /// Whether nothing is stored.
    pub fn is_empty(&self) -> (yes: bool)
        ensures
            yes == (self@ == Map::<Seq<char>, Seq<u8>>::empty()),
    {
        let ghost views = blob_views(self.blobs@);
        if self.blobs.len() == 0 {
            assert(self@ =~= Map::<Seq<char>, Seq<u8>>::empty());
            true
        } else {
            proof {
                let name = views[0].name;
                assert(named(name)(views[0]));
                lemma_first_at(views, named(name), 0);
                assert(self@.dom().contains(name));
            }
            false
        }
    }

    /// A copy of the bytes stored under `name`.
    pub fn read(&self, name: &String) -> (content: Option<Vec<u8>>)
        ensures
            match content {
                Some(bytes) => content_of(self@, name@) == Some(bytes@),
                None => content_of(self@, name@) is None,
            },
    {
        match self.find(name) {
            Some(at) => {
                assert(blob_views(self.blobs@)[at as int] == self.blobs@[at as int]@);
                Some(self.blobs[at].content.clone())
            },
            None => None,
        }
    }

    /// Stores `content` under `name`, in place of what was stored there.
    pub fn write(&mut self, name: String, content: Vec<u8>)
        ensures
            final(self)@ == written(old(self)@, name@, content@),
    {
        let ghost before = blob_views(self.blobs@);
        let ghost blob = BlobView { name: name@, content: content@ };
        match self.find(&name) {
            Some(at) => {
                self.blobs[at].content = content;
                self.blobs[at].name = name;
                proof {
                    assert(blob_views(self.blobs@) =~= before.update(at as int, blob));
                    lemma_by_name_update(before, at as int, blob);
                }
            },
            None => {
                self.blobs.push(Blob { name, content });
                proof {
                    assert(blob_views(self.blobs@) =~= before.push(blob));
                    lemma_by_name_push(before, blob);
                }
            },
        }
    }

    /// Removes what is stored under `name`; says whether there was
    /// anything.
    pub fn remove(&mut self, name: &String) -> (was_there: bool)
        ensures
            was_there == holds(old(self)@, name@),
            final(self)@ == removed(old(self)@, name@),
    {
        let mut was_there = false;
        loop
            invariant
                self@.remove(name@) == old(self)@.remove(name@),
                was_there ==> holds(old(self)@, name@),
                !was_there ==> self@ == old(self)@,
            decreases self.blobs.len(),
        {
            match self.find(name) {
                Some(at) => {
                    let ghost before = blob_views(self.blobs@);
                    proof {
                        if !was_there {
                            assert(holds(self@, name@));
                        }
                    }
                    let _ = self.blobs.remove(at);
                    proof {
                        assert(blob_views(self.blobs@) =~= before.remove(at as int));
                        lemma_first_at(before, named(name@), 0);
                        lemma_by_name_remove(before, at as int);
                    }
                    was_there = true;
                },
                None => {
                    assert(self@ =~= self@.remove(name@));
                    assert(old(self)@.remove(name@) =~= removed(old(self)@, name@));
                    return was_there;
                },
            }
        }
    }
}

} // verus!
