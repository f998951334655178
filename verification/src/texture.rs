//! Uploaded textures, kept by slot.

use crate::error::Error;
use std::collections::HashMap;
use vstd::prelude::*;

verus! {

broadcast use vstd::std_specs::hash::group_hash_axioms;

/// The pixel dimensions reported for a texture when it was created.
#[derive(Clone, Copy, Debug, PartialEq, Eq, Structural)]
pub struct TextureQuery {
    pub width: u32,
    pub height: u32,
}

/// What an upload reports: the texture with its queried dimensions, or the
/// message of the failure.
pub type Uploaded<T> = Result<(T, TextureQuery), String>;

/// A texture together with the dimensions queried at creation. The
/// dimensions are never queried again.
#[derive(Debug)]
pub struct TextureWithInfo<T> {
    pub texture: T,
    pub queried: TextureQuery,
}

impl<T> TextureWithInfo<T> {
    /// Builds the entry for a finished upload; a failed upload becomes
    /// `Error::TextureUpload` with the same message.
    pub fn new_from(uploaded: Uploaded<T>) -> (r: Result<TextureWithInfo<T>, Error>)
        ensures
            r == match uploaded {
                Ok((texture, queried)) => Ok(TextureWithInfo { texture, queried }),
                Err(message) => Err(Error::TextureUpload(message)),
            },
    {
        match uploaded {
            Ok((texture, queried)) => Ok(TextureWithInfo { texture, queried }),
            Err(message) => Err(Error::TextureUpload(message)),
        }
    }

    /// The texture itself.
    pub fn get_texture_ref(&self) -> (t: &T)
        ensures
            *t == self.texture,
    {
        &self.texture
    }

    /// The dimensions queried when the texture was created.
    pub fn get_texture_info_ref(&self) -> (q: &TextureQuery)
        ensures
            *q == self.queried,
    {
        &self.queried
    }
}

/// The texture cache: at most one entry per slot. It borrows the
/// texture-creation capability `C` that its textures come from, so it cannot
/// outlive that capability.
pub struct TextureManager<'a, C, T> {
    font_creator: &'a C,
    cache: HashMap<usize, TextureWithInfo<T>>,
}

impl<'a, C, T> View for TextureManager<'a, C, T> {
    type V = Map<usize, TextureWithInfo<T>>;

    /// The entries of the cache by slot.
    closed spec fn view(&self) -> Map<usize, TextureWithInfo<T>> {
        self.cache@
    }
}

/// The cache that results from storing the outcome of an upload under slot
/// `i`: a finished upload replaces whatever the slot held, a failed one
/// changes nothing.
pub open spec fn with_upload<T>(
    cache: Map<usize, TextureWithInfo<T>>,
    i: usize,
    uploaded: Uploaded<T>,
) -> Map<usize, TextureWithInfo<T>> {
    match uploaded {
        Ok((texture, queried)) => cache.insert(i, TextureWithInfo { texture, queried }),
        Err(_) => cache,
    }
}

/// What a lookup of slot `i` gives.
pub open spec fn lookup<T>(cache: Map<usize, TextureWithInfo<T>>, i: usize) -> Option<
    TextureWithInfo<T>,
> {
    if cache.contains_key(i) {
        Some(cache[i])
    } else {
        None
    }
}

impl<'a, C, T> TextureManager<'a, C, T> {
    /// The capability this cache was created for.
    pub closed spec fn capability(&self) -> &'a C {
        self.font_creator
    }

    /// An empty cache bound to `font_creator`.
    pub fn new(font_creator: &'a C) -> (manager: TextureManager<'a, C, T>)
        ensures
            manager@ == Map::<usize, TextureWithInfo<T>>::empty(),
            manager.capability() == font_creator,
    {
        TextureManager { font_creator, cache: HashMap::new() }
    }

    /// The capability to upload with.
    pub fn creator(&self) -> (c: &'a C)
        ensures
            c == self.capability(),
    {
        self.font_creator
    }

    /// Stores the outcome of uploading a surface under slot `i`. A finished
    /// upload replaces and releases the previous entry of the slot. A failed
    /// upload leaves the cache as it was and is reported as
    /// `Error::TextureUpload`.
    pub fn insert_surface(&mut self, i: usize, uploaded: Uploaded<T>) -> (r: Result<(), Error>)
        ensures
            final(self)@ == with_upload(old(self)@, i, uploaded),
            final(self).capability() == old(self).capability(),
            r == match uploaded {
                Ok(_) => Ok::<(), Error>(()),
                Err(message) => Err(Error::TextureUpload(message)),
            },
    {
        match TextureWithInfo::new_from(uploaded) {
            Ok(entry) => {
                self.cache.insert(i, entry);
                Ok(())
            },
            Err(e) => Err(e),
        }
    }

    /// A cache holds finitely many entries.
    pub proof fn lemma_finite(&self)
        ensures
            self@.dom().finite(),
    {
    }

    /// The entry of slot `i`, if the slot holds one.
    pub fn get_texture(&self, i: usize) -> (r: Option<&TextureWithInfo<T>>)
        ensures
            match r {
                Some(entry) => lookup(self@, i) == Some(*entry),
                None => lookup(self@, i).is_none(),
            },
    {
        self.cache.get(&i)
    }
}

/// A finished upload stored under a slot is what a lookup of that slot
/// gives next, with the dimensions that the upload reported.
pub proof fn lemma_lookup_after_insert<T>(
    cache: Map<usize, TextureWithInfo<T>>,
    i: usize,
    texture: T,
    queried: TextureQuery,
)
    ensures
        lookup(with_upload(cache, i, Ok((texture, queried))), i) == Some(
            TextureWithInfo { texture, queried },
        ),
        lookup(with_upload(cache, i, Ok((texture, queried))), i).unwrap().queried.width
            == queried.width,
        lookup(with_upload(cache, i, Ok((texture, queried))), i).unwrap().queried.height
            == queried.height,
{
}

/// Of two finished uploads stored under one slot only the second remains:
/// the cache is the one that the second alone would have given.
pub proof fn lemma_second_insert_replaces<T>(
    cache: Map<usize, TextureWithInfo<T>>,
    i: usize,
    first: (T, TextureQuery),
    second: (T, TextureQuery),
)
    ensures
        with_upload(with_upload(cache, i, Ok(first)), i, Ok(second)) == with_upload(
            cache,
            i,
            Ok(second),
        ),
        lookup(with_upload(with_upload(cache, i, Ok(first)), i, Ok(second)), i) == Some(
            TextureWithInfo { texture: second.0, queried: second.1 },
        ),
{
    assert(cache.insert(i, TextureWithInfo { texture: first.0, queried: first.1 }).insert(
        i,
        TextureWithInfo { texture: second.0, queried: second.1 },
    ) =~= cache.insert(i, TextureWithInfo { texture: second.0, queried: second.1 }));
}

/// The cache after storing a run of upload outcomes, each under its slot,
/// first to last.
pub open spec fn with_uploads<T>(
    cache: Map<usize, TextureWithInfo<T>>,
    uploads: Seq<(usize, Uploaded<T>)>,
) -> Map<usize, TextureWithInfo<T>>
    decreases uploads.len(),
{
    if uploads.len() == 0 {
        cache
    } else {
        with_upload(with_uploads(cache, uploads.drop_last()), uploads.last().0, uploads.last().1)
    }
}

/// An upload stored under one slot leaves every other slot as it was.
pub proof fn lemma_insert_keeps_other_slots<T>(
    cache: Map<usize, TextureWithInfo<T>>,
    i: usize,
    j: usize,
    uploaded: Uploaded<T>,
)
    requires
        i != j,
    ensures
        lookup(with_upload(cache, j, uploaded), i) == lookup(cache, i),
{
}

/// A slot that nothing was ever stored under is absent, whatever was
/// stored under other slots since the cache was empty.
pub proof fn lemma_lookup_never_inserted<T>(uploads: Seq<(usize, Uploaded<T>)>, i: usize)
    requires
        forall|k: int| 0 <= k < uploads.len() ==> (#[trigger] uploads[k]).0 != i,
    ensures
        lookup(with_uploads(Map::<usize, TextureWithInfo<T>>::empty(), uploads), i).is_none(),
    decreases uploads.len(),
{
    if uploads.len() > 0 {
        lemma_lookup_never_inserted(uploads.drop_last(), i);
        lemma_insert_keeps_other_slots(
            with_uploads(Map::<usize, TextureWithInfo<T>>::empty(), uploads.drop_last()),
            i,
            uploads.last().0,
            uploads.last().1,
        );
    }
}

/// A finished upload stored under a slot that held nothing makes the cache
/// one entry larger; stored under a slot that held an entry, it leaves the
/// number of entries as it was. There is no other limit.
pub proof fn lemma_insert_counts<T>(
    cache: Map<usize, TextureWithInfo<T>>,
    i: usize,
    texture: T,
    queried: TextureQuery,
)
    requires
        cache.dom().finite(),
    ensures
        with_upload(cache, i, Ok((texture, queried))).dom().finite(),
        with_upload(cache, i, Ok((texture, queried))).len() == if cache.contains_key(i) {
            cache.len()
        } else {
            cache.len() + 1
        },
{
    let after = with_upload(cache, i, Ok((texture, queried)));
    assert(after.dom() =~= cache.dom().insert(i));
}

/// Whether every entry of the cache has a positive width and height.
pub open spec fn all_positive<T>(cache: Map<usize, TextureWithInfo<T>>) -> bool {
    forall|i: usize| #[trigger]
        cache.contains_key(i) ==> cache[i].queried.width > 0 && cache[i].queried.height > 0
}

/// Where every finished upload reports a positive width and height, so does
/// every entry of the cache that they were stored in since it was empty.
pub proof fn lemma_positive_uploads<T>(uploads: Seq<(usize, Uploaded<T>)>)
    requires
        forall|k: int|
            0 <= k < uploads.len() ==> ((#[trigger] uploads[k]).1 matches Ok((_, queried))
                ==> queried.width > 0 && queried.height > 0),
    ensures
        all_positive(with_uploads(Map::<usize, TextureWithInfo<T>>::empty(), uploads)),
    decreases uploads.len(),
{
    if uploads.len() > 0 {
        lemma_positive_uploads(uploads.drop_last());
        assert(uploads.last() == uploads[uploads.len() - 1]);
    }
}

} // verus!
