//! The fonts the program loads: a fixed table of families and sizes, and the
//! collection that holds one loaded font for each entry of it.

use crate::error::Error;
use std::collections::HashMap;
use vstd::prelude::*;

verus! {

broadcast use vstd::std_specs::hash::group_hash_axioms;

/// A font family of the program.
#[derive(Clone, Copy, Debug, PartialEq, Eq, Hash, Structural)]
pub enum FontFamily {
    B612Regular,
    Vt323Regular,
    ShareTechMonoRegular,
}

impl FontFamily {
    /// The file of each family, relative to the working directory.
    pub open spec fn spec_path(self) -> Seq<char> {
        match self {
            FontFamily::B612Regular => "assets/B612_Mono/B612Mono-Regular.ttf"@,
            FontFamily::Vt323Regular => "assets/VT323/VT323-Regular.ttf"@,
            FontFamily::ShareTechMonoRegular => "assets/Share_Tech_Mono/ShareTechMono-Regular.ttf"@,
        }
    }

    /// The file to load the family from.
    pub fn path(self) -> (p: &'static str)
        ensures
            p@ == self.spec_path(),
    {
        match self {
            FontFamily::B612Regular => "assets/B612_Mono/B612Mono-Regular.ttf",
            FontFamily::Vt323Regular => "assets/VT323/VT323-Regular.ttf",
            FontFamily::ShareTechMonoRegular => "assets/Share_Tech_Mono/ShareTechMono-Regular.ttf",
        }
    }

    /// Whether the program loads this family at `size`.
    pub open spec fn offers(self, size: u16) -> bool {
        match self {
            FontFamily::B612Regular => size == 18 || size == 24 || size == 30 || size == 42,
            FontFamily::Vt323Regular => size == 18 || size == 24 || size == 30,
            FontFamily::ShareTechMonoRegular => size == 14 || size == 30,
        }
    }
}

/// One font to load: a family at a pixel size.
#[derive(Clone, Copy, Debug, PartialEq, Eq, Structural)]
pub struct FontRequest {
    pub family: FontFamily,
    pub size: u16,
}

/// How many fonts the program loads.
pub const FONT_COUNT: usize = 9;

/// The fonts of the program in the order in which they are loaded.
pub open spec fn font_table() -> Seq<FontRequest> {
    seq![
        FontRequest { family: FontFamily::B612Regular, size: 18 },
        FontRequest { family: FontFamily::B612Regular, size: 24 },
        FontRequest { family: FontFamily::B612Regular, size: 30 },
        FontRequest { family: FontFamily::B612Regular, size: 42 },
        FontRequest { family: FontFamily::Vt323Regular, size: 18 },
        FontRequest { family: FontFamily::Vt323Regular, size: 24 },
        FontRequest { family: FontFamily::Vt323Regular, size: 30 },
        FontRequest { family: FontFamily::ShareTechMonoRegular, size: 14 },
        FontRequest { family: FontFamily::ShareTechMonoRegular, size: 30 },
    ]
}

/// The entry of the table at position `i`.
fn font_request(i: usize) -> (request: FontRequest)
    requires
        i < FONT_COUNT,
    ensures
        request == font_table()[i as int],
{
    if i < 4 {
        let size: u16 = if i == 0 {
            18
        } else if i == 1 {
            24
        } else if i == 2 {
            30
        } else {
            42
        };
        FontRequest { family: FontFamily::B612Regular, size }
    } else if i < 7 {
        let size: u16 = if i == 4 {
            18
        } else if i == 5 {
            24
        } else {
            30
        };
        FontRequest { family: FontFamily::Vt323Regular, size }
    } else {
        let size: u16 = if i == 7 {
            14
        } else {
            30
        };
        FontRequest { family: FontFamily::ShareTechMonoRegular, size }
    }
}

/// The whole table, for callers that want to walk it.
pub fn font_requests() -> (requests: Vec<FontRequest>)
    ensures
        requests@ == font_table(),
{
    let mut requests: Vec<FontRequest> = Vec::new();
    let mut i: usize = 0;
    while i < FONT_COUNT
        invariant
            i <= FONT_COUNT,
            requests@ == font_table().take(i as int),
        decreases FONT_COUNT - i,
    {
        requests.push(font_request(i));
        assert(font_table().take(i as int).push(font_table()[i as int]) =~= font_table().take(
            i + 1,
        ));
        i = i + 1;
    }
    assert(font_table().take(FONT_COUNT as int) =~= font_table());
    requests
}

/// The table has an entry for a family and a size exactly where the family
/// offers the size, no entry occurs twice, and every size is positive.
pub proof fn lemma_font_table()
    ensures
        font_table().len() == FONT_COUNT,
        forall|family: FontFamily, size: u16|
            family.offers(size) <==> font_table().contains(FontRequest { family, size }),
        font_table().no_duplicates(),
        forall|i: int| 0 <= i < font_table().len() ==> (#[trigger] font_table()[i]).size > 0,
{
    let t = font_table();
    assert forall|family: FontFamily, size: u16| family.offers(size) implies t.contains(
        FontRequest { family, size },
    ) by {
        let r = FontRequest { family, size };
        assert(t[0] == r || t[1] == r || t[2] == r || t[3] == r || t[4] == r || t[5] == r || t[6]
            == r || t[7] == r || t[8] == r);
    }
}

/// A loaded font: the rasterizer's handle `F` with the family and the pixel
/// size it was loaded for.
#[derive(Debug)]
pub struct FontWithInfo<F> {
    pub font: F,
    pub family: FontFamily,
    pub size: u16,
}

/// What a load at size 0 is refused with where the rasterizer itself did
/// not object.
pub open spec fn invalid_size_message() -> Seq<char> {
    "font size must be positive"@
}

impl<F> FontWithInfo<F> {
    /// Builds the font for the outcome of loading `request`. A failed load
    /// becomes `Error::FontLoad` with the same message. A size of 0 is not
    /// a pixel size: it is refused with `Error::FontLoad` even where the
    /// load itself went through, so every font that exists has a positive
    /// size.
    pub fn load(request: FontRequest, loaded: Result<F, String>) -> (r: Result<
        FontWithInfo<F>,
        Error,
    >)
        ensures
            match loaded {
                Err(message) => r == Err::<FontWithInfo<F>, Error>(Error::FontLoad(message)),
                Ok(font) => if request.size > 0 {
                    r == Ok::<FontWithInfo<F>, Error>(
                        FontWithInfo { font, family: request.family, size: request.size },
                    )
                } else {
                    &&& r matches Err(Error::FontLoad(_))
                    &&& r->Err_0.message()@ == invalid_size_message()
                },
            },
            r matches Ok(f) ==> f.size > 0,
    {
        match loaded {
            Err(message) => Err(Error::FontLoad(message)),
            Ok(font) => {
                if request.size > 0 {
                    Ok(FontWithInfo { font, family: request.family, size: request.size })
                } else {
                    Err(Error::FontLoad("font size must be positive".to_string()))
                }
            },
        }
    }
}

/// Whether `fonts` holds, for one family, exactly the first `count` entries
/// of the table that belong to the family, each under its size.
pub open spec fn holds_family<F>(
    fonts: Map<u16, FontWithInfo<F>>,
    family: FontFamily,
    count: int,
) -> bool {
    &&& forall|size: u16| #[trigger]
        fonts.contains_key(size) <==> exists|i: int|
            0 <= i < count && #[trigger] font_table()[i] == (FontRequest { family, size })
    &&& forall|size: u16| #[trigger]
        fonts.contains_key(size) ==> fonts[size].family == family && fonts[size].size == size
}

/// The loaded fonts of the program: one per entry of the table, never fewer.
#[derive(Debug)]
pub struct FontCollection<F> {
    b612_regular: HashMap<u16, FontWithInfo<F>>,
    vt323_regular: HashMap<u16, FontWithInfo<F>>,
    share_tech_mono_regular: HashMap<u16, FontWithInfo<F>>,
}

impl<F> FontCollection<F> {
    /// The fonts of one family by size.
    pub closed spec fn fonts(self, family: FontFamily) -> Map<u16, FontWithInfo<F>> {
        match family {
            FontFamily::B612Regular => self.b612_regular@,
            FontFamily::Vt323Regular => self.vt323_regular@,
            FontFamily::ShareTechMonoRegular => self.share_tech_mono_regular@,
        }
    }

    /// Every family holds all of its entries of the table and nothing else.
    #[verifier::type_invariant]
    pub open spec fn wf(self) -> bool {
        forall|family: FontFamily| #[trigger]
            holds_family(self.fonts(family), family, FONT_COUNT as int)
    }

    /// The font of `family` at `size`, if the program loads that pair.
    pub fn get(&self, family: FontFamily, size: u16) -> (r: Option<&FontWithInfo<F>>)
        ensures
            r is Some <==> family.offers(size),
            r is Some <==> self.fonts(family).contains_key(size),
            r matches Some(font) ==> {
                &&& *font == self.fonts(family)[size]
                &&& font.family == family
                &&& font.size == size
            },
    {
        proof {
            use_type_invariant(self);
            lemma_font_table();
            assert(holds_family(self.fonts(family), family, FONT_COUNT as int));
            if family.offers(size) {
                assert(font_table().contains(FontRequest { family, size }));
            }
        }
        match family {
            FontFamily::B612Regular => self.b612_regular.get(&size),
            FontFamily::Vt323Regular => self.vt323_regular.get(&size),
            FontFamily::ShareTechMonoRegular => self.share_tech_mono_regular.get(&size),
        }
    }
}

/// A collection holds a font for every family and size of the table, and
/// the font reports that family and that size, which is positive.
pub proof fn lemma_collection_serves_table<F>(
    collection: FontCollection<F>,
    family: FontFamily,
    size: u16,
)
    requires
        collection.wf(),
        family.offers(size),
    ensures
        collection.fonts(family).contains_key(size),
        collection.fonts(family)[size].family == family,
        collection.fonts(family)[size].size == size,
        collection.fonts(family)[size].size > 0,
{
    lemma_font_table();
    assert(holds_family(collection.fonts(family), family, FONT_COUNT as int));
    assert(font_table().contains(FontRequest { family, size }));
    assert(collection.fonts(family).contains_key(size));
}

/// A collection holds nothing for a family and size outside the table.
pub proof fn lemma_collection_lacks_others<F>(
    collection: FontCollection<F>,
    family: FontFamily,
    size: u16,
)
    requires
        collection.wf(),
        !family.offers(size),
    ensures
        !collection.fonts(family).contains_key(size),
{
    lemma_font_table();
    assert(holds_family(collection.fonts(family), family, FONT_COUNT as int));
}

/// The fonts of one family after a finished load of `request`: the family
/// of the request gains the font under its size, the others stay.
pub open spec fn with_font<F>(
    fonts: Map<u16, FontWithInfo<F>>,
    family: FontFamily,
    request: FontRequest,
    font: F,
) -> Map<u16, FontWithInfo<F>> {
    if family == request.family {
        fonts.insert(request.size, FontWithInfo { font, family: request.family, size: request.size })
    } else {
        fonts
    }
}

/// A collection under construction. It always has a font waiting to be
/// loaded: the first entry of the table that it does not hold yet.
#[derive(Debug)]
pub struct FontLoader<F> {
    b612_regular: HashMap<u16, FontWithInfo<F>>,
    vt323_regular: HashMap<u16, FontWithInfo<F>>,
    share_tech_mono_regular: HashMap<u16, FontWithInfo<F>>,
    loaded: usize,
}

/// Where the construction stands after a finished load.
#[derive(Debug)]
pub enum FontProgress<F> {
    /// More fonts are to be loaded.
    Pending(FontLoader<F>),
    /// Every font of the table is loaded.
    Complete(FontCollection<F>),
}

impl<F> FontLoader<F> {
    /// How many entries of the table are loaded.
    pub closed spec fn loaded(self) -> int {
        self.loaded as int
    }

    /// The fonts loaded so far of one family, by size.
    pub closed spec fn fonts(self, family: FontFamily) -> Map<u16, FontWithInfo<F>> {
        match family {
            FontFamily::B612Regular => self.b612_regular@,
            FontFamily::Vt323Regular => self.vt323_regular@,
            FontFamily::ShareTechMonoRegular => self.share_tech_mono_regular@,
        }
    }

    /// A font is still to be loaded, and every family holds its share of
    /// the entries loaded so far and nothing else.
    #[verifier::type_invariant]
    pub open spec fn wf(self) -> bool {
        &&& 0 <= self.loaded() < FONT_COUNT
        &&& forall|family: FontFamily| #[trigger]
            holds_family(self.fonts(family), family, self.loaded())
    }

    /// Starts a construction with nothing loaded.
    pub fn new() -> (loader: FontLoader<F>)
        ensures
            loader.loaded() == 0,
            forall|family: FontFamily| #[trigger]
                loader.fonts(family) == Map::<u16, FontWithInfo<F>>::empty(),
    {
        FontLoader {
            b612_regular: HashMap::new(),
            vt323_regular: HashMap::new(),
            share_tech_mono_regular: HashMap::new(),
            loaded: 0,
        }
    }

    /// The font to load next.
    pub fn pending(&self) -> (request: FontRequest)
        ensures
            0 <= self.loaded() < FONT_COUNT,
            request == font_table()[self.loaded()],
    {
        proof {
            use_type_invariant(self);
        }
        font_request(self.loaded)
    }

    /// Takes the outcome of loading the pending font. A failed load ends the
    /// construction with `Error::FontLoad` and the loader's message; the
    /// fonts loaded so far are released. A finished load is stored, and the
    /// construction is complete once the last entry of the table is in.
    pub fn accept(self, loaded: Result<F, String>) -> (r: Result<FontProgress<F>, Error>)
        ensures
            match loaded {
                Err(message) => r == Err::<FontProgress<F>, Error>(Error::FontLoad(message)),
                Ok(font) => match r {
                    Ok(FontProgress::Pending(next)) => {
                        &&& self.loaded() + 1 < FONT_COUNT
                        &&& next.loaded() == self.loaded() + 1
                        &&& forall|family: FontFamily| #[trigger]
                            next.fonts(family) == with_font(
                                self.fonts(family),
                                family,
                                font_table()[self.loaded()],
                                font,
                            )
                    },
                    Ok(FontProgress::Complete(collection)) => {
                        &&& self.loaded() + 1 == FONT_COUNT
                        &&& forall|family: FontFamily| #[trigger]
                            collection.fonts(family) == with_font(
                                self.fonts(family),
                                family,
                                font_table()[self.loaded()],
                                font,
                            )
                    },
                    Err(_) => false,
                },
            },
    {
        proof {
            use_type_invariant(&self);
        }
        let request = font_request(self.loaded);
        let FontLoader { b612_regular, vt323_regular, share_tech_mono_regular, loaded: count } =
            self;
        let mut b612_regular = b612_regular;
        let mut vt323_regular = vt323_regular;
        let mut share_tech_mono_regular = share_tech_mono_regular;
        let ghost before = self;
        match FontWithInfo::load(request, loaded) {
            Err(e) => Err(e),
            Ok(entry) => {
                match request.family {
                    FontFamily::B612Regular => {
                        b612_regular.insert(request.size, entry);
                    },
                    FontFamily::Vt323Regular => {
                        vt323_regular.insert(request.size, entry);
                    },
                    FontFamily::ShareTechMonoRegular => {
                        share_tech_mono_regular.insert(request.size, entry);
                    },
                }
                proof {
                    let n = count as int;
                    lemma_holds_one_more(
                        before.fonts(FontFamily::B612Regular),
                        FontFamily::B612Regular,
                        n,
                        entry.font,
                    );
                    lemma_holds_one_more(
                        before.fonts(FontFamily::Vt323Regular),
                        FontFamily::Vt323Regular,
                        n,
                        entry.font,
                    );
                    lemma_holds_one_more(
                        before.fonts(FontFamily::ShareTechMonoRegular),
                        FontFamily::ShareTechMonoRegular,
                        n,
                        entry.font,
                    );
                }
                if count + 1 < FONT_COUNT {
                    Ok(
                        FontProgress::Pending(
                            FontLoader {
                                b612_regular,
                                vt323_regular,
                                share_tech_mono_regular,
                                loaded: count + 1,
                            },
                        ),
                    )
                } else {
                    Ok(
                        FontProgress::Complete(
                            FontCollection { b612_regular, vt323_regular, share_tech_mono_regular },
                        ),
                    )
                }
            },
        }
    }
}

/// A family that holds its share of the first `count` entries holds its
/// share of the first `count + 1` once the next entry is stored.
proof fn lemma_holds_one_more<F>(
    fonts: Map<u16, FontWithInfo<F>>,
    family: FontFamily,
    count: int,
    font: F,
)
    requires
        0 <= count < FONT_COUNT,
        holds_family(fonts, family, count),
    ensures
        holds_family(with_font(fonts, family, font_table()[count], font), family, count + 1),
{
    let request = font_table()[count];
    let after = with_font(fonts, family, request, font);
    assert forall|size: u16| #[trigger]
        after.contains_key(size) <==> exists|i: int|
            0 <= i < count + 1 && #[trigger] font_table()[i] == (FontRequest { family, size }) by {
        if after.contains_key(size) {
            if fonts.contains_key(size) {
                let i = choose|i: int|
                    0 <= i < count && #[trigger] font_table()[i] == (FontRequest { family, size });
                assert(0 <= i < count + 1 && font_table()[i] == (FontRequest { family, size }));
            } else {
                assert(font_table()[count] == (FontRequest { family, size }));
            }
        }
        if exists|i: int|
            0 <= i < count + 1 && #[trigger] font_table()[i] == (FontRequest { family, size }) {
            let i = choose|i: int|
                0 <= i < count + 1 && #[trigger] font_table()[i] == (FontRequest { family, size });
            if i < count {
                assert(fonts.contains_key(size));
            }
        }
    }
}

} // verus!
