//! The lines of text the program shows, and the loading of their textures.

use crate::error::Error;
use crate::font::{FontCollection, FontFamily, FontWithInfo};
use crate::texture::{lookup, with_upload, TextureManager, TextureQuery, TextureWithInfo, Uploaded};
use vstd::prelude::*;

verus! {

/// An opaque colour by its red, green and blue parts.
#[derive(Clone, Copy, Debug, PartialEq, Eq, Structural)]
pub struct Color {
    pub r: u8,
    pub g: u8,
    pub b: u8,
}

/// A dark blue.
pub open spec fn spec_text_color() -> Color {
    Color { r: 0, g: 0, b: 0xaf }
}

/// The colour every line of text is rasterized in.
#[verifier::when_used_as_spec(spec_text_color)]
pub fn text_color() -> (c: Color)
    ensures
        c == spec_text_color(),
{
    Color { r: 0, g: 0, b: 0xaf }
}

/// One line of text: the slot its texture goes to, the font it is
/// rasterized with, the text and its colour.
#[derive(Clone, Copy, Debug, PartialEq, Eq)]
pub struct Label {
    pub id: usize,
    pub family: FontFamily,
    pub size: u16,
    pub text: &'static str,
    pub color: Color,
}

/// How many lines of text the program shows.
pub const LABEL_COUNT: usize = 3;

/// The lines of text in the order in which their textures are loaded.
pub open spec fn label_table() -> Seq<Label> {
    seq![
        Label {
            id: 0,
            family: FontFamily::B612Regular,
            size: 42,
            text: "Hello there",
            color: text_color(),
        },
        Label {
            id: 1,
            family: FontFamily::Vt323Regular,
            size: 30,
            text: "What's up!",
            color: text_color(),
        },
        Label {
            id: 2,
            family: FontFamily::ShareTechMonoRegular,
            size: 14,
            text: "SUP!",
            color: text_color(),
        },
    ]
}

/// The entry of the table at position `i`.
fn label(i: usize) -> (label: Label)
    requires
        i < LABEL_COUNT,
    ensures
        label == label_table()[i as int],
{
    if i == 0 {
        Label {
            id: 0,
            family: FontFamily::B612Regular,
            size: 42,
            text: "Hello there",
            color: text_color(),
        }
    } else if i == 1 {
        Label {
            id: 1,
            family: FontFamily::Vt323Regular,
            size: 30,
            text: "What's up!",
            color: text_color(),
        }
    } else {
        Label {
            id: 2,
            family: FontFamily::ShareTechMonoRegular,
            size: 14,
            text: "SUP!",
            color: text_color(),
        }
    }
}

/// The whole table, for callers that want to walk it.
pub fn labels() -> (labels: Vec<Label>)
    ensures
        labels@ == label_table(),
{
    let mut labels: Vec<Label> = Vec::new();
    labels.push(label(0));
    labels.push(label(1));
    labels.push(label(2));
    assert(labels@ =~= label_table());
    labels
}

/// The line at position `i` goes to slot `i`, and its font is one that the
/// program loads. Its text is not empty and holds no NUL character, so a
/// rasterizer that takes NUL-terminated text takes all of it.
pub proof fn lemma_label_table()
    ensures
        label_table().len() == LABEL_COUNT,
        forall|i: int|
            0 <= i < label_table().len() ==> {
                let label = #[trigger] label_table()[i];
                &&& label.id == i
                &&& label.family.offers(label.size)
                &&& label.text@.len() > 0
                &&& !label.text@.contains('\0')
            },
{
    reveal_strlit("Hello there");
    reveal_strlit("What's up!");
    reveal_strlit("SUP!");
    let t = label_table();
    assert forall|i: int| 0 <= i < t.len() implies !(#[trigger] t[i]).text@.contains('\0') by {
        let s = t[i].text@;
        if s.contains('\0') {
            let k = choose|k: int| 0 <= k < s.len() && s[k] == '\0';
            assert(0 <= k < s.len());
        }
    }
}

/// The loading of the textures, line by line. It always has a line waiting
/// for its texture: the first of the table that is not stored yet.
#[derive(Debug)]
pub struct TextureLoader {
    next: usize,
}

/// Where the loading stands after a texture was stored.
#[derive(Debug)]
pub enum TextureProgress {
    /// More lines are waiting.
    Pending(TextureLoader),
    /// Every line has its texture.
    Complete,
}

impl TextureLoader {
    /// The position in the table of the line that waits for its texture.
    pub closed spec fn position(self) -> int {
        self.next as int
    }

    /// A line is still waiting.
    #[verifier::type_invariant]
    pub open spec fn wf(self) -> bool {
        0 <= self.position() < LABEL_COUNT
    }

    /// Starts with the first line of the table.
    pub fn new() -> (loader: TextureLoader)
        ensures
            loader.position() == 0,
    {
        TextureLoader { next: 0 }
    }

    /// The line to rasterize next.
    pub fn pending(&self) -> (label: Label)
        ensures
            0 <= self.position() < LABEL_COUNT,
            label == label_table()[self.position()],
    {
        proof {
            use_type_invariant(self);
        }
        label(self.next)
    }

    /// The font to rasterize the pending line with. The collection always
    /// holds it.
    pub fn pending_font<'f, F>(&self, fonts: &'f FontCollection<F>) -> (font: &'f FontWithInfo<F>)
        ensures
            0 <= self.position() < LABEL_COUNT,
            fonts.fonts(label_table()[self.position()].family).contains_key(
                label_table()[self.position()].size,
            ),
            *font == fonts.fonts(label_table()[self.position()].family)[label_table()[self.position()].size],
            font.family == label_table()[self.position()].family,
            font.size == label_table()[self.position()].size,
    {
        proof {
            use_type_invariant(self);
            lemma_label_table();
        }
        let label = label(self.next);
        fonts.get(label.family, label.size).unwrap()
    }

    /// Takes the outcome of rasterizing the pending line and uploading the
    /// surface. A failed rasterization is `Error::Rasterization`, a failed
    /// upload `Error::TextureUpload`, each with the message that was
    /// reported; both leave the cache as it was and end the loading, and the
    /// textures stored before stay. A finished upload is stored under the
    /// slot of the line, and the loading is complete once the last line is
    /// stored.
    pub fn accept<'a, C, T>(
        self,
        text_man: &mut TextureManager<'a, C, T>,
        rasterized: Result<Uploaded<T>, String>,
    ) -> (r: Result<TextureProgress, Error>)
        ensures
            final(text_man).capability() == old(text_man).capability(),
            match rasterized {
                Err(message) => {
                    &&& r == Err::<TextureProgress, Error>(Error::Rasterization(message))
                    &&& final(text_man)@ == old(text_man)@
                },
                Ok(uploaded) => {
                    &&& final(text_man)@ == with_upload(
                        old(text_man)@,
                        label_table()[self.position()].id,
                        uploaded,
                    )
                    &&& match uploaded {
                        Err(message) => r == Err::<TextureProgress, Error>(
                            Error::TextureUpload(message),
                        ),
                        Ok(_) => match r {
                            Ok(TextureProgress::Pending(next)) => {
                                &&& self.position() + 1 < LABEL_COUNT
                                &&& next.position() == self.position() + 1
                            },
                            Ok(TextureProgress::Complete) => self.position() + 1 == LABEL_COUNT,
                            Err(_) => false,
                        },
                    }
                },
            },
    {
        proof {
            use_type_invariant(&self);
        }
        let label = label(self.next);
        match rasterized {
            Err(message) => Err(Error::Rasterization(message)),
            Ok(uploaded) => {
                match text_man.insert_surface(label.id, uploaded) {
                    Err(e) => Err(e),
                    Ok(()) => {
                        if self.next + 1 < LABEL_COUNT {
                            Ok(TextureProgress::Pending(TextureLoader { next: self.next + 1 }))
                        } else {
                            Ok(TextureProgress::Complete)
                        }
                    },
                }
            },
        }
    }
}

/// The cache after every line of the table got its texture, first to last.
pub open spec fn with_labels<T>(
    cache: Map<usize, TextureWithInfo<T>>,
    first: (T, TextureQuery),
    second: (T, TextureQuery),
    third: (T, TextureQuery),
) -> Map<usize, TextureWithInfo<T>> {
    with_upload(
        with_upload(
            with_upload(cache, label_table()[0].id, Ok(first)),
            label_table()[1].id,
            Ok(second),
        ),
        label_table()[2].id,
        Ok(third),
    )
}

/// Once every line has its texture, slots 0, 1 and 2 each hold the texture
/// of their line with the dimensions that its upload reported; where those
/// are positive, so are the entry's.
pub proof fn lemma_loaded_labels_are_present<T>(
    cache: Map<usize, TextureWithInfo<T>>,
    first: (T, TextureQuery),
    second: (T, TextureQuery),
    third: (T, TextureQuery),
)
    ensures
        lookup(with_labels(cache, first, second, third), 0) == Some(
            TextureWithInfo { texture: first.0, queried: first.1 },
        ),
        lookup(with_labels(cache, first, second, third), 1) == Some(
            TextureWithInfo { texture: second.0, queried: second.1 },
        ),
        lookup(with_labels(cache, first, second, third), 2) == Some(
            TextureWithInfo { texture: third.0, queried: third.1 },
        ),
        first.1.width > 0 && first.1.height > 0 ==> {
            let entry = lookup(with_labels(cache, first, second, third), 0).unwrap();
            entry.queried.width > 0 && entry.queried.height > 0
        },
        second.1.width > 0 && second.1.height > 0 ==> {
            let entry = lookup(with_labels(cache, first, second, third), 1).unwrap();
            entry.queried.width > 0 && entry.queried.height > 0
        },
        third.1.width > 0 && third.1.height > 0 ==> {
            let entry = lookup(with_labels(cache, first, second, third), 2).unwrap();
            entry.queried.width > 0 && entry.queried.height > 0
        },
{
}

} // verus!
