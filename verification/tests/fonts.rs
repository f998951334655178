use sdl2_font_managment::error::Error;
use sdl2_font_managment::font::{
    font_requests, FontCollection, FontFamily, FontLoader, FontProgress, FontRequest, FontWithInfo,
};

const TABLE: [(FontFamily, u16); 9] = [
    (FontFamily::B612Regular, 18),
    (FontFamily::B612Regular, 24),
    (FontFamily::B612Regular, 30),
    (FontFamily::B612Regular, 42),
    (FontFamily::Vt323Regular, 18),
    (FontFamily::Vt323Regular, 24),
    (FontFamily::Vt323Regular, 30),
    (FontFamily::ShareTechMonoRegular, 14),
    (FontFamily::ShareTechMonoRegular, 30),
];

/// Stands for a rasterizer handle: remembers what it was loaded from.
fn handle(request: &FontRequest) -> String {
    format!("{}@{}", request.family.path(), request.size)
}

fn load_everything() -> FontCollection<String> {
    let mut loader: FontLoader<String> = FontLoader::new();
    loop {
        let request = loader.pending();
        match loader.accept(Ok(handle(&request))).expect("a finished load is never refused") {
            FontProgress::Pending(next) => loader = next,
            FontProgress::Complete(collection) => return collection,
        }
    }
}

#[test]
fn font_requests_follow_the_table() {
    let requests = font_requests();
    assert_eq!(requests.len(), 9);
    for (request, (family, size)) in requests.iter().zip(TABLE.iter()) {
        assert_eq!(request.family, *family);
        assert_eq!(request.size, *size);
    }
}

#[test]
fn families_name_their_files() {
    assert_eq!(FontFamily::B612Regular.path(), "assets/B612_Mono/B612Mono-Regular.ttf");
    assert_eq!(FontFamily::Vt323Regular.path(), "assets/VT323/VT323-Regular.ttf");
    assert_eq!(
        FontFamily::ShareTechMonoRegular.path(),
        "assets/Share_Tech_Mono/ShareTechMono-Regular.ttf"
    );
}

#[test]
fn loader_asks_for_the_table_in_order() {
    let mut loader: FontLoader<u32> = FontLoader::new();
    let mut asked = Vec::new();
    loop {
        let request = loader.pending();
        asked.push((request.family, request.size));
        match loader.accept(Ok(0)).unwrap() {
            FontProgress::Pending(next) => loader = next,
            FontProgress::Complete(_) => break,
        }
    }
    assert_eq!(asked, TABLE.to_vec());
}

#[test]
fn completion_comes_with_the_ninth_font_and_not_before() {
    let mut loader: FontLoader<u32> = FontLoader::new();
    for _ in 0..8 {
        loader = match loader.accept(Ok(1)).unwrap() {
            FontProgress::Pending(next) => next,
            FontProgress::Complete(_) => panic!("complete too early"),
        };
    }
    assert!(matches!(loader.accept(Ok(1)).unwrap(), FontProgress::Complete(_)));
}

#[test]
fn collection_serves_every_pair_of_the_table() {
    let fonts = load_everything();
    for (family, size) in TABLE.iter() {
        let font = fonts.get(*family, *size).expect("a pair of the table is present");
        assert_eq!(font.size, *size);
        assert_eq!(font.family, *family);
        assert_eq!(font.font, format!("{}@{}", family.path(), size));
    }
}

#[test]
fn lookup_outside_the_table_is_absent() {
    let fonts = load_everything();
    assert!(fonts.get(FontFamily::B612Regular, 14).is_none());
    assert!(fonts.get(FontFamily::Vt323Regular, 42).is_none());
    assert!(fonts.get(FontFamily::ShareTechMonoRegular, 18).is_none());
    assert!(fonts.get(FontFamily::ShareTechMonoRegular, 42).is_none());
    assert!(fonts.get(FontFamily::B612Regular, 0).is_none());
    assert!(fonts.get(FontFamily::Vt323Regular, u16::MAX).is_none());
}

#[test]
fn lookup_agrees_with_the_table_for_every_size() {
    let fonts = load_everything();
    let families =
        [FontFamily::B612Regular, FontFamily::Vt323Regular, FontFamily::ShareTechMonoRegular];
    for family in families.iter() {
        for size in 0..=u16::MAX {
            let listed = TABLE.contains(&(*family, size));
            assert_eq!(fonts.get(*family, size).is_some(), listed);
        }
    }
}

#[test]
fn empty_font_file_fails_construction_with_font_load_error() {
    let loader: FontLoader<String> = FontLoader::new();
    let failure = loader.accept(Err(String::from("Couldn't load font file"))).unwrap_err();
    assert_eq!(failure, Error::FontLoad(String::from("Couldn't load font file")));
}

#[test]
fn unreadable_later_font_fails_construction() {
    let mut loader: FontLoader<String> = FontLoader::new();
    for _ in 0..5 {
        let request = loader.pending();
        loader = match loader.accept(Ok(handle(&request))).unwrap() {
            FontProgress::Pending(next) => next,
            FontProgress::Complete(_) => panic!("complete too early"),
        };
    }
    assert_eq!(loader.pending(), FontRequest { family: FontFamily::Vt323Regular, size: 24 });
    let failure = loader.accept(Err(String::from("Couldn't open VT323-Regular.ttf"))).unwrap_err();
    assert_eq!(failure, Error::FontLoad(String::from("Couldn't open VT323-Regular.ttf")));
}

#[test]
fn finished_load_becomes_a_font_with_its_request() {
    let request = FontRequest { family: FontFamily::Vt323Regular, size: 30 };
    let font: FontWithInfo<u8> = FontWithInfo::load(request, Ok(5)).unwrap();
    assert_eq!(font.font, 5);
    assert_eq!(font.family, FontFamily::Vt323Regular);
    assert_eq!(font.size, 30);
}

#[test]
fn failed_load_becomes_a_font_load_error() {
    let request = FontRequest { family: FontFamily::B612Regular, size: 0 };
    let r: Result<FontWithInfo<u8>, Error> = FontWithInfo::load(request, Err(String::from("x")));
    assert_eq!(r.unwrap_err(), Error::FontLoad(String::from("x")));
}

#[test]
fn size_zero_is_refused_even_when_the_load_went_through() {
    let request = FontRequest { family: FontFamily::B612Regular, size: 0 };
    let r: Result<FontWithInfo<u8>, Error> = FontWithInfo::load(request, Ok(5));
    assert_eq!(r.unwrap_err(), Error::FontLoad(String::from("font size must be positive")));
    let request = FontRequest { family: FontFamily::ShareTechMonoRegular, size: 0 };
    let r: Result<FontWithInfo<&str>, Error> = FontWithInfo::load(request, Ok("handle"));
    assert!(matches!(r, Err(Error::FontLoad(_))));
}

#[test]
fn size_zero_with_a_failed_load_keeps_the_loaders_message() {
    let request = FontRequest { family: FontFamily::Vt323Regular, size: 0 };
    let r: Result<FontWithInfo<u8>, Error> =
        FontWithInfo::load(request, Err(String::from("Invalid font size")));
    assert_eq!(r.unwrap_err(), Error::FontLoad(String::from("Invalid font size")));
}

#[test]
fn smallest_and_largest_sizes_are_accepted() {
    let request = FontRequest { family: FontFamily::Vt323Regular, size: 1 };
    let font: FontWithInfo<u8> = FontWithInfo::load(request, Ok(1)).unwrap();
    assert_eq!(font.size, 1);
    let request = FontRequest { family: FontFamily::Vt323Regular, size: u16::MAX };
    let font: FontWithInfo<u8> = FontWithInfo::load(request, Ok(2)).unwrap();
    assert_eq!(font.size, u16::MAX);
}

#[test]
fn every_font_of_a_collection_has_a_positive_size() {
    let fonts = load_everything();
    for (family, size) in TABLE.iter() {
        assert!(fonts.get(*family, *size).unwrap().size > 0);
    }
}
