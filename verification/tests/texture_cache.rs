use sdl2_font_managment::error::Error;
use sdl2_font_managment::texture::{TextureManager, TextureQuery, TextureWithInfo};

fn query(width: u32, height: u32) -> TextureQuery {
    TextureQuery { width, height }
}

#[test]
fn new_cache_is_empty_and_keeps_its_capability() {
    let creator = String::from("creator");
    let manager: TextureManager<String, u32> = TextureManager::new(&creator);
    assert!(manager.get_texture(0).is_none());
    assert!(manager.get_texture(1).is_none());
    assert!(manager.get_texture(usize::MAX).is_none());
    assert_eq!(manager.creator(), "creator");
}

#[test]
fn insert_then_get_reports_upload_dimensions() {
    let creator = ();
    let mut manager: TextureManager<(), &str> = TextureManager::new(&creator);
    assert_eq!(manager.insert_surface(7, Ok(("surface", query(120, 48)))), Ok(()));
    let entry = manager.get_texture(7).expect("slot 7 was filled");
    assert_eq!(entry.get_texture_info_ref().width, 120);
    assert_eq!(entry.get_texture_info_ref().height, 48);
    assert_eq!(*entry.get_texture_ref(), "surface");
}

#[test]
fn second_insert_replaces_first() {
    let creator = ();
    let mut manager: TextureManager<(), u32> = TextureManager::new(&creator);
    assert_eq!(manager.insert_surface(3, Ok((1, query(10, 20)))), Ok(()));
    assert_eq!(manager.insert_surface(3, Ok((2, query(30, 40)))), Ok(()));
    let entry = manager.get_texture(3).expect("slot 3 was filled");
    assert_eq!(entry.texture, 2);
    assert_eq!(entry.queried, query(30, 40));
}

#[test]
fn get_on_unused_slot_is_absent() {
    let creator = ();
    let mut manager: TextureManager<(), u32> = TextureManager::new(&creator);
    assert_eq!(manager.insert_surface(0, Ok((1, query(10, 20)))), Ok(()));
    assert!(manager.get_texture(1).is_none());
    assert!(manager.get_texture(2).is_none());
    assert!(manager.get_texture(0).is_some());
}

#[test]
fn slots_do_not_disturb_each_other() {
    let creator = ();
    let mut manager: TextureManager<(), u32> = TextureManager::new(&creator);
    assert_eq!(manager.insert_surface(0, Ok((1, query(10, 20)))), Ok(()));
    assert_eq!(manager.insert_surface(1, Ok((2, query(30, 40)))), Ok(()));
    assert_eq!(manager.get_texture(0).unwrap().queried, query(10, 20));
    assert_eq!(manager.get_texture(1).unwrap().queried, query(30, 40));
    assert_eq!(manager.get_texture(0).unwrap().texture, 1);
}

#[test]
fn failed_upload_is_reported_and_changes_nothing() {
    let creator = ();
    let mut manager: TextureManager<(), u32> = TextureManager::new(&creator);
    assert_eq!(manager.insert_surface(0, Ok((1, query(10, 20)))), Ok(()));
    assert_eq!(
        manager.insert_surface(0, Err(String::from("out of video memory"))),
        Err(Error::TextureUpload(String::from("out of video memory")))
    );
    assert_eq!(
        manager.insert_surface(5, Err(String::from("lost device"))),
        Err(Error::TextureUpload(String::from("lost device")))
    );
    assert_eq!(manager.get_texture(0).unwrap().texture, 1);
    assert_eq!(manager.get_texture(0).unwrap().queried, query(10, 20));
    assert!(manager.get_texture(5).is_none());
}

#[test]
fn new_from_keeps_texture_and_dimensions() {
    let entry: TextureWithInfo<&str> = TextureWithInfo::new_from(Ok(("t", query(0, 9)))).unwrap();
    assert_eq!(*entry.get_texture_ref(), "t");
    assert_eq!(*entry.get_texture_info_ref(), query(0, 9));
}

#[test]
fn new_from_failed_upload_is_texture_upload_error() {
    let r: Result<TextureWithInfo<u8>, Error> = TextureWithInfo::new_from(Err(String::from("no")));
    assert_eq!(r.unwrap_err(), Error::TextureUpload(String::from("no")));
}

#[test]
fn error_gives_up_its_message() {
    assert_eq!(Error::Initialization(String::from("a")).into_message(), "a");
    assert_eq!(Error::FontLoad(String::from("b")).into_message(), "b");
    assert_eq!(Error::Rasterization(String::from("c")).into_message(), "c");
    assert_eq!(Error::TextureUpload(String::from("d")).into_message(), "d");
    assert_eq!(Error::Draw(String::from("e")).into_message(), "e");
}
