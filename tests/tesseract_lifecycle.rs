use tesseract_wrap::leptonica::{Box, Pix};
use tesseract_wrap::tesseract::{
    text_from_decoded, ComponentQuery, PageIteratorLevel, TeardownCall, TessBaseApiUnitialized,
    TessInitError, TextError,
};

#[test]
fn uninitialized_session_is_only_deleted() {
    let api = TessBaseApiUnitialized::new();
    assert_eq!(api.teardown(), vec![TeardownCall::Delete]);
}

#[test]
fn init_succeeds_on_status_zero() {
    let api = TessBaseApiUnitialized::new().init(0).unwrap();
    assert_eq!(api.teardown(), vec![TeardownCall::End, TeardownCall::Delete]);
}

#[test]
fn init_with_invalid_language_fails_with_code() {
    let r = TessBaseApiUnitialized::new().init_with_lang("no_such_language", -1);
    assert_eq!(r.err(), Some(TessInitError { code: -1 }));
    let r = TessBaseApiUnitialized::new().init_with_datapath("/nowhere", 3);
    assert_eq!(r.err(), Some(TessInitError { code: 3 }));
    let r = TessBaseApiUnitialized::new().init_with_datapath_and_lang("/nowhere", "eng", -1);
    assert_eq!(r.err(), Some(TessInitError { code: -1 }));
    assert_eq!(TessBaseApiUnitialized::new().init(-1).err(), Some(TessInitError { code: -1 }));
}

#[test]
fn bound_session_ends_then_deletes() {
    let image = Pix::new(100, 50);
    let api = TessBaseApiUnitialized::new().init_with_lang("eng", 0).unwrap();
    let mut bound = api.set_image(&image);
    bound.set_rectangle(&Box::new(0, 0, 50, 25));
    bound.set_rectangle(&Box::new(10, 10, 20, 20));
    bound.set_source_resolution(300);
    assert_eq!(bound.teardown(), vec![TeardownCall::End, TeardownCall::Delete]);
}

#[test]
fn get_text_decodes_utf8() {
    let image = Pix::new(100, 50);
    let api = TessBaseApiUnitialized::new().init_with_datapath_and_lang("/data", "eng", 0).unwrap();
    let bound = api.set_image(&image);
    let text = bound.get_text(b"HELLO\n".to_vec()).unwrap();
    assert!(text.contains("HELLO"));
    assert_eq!(bound.get_text(vec![0xC3, 0xA9]), Ok("\u{e9}".to_string()));
    assert_eq!(bound.get_text(Vec::new()), Ok(String::new()));
}

#[test]
fn get_text_rejects_invalid_utf8() {
    let image = Pix::new(10, 10);
    let bound = TessBaseApiUnitialized::new().init(0).unwrap().set_image(&image);
    assert_eq!(bound.get_text(vec![0xFF, 0x41]), Err(TextError::EncodingFailure));
    assert_eq!(bound.get_text(vec![0xC3]), Err(TextError::EncodingFailure));
}

#[test]
fn text_from_decoded_maps_absence_to_encoding_failure() {
    assert_eq!(text_from_decoded(Some("abc".to_string())), Ok("abc".to_string()));
    assert_eq!(text_from_decoded(None), Err(TextError::EncodingFailure));
}

#[test]
fn component_queries_name_their_level() {
    let image = Pix::new(10, 10);
    let bound = TessBaseApiUnitialized::new().init(0).unwrap().set_image(&image);
    let cases = [
        (bound.get_blocks(true), PageIteratorLevel::Block, 0),
        (bound.get_paras(false), PageIteratorLevel::Para, 1),
        (bound.get_textlines(true), PageIteratorLevel::TextLine, 2),
        (bound.get_words(false), PageIteratorLevel::Word, 3),
        (bound.get_symbols(true), PageIteratorLevel::Symbol, 4),
    ];
    for (q, level, code) in cases {
        assert_eq!(q.level, level);
        assert_eq!(q.level_code(), code);
    }
    assert_eq!(bound.get_blocks(true), ComponentQuery { level: PageIteratorLevel::Block, text_only: true });
    assert_eq!(bound.get_blocks(true).text_only_flag(), 1);
    assert_eq!(bound.get_words(false).text_only_flag(), 0);
}
