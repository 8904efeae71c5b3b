//! The lifecycle of a Tesseract session as a chain of states, each of which
//! is consumed by the step that leads out of it.
use vstd::prelude::*;
use crate::leptonica::{Box, Pix};

verus! {

/// The engine could not load its language data; `code` is the status that
/// Tesseract reported.
#[derive(Clone, Copy, Debug, PartialEq, Eq, Structural)]
pub struct TessInitError {
    pub code: i32,
}

/// The recognised text could not be had as a string.
#[derive(Clone, Copy, Debug, PartialEq, Eq, Structural)]
pub enum TextError {
    /// The engine's bytes are not valid UTF-8.
    EncodingFailure,
}

/// A foreign call that releases a session.
#[derive(Clone, Copy, Debug, PartialEq, Eq, Structural)]
pub enum TeardownCall {
    /// `TessBaseAPIEnd`: closes a session that was initialised.
    End,
    /// `TessBaseAPIDelete`: frees the session object.
    Delete,
}

/// The calls that release a session, in order: a session that was never
/// initialised is only deleted; one that was is ended first.
pub open spec fn teardown_plan(initialized: bool) -> Seq<TeardownCall> {
    if initialized {
        seq![TeardownCall::End, TeardownCall::Delete]
    } else {
        seq![TeardownCall::Delete]
    }
}

/// Whatever state a session is dropped in, its object is deleted exactly
/// once and as the last call, and it is ended, once, exactly when it was
/// initialised.
pub proof fn lemma_teardown_releases_once(initialized: bool)
    ensures
        teardown_plan(initialized).last() == TeardownCall::Delete,
        teardown_plan(initialized).filter(|c: TeardownCall| c == TeardownCall::Delete).len() == 1,
        teardown_plan(initialized).filter(|c: TeardownCall| c == TeardownCall::End).len() == (
        if initialized {
            1int
        } else {
            0int
        }),
        initialized ==> teardown_plan(initialized)[0] == TeardownCall::End,
{
    let p = teardown_plan(initialized);
    reveal_with_fuel(Seq::filter, 3);
    if initialized {
        assert(p.drop_last() =~= seq![TeardownCall::End]);
        assert(p.drop_last().drop_last() =~= Seq::<TeardownCall>::empty());
    } else {
        assert(p.drop_last() =~= Seq::<TeardownCall>::empty());
    }
}

fn teardown_calls(initialized: bool) -> (r: Vec<TeardownCall>)
    ensures
        r@ == teardown_plan(initialized),
{
    let mut r: Vec<TeardownCall> = Vec::new();
    if initialized {
        r.push(TeardownCall::End);
    }
    r.push(TeardownCall::Delete);
    assert(r@ =~= teardown_plan(initialized));
    r
}

/// A session object that has been created and not yet initialised.
pub struct TessBaseApiUnitialized {}

/// A session whose language data is loaded.
pub struct TessBaseApiInitialized {
    datapath: Option<String>,
    language: Option<String>,
}

/// A session that has an image to work on. The image is borrowed: it must
/// outlive the session's use of it.
pub struct TessBaseApiImageSet<'a> {
    datapath: Option<String>,
    language: Option<String>,
    image: &'a Pix,
    rectangle: Option<Box>,
    resolution: Option<i32>,
}

/// The view of an optional string.
pub open spec fn opt_view(s: Option<String>) -> Option<Seq<char>> {
    match s {
        Some(t) => Some(t@),
        None => None,
    }
}

impl TessBaseApiUnitialized {
    /// A freshly created session object.
    pub fn new() -> (r: TessBaseApiUnitialized) {
        TessBaseApiUnitialized {}
    }

    /// The calls that release this session: it was never started, so it is
    /// only deleted.
    pub fn teardown(&self) -> (r: Vec<TeardownCall>)
        ensures
            r@ == teardown_plan(false),
    {
        teardown_calls(false)
    }

    /// The outcome of initialising with the installed data and the default
    /// language, given the status that `TessBaseAPIInit3` returned.
    pub fn init(self, status: i32) -> (r: Result<TessBaseApiInitialized, TessInitError>)
        ensures
            r is Ok <==> status == 0,
            r is Err ==> r->Err_0 == (TessInitError { code: status }),
            r is Ok ==> r->Ok_0.datapath() is None && r->Ok_0.language() is None,
    {
        self.init_outcome(None, None, status)
    }

    /// The outcome of initialising with the installed data and `language`,
    /// given the status that `TessBaseAPIInit3` returned.
    pub fn init_with_lang(self, language: &str, status: i32) -> (r: Result<
        TessBaseApiInitialized,
        TessInitError,
    >)
        ensures
            r is Ok <==> status == 0,
            r is Err ==> r->Err_0 == (TessInitError { code: status }),
            r is Ok ==> r->Ok_0.datapath() is None && r->Ok_0.language() == Some(language@),
    {
        self.init_outcome(None, Some(language.to_owned()), status)
    }

    /// The outcome of initialising with the data under `datapath` and the
    /// default language, given the status that `TessBaseAPIInit3` returned.
    pub fn init_with_datapath(self, datapath: &str, status: i32) -> (r: Result<
        TessBaseApiInitialized,
        TessInitError,
    >)
        ensures
            r is Ok <==> status == 0,
            r is Err ==> r->Err_0 == (TessInitError { code: status }),
            r is Ok ==> r->Ok_0.datapath() == Some(datapath@) && r->Ok_0.language() is None,
    {
        self.init_outcome(Some(datapath.to_owned()), None, status)
    }

    /// The outcome of initialising with the data under `datapath` and
    /// `language`, given the status that `TessBaseAPIInit3` returned.
    pub fn init_with_datapath_and_lang(self, datapath: &str, language: &str, status: i32) -> (r:
        Result<TessBaseApiInitialized, TessInitError>)
        ensures
            r is Ok <==> status == 0,
            r is Err ==> r->Err_0 == (TessInitError { code: status }),
            r is Ok ==> r->Ok_0.datapath() == Some(datapath@) && r->Ok_0.language() == Some(
                language@,
            ),
    {
        self.init_outcome(Some(datapath.to_owned()), Some(language.to_owned()), status)
    }

    /// Status zero moves the session on with its configuration; any other
    /// status is reported, and the uninitialised session is dropped.
    fn init_outcome(self, datapath: Option<String>, language: Option<String>, status: i32) -> (r:
        Result<TessBaseApiInitialized, TessInitError>)
        ensures
            r is Ok <==> status == 0,
            r is Err ==> r->Err_0 == (TessInitError { code: status }),
            r is Ok ==> opt_view(r->Ok_0.datapath) == opt_view(datapath) && opt_view(
                r->Ok_0.language,
            ) == opt_view(language),
    {
        if status == 0 {
            Ok(self.create_tess_base_api_initialized(datapath, language))
        } else {
            Err(TessInitError { code: status })
        }
    }

    /// The initialised session that takes over this one's object.
    fn create_tess_base_api_initialized(self, datapath: Option<String>, language: Option<
        String,
    >) -> (r: TessBaseApiInitialized)
        ensures
            r.datapath == datapath,
            r.language == language,
    {
        TessBaseApiInitialized { datapath, language }
    }
}

impl TessBaseApiInitialized {
    /// The directory of language data the session was started with, if one
    /// was given.
    pub closed spec fn datapath(&self) -> Option<Seq<char>> {
        opt_view(self.datapath)
    }

    /// The language the session was started with, if one was given.
    pub closed spec fn language(&self) -> Option<Seq<char>> {
        opt_view(self.language)
    }

    /// The calls that release this session: it is ended, then deleted.
    pub fn teardown(&self) -> (r: Vec<TeardownCall>)
        ensures
            r@ == teardown_plan(true),
    {
        teardown_calls(true)
    }

    /// Gives the session an image to work on, over the whole of it.
    pub fn set_image<'a>(self, img: &'a Pix) -> (r: TessBaseApiImageSet<'a>)
        ensures
            r.datapath() == self.datapath(),
            r.language() == self.language(),
            r.image() == img@,
            r.rectangle() is None,
            r.resolution() is None,
    {
        TessBaseApiImageSet {
            datapath: self.datapath,
            language: self.language,
            image: img,
            rectangle: None,
            resolution: None,
        }
    }
}

impl<'a> TessBaseApiImageSet<'a> {
    /// The directory of language data the session was started with, if one
    /// was given.
    pub closed spec fn datapath(&self) -> Option<Seq<char>> {
        opt_view(self.datapath)
    }

    /// The language the session was started with, if one was given.
    pub closed spec fn language(&self) -> Option<Seq<char>> {
        opt_view(self.language)
    }

    /// The image the session works on.
    pub closed spec fn image(&self) -> (u32, u32) {
        self.image@
    }

    /// The part of the image that recognition is restricted to, if any.
    pub closed spec fn rectangle(&self) -> Option<Box> {
        self.rectangle
    }

    /// The resolution, in pixels per inch, that overrides the image's own.
    pub closed spec fn resolution(&self) -> Option<i32> {
        self.resolution
    }

    /// The calls that release this session: it is ended, then deleted.
    pub fn teardown(&self) -> (r: Vec<TeardownCall>)
        ensures
            r@ == teardown_plan(true),
    {
        teardown_calls(true)
    }

    /// Restricts recognition to `rectangle`, in place of any earlier
    /// restriction.
    pub fn set_rectangle(&mut self, rectangle: &Box)
        ensures
            final(self).rectangle() == Some(*rectangle),
            final(self).image() == old(self).image(),
            final(self).resolution() == old(self).resolution(),
            final(self).datapath() == old(self).datapath(),
            final(self).language() == old(self).language(),
    {
        self.rectangle = Some(*rectangle);
    }

    /// Overrides the image's resolution with `ppi` pixels per inch.
    pub fn set_source_resolution(&mut self, ppi: i32)
        ensures
            final(self).resolution() == Some(ppi),
            final(self).rectangle() == old(self).rectangle(),
            final(self).image() == old(self).image(),
            final(self).datapath() == old(self).datapath(),
            final(self).language() == old(self).language(),
    {
        self.resolution = Some(ppi);
    }

    /// The recognised text, given the bytes that `TessBaseAPIGetUTF8Text`
    /// returned: it fails exactly when they are not valid UTF-8.
    pub fn get_text(&self, raw: Vec<u8>) -> (r: Result<String, TextError>)
        ensures
            r is Ok <==> utf8_decoded(raw@) is Some,
            r is Ok ==> r->Ok_0@ == utf8_decoded(raw@)->0,
            r is Err ==> r->Err_0 == TextError::EncodingFailure,
    {
        text_from_decoded(decode_utf8(raw))
    }

    /// The request for the boxes of the components at `level`, of the text
    /// components alone where `text_only` is set.
    fn get_component_images(&self, level: PageIteratorLevel, text_only: bool) -> (r:
        ComponentQuery)
        ensures
            r == (ComponentQuery { level, text_only }),
    {
        ComponentQuery { level, text_only }
    }

    /// The request for the boxes of the blocks.
    pub fn get_blocks(&self, text_only: bool) -> (r: ComponentQuery)
        ensures
            r == (ComponentQuery { level: PageIteratorLevel::Block, text_only }),
    {
        self.get_component_images(PageIteratorLevel::Block, text_only)
    }

    /// The request for the boxes of the paragraphs.
    pub fn get_paras(&self, text_only: bool) -> (r: ComponentQuery)
        ensures
            r == (ComponentQuery { level: PageIteratorLevel::Para, text_only }),
    {
        self.get_component_images(PageIteratorLevel::Para, text_only)
    }

    /// The request for the boxes of the text lines.
    pub fn get_textlines(&self, text_only: bool) -> (r: ComponentQuery)
        ensures
            r == (ComponentQuery { level: PageIteratorLevel::TextLine, text_only }),
    {
        self.get_component_images(PageIteratorLevel::TextLine, text_only)
    }

    /// The request for the boxes of the words.
    pub fn get_words(&self, text_only: bool) -> (r: ComponentQuery)
        ensures
            r == (ComponentQuery { level: PageIteratorLevel::Word, text_only }),
    {
        self.get_component_images(PageIteratorLevel::Word, text_only)
    }

    /// The request for the boxes of the symbols.
    pub fn get_symbols(&self, text_only: bool) -> (r: ComponentQuery)
        ensures
            r == (ComponentQuery { level: PageIteratorLevel::Symbol, text_only }),
    {
        self.get_component_images(PageIteratorLevel::Symbol, text_only)
    }
}

/// The granularity of the components that layout analysis reports.
#[derive(Clone, Copy, Debug, PartialEq, Eq, Structural)]
pub enum PageIteratorLevel {
    Block,
    Para,
    TextLine,
    Word,
    Symbol,
}

impl PageIteratorLevel {
    /// Tesseract's identifier of the level (`RIL_BLOCK` is 0, up to
    /// `RIL_SYMBOL`, 4).
    pub open spec fn code(self) -> int {
        match self {
            PageIteratorLevel::Block => 0,
            PageIteratorLevel::Para => 1,
            PageIteratorLevel::TextLine => 2,
            PageIteratorLevel::Word => 3,
            PageIteratorLevel::Symbol => 4,
        }
    }

    /// The identifier handed to `TessBaseAPIGetComponentImages`.
    pub fn to_int(&self) -> (r: u32)
        ensures
            r as int == self.code(),
    {
        match self {
            PageIteratorLevel::Block => 0,
            PageIteratorLevel::Para => 1,
            PageIteratorLevel::TextLine => 2,
            PageIteratorLevel::Word => 3,
            PageIteratorLevel::Symbol => 4,
        }
    }
}

/// A request for the bounding boxes of the components at one level, in
/// reading order.
#[derive(Clone, Copy, Debug, PartialEq, Eq, Structural)]
pub struct ComponentQuery {
    pub level: PageIteratorLevel,
    pub text_only: bool,
}

impl ComponentQuery {
    /// The level's identifier, as `TessBaseAPIGetComponentImages` takes it.
    pub fn level_code(&self) -> (r: u32)
        ensures
            r as int == self.level.code(),
    {
        self.level.to_int()
    }

    /// The text-only flag, as `TessBaseAPIGetComponentImages` takes it.
    pub fn text_only_flag(&self) -> (r: i32)
        ensures
            r == (if self.text_only {
                1i32
            } else {
                0i32
            }),
    {
        if self.text_only {
            1
        } else {
            0
        }
    }
}

/// The characters that a byte string encodes as UTF-8, or `None` where it is
/// not valid UTF-8.
pub uninterp spec fn utf8_decoded(b: Seq<u8>) -> Option<Seq<char>>;

/// Relies on `String::from_utf8`: it succeeds exactly on valid UTF-8 and then
/// holds the characters that the bytes encode; no bytes are valid and
/// encode no characters.
#[verifier::external_body]
fn decode_utf8(bytes: Vec<u8>) -> (r: Option<String>)
    ensures
        r is Some <==> utf8_decoded(bytes@) is Some,
        r is Some ==> r->0@ == utf8_decoded(bytes@)->0,
        bytes@.len() == 0 ==> r is Some && r->0@.len() == 0,
{
    String::from_utf8(bytes).ok()
}

/// The recognised text, given the outcome of decoding the engine's bytes.
pub fn text_from_decoded(decoded: Option<String>) -> (r: Result<String, TextError>)
    ensures
        r is Ok <==> decoded is Some,
        r is Ok ==> r->Ok_0@ == decoded->0@,
        r is Err ==> r->Err_0 == TextError::EncodingFailure,
{
    match decoded {
        Some(t) => Ok(t),
        None => Err(TextError::EncodingFailure),
    }
}

} // verus!
