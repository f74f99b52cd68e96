//! TikTok posts: fetching the page that embeds a post's data, and the
//! reshaping of that data into the service's media description.

use vstd::prelude::*;
use crate::json::{
    error_object, jstr, jzero, law_error_object_fields, lemma_lookup_first, members, na, opt_field, opt_items, opt_last, or_default,
    view_items, view_json, Json, JsonV,
};
use crate::instagram::{field_or, field_or_exec, view_static_pairs};
use crate::text::{
    concat_str, contains, decimal, law_decimal_injective, mismatch_within, law_replace_absent, law_replace_leaves_none, occurs_in,
    replace_all, replaced, trim, trimmed, with_number,
};
use crate::validator::view_opt_string;

verus! {

/// Whether `scraper::Selector::parse` accepts `selector` as a CSS selector
/// group.
pub uninterp spec fn css_selector_parses(selector: Seq<char>) -> bool;

/// The text of the first element of the document `html` (as
/// `scraper::Html::parse_document` builds it) that matches `selector`, first
/// in the order in which the parser created the document's nodes (the order
/// `Html::select` walks them in): its descendant text nodes joined in
/// order; nothing when no element matches.
pub uninterp spec fn first_element_text(html: Seq<char>, selector: Seq<char>) -> Option<Seq<char>>;

/// Parses `html` as a document and gives the text of the first element that
/// matches `selector` (`scraper::Selector::parse`, `Html::parse_document`,
/// `Html::select`, `ElementRef::text`).
///
/// Trusted: the outer option is present exactly when the selector parses;
/// the inner one is the named result for this document and selector.
#[verifier::external_body]
pub(crate) fn select_first_text(html: &str, selector: &str) -> (r: Option<Option<String>>)
    ensures
        r is Some <==> css_selector_parses(selector@),
        r matches Some(t) ==> view_opt_string(t) == first_element_text(html@, selector@),
{
    match scraper::Selector::parse(selector) {
        Ok(sel) => {
            let doc = scraper::Html::parse_document(html);
            match doc.select(&sel).next() {
                Some(el) => Some(Some(el.text().collect::<Vec<_>>().join(""))),
                None => Some(None),
            }
        },
        Err(_) => None,
    }
}

/// A request for one TikTok post, named by its page URL.
pub struct TikTokv2 {
    /// The page URL; photo pages are asked for as video pages.
    pub url: String,
    /// Whether the answer is reshaped (`true`) or handed back whole.
    pub cut: bool,
    /// The HTTP client the requests go through.
    pub client: reqwest::Client,
}

/// The selector of the script element that embeds the page's data.
pub open spec fn script_selector() -> Seq<char> {
    "script#__UNIVERSAL_DATA_FOR_REHYDRATION__"@
}

/// Where the fetch of a post's data stands.
#[derive(PartialEq, Eq, Structural, Clone, Copy, Debug)]
pub enum FetchState {
    /// Following the redirect of a short `vm.tiktok.com` link.
    Resolving,
    /// Asking for the page.
    Requesting,
    /// Reading the page.
    Reading,
    /// Decoding the embedded data.
    Decoding,
    /// Finished.
    Done,
}

/// What the caller is to do next.
pub enum FetchAction {
    /// Send a GET request for this URL, with [`TikTokv2::headers`].
    Send(String),
    /// Read the body of the last response as text.
    ReadBody,
    /// Parse this text as JSON.
    Decode(String),
    /// Stop: the post's data, or why there is none.
    Finish(Result<Json, String>),
}

/// What came of the last action.
pub enum FetchEvent {
    /// A response arrived: the URL it came from after redirects, its status
    /// code, and the status as HTTP prints it (code and reason).
    Responded { final_url: String, status: u16, status_line: String },
    /// The request could not be sent or answered; why.
    SendFailed(String),
    /// The body, as text.
    BodyRead(String),
    /// The body could not be read; why.
    ReadFailed(String),
    /// The parsed JSON, or nothing when the text was not JSON.
    Decoded(Option<Json>),
}

pub enum FetchEventV {
    Responded(Seq<char>, u16, Seq<char>),
    SendFailed(Seq<char>),
    BodyRead(Seq<char>),
    ReadFailed(Seq<char>),
    Decoded(Option<JsonV>),
}

pub enum FetchActionV {
    Send(Seq<char>),
    ReadBody,
    Decode(Seq<char>),
    Finish(Result<JsonV, Seq<char>>),
}

impl View for FetchEvent {
    type V = FetchEventV;

    open spec fn view(&self) -> FetchEventV {
        match *self {
            FetchEvent::Responded { final_url, status, status_line } => FetchEventV::Responded(
                final_url@,
                status,
                status_line@,
            ),
            FetchEvent::SendFailed(e) => FetchEventV::SendFailed(e@),
            FetchEvent::BodyRead(b) => FetchEventV::BodyRead(b@),
            FetchEvent::ReadFailed(e) => FetchEventV::ReadFailed(e@),
            FetchEvent::Decoded(j) => FetchEventV::Decoded(
                match j {
                    Some(v) => Some(v@),
                    None => None,
                },
            ),
        }
    }
}

impl View for FetchAction {
    type V = FetchActionV;

    open spec fn view(&self) -> FetchActionV {
        match *self {
            FetchAction::Send(u) => FetchActionV::Send(u@),
            FetchAction::ReadBody => FetchActionV::ReadBody,
            FetchAction::Decode(t) => FetchActionV::Decode(t@),
            FetchAction::Finish(r) => FetchActionV::Finish(
                match r {
                    Ok(j) => Ok(j@),
                    Err(e) => Err(e@),
                },
            ),
        }
    }
}

/// Whether the fetch, in `state`, can take `event`: the events that answer
/// the action that `state` was entered with.
pub open spec fn accepts(state: FetchState, event: FetchEventV) -> bool {
    match state {
        FetchState::Resolving | FetchState::Requesting => event is Responded || event is SendFailed,
        FetchState::Reading => event is BodyRead || event is ReadFailed,
        FetchState::Decoding => event is Decoded,
        FetchState::Done => false,
    }
}

/// The first step of a fetch of `url`: short links are resolved first.
pub open spec fn fetch_begin(url: Seq<char>) -> (FetchState, FetchActionV) {
    if occurs_in(url, "vm.tiktok.com"@) {
        (FetchState::Resolving, FetchActionV::Send(url))
    } else {
        (FetchState::Requesting, FetchActionV::Send(url))
    }
}

/// A finished fetch that failed with `message`.
pub open spec fn failed(message: Seq<char>) -> (FetchState, FetchActionV) {
    (FetchState::Done, FetchActionV::Finish(Err(message)))
}

/// The next state and action of a fetch of `url` in `state` on `event`,
/// with the URL the fetch goes on with.
pub open spec fn fetch_step(url: Seq<char>, state: FetchState, event: FetchEventV) -> (
    Seq<char>,
    (FetchState, FetchActionV),
) {
    match state {
        FetchState::Resolving => match event {
            FetchEventV::Responded(final_url, _, _) => (
                final_url,
                (FetchState::Requesting, FetchActionV::Send(final_url)),
            ),
            _ => (url, failed("Failed to follow vm.tiktok.com redirect"@)),
        },
        FetchState::Requesting => match event {
            FetchEventV::Responded(_, status, line) => if status != 200 {
                (url, failed("Failed to fetch page content: "@ + line))
            } else {
                (url, (FetchState::Reading, FetchActionV::ReadBody))
            },
            FetchEventV::SendFailed(e) => (url, failed("Request error: "@ + e)),
            _ => (url, failed(Seq::empty())),
        },
        FetchState::Reading => match event {
            FetchEventV::BodyRead(html) => if !css_selector_parses(script_selector()) {
                (url, failed("Invalid script selector"@))
            } else {
                match first_element_text(html, script_selector()) {
                    Some(t) => (url, (FetchState::Decoding, FetchActionV::Decode(trimmed(t)))),
                    None => (url, failed("No script tag found"@)),
                }
            },
            FetchEventV::ReadFailed(e) => (url, failed("Read body failed: "@ + e)),
            _ => (url, failed(Seq::empty())),
        },
        _ => match event {
            FetchEventV::Decoded(Some(j)) => match opt_field(
                j.field("__DEFAULT_SCOPE__"@),
                "webapp.video-detail"@,
            ) {
                Some(d) => (url, (FetchState::Done, FetchActionV::Finish(Ok(d)))),
                None => (url, failed("No webapp.video-detail in JSON"@)),
            },
            _ => (url, failed("Invalid JSON in script"@)),
        },
    }
}

/// The headers of every page request, by name as a header map holds them.
pub open spec fn tt_headers() -> Seq<(Seq<char>, Seq<char>)> {
    seq![
        ("user-agent"@, "Mozilla/5.0 (Windows NT 10.0; Win64; x64) AppleWebKit/537.36 (KHTML, like Gecko) Chrome/123.0.0.0 Safari/537.36"@),
        ("referer"@, "https://www.tiktok.com/"@),
    ]
}

impl TikTokv2 {
    /// A request for the post at `url`; a photo page is asked for as the
    /// video page of the same post.
    pub fn new(url: &str, cut: bool, client: reqwest::Client) -> (r: TikTokv2)
        ensures
            r.url@ == replaced(url@, "/photo"@, "/video"@),
            r.cut == cut,
            r.client == client,
    {
        proof {
            reveal_strlit("/photo");
        }
        TikTokv2 { url: replace_all(url, "/photo", "/video"), cut, client }
    }

    /// The headers every page request carries.
    pub fn headers() -> (r: Vec<(&'static str, &'static str)>)
        ensures
            view_static_pairs(r@) == tt_headers(),
    {
        let mut h: Vec<(&'static str, &'static str)> = Vec::new();
        h.push(
            (
                "user-agent",
                "Mozilla/5.0 (Windows NT 10.0; Win64; x64) AppleWebKit/537.36 (KHTML, like Gecko) Chrome/123.0.0.0 Safari/537.36",
            ),
        );
        h.push(("referer", "https://www.tiktok.com/"));
        assert(view_static_pairs(h@) =~= tt_headers());
        h
    }

    /// The service's error object.
    pub fn err(&self, message: &str, error_message: &str) -> (r: Json)
        ensures
            r@ == error_object(message@, error_message@),
    {
        Json::error_object(message, error_message)
    }

    /// Whether `state` can take `event`.
    pub fn accepts(state: FetchState, event: &FetchEvent) -> (r: bool)
        ensures
            r == accepts(state, event@),
    {
        match state {
            FetchState::Resolving | FetchState::Requesting => match event {
                FetchEvent::Responded { .. } | FetchEvent::SendFailed(_) => true,
                _ => false,
            },
            FetchState::Reading => match event {
                FetchEvent::BodyRead(_) | FetchEvent::ReadFailed(_) => true,
                _ => false,
            },
            FetchState::Decoding => match event {
                FetchEvent::Decoded(_) => true,
                _ => false,
            },
            FetchState::Done => false,
        }
    }

    /// The first step of fetching the post's data.
    pub fn begin(&self) -> (r: (FetchState, FetchAction))
        ensures
            (r.0, r.1@) == fetch_begin(self.url@),
    {
        if contains(self.url.as_str(), "vm.tiktok.com") {
            (FetchState::Resolving, FetchAction::Send(self.url.clone()))
        } else {
            (FetchState::Requesting, FetchAction::Send(self.url.clone()))
        }
    }

    fn fail(message: String) -> (r: (FetchState, FetchAction))
        ensures
            (r.0, r.1@) == failed(message@),
    {
        (FetchState::Done, FetchAction::Finish(Err(message)))
    }

    /// The next step of fetching the post's data, from `state` and what
    /// came of the last action. Following a short link moves the request to
    /// the URL it leads to.
    pub fn advance(&mut self, state: FetchState, event: FetchEvent) -> (r: (FetchState, FetchAction))
        requires
            accepts(state, event@),
        ensures
            (final(self).url@, (r.0, r.1@)) == fetch_step(old(self).url@, state, event@),
            final(self).cut == old(self).cut,
            final(self).client == old(self).client,
    {
        match state {
            FetchState::Resolving => match event {
                FetchEvent::Responded { final_url, .. } => {
                    self.url = final_url.clone();
                    (FetchState::Requesting, FetchAction::Send(final_url))
                },
                _ => Self::fail(String::from_str("Failed to follow vm.tiktok.com redirect")),
            },
            FetchState::Requesting => match event {
                FetchEvent::Responded { status, status_line, .. } => {
                    if status != 200 {
                        Self::fail(concat_str("Failed to fetch page content: ", status_line.as_str()))
                    } else {
                        (FetchState::Reading, FetchAction::ReadBody)
                    }
                },
                FetchEvent::SendFailed(e) => Self::fail(concat_str("Request error: ", e.as_str())),
                _ => Self::fail(String::new()),
            },
            FetchState::Reading => match event {
                FetchEvent::BodyRead(html) => {
                    match select_first_text(
                        html.as_str(),
                        "script#__UNIVERSAL_DATA_FOR_REHYDRATION__",
                    ) {
                        None => Self::fail(String::from_str("Invalid script selector")),
                        Some(None) => Self::fail(String::from_str("No script tag found")),
                        Some(Some(t)) => (FetchState::Decoding, FetchAction::Decode(trim(t.as_str()))),
                    }
                },
                FetchEvent::ReadFailed(e) => Self::fail(concat_str("Read body failed: ", e.as_str())),
                _ => Self::fail(String::new()),
            },
            _ => match event {
                FetchEvent::Decoded(Some(j)) => {
                    match Json::get_in(j.get("__DEFAULT_SCOPE__"), "webapp.video-detail") {
                        Some(d) => (FetchState::Done, FetchAction::Finish(Ok(d.deep_clone()))),
                        None => Self::fail(String::from_str("No webapp.video-detail in JSON")),
                    }
                },
                _ => Self::fail(String::from_str("Invalid JSON in script")),
            },
        }
    }
}

/// The post inside the page's data.
pub open spec fn tt_item(data: JsonV) -> Option<JsonV> {
    opt_field(data.field("itemInfo"@), "itemStruct"@)
}

/// `key` inside the member `outer` of `item`, or `default`.
pub open spec fn sub_or(item: JsonV, outer: Seq<char>, key: Seq<char>, default: JsonV) -> JsonV {
    or_default(opt_field(item.field(outer), key), default)
}

/// A statistic of the post, or zero.
pub open spec fn stat(item: JsonV, key: Seq<char>) -> JsonV {
    sub_or(item, "stats"@, key, jzero())
}

/// Where one rendition of a video can be fetched: the last URL it lists,
/// moved from the web host to the API host.
pub open spec fn tt_video_address(q: JsonV) -> Seq<char> {
    let a = or_default(opt_last(opt_items(opt_field(q.field("PlayAddr"@), "UrlList"@))), na());
    let t = match a.text() {
        Some(t) => t,
        None => "N/A"@,
    };
    replaced(t, "https://www.tiktok.com"@, "https://api16-normal-useast5.tiktokv.us"@)
}

/// The description of rendition `i` of a video.
pub open spec fn tt_video(i: nat, q: JsonV) -> JsonV {
    JsonV::Object(
        seq![
            (
                "quality_"@ + decimal(i),
                JsonV::Object(
                    seq![
                        ("size"@, sub_or(q, "PlayAddr"@, "DataSize"@, na())),
                        ("address"@, jstr(tt_video_address(q))),
                    ],
                ),
            ),
        ],
    )
}

pub open spec fn tt_videos(b: Seq<JsonV>) -> Seq<JsonV> {
    Seq::new(b.len(), |i: int| tt_video(i as nat, b[i]))
}

/// The description of image `i` of a photo post.
pub open spec fn tt_image(i: nat, img: JsonV) -> JsonV {
    JsonV::Object(
        seq![
            (
                "image_"@ + decimal(i),
                JsonV::Object(
                    seq![
                        (
                            "address"@,
                            or_default(
                                opt_last(opt_items(opt_field(img.field("imageURL"@), "urlList"@))),
                                jstr(Seq::empty()),
                            ),
                        ),
                        ("size"@, field_or(img, "imageHeight"@, na())),
                    ],
                ),
            ),
        ],
    )
}

/// The images of a photo post (none when it lists none).
pub open spec fn tt_image_list(item: JsonV) -> Seq<JsonV> {
    match opt_items(opt_field(item.field("imagePost"@), "images"@)) {
        Some(s) => s,
        None => Seq::empty(),
    }
}

pub open spec fn tt_images(s: Seq<JsonV>) -> Seq<JsonV> {
    Seq::new(s.len(), |i: int| tt_image(i as nat, s[i]))
}

pub open spec fn tt_video_content(item: JsonV) -> JsonV {
    JsonV::Object(
        seq![
            ("id"@, field_or(item, "id"@, na())),
            ("desc"@, field_or(item, "desc"@, na())),
            ("views"@, stat(item, "playCount"@)),
            ("likes"@, stat(item, "diggCount"@)),
            ("comments"@, stat(item, "commentCount"@)),
            ("saves"@, stat(item, "collectCount"@)),
            ("share"@, stat(item, "shareCount"@)),
            ("cover"@, sub_or(item, "video"@, "cover"@, na())),
        ],
    )
}

pub open spec fn tt_image_cover(item: JsonV) -> JsonV {
    or_default(
        opt_last(
            opt_items(
                opt_field(
                    opt_field(opt_field(item.field("imagePost"@), "cover"@), "imageURL"@),
                    "urlList"@,
                ),
            ),
        ),
        na(),
    )
}

pub open spec fn tt_image_content(item: JsonV) -> JsonV {
    JsonV::Object(
        seq![
            ("id"@, field_or(item, "id"@, na())),
            ("desc"@, field_or(item, "desc"@, na())),
            ("title"@, sub_or(item, "imagePost"@, "title"@, na())),
            ("views"@, stat(item, "playCount"@)),
            ("likes"@, stat(item, "diggCount"@)),
            ("comments"@, stat(item, "commentCount"@)),
            ("saves"@, stat(item, "collectCount"@)),
            ("share"@, stat(item, "shareCount"@)),
            ("cover"@, tt_image_cover(item)),
        ],
    )
}

/// The author, with one more member after the four common ones.
pub open spec fn tt_author(item: JsonV, extra: (Seq<char>, JsonV)) -> JsonV {
    JsonV::Object(
        seq![
            ("name"@, sub_or(item, "author"@, "nickname"@, na())),
            ("username"@, sub_or(item, "author"@, "uniqueId"@, na())),
            ("verified"@, sub_or(item, "author"@, "verified"@, JsonV::Bool(false))),
            ("image"@, sub_or(item, "author"@, "avatarMedium"@, na())),
            extra,
        ],
    )
}

/// The music, with `src` as its source.
pub open spec fn tt_music(item: JsonV, src: JsonV) -> JsonV {
    JsonV::Object(
        seq![
            ("author"@, sub_or(item, "music"@, "authorName"@, na())),
            ("title"@, sub_or(item, "music"@, "title"@, na())),
            ("cover"@, sub_or(item, "music"@, "coverMedium"@, na())),
            ("duration"@, sub_or(item, "music"@, "duration"@, na())),
            ("src"@, src),
        ],
    )
}

/// The service's description of a video post whose renditions are `b`.
pub open spec fn tt_video_result(item: JsonV, b: Seq<JsonV>) -> JsonV {
    JsonV::Object(
        seq![
            ("platform"@, jstr("tiktok"@)),
            ("is_video"@, JsonV::Bool(true)),
            ("content"@, tt_video_content(item)),
            ("author"@, tt_author(item, ("bio"@, sub_or(item, "author"@, "signature"@, na())))),
            ("videos"@, JsonV::Array(tt_videos(b))),
            ("music"@, tt_music(item, sub_or(item, "music"@, "playUrl"@, na()))),
        ],
    )
}

/// The service's description of a photo post.
pub open spec fn tt_image_result(item: JsonV) -> JsonV {
    JsonV::Object(
        seq![
            ("platform"@, jstr("tiktok"@)),
            ("is_image"@, JsonV::Bool(true)),
            ("content"@, tt_image_content(item)),
            ("author"@, tt_author(item, ("location"@, field_or(item, "locationCreated"@, na())))),
            ("images"@, JsonV::Array(tt_images(tt_image_list(item)))),
            ("music"@, tt_music(item, field_or(item, "playUrl"@, na()))),
        ],
    )
}

/// The service's answer for the page's data, with its HTTP status: the
/// data whole unless `cut`; else a video post when its video lists
/// renditions, else a photo post.
pub open spec fn tt_answer(data: JsonV, cut: bool) -> (JsonV, u16) {
    if !cut {
        (data, 200)
    } else {
        match tt_item(data) {
            None => (
                error_object("something went wrong"@, "unable to get item from itemStruct"@),
                502,
            ),
            Some(item) => match opt_items(opt_field(item.field("video"@), "bitrateInfo"@)) {
                Some(b) => (tt_video_result(item, b), 200),
                None => (tt_image_result(item), 200),
            },
        }
    }
}

/// A request's page URL names no photo page: no "/photo" is left in it.
pub proof fn law_new_leaves_no_photo(url: Seq<char>)
    ensures
        !occurs_in(replaced(url, "/photo"@, "/video"@), "/photo"@),
{
    reveal_strlit("/photo");
    reveal_strlit("/video");
    let f = "/photo"@;
    let t = "/video"@;
    assert(t.subrange(0, f.len() as int)[1] != f[1]);
    assert forall|p: int| 1 <= p < t.len() implies mismatch_within(f, t, p) by {
        assert(t[p + 0] != f[0]);
    }
    law_replace_leaves_none(url, f, t);
}

/// Asking again for the URL a request settled on changes nothing.
pub proof fn law_new_is_stable(url: Seq<char>)
    ensures
        replaced(replaced(url, "/photo"@, "/video"@), "/photo"@, "/video"@) == replaced(
            url,
            "/photo"@,
            "/video"@,
        ),
{
    law_new_leaves_no_photo(url);
    law_replace_absent(replaced(url, "/photo"@, "/video"@), "/photo"@, "/video"@);
}

/// How far a fetch has gone.
pub open spec fn fetch_rank(state: FetchState) -> int {
    match state {
        FetchState::Resolving => 0,
        FetchState::Requesting => 1,
        FetchState::Reading => 2,
        FetchState::Decoding => 3,
        FetchState::Done => 4,
    }
}

/// A fetch begins by sending a request for the post's URL.
pub proof fn law_fetch_begins_by_sending(url: Seq<char>)
    ensures
        fetch_begin(url).1 == FetchActionV::Send(url),
        fetch_rank(fetch_begin(url).0) < fetch_rank(FetchState::Done),
{
}

/// Every step moves a fetch forward, so that it ends after at most four
/// steps; a step ends it exactly when the step's action is to finish; and
/// only following a short link changes the URL, to the one it leads to.
pub proof fn law_fetch_progress(url: Seq<char>, state: FetchState, event: FetchEventV)
    requires
        accepts(state, event),
    ensures
        fetch_rank(fetch_step(url, state, event).1.0) > fetch_rank(state),
        (fetch_step(url, state, event).1.0 == FetchState::Done) <==> (fetch_step(
            url,
            state,
            event,
        ).1.1 is Finish),
        state != FetchState::Resolving ==> fetch_step(url, state, event).0 == url,
        (state == FetchState::Resolving && event is Responded) ==> fetch_step(url, state, event).0
            == event->Responded_0 && fetch_step(url, state, event).1.1 == FetchActionV::Send(
            event->Responded_0,
        ),
{
}

/// A reshaped TikTok answer names its platform, a failed one is the
/// service's error object, and an uncut one is the data itself.
pub proof fn law_tiktok_answer_shape(data: JsonV, cut: bool)
    ensures
        !cut ==> tt_answer(data, cut) == (data, 200u16),
        tt_answer(data, cut).1 == 200 || tt_answer(data, cut).1 == 502,
        cut && tt_answer(data, cut).1 == 200 ==> tt_answer(data, cut).0.field("platform"@) == Some(
            jstr("tiktok"@),
        ),
        tt_answer(data, cut).1 == 502 ==> tt_answer(data, cut).0.field("error"@) == Some(
            JsonV::Bool(true),
        ),
        tt_answer(data, cut).1 == 502 ==> tt_answer(data, cut).0.field("message"@) is Some
            && tt_answer(data, cut).0.field("error_message"@) is Some,
{
    law_error_object_fields("something went wrong"@, "unable to get item from itemStruct"@);
}

/// A fetch that failed is answered with status 502 and the service's error
/// object, whose message and error message are both the failure.
pub proof fn law_fetch_failure_answer(e: Seq<char>, cut: bool)
    ensures
        tt_finish(Err(e), cut).1 == 502,
        tt_finish(Err(e), cut).0.field("error"@) == Some(JsonV::Bool(true)),
        tt_finish(Err(e), cut).0.field("message"@) == Some(jstr(e)),
        tt_finish(Err(e), cut).0.field("error_message"@) == Some(jstr(e)),
{
    law_error_object_fields(e, e);
}

proof fn lemma_prefixed_keys_differ(prefix: Seq<char>, i: nat, j: nat)
    requires
        i != j,
    ensures
        prefix + decimal(i) != prefix + decimal(j),
{
    if prefix + decimal(i) == prefix + decimal(j) {
        assert((prefix + decimal(i)).subrange(prefix.len() as int, (prefix + decimal(i)).len() as int)
            =~= decimal(i));
        assert((prefix + decimal(j)).subrange(prefix.len() as int, (prefix + decimal(j)).len() as int)
            =~= decimal(j));
        law_decimal_injective(i, j);
    }
}

/// A reshaped TikTok post, photo or video alike, reports in its content its
/// play count (`stats.playCount`) as "views", its like count
/// (`stats.diggCount`) as "likes", and its comment, save and share counts
/// (`commentCount`, `collectCount`, `shareCount`) as "comments", "saves"
/// and "share", each zero when the post does not give it.
pub proof fn law_tiktok_statistics(data: JsonV, item: JsonV)
    requires
        opt_field(data.field("itemInfo"@), "itemStruct"@) == Some(item),
    ensures
        tt_answer(data, true).1 == 200,
        opt_field(tt_answer(data, true).0.field("content"@), "views"@) == Some(
            or_default(opt_field(item.field("stats"@), "playCount"@), JsonV::Number(seq!['0'])),
        ),
        opt_field(tt_answer(data, true).0.field("content"@), "likes"@) == Some(
            or_default(opt_field(item.field("stats"@), "diggCount"@), JsonV::Number(seq!['0'])),
        ),
        opt_field(tt_answer(data, true).0.field("content"@), "comments"@) == Some(
            or_default(opt_field(item.field("stats"@), "commentCount"@), JsonV::Number(seq!['0'])),
        ),
        opt_field(tt_answer(data, true).0.field("content"@), "saves"@) == Some(
            or_default(opt_field(item.field("stats"@), "collectCount"@), JsonV::Number(seq!['0'])),
        ),
        opt_field(tt_answer(data, true).0.field("content"@), "share"@) == Some(
            or_default(opt_field(item.field("stats"@), "shareCount"@), JsonV::Number(seq!['0'])),
        ),
{
    reveal_strlit("platform");
    reveal_strlit("is_video");
    reveal_strlit("is_image");
    reveal_strlit("content");
    reveal_strlit("id");
    reveal_strlit("desc");
    reveal_strlit("title");
    reveal_strlit("views");
    reveal_strlit("likes");
    assert("platform"@.len() == 8 && "is_video"@.len() == 8 && "is_image"@.len() == 8);
    assert("content"@.len() == 7 && "id"@.len() == 2 && "desc"@.len() == 4);
    assert("title"@.len() == 5 && "views"@.len() == 5 && "likes"@.len() == 5);
    reveal_strlit("comments");
    reveal_strlit("saves");
    reveal_strlit("share");
    assert("title"@[0] == 't' && "views"@[0] == 'v' && "likes"@[0] == 'l');
    assert("comments"@.len() == 8 && "saves"@.len() == 5 && "share"@.len() == 5);
    assert("saves"@[0] == 's' && "share"@[0] == 's' && "saves"@[1] == 'a' && "share"@[1] == 'h');
    let answer = tt_answer(data, true).0;
    let top = members(answer);
    assert(top[0].0 != "content"@ && top[1].0 != "content"@ && top[2].0 == "content"@);
    lemma_lookup_first(top, "content"@, 2, 0);
    let c = members(top[2].1);
    match opt_items(opt_field(item.field("video"@), "bitrateInfo"@)) {
        Some(b) => {
            assert(c[0].0 != "views"@ && c[1].0 != "views"@ && c[2].0 == "views"@);
            lemma_lookup_first(c, "views"@, 2, 0);
            assert(c[2].0 != "likes"@ && c[3].0 == "likes"@);
            lemma_lookup_first(c, "likes"@, 3, 0);
            assert(c[2].0 != "comments"@ && c[3].0 != "comments"@ && c[4].0 == "comments"@);
            lemma_lookup_first(c, "comments"@, 4, 0);
            assert(c[2].0 != "saves"@ && c[3].0 != "saves"@ && c[4].0 != "saves"@);
            assert(c[5].0 == "saves"@);
            lemma_lookup_first(c, "saves"@, 5, 0);
            assert(c[2].0 != "share"@ && c[3].0 != "share"@ && c[4].0 != "share"@);
            assert(c[5].0 != "share"@ && c[6].0 == "share"@);
            lemma_lookup_first(c, "share"@, 6, 0);
        },
        None => {
            assert(c[0].0 != "views"@ && c[1].0 != "views"@ && c[2].0 != "views"@);
            assert(c[3].0 == "views"@);
            lemma_lookup_first(c, "views"@, 3, 0);
            assert(c[3].0 != "likes"@ && c[4].0 == "likes"@);
            lemma_lookup_first(c, "likes"@, 4, 0);
            assert(c[2].0 != "comments"@ && c[3].0 != "comments"@ && c[4].0 != "comments"@);
            assert(c[5].0 == "comments"@);
            lemma_lookup_first(c, "comments"@, 5, 0);
            assert(c[2].0 != "saves"@ && c[3].0 != "saves"@ && c[4].0 != "saves"@);
            assert(c[5].0 != "saves"@ && c[6].0 == "saves"@);
            lemma_lookup_first(c, "saves"@, 6, 0);
            assert(c[2].0 != "share"@ && c[3].0 != "share"@ && c[4].0 != "share"@);
            assert(c[5].0 != "share"@ && c[6].0 != "share"@ && c[7].0 == "share"@);
            lemma_lookup_first(c, "share"@, 7, 0);
        },
    }
}

/// A reshaped video lists one entry per rendition, and a reshaped photo
/// post one per image, each under its own key: "quality_" or "image_"
/// followed by its position.
pub proof fn law_tiktok_one_entry_each(b: Seq<JsonV>, images: Seq<JsonV>, i: int, j: int)
    requires
        0 <= i < j,
    ensures
        tt_videos(b).len() == b.len(),
        tt_images(images).len() == images.len(),
        i < b.len() ==> members(tt_videos(b)[i]).len() == 1 && members(tt_videos(b)[i])[0].0
            == "quality_"@ + decimal(i as nat),
        i < images.len() ==> members(tt_images(images)[i]).len() == 1 && members(
            tt_images(images)[i],
        )[0].0 == "image_"@ + decimal(i as nat),
        j < b.len() ==> members(tt_videos(b)[i])[0].0 != members(tt_videos(b)[j])[0].0,
        j < images.len() ==> members(tt_images(images)[i])[0].0 != members(tt_images(images)[j])[0].0,
{
    lemma_prefixed_keys_differ("quality_"@, i as nat, j as nat);
    lemma_prefixed_keys_differ("image_"@, i as nat, j as nat);
}

/// The service's answer for the outcome of a fetch.
pub open spec fn tt_finish(fetched: Result<JsonV, Seq<char>>, cut: bool) -> (JsonV, u16) {
    match fetched {
        Ok(data) => tt_answer(data, cut),
        Err(e) => (error_object(e, e), 502),
    }
}

fn sub_or_exec(item: &Json, outer: &str, key: &str, default: Json) -> (r: Json)
    ensures
        r@ == sub_or(item@, outer@, key@, default@),
{
    Json::value_or(Json::get_in(item.get(outer), key), default)
}

fn stat_exec(item: &Json, key: &str) -> (r: Json)
    ensures
        r@ == stat(item@, key@),
{
    sub_or_exec(item, "stats", key, Json::zero())
}

impl TikTokv2 {
    fn video_address(q: &Json) -> (r: String)
        ensures
            r@ == tt_video_address(q@),
    {
        let a = Json::value_or(
            Json::last_in(Json::array_in(Json::get_in(q.get("PlayAddr"), "UrlList"))),
            Json::na(),
        );
        proof {
            reveal_strlit("https://www.tiktok.com");
        }
        match a.as_str() {
            Some(t) => replace_all(
                t.as_str(),
                "https://www.tiktok.com",
                "https://api16-normal-useast5.tiktokv.us",
            ),
            None => replace_all("N/A", "https://www.tiktok.com", "https://api16-normal-useast5.tiktokv.us"),
        }
    }

    fn video(i: usize, q: &Json) -> (r: Json)
        ensures
            r@ == tt_video(i as nat, q@),
    {
        let inner = Json::object().with("size", sub_or_exec(q, "PlayAddr", "DataSize", Json::na())).with(
            "address",
            Json::Str(Self::video_address(q)),
        );
        let key = with_number("quality_", i);
        let r = Json::object().with(key.as_str(), inner);
        assert(members(inner@) =~= seq![
            ("size"@, sub_or(q@, "PlayAddr"@, "DataSize"@, na())),
            ("address"@, jstr(tt_video_address(q@))),
        ]);
        assert(members(r@) =~= members(tt_video(i as nat, q@)));
        r
    }

    fn image(i: usize, img: &Json) -> (r: Json)
        ensures
            r@ == tt_image(i as nat, img@),
    {
        let addr = Json::value_or(
            Json::last_in(Json::array_in(Json::get_in(img.get("imageURL"), "urlList"))),
            Json::Str(String::new()),
        );
        let inner = Json::object().with("address", addr).with(
            "size",
            field_or_exec(img, "imageHeight", Json::na()),
        );
        let key = with_number("image_", i);
        let r = Json::object().with(key.as_str(), inner);
        assert(members(inner@) =~= seq![
            (
                "address"@,
                or_default(
                    opt_last(opt_items(opt_field(img@.field("imageURL"@), "urlList"@))),
                    jstr(Seq::empty()),
                ),
            ),
            ("size"@, field_or(img@, "imageHeight"@, na())),
        ]);
        assert(members(r@) =~= members(tt_image(i as nat, img@)));
        r
    }

    fn videos(b: &Vec<Json>) -> (r: Vec<Json>)
        ensures
            view_items(r@) == tt_videos(view_items(b@)),
    {
        let ghost bv = view_items(b@);
        let mut out: Vec<Json> = Vec::new();
        let mut i: usize = 0;
        while i < b.len()
            invariant
                i <= b@.len(),
                bv == view_items(b@),
                out@.len() == i,
                forall|j: int| 0 <= j < i ==> #[trigger] view_json(out@[j]) == tt_video(j as nat, bv[j]),
            decreases b@.len() - i,
        {
            assert(bv[i as int] == view_json(b@[i as int]));
            out.push(Self::video(i, &b[i]));
            i += 1;
        }
        assert(view_items(out@) =~= tt_videos(bv)) by {
            assert forall|j: int| 0 <= j < out@.len() implies view_items(out@)[j] == tt_videos(bv)[j] by {
                assert(view_json(out@[j]) == tt_video(j as nat, bv[j]));
            }
        }
        out
    }

    fn images(s: &Vec<Json>) -> (r: Vec<Json>)
        ensures
            view_items(r@) == tt_images(view_items(s@)),
    {
        let ghost sv = view_items(s@);
        let mut out: Vec<Json> = Vec::new();
        let mut i: usize = 0;
        while i < s.len()
            invariant
                i <= s@.len(),
                sv == view_items(s@),
                out@.len() == i,
                forall|j: int| 0 <= j < i ==> #[trigger] view_json(out@[j]) == tt_image(j as nat, sv[j]),
            decreases s@.len() - i,
        {
            assert(sv[i as int] == view_json(s@[i as int]));
            out.push(Self::image(i, &s[i]));
            i += 1;
        }
        assert(view_items(out@) =~= tt_images(sv)) by {
            assert forall|j: int| 0 <= j < out@.len() implies view_items(out@)[j] == tt_images(sv)[j] by {
                assert(view_json(out@[j]) == tt_image(j as nat, sv[j]));
            }
        }
        out
    }

    fn author(item: &Json, extra_key: &str, extra: Json) -> (r: Json)
        ensures
            r@ == tt_author(item@, (extra_key@, extra@)),
    {
        let r = Json::object().with("name", sub_or_exec(item, "author", "nickname", Json::na())).with(
            "username",
            sub_or_exec(item, "author", "uniqueId", Json::na()),
        ).with("verified", sub_or_exec(item, "author", "verified", Json::Bool(false))).with(
            "image",
            sub_or_exec(item, "author", "avatarMedium", Json::na()),
        ).with(extra_key, extra);
        assert(members(r@) =~= members(tt_author(item@, (extra_key@, extra@))));
        r
    }

    fn music(item: &Json, src: Json) -> (r: Json)
        ensures
            r@ == tt_music(item@, src@),
    {
        let r = Json::object().with("author", sub_or_exec(item, "music", "authorName", Json::na())).with(
            "title",
            sub_or_exec(item, "music", "title", Json::na()),
        ).with("cover", sub_or_exec(item, "music", "coverMedium", Json::na())).with(
            "duration",
            sub_or_exec(item, "music", "duration", Json::na()),
        ).with("src", src);
        assert(members(r@) =~= members(tt_music(item@, src@)));
        r
    }

    fn video_result(item: &Json, b: &Vec<Json>) -> (r: Json)
        ensures
            r@ == tt_video_result(item@, view_items(b@)),
    {
        let content = Json::object().with("id", field_or_exec(item, "id", Json::na())).with(
            "desc",
            field_or_exec(item, "desc", Json::na()),
        ).with("views", stat_exec(item, "playCount")).with("likes", stat_exec(item, "diggCount")).with(
            "comments",
            stat_exec(item, "commentCount"),
        ).with("saves", stat_exec(item, "collectCount")).with("share", stat_exec(item, "shareCount")).with(
            "cover",
            sub_or_exec(item, "video", "cover", Json::na()),
        );
        assert(members(content@) =~= members(tt_video_content(item@)));
        let author = Self::author(item, "bio", sub_or_exec(item, "author", "signature", Json::na()));
        let music = Self::music(item, sub_or_exec(item, "music", "playUrl", Json::na()));
        let r = Json::object().with("platform", Json::text("tiktok")).with(
            "is_video",
            Json::Bool(true),
        ).with("content", content).with("author", author).with(
            "videos",
            Json::Array(Self::videos(b)),
        ).with("music", music);
        assert(members(r@) =~= members(tt_video_result(item@, view_items(b@))));
        r
    }

    fn image_result(item: &Json) -> (r: Json)
        ensures
            r@ == tt_image_result(item@),
    {
        let cover = Json::value_or(
            Json::last_in(
                Json::array_in(
                    Json::get_in(
                        Json::get_in(Json::get_in(item.get("imagePost"), "cover"), "imageURL"),
                        "urlList",
                    ),
                ),
            ),
            Json::na(),
        );
        let content = Json::object().with("id", field_or_exec(item, "id", Json::na())).with(
            "desc",
            field_or_exec(item, "desc", Json::na()),
        ).with("title", sub_or_exec(item, "imagePost", "title", Json::na())).with(
            "views",
            stat_exec(item, "playCount"),
        ).with("likes", stat_exec(item, "diggCount")).with(
            "comments",
            stat_exec(item, "commentCount"),
        ).with("saves", stat_exec(item, "collectCount")).with("share", stat_exec(item, "shareCount")).with(
            "cover",
            cover,
        );
        assert(members(content@) =~= members(tt_image_content(item@)));
        let images = match Json::array_in(Json::get_in(item.get("imagePost"), "images")) {
            Some(s) => Self::images(s),
            None => {
                let empty: Vec<Json> = Vec::new();
                assert(view_items(empty@) =~= tt_images(Seq::empty()));
                empty
            },
        };
        let author = Self::author(item, "location", field_or_exec(item, "locationCreated", Json::na()));
        let music = Self::music(item, field_or_exec(item, "playUrl", Json::na()));
        let r = Json::object().with("platform", Json::text("tiktok")).with(
            "is_image",
            Json::Bool(true),
        ).with("content", content).with("author", author).with(
            "images",
            Json::Array(images),
        ).with("music", music);
        assert(members(r@) =~= members(tt_image_result(item@)));
        r
    }

    /// The service's answer for the page's data `data`: handed back whole
    /// unless `cut`; else the post, reshaped as a video post when its video
    /// lists renditions and as a photo post otherwise.
    pub fn shape(&self, data: Json) -> (r: (Json, u16))
        ensures
            (r.0@, r.1) == tt_answer(data@, self.cut),
    {
        if !self.cut {
            return (data, 200);
        }
        match Json::get_in(data.get("itemInfo"), "itemStruct") {
            None => (self.err("something went wrong", "unable to get item from itemStruct"), 502),
            Some(item) => match Json::array_in(Json::get_in(item.get("video"), "bitrateInfo")) {
                Some(b) => (Self::video_result(item, b), 200),
                None => (Self::image_result(item), 200),
            },
        }
    }

    /// The service's answer for the outcome of a fetch: the reshaped data,
    /// or the service's error object with the failure as both messages.
    pub fn finish(&self, fetched: Result<Json, String>) -> (r: (Json, u16))
        ensures
            (r.0@, r.1) == tt_finish(
                match fetched {
                    Ok(d) => Ok(d@),
                    Err(e) => Err(e@),
                },
                self.cut,
            ),
    {
        match fetched {
            Ok(data) => self.shape(data),
            Err(e) => (self.err(e.as_str(), e.as_str()), 502),
        }
    }
}

} // verus!
