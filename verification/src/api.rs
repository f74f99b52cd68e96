//! The API's decisions: which URL a request names, and what is done with it.

use vstd::prelude::*;
use crate::json::{
    error_object, jstr, law_error_object_fields, lemma_lookup_first, lemma_view_items_push, members,
    opt_field, opt_items, view_items, view_json, view_ref, Json, JsonV,
};
use crate::text::{
    decimal, law_replace_leaves_none, mismatch_within, law_replace_absent, occurs_in, replace_all, replaced,
    with_number,
};
use crate::instagram::{ig_answer, law_instagram_answer_shape};
use crate::tiktok::{law_fetch_failure_answer, law_tiktok_answer_shape, tt_finish};
use crate::validator::{
    law_validate_first_match, pattern_text, platform_at, platform_name, regex_capture,
    regex_compiles, spec_validate, view_opt_string, InvalidPattern, Pattern, Platform, Validator,
};

verus! {

/// What to scrape, with the scraper that handles it: the page URL, or for
/// Instagram the post's shortcode.
pub struct Route {
    pub platform: Platform,
    pub target: String,
}

/// What the API does with a request.
pub enum Reply {
    /// Answer at once with this status and body.
    Reject { status: u16, body: Json },
    /// Scrape this page and answer with what the scraper finds.
    Scrape(Route),
}

pub enum ReplyV {
    Reject(u16, JsonV),
    Scrape(Platform, Seq<char>),
}

impl View for Reply {
    type V = ReplyV;

    open spec fn view(&self) -> ReplyV {
        match *self {
            Reply::Reject { status, body } => ReplyV::Reject(status, body@),
            Reply::Scrape(route) => ReplyV::Scrape(route.platform, route.target@),
        }
    }
}

/// The text of an optional value that is a string.
pub open spec fn opt_text(o: Option<JsonV>) -> Option<Seq<char>> {
    match o {
        Some(v) => v.text(),
        None => None,
    }
}

/// The URL a request names: the string `url` of its JSON body, else its
/// `url` query parameter.
pub open spec fn spec_request_url(body: Option<JsonV>, query_url: Option<Seq<char>>) -> Option<
    Seq<char>,
> {
    match opt_text(opt_field(body, "url"@)) {
        Some(u) => Some(u),
        None => query_url,
    }
}

/// What the scraper of `platform` is given for `url`: Facebook pages are
/// asked for on the main host, and an Instagram post by its shortcode (the
/// second group of the Instagram pattern); nothing when the URL holds no
/// shortcode.
pub open spec fn spec_target(platform: Platform, url: Seq<char>) -> Option<Seq<char>> {
    if platform == Platform::Facebook {
        Some(replaced(url, "web.facebook"@, "www.facebook"@))
    } else if platform == Platform::Instagram {
        regex_capture(pattern_text(1), url, 2)
    } else {
        Some(url)
    }
}

/// The API's error answer.
pub open spec fn api_error(message: Seq<char>) -> JsonV {
    error_object(message, message)
}

/// What the API does with a request whose body and query are given.
pub open spec fn spec_plan(body: Option<JsonV>, query_url: Option<Seq<char>>) -> Result<
    ReplyV,
    InvalidPattern,
> {
    match spec_request_url(body, query_url) {
        None => Ok(ReplyV::Reject(400, api_error("URL is required"@))),
        Some(url) => match spec_validate(url) {
            Err(e) => Err(e),
            Ok(None) => Ok(ReplyV::Reject(400, api_error("Unsupported URL"@))),
            Ok(Some(p)) => match spec_target(p, url) {
                Some(t) => Ok(ReplyV::Scrape(p, t)),
                None => Ok(ReplyV::Reject(400, api_error("Unsupported URL"@))),
            },
        },
    }
}

/// Every refusal is answered with status 400 and the service's error
/// object, with `error` true and the same text as message and error message.
pub proof fn law_refusals_share_error_shape(body: Option<JsonV>, query_url: Option<Seq<char>>)
    ensures
        spec_plan(body, query_url) matches Ok(ReplyV::Reject(status, answer)) ==> {
            &&& status == 400
            &&& answer.field("error"@) == Some(JsonV::Bool(true))
            &&& answer.field("message"@) is Some
            &&& answer.field("message"@) == answer.field("error_message"@)
        },
{
    law_error_object_fields("URL is required"@, "URL is required"@);
    law_error_object_fields("Unsupported URL"@, "Unsupported URL"@);
}

/// A request with a URL of a platform goes to that platform's scraper with
/// what the URL names, and one with a URL of none is refused as
/// unsupported.
pub proof fn law_requests_are_routed(body: Option<JsonV>, query_url: Option<Seq<char>>, url: Seq<char>)
    requires
        spec_request_url(body, query_url) == Some(url),
    ensures
        spec_validate(url) matches Ok(Some(p)) ==> spec_target(p, url) matches Some(t)
            ==> spec_plan(body, query_url) == Ok::<ReplyV, InvalidPattern>(ReplyV::Scrape(p, t)),
        spec_validate(url) == Ok::<Option<Platform>, InvalidPattern>(None) ==> spec_plan(
            body,
            query_url,
        ) == Ok::<ReplyV, InvalidPattern>(ReplyV::Reject(400, api_error("Unsupported URL"@))),
{
}

/// Asking for a Facebook page on the main host changes nothing: when the
/// rewritten URL is still a Facebook URL, a request for it is handled as
/// the request for the URL itself.
pub proof fn law_facebook_rewrite_stable(url: Seq<char>)
    requires
        spec_validate(url) == Ok::<Option<Platform>, InvalidPattern>(Some(Platform::Facebook)),
        spec_validate(replaced(url, "web.facebook"@, "www.facebook"@)) == Ok::<
            Option<Platform>,
            InvalidPattern,
        >(Some(Platform::Facebook)),
    ensures
        replaced(replaced(url, "web.facebook"@, "www.facebook"@), "web.facebook"@, "www.facebook"@)
            == replaced(url, "web.facebook"@, "www.facebook"@),
        spec_plan(None, Some(replaced(url, "web.facebook"@, "www.facebook"@))) == spec_plan(
            None,
            Some(url),
        ),
{
    reveal_strlit("web.facebook");
    reveal_strlit("www.facebook");
    let f = "web.facebook"@;
    let t = "www.facebook"@;
    assert forall|p: int| 1 <= p < t.len() implies mismatch_within(f, t, p) by {
        if p == 1 {
            assert(t[p + 1] != f[1]);
        } else if p == 2 {
            assert(t[p + 1] != f[1]);
        } else {
            assert(t[p + 0] != f[0]);
        }
    }
    assert(t.subrange(0, f.len() as int)[1] != f[1]);
    law_replace_leaves_none(url, f, t);
    law_replace_absent(replaced(url, f, t), f, t);
}

/// The model of an optional borrowed string.
pub open spec fn view_opt_str(o: Option<&str>) -> Option<Seq<char>> {
    match o {
        Some(s) => Some(s@),
        None => None,
    }
}

/// The API's error answer.
pub fn api_error_body(message: &str) -> (r: Json)
    ensures
        r@ == api_error(message@),
{
    Json::error_object(message, message)
}

/// The URL a request names: the string `url` of its JSON body (when the
/// body is JSON), else its `url` query parameter.
pub fn request_url(body: Option<&Json>, query_url: Option<&str>) -> (r: Option<String>)
    ensures
        view_opt_string(r) == spec_request_url(view_ref(body), view_opt_str(query_url)),
{
    let from_body = match Json::get_in(body, "url") {
        Some(v) => match v.as_str() {
            Some(t) => Some(t.clone()),
            None => None,
        },
        None => None,
    };
    match from_body {
        Some(u) => Some(u),
        None => match query_url {
            Some(q) => Some(String::from_str(q)),
            None => None,
        },
    }
}

/// What the API does with a request: refuse it without a URL or with an
/// unsupported one, else hand the page to its platform's scraper. An error
/// is a URL pattern that the regex crate refused.
pub fn plan(body: Option<&Json>, query_url: Option<&str>) -> (r: Result<Reply, InvalidPattern>)
    ensures
        match r {
            Ok(reply) => spec_plan(view_ref(body), view_opt_str(query_url)) == Ok::<
                ReplyV,
                InvalidPattern,
            >(reply@),
            Err(e) => spec_plan(view_ref(body), view_opt_str(query_url)) == Err::<
                ReplyV,
                InvalidPattern,
            >(e),
        },
{
    match request_url(body, query_url) {
        None => Ok(Reply::Reject { status: 400, body: api_error_body("URL is required") }),
        Some(url) => match Validator::validate(url.as_str()) {
            Err(e) => Err(e),
            Ok(None) => Ok(Reply::Reject { status: 400, body: api_error_body("Unsupported URL") }),
            Ok(Some(p)) => {
                if p == Platform::Facebook {
                    proof {
                        reveal_strlit("web.facebook");
                    }
                    let page = replace_all(url.as_str(), "web.facebook", "www.facebook");
                    Ok(Reply::Scrape(Route { platform: p, target: page }))
                } else if p == Platform::Instagram {
                    proof {
                        law_validate_first_match(url@);
                        assert(regex_compiles(pattern_text(1)));
                    }
                    match Pattern::compile(Validator::pattern(1)) {
                        Ok(pattern) => match pattern.capture(url.as_str(), 2) {
                            Some(code) => Ok(Reply::Scrape(Route { platform: p, target: code })),
                            None => Ok(
                                Reply::Reject { status: 400, body: api_error_body("Unsupported URL") },
                            ),
                        },
                        Err(_) => Ok(
                            Reply::Reject { status: 400, body: api_error_body("Unsupported URL") },
                        ),
                    }
                } else {
                    Ok(Reply::Scrape(Route { platform: p, target: url }))
                }
            },
        },
    }
}

/// The media URL of one entry of a scraper's answer: its string `address`,
/// or that of the one object it holds (as TikTok's "quality_i" and
/// "image_i" entries do).
pub open spec fn entry_url(e: JsonV) -> Option<Seq<char>> {
    match e.field("address"@) {
        Some(a) => a.text(),
        None => if members(e).len() == 1 {
            opt_text(members(e)[0].1.field("address"@))
        } else {
            None
        },
    }
}

/// The URLs, as strings, of the first `n` entries of `s` that have one.
pub open spec fn urls_upto(s: Seq<JsonV>, n: int) -> Seq<JsonV>
    decreases n,
{
    if n <= 0 || n > s.len() {
        Seq::empty()
    } else {
        let before = urls_upto(s, n - 1);
        match entry_url(s[n - 1]) {
            Some(u) => before.push(jstr(u)),
            None => before,
        }
    }
}

/// The media URLs listed under `key` of a scraper's answer.
pub open spec fn urls_under(shaped: JsonV, key: Seq<char>) -> Seq<JsonV> {
    match opt_items(shaped.field(key)) {
        Some(s) => urls_upto(s, s.len() as int),
        None => Seq::empty(),
    }
}

/// All media URLs of a scraper's answer: its media, videos and images.
pub open spec fn media_urls(shaped: JsonV) -> Seq<JsonV> {
    urls_under(shaped, "media"@) + urls_under(shaped, "videos"@) + urls_under(shaped, "images"@)
}

/// The API's success answer: the media URLs, how many there are, and the
/// platform.
pub open spec fn success_body(platform: Platform, shaped: JsonV) -> JsonV {
    JsonV::Object(
        seq![
            ("data"@, JsonV::Array(media_urls(shaped))),
            ("total"@, JsonV::Number(decimal(media_urls(shaped).len()))),
            ("platform"@, jstr(platform_name(platform))),
        ],
    )
}

/// What the API answers for a scraper's answer with its status: a success
/// in the documented form, a failure as the scraper gave it.
pub open spec fn spec_respond(platform: Platform, shaped: JsonV, status: u16) -> (JsonV, u16) {
    if status == 200 {
        (success_body(platform, shaped), 200)
    } else {
        (shaped, status)
    }
}

/// A success answer lists media URLs, all strings, says how many under
/// "total", and names the platform; other answers pass unchanged.
pub proof fn law_success_answer_format(platform: Platform, shaped: JsonV, status: u16)
    ensures
        status != 200 ==> spec_respond(platform, shaped, status) == (shaped, status),
        status == 200 ==> {
            let body = spec_respond(platform, shaped, status).0;
            &&& spec_respond(platform, shaped, status).1 == 200
            &&& body.field("data"@) == Some(JsonV::Array(media_urls(shaped)))
            &&& body.field("total"@) == Some(JsonV::Number(decimal(media_urls(shaped).len())))
            &&& body.field("platform"@) == Some(jstr(platform_name(platform)))
            &&& forall|i: int|
                0 <= i < media_urls(shaped).len() ==> #[trigger] media_urls(shaped)[i] is Str
        },
{
    reveal_strlit("data");
    reveal_strlit("total");
    reveal_strlit("platform");
    let m = members(success_body(platform, shaped));
    assert("data"@.len() == 4);
    assert("total"@.len() == 5);
    assert("platform"@.len() == 8);
    assert(m[0].0 == "data"@);
    assert(m[1].0 == "total"@);
    assert(m[0].0 != "total"@);
    assert(m[0].0 != "platform"@);
    assert(m[1].0 != "platform"@);
    lemma_lookup_first(m, "total"@, 1, 0);
    lemma_lookup_first(m, "platform"@, 2, 0);
    lemma_urls_are_strings(shaped);
}

proof fn lemma_urls_upto_strings(s: Seq<JsonV>, n: int)
    ensures
        forall|i: int| 0 <= i < urls_upto(s, n).len() ==> #[trigger] urls_upto(s, n)[i] is Str,
    decreases n,
{
    if n > 0 && n <= s.len() {
        lemma_urls_upto_strings(s, n - 1);
    }
}

proof fn lemma_urls_are_strings(shaped: JsonV)
    ensures
        forall|i: int| 0 <= i < media_urls(shaped).len() ==> #[trigger] media_urls(shaped)[i] is Str,
{
    let a = urls_under(shaped, "media"@);
    let b = urls_under(shaped, "videos"@);
    let c = urls_under(shaped, "images"@);
    match opt_items(shaped.field("media"@)) {
        Some(s) => lemma_urls_upto_strings(s, s.len() as int),
        None => {},
    }
    match opt_items(shaped.field("videos"@)) {
        Some(s) => lemma_urls_upto_strings(s, s.len() as int),
        None => {},
    }
    match opt_items(shaped.field("images"@)) {
        Some(s) => lemma_urls_upto_strings(s, s.len() as int),
        None => {},
    }
    assert forall|i: int| 0 <= i < media_urls(shaped).len() implies #[trigger] media_urls(
        shaped,
    )[i] is Str by {
        if i < a.len() {
            assert(media_urls(shaped)[i] == a[i]);
        } else if i < a.len() + b.len() {
            assert(media_urls(shaped)[i] == b[i - a.len()]);
        } else {
            assert(media_urls(shaped)[i] == c[i - a.len() - b.len()]);
        }
    }
}

/// The service's error shape: `error` is true, and there is a message and
/// an error message.
pub open spec fn is_error_answer(body: JsonV) -> bool {
    &&& body.field("error"@) == Some(JsonV::Bool(true))
    &&& body.field("message"@) is Some
    &&& body.field("error_message"@) is Some
}

/// Every answer of the API, whichever the platform, is either a success in
/// the documented form with status 200, or the service's error shape with
/// status 400 (a refused request) or 502 (a failed scrape).
pub proof fn law_consistent_answers(
    body: Option<JsonV>,
    query_url: Option<Seq<char>>,
    instagram_reply: JsonV,
    tiktok_fetch: Result<JsonV, Seq<char>>,
)
    ensures
        spec_plan(body, query_url) matches Ok(ReplyV::Reject(status, answer)) ==> status == 400
            && is_error_answer(answer),
        ({
            let (shaped, status) = ig_answer(instagram_reply, true);
            let (answer, code) = spec_respond(Platform::Instagram, shaped, status);
            (code == 200 && answer == success_body(Platform::Instagram, shaped)) || (code == 502
                && is_error_answer(answer))
        }),
        ({
            let (shaped, status) = tt_finish(tiktok_fetch, true);
            let (answer, code) = spec_respond(Platform::TikTok, shaped, status);
            (code == 200 && answer == success_body(Platform::TikTok, shaped)) || (code == 502
                && is_error_answer(answer))
        }),
{
    law_refusals_share_error_shape(body, query_url);
    law_instagram_answer_shape(instagram_reply, true);
    match tiktok_fetch {
        Ok(d) => law_tiktok_answer_shape(d, true),
        Err(e) => law_fetch_failure_answer(e, true),
    }
}

proof fn lemma_urls_upto_contains(s: Seq<JsonV>, n: int, i: int, u: Seq<char>)
    requires
        0 <= i < n <= s.len(),
        entry_url(s[i]) == Some(u),
    ensures
        urls_upto(s, n).contains(jstr(u)),
    decreases n,
{
    let before = urls_upto(s, n - 1);
    if i < n - 1 {
        lemma_urls_upto_contains(s, n - 1, i, u);
        let k = choose|k: int| 0 <= k < before.len() && before[k] == jstr(u);
        match entry_url(s[n - 1]) {
            Some(v) => assert(before.push(jstr(v))[k] == jstr(u)),
            None => {},
        }
    } else {
        assert(before.push(jstr(u))[before.len() as int] == jstr(u));
    }
}

/// Every address listed in a scraper's success answer, whether under
/// "media", "videos" or "images", and whether given directly or inside the
/// entry's one object (as TikTok's "quality_i" and "image_i" entries do),
/// is reported among the answer's "data".
pub proof fn law_every_listed_address_is_reported(
    platform: Platform,
    shaped: JsonV,
    key: Seq<char>,
    entries: Seq<JsonV>,
    i: int,
    u: Seq<char>,
)
    requires
        key == "media"@ || key == "videos"@ || key == "images"@,
        shaped.field(key) == Some(JsonV::Array(entries)),
        0 <= i < entries.len(),
        entries[i].field("address"@) == Some(jstr(u)) || (entries[i].field("address"@) is None
            && members(entries[i]).len() == 1 && members(entries[i])[0].1.field("address"@)
            == Some(jstr(u))),
    ensures
        spec_respond(platform, shaped, 200).1 == 200,
        spec_respond(platform, shaped, 200).0.field("data"@) matches Some(JsonV::Array(d)) && d.contains(
            jstr(u),
        ),
{
    assert(entry_url(entries[i]) == Some(u));
    lemma_urls_upto_contains(entries, entries.len() as int, i, u);
    let a = urls_under(shaped, "media"@);
    let b = urls_under(shaped, "videos"@);
    let c = urls_under(shaped, "images"@);
    let all = media_urls(shaped);
    assert(all == a + b + c);
    if key == "media"@ {
        let k = choose|k: int| 0 <= k < a.len() && a[k] == jstr(u);
        assert(all[k] == jstr(u));
    } else if key == "videos"@ {
        let k = choose|k: int| 0 <= k < b.len() && b[k] == jstr(u);
        assert(all[a.len() + k] == jstr(u));
    } else {
        let k = choose|k: int| 0 <= k < c.len() && c[k] == jstr(u);
        assert(all[a.len() + b.len() + k] == jstr(u));
    }
}

/// The string text of an optional value.
fn text_of(o: Option<&Json>) -> (r: Option<String>)
    ensures
        view_opt_string(r) == opt_text(view_ref(o)),
{
    match o {
        Some(v) => match v.as_str() {
            Some(t) => Some(t.clone()),
            None => None,
        },
        None => None,
    }
}

/// The media URL of one entry of a scraper's answer.
pub fn entry_url_exec(e: &Json) -> (r: Option<String>)
    ensures
        view_opt_string(r) == entry_url(e@),
{
    match e.get("address") {
        Some(a) => text_of(Some(a)),
        None => match e {
            Json::Object(m) => {
                if m.len() == 1 {
                    assert(members(e@)[0].1 == view_json(m@[0].1));
                    text_of(m[0].1.get("address"))
                } else {
                    None
                }
            },
            _ => None,
        },
    }
}

/// Appends the URLs of the entries listed under `key` of `shaped`.
fn push_urls_under(out: &mut Vec<Json>, shaped: &Json, key: &str)
    ensures
        view_items(final(out)@) == view_items(old(out)@) + urls_under(shaped@, key@),
{
    let ghost start = view_items(out@);
    match Json::array_in(shaped.get(key)) {
        Some(entries) => {
            let ghost ev = view_items(entries@);
            let mut i: usize = 0;
            assert(start + urls_upto(ev, 0) =~= start);
            while i < entries.len()
                invariant
                    i <= entries@.len(),
                    ev == view_items(entries@),
                    view_items(out@) == start + urls_upto(ev, i as int),
                decreases entries@.len() - i,
            {
                assert(ev[i as int] == view_json(entries@[i as int]));
                match entry_url_exec(&entries[i]) {
                    Some(u) => {
                        let item = Json::Str(u);
                        proof {
                            lemma_view_items_push(out@, item);
                        }
                        out.push(item);
                        assert(view_items(out@) =~= start + urls_upto(ev, i + 1));
                    },
                    None => {},
                }
                i += 1;
            }
        },
        None => {
            assert(view_items(out@) =~= start + Seq::<JsonV>::empty());
        },
    }
}

/// What the API answers for a scraper's answer `shaped` with its status:
/// a success is given in the documented form (the media URLs, their
/// number and the platform), a failure as the scraper gave it.
pub fn respond(platform: Platform, shaped: Json, status: u16) -> (r: (Json, u16))
    ensures
        (r.0@, r.1) == spec_respond(platform, shaped@, status),
{
    if status != 200 {
        return (shaped, status);
    }
    let mut urls: Vec<Json> = Vec::new();
    assert(view_items(urls@) =~= Seq::<JsonV>::empty());
    push_urls_under(&mut urls, &shaped, "media");
    push_urls_under(&mut urls, &shaped, "videos");
    push_urls_under(&mut urls, &shaped, "images");
    assert(view_items(urls@) =~= media_urls(shaped@));
    let count = urls.len();
    proof {
        reveal_strlit("");
        assert(view_items(urls@).len() == urls@.len());
    }
    let total = with_number("", count);
    assert(total@ =~= decimal(media_urls(shaped@).len()));
    let body = Json::object().with("data", Json::Array(urls)).with("total", Json::Number(total)).with(
        "platform",
        Json::text(platform.name()),
    );
    assert(members(body@) =~= members(success_body(platform, shaped@)));
    (body, 200)
}

} // verus!
