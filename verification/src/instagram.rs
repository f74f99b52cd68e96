//! Instagram posts: the GraphQL request that asks for a post, and the
//! reshaping of the answer into the service's media description.

use vstd::prelude::*;
use crate::json::{
    error_object, jstr, jzero, law_error_object_fields, lemma_lookup_first, law_read_after_write, law_write_keeps_other_members,
    lemma_view_items_push, members, na, opt_field, opt_first, opt_items, opt_last, or_default,
    view_items, view_json, with_member, Json, JsonV,
};
use crate::text::concat_str;

verus! {

#[verifier::external_type_specification]
#[verifier::external_body]
pub struct ExClient(reqwest::Client);

/// A request for one Instagram post, named by its shortcode.
pub struct Instagram {
    /// The HTTP client the request goes through.
    pub client: reqwest::Client,
    /// The post's shortcode.
    pub item_id: String,
    /// Whether the answer is reshaped (`true`) or handed back whole.
    pub cut: bool,
}

/// The post inside a GraphQL answer.
pub open spec fn ig_item(data: JsonV) -> Option<JsonV> {
    opt_field(data.field("data"@), "xdt_shortcode_media"@)
}

/// `key` of the value, or `default` when it has none.
pub open spec fn field_or(j: JsonV, key: Seq<char>, default: JsonV) -> JsonV {
    or_default(j.field(key), default)
}

/// The caption: the text of the first caption edge, or "no desc".
pub open spec fn ig_desc(item: JsonV) -> JsonV {
    or_default(
        opt_field(
            opt_field(
                opt_first(opt_items(opt_field(item.field("edge_media_to_caption"@), "edges"@))),
                "node"@,
            ),
            "text"@,
        ),
        jstr("no desc"@),
    )
}

/// The cover: the source of the last display resource when the post lists
/// any, else its thumbnail.
pub open spec fn ig_cover(item: JsonV) -> JsonV {
    match opt_last(opt_items(item.field("display_resources"@))) {
        Some(last) => field_or(last, "src"@, na()),
        None => field_or(item, "thumbnail_src"@, na()),
    }
}

pub open spec fn ig_content(item: JsonV) -> JsonV {
    JsonV::Object(
        seq![
            ("id"@, field_or(item, "id"@, na())),
            ("shortcode"@, field_or(item, "shortcode"@, na())),
            ("likes"@, or_default(opt_field(item.field("edge_media_preview_like"@), "count"@), jzero())),
            ("desc"@, ig_desc(item)),
            ("cover"@, ig_cover(item)),
            ("is_video"@, field_or(item, "is_video"@, JsonV::Bool(false))),
        ],
    )
}

/// `key` of the post's owner, or `default`.
pub open spec fn owner_or(item: JsonV, key: Seq<char>, default: JsonV) -> JsonV {
    or_default(opt_field(item.field("owner"@), key), default)
}

/// A count inside the post's owner, or zero.
pub open spec fn owner_count(item: JsonV, key: Seq<char>) -> JsonV {
    or_default(opt_field(opt_field(item.field("owner"@), key), "count"@), jzero())
}

pub open spec fn ig_author(item: JsonV) -> JsonV {
    JsonV::Object(
        seq![
            ("name"@, owner_or(item, "full_name"@, na())),
            ("username"@, owner_or(item, "username"@, na())),
            ("verified"@, owner_or(item, "is_verified"@, JsonV::Bool(false))),
            ("image"@, owner_or(item, "profile_pic_url"@, na())),
            ("videos"@, owner_count(item, "edge_owner_to_timeline_media"@)),
            ("followers"@, owner_count(item, "edge_followed_by"@)),
        ],
    )
}

/// Where a carousel entry's media lives: its video when it has one, else
/// the source of its last display resource, else its display URL.
pub open spec fn ig_node_address(node: JsonV) -> JsonV {
    let display = field_or(node, "display_url"@, na());
    match node.field("video_url"@) {
        Some(video) => video,
        None => match opt_last(opt_items(node.field("display_resources"@))) {
            Some(last) => field_or(last, "src"@, display),
            None => display,
        },
    }
}

/// The description of one carousel entry.
pub open spec fn ig_node_item(node: JsonV) -> JsonV {
    let base = seq![
        ("id"@, field_or(node, "id"@, na())),
        ("shortcode"@, field_or(node, "shortcode"@, na())),
        ("address"@, ig_node_address(node)),
        ("cover"@, field_or(node, "display_url"@, na())),
        ("is_video"@, JsonV::Bool(node.field("video_url"@) is Some)),
    ];
    match node.field("video_url"@) {
        Some(_) => JsonV::Object(
            base.push(("play"@, field_or(node, "video_play_count"@, jzero()))).push(
                ("views"@, field_or(node, "video_view_count"@, jzero())),
            ),
        ),
        None => JsonV::Object(base),
    }
}

/// The descriptions of the first `n` carousel edges that hold a node.
pub open spec fn ig_sidecar_media(edges: Seq<JsonV>, n: int) -> Seq<JsonV>
    decreases n,
{
    if n <= 0 || n > edges.len() {
        Seq::empty()
    } else {
        let before = ig_sidecar_media(edges, n - 1);
        match edges[n - 1].field("node"@) {
            Some(node) => before.push(ig_node_item(node)),
            None => before,
        }
    }
}

/// The description of a post that is a single video.
pub open spec fn ig_single_video(item: JsonV, video: JsonV) -> JsonV {
    JsonV::Object(
        seq![
            ("id"@, field_or(item, "id"@, na())),
            ("shortcode"@, field_or(item, "shortcode"@, na())),
            ("address"@, video),
            ("is_video"@, field_or(item, "is_video"@, JsonV::Bool(false))),
            ("cover"@, field_or(item, "display_url"@, na())),
        ],
    )
}

/// The description of a post that is a single image: where the image
/// lives is the source of its last display resource, else its display URL.
pub open spec fn ig_single_image(item: JsonV) -> JsonV {
    JsonV::Object(
        seq![
            ("id"@, field_or(item, "id"@, na())),
            ("shortcode"@, field_or(item, "shortcode"@, na())),
            ("address"@, ig_node_address(item)),
            ("is_video"@, JsonV::Bool(false)),
            ("cover"@, field_or(item, "display_url"@, na())),
        ],
    )
}

/// The post shows an image: it has a display URL or display resources.
pub open spec fn ig_has_image(item: JsonV) -> bool {
    item.field("display_url"@) is Some || opt_last(opt_items(item.field("display_resources"@))) is Some
}

/// The media of a post: one entry per carousel node, else its single video,
/// else its single image, else none.
pub open spec fn ig_media(item: JsonV) -> Seq<JsonV> {
    match opt_items(opt_field(item.field("edge_sidecar_to_children"@), "edges"@)) {
        Some(edges) => ig_sidecar_media(edges, edges.len() as int),
        None => match item.field("video_url"@) {
            Some(video) => seq![ig_single_video(item, video)],
            None => if ig_has_image(item) {
                seq![ig_single_image(item)]
            } else {
                Seq::empty()
            },
        },
    }
}

/// The service's description of a post.
pub open spec fn ig_result(item: JsonV) -> JsonV {
    JsonV::Object(
        seq![
            ("platform"@, jstr("instagram"@)),
            ("content"@, ig_content(item)),
            ("author"@, ig_author(item)),
            ("media"@, JsonV::Array(ig_media(item))),
        ],
    )
}

/// The service's error answer with `message` as both messages.
pub open spec fn ig_error(message: Seq<char>) -> (JsonV, u16) {
    (error_object(message, message), 502)
}

/// What the service answers for a GraphQL answer `data` (marked with its
/// platform), with its HTTP status. A reply that is neither an object nor
/// `null` cannot be marked and is an error.
pub open spec fn ig_answer(data: JsonV, cut: bool) -> (JsonV, u16) {
    if !(data is Object || data is Null) {
        ig_error("Unexpected reply: not a JSON object"@)
    } else {
        let marked = with_member(data, "platform"@, jstr("instagram"@));
        if !cut {
            (marked, 200)
        } else {
            match ig_item(marked) {
                Some(item) => (ig_result(item), 200),
                None => ig_error("Item not found"@),
            }
        }
    }
}

/// The form fields of the GraphQL query for the post `item_id`.
pub open spec fn ig_form(item_id: Seq<char>) -> Seq<(Seq<char>, Seq<char>)> {
    seq![
        ("av"@, "0"@),
        ("__d"@, "www"@),
        ("__user"@, "0"@),
        ("__a"@, "1"@),
        ("__req"@, "a"@),
        ("__hs"@, "20229.HYP:instagram_web_pkg.2.1...0"@),
        ("dpr"@, "1"@),
        ("__ccg"@, "GOOD"@),
        ("__rev"@, "1023049274"@),
        ("__comet_req"@, "7"@),
        ("lsd"@, "AVqQ3As1H7g"@),
        ("jazoest"@, "2855"@),
        ("__spin_r"@, "1023049274"@),
        ("__spin_b"@, "trunk"@),
        ("__spin_t"@, "1747835843"@),
        ("fb_api_caller_class"@, "RelayModern"@),
        ("fb_api_req_friendly_name"@, "PolarisPostActionLoadPostQueryQuery"@),
        ("variables"@, "{\"shortcode\":\""@ + item_id
            + "\",\"fetch_tagged_user_count\":null,\"hoisted_comment_id\":null,\"hoisted_reply_id\":null}"@),
        ("server_timestamps"@, "true"@),
        ("doc_id"@, "9510064595728286"@),
    ]
}

/// The model of a list of string pairs.
pub open spec fn view_pairs(v: Seq<(String, String)>) -> Seq<(Seq<char>, Seq<char>)> {
    Seq::new(v.len(), |i: int| (v[i].0@, v[i].1@))
}

/// The model of a list of static string pairs.
pub open spec fn view_static_pairs(v: Seq<(&'static str, &'static str)>) -> Seq<(Seq<char>, Seq<char>)> {
    Seq::new(v.len(), |i: int| (v[i].0@, v[i].1@))
}

/// The headers of the GraphQL request, by name as a header map holds them.
pub open spec fn ig_headers() -> Seq<(Seq<char>, Seq<char>)> {
    seq![
        ("accept"@, "*/*"@),
        ("accept-language"@, "en-US,en;q=0.9"@),
        ("content-type"@, "application/x-www-form-urlencoded"@),
        ("user-agent"@, "Mozilla/5.0 (Windows NT 10.0; Win64; x64) AppleWebKit/537.36 (KHTML, like Gecko) Chrome/136.0.0.0 Safari/537.36 Edg/136.0.0.0"@),
        ("origin"@, "https://www.instagram.com"@),
        ("referer"@, "https://www.instagram.com"@),
        ("x-csrftoken"@, "11111111111"@),
    ]
}

fn push_pair(v: &mut Vec<(String, String)>, k: &str, val: &str)
    ensures
        view_pairs(final(v)@) == view_pairs(old(v)@).push((k@, val@)),
{
    let ghost before = v@;
    v.push((String::from_str(k), String::from_str(val)));
    assert(view_pairs(v@) =~= view_pairs(before).push((k@, val@)));
}

impl Instagram {
    /// A request for the post `item_id`, sent through `client`.
    pub fn new(client: reqwest::Client, item_id: String, cut: bool) -> (r: Instagram)
        ensures
            r.client == client,
            r.item_id == item_id,
            r.cut == cut,
    {
        Instagram { client, item_id, cut }
    }

    /// The GraphQL endpoint.
    pub fn graphql() -> (r: &'static str)
        ensures
            r@ == "https://www.instagram.com/graphql/query/"@,
    {
        "https://www.instagram.com/graphql/query/"
    }

    /// The headers the GraphQL request carries.
    pub fn headers() -> (r: Vec<(&'static str, &'static str)>)
        ensures
            view_static_pairs(r@) == ig_headers(),
    {
        let mut h: Vec<(&'static str, &'static str)> = Vec::new();
        h.push(("accept", "*/*"));
        h.push(("accept-language", "en-US,en;q=0.9"));
        h.push(("content-type", "application/x-www-form-urlencoded"));
        h.push(
            (
                "user-agent",
                "Mozilla/5.0 (Windows NT 10.0; Win64; x64) AppleWebKit/537.36 (KHTML, like Gecko) Chrome/136.0.0.0 Safari/537.36 Edg/136.0.0.0",
            ),
        );
        h.push(("origin", "https://www.instagram.com"));
        h.push(("referer", "https://www.instagram.com"));
        h.push(("x-csrftoken", "11111111111"));
        assert(view_static_pairs(h@) =~= ig_headers());
        h
    }

    /// The form fields of the GraphQL query for this post.
    pub fn form_data(&self) -> (r: Vec<(String, String)>)
        ensures
            view_pairs(r@) == ig_form(self.item_id@),
    {
        let mut f: Vec<(String, String)> = Vec::new();
        push_pair(&mut f, "av", "0");
        push_pair(&mut f, "__d", "www");
        push_pair(&mut f, "__user", "0");
        push_pair(&mut f, "__a", "1");
        push_pair(&mut f, "__req", "a");
        push_pair(&mut f, "__hs", "20229.HYP:instagram_web_pkg.2.1...0");
        push_pair(&mut f, "dpr", "1");
        push_pair(&mut f, "__ccg", "GOOD");
        push_pair(&mut f, "__rev", "1023049274");
        push_pair(&mut f, "__comet_req", "7");
        push_pair(&mut f, "lsd", "AVqQ3As1H7g");
        push_pair(&mut f, "jazoest", "2855");
        push_pair(&mut f, "__spin_r", "1023049274");
        push_pair(&mut f, "__spin_b", "trunk");
        push_pair(&mut f, "__spin_t", "1747835843");
        push_pair(&mut f, "fb_api_caller_class", "RelayModern");
        push_pair(&mut f, "fb_api_req_friendly_name", "PolarisPostActionLoadPostQueryQuery");
        let head = concat_str("{\"shortcode\":\"", self.item_id.as_str());
        let variables = concat_str(
            head.as_str(),
            "\",\"fetch_tagged_user_count\":null,\"hoisted_comment_id\":null,\"hoisted_reply_id\":null}",
        );
        push_pair(&mut f, "variables", variables.as_str());
        push_pair(&mut f, "server_timestamps", "true");
        push_pair(&mut f, "doc_id", "9510064595728286");
        assert(view_pairs(f@) =~= ig_form(self.item_id@));
        f
    }

    /// The answer when the request could not be sent.
    pub fn request_failed(detail: &str) -> (r: (Json, u16))
        ensures
            (r.0@, r.1) == ig_error("Request failed: "@ + detail@),
    {
        let m = concat_str("Request failed: ", detail);
        (Json::error_object(m.as_str(), m.as_str()), 502)
    }

    /// The answer when the reply was not JSON.
    pub fn parse_failed(detail: &str) -> (r: (Json, u16))
        ensures
            (r.0@, r.1) == ig_error("JSON parse failed: "@ + detail@),
    {
        let m = concat_str("JSON parse failed: ", detail);
        (Json::error_object(m.as_str(), m.as_str()), 502)
    }
}

/// Every Instagram answer has status 200 or 502; a 200 answer reads
/// "instagram" under "platform", the uncut one too, which otherwise reads as
/// the data did; a 502 answer is the service's error object, with `error`
/// true and the same message as message and error message.
pub proof fn law_instagram_answer_shape(data: JsonV, cut: bool)
    ensures
        ig_answer(data, cut).1 == 200 || ig_answer(data, cut).1 == 502,
        ig_answer(data, cut).1 == 200 ==> ig_answer(data, cut).0.field("platform"@) == Some(
            jstr("instagram"@),
        ),
        ig_answer(data, cut).1 == 502 ==> {
            &&& ig_answer(data, cut).0.field("error"@) == Some(JsonV::Bool(true))
            &&& ig_answer(data, cut).0.field("message"@) is Some
            &&& ig_answer(data, cut).0.field("message"@) == ig_answer(data, cut).0.field(
                "error_message"@,
            )
        },
        !cut && (data is Object || data is Null) ==> forall|k: Seq<char>|
            k != "platform"@ ==> #[trigger] ig_answer(data, cut).0.field(k) == data.field(k),
{
    law_error_object_fields("Unexpected reply: not a JSON object"@, "Unexpected reply: not a JSON object"@);
    law_error_object_fields("Item not found"@, "Item not found"@);
    if data is Object || data is Null {
        law_read_after_write(data, "platform"@, jstr("instagram"@));
        assert forall|k: Seq<char>| k != "platform"@ implies #[trigger] with_member(
            data,
            "platform"@,
            jstr("instagram"@),
        ).field(k) == data.field(k) by {
            law_write_keeps_other_members(data, "platform"@, jstr("instagram"@), k);
        }
    }
}

/// Failing requests are answered with status 502 and the service's error
/// object, with `error` true and the same message as message and error
/// message.
pub proof fn law_instagram_failures(detail: Seq<char>)
    ensures
        ig_error("Request failed: "@ + detail).0.field("error"@) == Some(JsonV::Bool(true)),
        ig_error("Request failed: "@ + detail).0.field("message"@) == Some(jstr("Request failed: "@ + detail)),
        ig_error("Request failed: "@ + detail).0.field("error_message"@) == Some(jstr("Request failed: "@ + detail)),
        ig_error("JSON parse failed: "@ + detail).0.field("error"@) == Some(JsonV::Bool(true)),
        ig_error("JSON parse failed: "@ + detail).0.field("message"@) == Some(jstr("JSON parse failed: "@ + detail)),
        ig_error("JSON parse failed: "@ + detail).0.field("error_message"@) == Some(jstr("JSON parse failed: "@ + detail)),
{
    law_error_object_fields("Request failed: "@ + detail, "Request failed: "@ + detail);
    law_error_object_fields("JSON parse failed: "@ + detail, "JSON parse failed: "@ + detail);
}

/// A reshaped Instagram post says in its content whether it is a video as
/// the post itself does (its own "is_video"), and not a video when the post
/// does not say; its id and shortcode are the post's own ("N/A" when
/// missing), and its likes are the post's like count (zero when missing).
pub proof fn law_instagram_is_video(data: JsonV, item: JsonV)
    requires
        data is Object,
        opt_field(data.field("data"@), "xdt_shortcode_media"@) == Some(item),
    ensures
        ig_answer(data, true).1 == 200,
        opt_field(ig_answer(data, true).0.field("content"@), "is_video"@) == Some(
            or_default(item.field("is_video"@), JsonV::Bool(false)),
        ),
        opt_field(ig_answer(data, true).0.field("content"@), "id"@) == Some(
            or_default(item.field("id"@), jstr("N/A"@)),
        ),
        opt_field(ig_answer(data, true).0.field("content"@), "shortcode"@) == Some(
            or_default(item.field("shortcode"@), jstr("N/A"@)),
        ),
        opt_field(ig_answer(data, true).0.field("content"@), "likes"@) == Some(
            or_default(
                opt_field(item.field("edge_media_preview_like"@), "count"@),
                JsonV::Number(seq!['0']),
            ),
        ),
{
    reveal_strlit("data");
    reveal_strlit("platform");
    reveal_strlit("content");
    reveal_strlit("id");
    reveal_strlit("shortcode");
    reveal_strlit("likes");
    reveal_strlit("desc");
    reveal_strlit("cover");
    reveal_strlit("is_video");
    assert("data"@.len() == 4 && "platform"@.len() == 8 && "content"@.len() == 7);
    assert("id"@.len() == 2 && "shortcode"@.len() == 9 && "likes"@.len() == 5);
    assert("desc"@.len() == 4 && "cover"@.len() == 5 && "is_video"@.len() == 8);
    law_write_keeps_other_members(data, "platform"@, jstr("instagram"@), "data"@);
    let answer = ig_answer(data, true).0;
    let top = members(answer);
    assert(top[0].0 != "content"@ && top[1].0 == "content"@);
    lemma_lookup_first(top, "content"@, 1, 0);
    let c = members(top[1].1);
    assert(c[0].0 != "is_video"@ && c[1].0 != "is_video"@ && c[2].0 != "is_video"@);
    assert(c[3].0 != "is_video"@ && c[4].0 != "is_video"@ && c[5].0 == "is_video"@);
    lemma_lookup_first(c, "is_video"@, 5, 0);
    lemma_lookup_first(c, "id"@, 0, 0);
    assert(c[0].0 != "shortcode"@ && c[1].0 == "shortcode"@);
    lemma_lookup_first(c, "shortcode"@, 1, 0);
    assert(c[0].0 != "likes"@ && c[1].0 != "likes"@ && c[2].0 == "likes"@);
    lemma_lookup_first(c, "likes"@, 2, 0);
}

/// A carousel gives at most one media entry per edge, and exactly one for
/// each edge that holds a node.
pub proof fn law_instagram_one_entry_per_node(edges: Seq<JsonV>, n: int)
    requires
        0 <= n <= edges.len(),
    ensures
        ig_sidecar_media(edges, n).len() <= n,
        ig_sidecar_media(edges, n).len() == edges.take(n).filter(
            |e: JsonV| e.field("node"@) is Some,
        ).len(),
    decreases n,
{
    reveal_with_fuel(Seq::filter, 1);
    if n > 0 {
        law_instagram_one_entry_per_node(edges, n - 1);
        assert(edges.take(n).drop_last() =~= edges.take(n - 1));
    }
}

/// `key` of `j`, or `default` when it has none.
pub fn field_or_exec(j: &Json, key: &str, default: Json) -> (r: Json)
    ensures
        r@ == field_or(j@, key@, default@),
{
    Json::value_or(j.get(key), default)
}

impl Instagram {
    fn desc(item: &Json) -> (r: Json)
        ensures
            r@ == ig_desc(item@),
    {
        let edges = Json::array_in(Json::get_in(item.get("edge_media_to_caption"), "edges"));
        let node = Json::get_in(Json::first_in(edges), "node");
        Json::value_or(Json::get_in(node, "text"), Json::text("no desc"))
    }

    fn cover(item: &Json) -> (r: Json)
        ensures
            r@ == ig_cover(item@),
    {
        match Json::last_in(Json::array_in(item.get("display_resources"))) {
            Some(last) => field_or_exec(last, "src", Json::na()),
            None => field_or_exec(item, "thumbnail_src", Json::na()),
        }
    }

    fn content(item: &Json) -> (r: Json)
        ensures
            r@ == ig_content(item@),
    {
        let likes = Json::value_or(
            Json::get_in(item.get("edge_media_preview_like"), "count"),
            Json::zero(),
        );
        let r = Json::object().with("id", field_or_exec(item, "id", Json::na())).with(
            "shortcode",
            field_or_exec(item, "shortcode", Json::na()),
        ).with("likes", likes).with("desc", Self::desc(item)).with(
            "cover",
            Self::cover(item),
        ).with("is_video", field_or_exec(item, "is_video", Json::Bool(false)));
        assert(members(r@) =~= members(ig_content(item@)));
        r
    }

    fn owner_or(item: &Json, key: &str, default: Json) -> (r: Json)
        ensures
            r@ == owner_or(item@, key@, default@),
    {
        Json::value_or(Json::get_in(item.get("owner"), key), default)
    }

    fn owner_count(item: &Json, key: &str) -> (r: Json)
        ensures
            r@ == owner_count(item@, key@),
    {
        Json::value_or(Json::get_in(Json::get_in(item.get("owner"), key), "count"), Json::zero())
    }

    fn author(item: &Json) -> (r: Json)
        ensures
            r@ == ig_author(item@),
    {
        let r = Json::object().with("name", Self::owner_or(item, "full_name", Json::na())).with(
            "username",
            Self::owner_or(item, "username", Json::na()),
        ).with("verified", Self::owner_or(item, "is_verified", Json::Bool(false))).with(
            "image",
            Self::owner_or(item, "profile_pic_url", Json::na()),
        ).with("videos", Self::owner_count(item, "edge_owner_to_timeline_media")).with(
            "followers",
            Self::owner_count(item, "edge_followed_by"),
        );
        assert(members(r@) =~= members(ig_author(item@)));
        r
    }

    fn node_address(node: &Json) -> (r: Json)
        ensures
            r@ == ig_node_address(node@),
    {
        match node.get("video_url") {
            Some(video) => video.deep_clone(),
            None => {
                let display = field_or_exec(node, "display_url", Json::na());
                match Json::last_in(Json::array_in(node.get("display_resources"))) {
                    Some(last) => field_or_exec(last, "src", display),
                    None => display,
                }
            },
        }
    }

    fn node_item(node: &Json) -> (r: Json)
        ensures
            r@ == ig_node_item(node@),
    {
        let is_video = node.get("video_url").is_some();
        let base = Json::object().with("id", field_or_exec(node, "id", Json::na())).with(
            "shortcode",
            field_or_exec(node, "shortcode", Json::na()),
        ).with("address", Self::node_address(node)).with(
            "cover",
            field_or_exec(node, "display_url", Json::na()),
        ).with("is_video", Json::Bool(is_video));
        let r = if is_video {
            base.with("play", field_or_exec(node, "video_play_count", Json::zero())).with(
                "views",
                field_or_exec(node, "video_view_count", Json::zero()),
            )
        } else {
            base
        };
        assert(members(r@) =~= members(ig_node_item(node@)));
        r
    }

    fn single_video(item: &Json, video: &Json) -> (r: Json)
        ensures
            r@ == ig_single_video(item@, video@),
    {
        let r = Json::object().with("id", field_or_exec(item, "id", Json::na())).with(
            "shortcode",
            field_or_exec(item, "shortcode", Json::na()),
        ).with("address", video.deep_clone()).with(
            "is_video",
            field_or_exec(item, "is_video", Json::Bool(false)),
        ).with("cover", field_or_exec(item, "display_url", Json::na()));
        assert(members(r@) =~= members(ig_single_video(item@, video@)));
        r
    }

    fn single_image(item: &Json) -> (r: Json)
        ensures
            r@ == ig_single_image(item@),
    {
        let r = Json::object().with("id", field_or_exec(item, "id", Json::na())).with(
            "shortcode",
            field_or_exec(item, "shortcode", Json::na()),
        ).with("address", Self::node_address(item)).with("is_video", Json::Bool(false)).with(
            "cover",
            field_or_exec(item, "display_url", Json::na()),
        );
        assert(members(r@) =~= members(ig_single_image(item@)));
        r
    }

    fn media(item: &Json) -> (r: Vec<Json>)
        ensures
            view_items(r@) == ig_media(item@),
    {
        let mut out: Vec<Json> = Vec::new();
        match Json::array_in(Json::get_in(item.get("edge_sidecar_to_children"), "edges")) {
            Some(edges) => {
                let ghost ev = view_items(edges@);
                let mut i: usize = 0;
                assert(view_items(out@) =~= ig_sidecar_media(ev, 0));
                while i < edges.len()
                    invariant
                        i <= edges@.len(),
                        ev == view_items(edges@),
                        view_items(out@) == ig_sidecar_media(ev, i as int),
                    decreases edges@.len() - i,
                {
                    assert(ev[i as int] == view_json(edges@[i as int]));
                    match edges[i].get("node") {
                        Some(node) => {
                            let entry = Self::node_item(node);
                            proof {
                                lemma_view_items_push(out@, entry);
                            }
                            out.push(entry);
                        },
                        None => {},
                    }
                    i += 1;
                }
            },
            None => {
                match item.get("video_url") {
                    Some(video) => {
                        let entry = Self::single_video(item, video);
                        out.push(entry);
                        assert(view_items(out@) =~= seq![ig_single_video(item@, video@)]);
                    },
                    None => {
                        let has_image = item.get("display_url").is_some() || Json::last_in(
                            Json::array_in(item.get("display_resources")),
                        ).is_some();
                        if has_image {
                            let entry = Self::single_image(item);
                            out.push(entry);
                            assert(view_items(out@) =~= seq![ig_single_image(item@)]);
                        } else {
                            assert(view_items(out@) =~= Seq::<JsonV>::empty());
                        }
                    },
                }
            },
        }
        out
    }

    fn result(item: &Json) -> (r: Json)
        ensures
            r@ == ig_result(item@),
    {
        let r = Json::object().with("platform", Json::text("instagram")).with(
            "content",
            Self::content(item),
        ).with("author", Self::author(item)).with("media", Json::Array(Self::media(item)));
        assert(members(r@) =~= members(ig_result(item@)));
        r
    }

    /// The service's answer for the GraphQL answer `data`: the answer is
    /// marked with the platform; handed back whole unless `cut`, else the
    /// post is reshaped, or "Item not found" when the answer holds no post.
    /// A reply that is neither an object nor `null` is an error.
    pub fn shape(&self, data: Json) -> (r: (Json, u16))
        ensures
            (r.0@, r.1) == ig_answer(data@, self.cut),
    {
        let markable = match &data {
            Json::Object(_) | Json::Null => true,
            _ => false,
        };
        if !markable {
            let m = "Unexpected reply: not a JSON object";
            return (Json::error_object(m, m), 502);
        }
        let mut data = data;
        data.insert("platform", Json::text("instagram"));
        if !self.cut {
            return (data, 200);
        }
        match Json::get_in(data.get("data"), "xdt_shortcode_media") {
            Some(item) => (Self::result(item), 200),
            None => (Json::error_object("Item not found", "Item not found"), 502),
        }
    }
}

} // verus!
