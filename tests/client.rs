use std::cell::RefCell;

use kitsu_io::builder::Search;
use kitsu_io::request::body_json;
use kitsu_io::json::{string_map_of, JsonValue};
use kitsu_io::model::{AgeRating, AiringStatus, AnimeType, MangaType, Type, WaifuOrHusbando};
use kitsu_io::request::{
    anime_from_answer, anime_from_reply, anime_list_from_reply, item_link, manga_list_from_reply, request_url,
    search_link, user_from_reply, Endpoint,
};
use kitsu_io::{Error, KitsuRequester, Reply, Transport};

struct Stub {
    status: u16,
    body: String,
    seen: RefCell<Vec<String>>,
}

impl Stub {
    fn new(status: u16, body: &str) -> Stub {
        Stub { status, body: body.to_string(), seen: RefCell::new(Vec::new()) }
    }
}

impl Transport for Stub {
    fn get(&self, url: &url::Url) -> Result<Reply, String> {
        self.seen.borrow_mut().push(url.as_str().to_string());
        Ok(Reply { status: self.status, body: self.body.as_bytes().to_vec() })
    }
}

struct Down;

impl Transport for Down {
    fn get(&self, _url: &url::Url) -> Result<Reply, String> {
        Err("connection refused".to_string())
    }
}

fn rel(name: &str) -> String {
    format!(
        "\"{}\":{{\"links\":{{\"self\":\"https://kitsu.io/r/{}\",\"related\":\"https://kitsu.io/x/{}\"}}}}",
        name, name, name
    )
}

fn anime_json(id: &str, age_rating: &str) -> String {
    let rels: Vec<String> = [
        "castings", "episodes", "genres", "installments", "mappings", "reviews", "streamingLinks",
    ]
    .iter()
    .map(|n| rel(n))
    .collect();
    format!(
        "{{\"id\":\"{}\",\"type\":\"anime\",\
            \"links\":{{\"self\":\"https://kitsu.io/api/edge/anime/{}\"}},\
            \"attributes\":{{\"abbreviatedTitles\":[\"NNB\"],\"ageRating\":\"{}\",\
            \"ageRatingGuide\":null,\"canonicalTitle\":\"Non Non Biyori\",\
            \"coverImageTopOffset\":263,\"endDate\":\"2013-12-24\",\"episodeCount\":12,\
            \"showType\":\"TV\",\"nsfw\":false,\
            \"posterImage\":{{\"small\":\"https://img/s.png\",\"original\":\"https://img/o.png\"}},\
            \"ratingFrequencies\":{{\"2.0\":3,\"5.0\":10}},\"slug\":\"non-non-biyori\",\
            \"synopsis\":\"Country life.\",\
            \"titles\":{{\"en\":\"Non Non Biyori\",\"ja_jp\":\"のんのんびより\"}},\
            \"youtubeVideoId\":\"abc123\"}},\
            \"relationships\":{{{}}}}}",
        id,
        id,
        age_rating,
        rels.join(",")
    )
}

fn manga_json(id: &str) -> String {
    format!(
        "{{\"id\":\"{}\",\"type\":\"manga\",\"links\":{{}},\
            \"attributes\":{{\"canonicalTitle\":\"Orange\",\"chapterCount\":22,\
            \"coverImageTopOffset\":60,\"mangaType\":\"manga\",\"posterImage\":{{}},\
            \"ratingFrequencies\":{{}},\"slug\":\"orange\",\"synopsis\":\"Letters.\",\
            \"titles\":{{\"en_jp\":\"Orange\"}}}}}}",
        id
    )
}

fn user_json(id: &str) -> String {
    let rels: Vec<String> = [
        "blocks", "favorites", "followers", "following", "libraryEntries", "pinnedPost",
        "reviews", "userRoles", "waifu",
    ]
    .iter()
    .map(|n| rel(n))
    .collect();
    format!(
        "{{\"id\":\"{}\",\"type\":\"users\",\"links\":{{}},\
            \"attributes\":{{\"about\":\"\",\"commentsCount\":15,\
            \"createdAt\":\"2013-01-01T00:00:00.000Z\",\"favoritesCount\":2,\
            \"feedCompleted\":true,\"followersCount\":12,\"followingCount\":300,\
            \"lifeSpentOnAnime\":550,\"likesGivenCount\":12,\"likesReceivedCount\":45,\
            \"name\":\"vikhyat\",\"pastNames\":[\"old name\",\"older name\"],\"postsCount\":3,\
            \"profileCompleted\":false,\"ratingsCount\":1,\"reviewsCount\":0,\
            \"updatedAt\":\"2013-01-02T00:00:00.000Z\",\"waifuOrHusbando\":\"Waifu\",\
            \"avatar\":{{\"tiny\":\"https://img/t.png\"}}}},\
            \"relationships\":{{{}}}}}",
        id,
        rels.join(",")
    )
}

fn one(data: &str) -> String {
    format!("{{\"data\":{}}}", data)
}

fn many(items: &[String]) -> String {
    format!(
        "{{\"data\":[{}],\"links\":{{\"next\":\"https://kitsu.io/api/edge/anime?page=2\"}}}}",
        items.join(",")
    )
}

#[test]
fn anime() {
    let client = KitsuRequester::new(Stub::new(200, &many(&[anime_json("7711", "PG")])));
    let _ = client
        .search_anime(&Search::new().filter("text", "non non biyori"))
        .expect("nnb");
    let client = KitsuRequester::new(Stub::new(200, &one(&anime_json("7711", "PG"))));
    let _ = client.get_anime(7711).expect("1 res ret");

    // An age rating that is not documented, TV-Y7, is decoded.
    let client = KitsuRequester::new(Stub::new(200, &many(&[anime_json("11", "TV-Y7")])));
    let _ = client
        .search_anime(&Search::new().filter("text", "Avatar"))
        .expect("avatar");
}

#[test]
fn users() {
    let client = KitsuRequester::new(Stub::new(200, &many(&[user_json("1")])));
    let _ = client
        .search_users(&Search::new().filter("query", "Josh"))
        .expect("Josh");
    let client = KitsuRequester::new(Stub::new(200, &one(&user_json("1"))));
    let _ = client.get_user(1).expect("vikhyat");
}

#[test]
fn get_decodes_the_single_resource_and_asks_for_the_item_path() {
    let client = KitsuRequester::new(Stub::new(200, &one(&anime_json("42", "PG"))));
    let r = client.get_anime(42).expect("decoded");
    assert_eq!(r.data.id, "42");
    assert!(r.links.is_empty());
    let seen = client.transport.seen.borrow();
    assert_eq!(seen.len(), 1);
    assert_eq!(seen[0], "https://kitsu.io/api/edge/anime/42");
}

#[test]
fn search_asks_for_the_collection_path_with_the_filter() {
    let link = search_link(Endpoint::Anime, &Search::new().filter("text", "non non biyori"));
    assert_eq!(link, "https://kitsu.io/api/edge/anime?&filter[text]=non non biyori");
    let client = KitsuRequester::new(Stub::new(200, &many(&[anime_json("1", "G")])));
    let r = client
        .search_anime(&Search::new().filter("text", "non non biyori"))
        .expect("decoded");
    assert_eq!(r.data.len(), 1);
    assert_eq!(r.links, vec![(
        "next".to_string(),
        "https://kitsu.io/api/edge/anime?page=2".to_string()
    )]);
    let seen = client.transport.seen.borrow();
    assert!(seen[0].starts_with("https://kitsu.io/api/edge/anime?"));
    assert!(seen[0].contains("filter[text]=non%20non%20biyori"));
    assert!(!seen[0].contains("/anime/"));
}

#[test]
fn item_links() {
    assert_eq!(item_link(Endpoint::Anime, 42), "https://kitsu.io/api/edge/anime/42");
    assert_eq!(item_link(Endpoint::Manga, 0), "https://kitsu.io/api/edge/manga/0");
    assert_eq!(item_link(Endpoint::Users, 1), "https://kitsu.io/api/edge/users/1");
    assert_eq!(
        search_link(Endpoint::Users, &Search::new()),
        "https://kitsu.io/api/edge/users?"
    );
}

#[test]
fn unauthorized_gives_no_value() {
    let client = KitsuRequester::new(Stub::new(401, &one(&anime_json("42", "PG"))));
    assert!(matches!(client.get_anime(42), Err(Error::Unauthorized)));
}

#[test]
fn bad_request_carries_the_body() {
    let r = anime_from_reply(Reply { status: 400, body: b"nope".to_vec() });
    match r {
        Err(Error::BadRequest(b)) => assert_eq!(b, b"nope".to_vec()),
        _ => panic!("expected a bad request"),
    }
}

#[test]
fn other_statuses_are_invalid_responses() {
    let r = anime_from_reply(Reply { status: 500, body: Vec::new() });
    assert!(matches!(r, Err(Error::InvalidResponse(500))));
    let r = anime_from_reply(Reply { status: 404, body: one(&anime_json("1", "G")).into_bytes() });
    assert!(matches!(r, Err(Error::InvalidResponse(404))));
}

#[test]
fn unknown_age_rating_is_a_decode_error() {
    let client = KitsuRequester::new(Stub::new(200, &one(&anime_json("42", "X-99"))));
    match client.get_anime(42) {
        Err(Error::Decode(path)) => assert_eq!(path, "data.attributes.ageRating"),
        _ => panic!("expected a decode error"),
    }
}

#[test]
fn body_that_is_not_json_is_a_json_error() {
    let r = anime_from_reply(Reply { status: 200, body: b"{\"data\":".to_vec() });
    assert!(matches!(r, Err(Error::Json(_))));
}

#[test]
fn missing_member_is_a_decode_error() {
    let r = anime_from_reply(Reply { status: 200, body: b"{\"links\":{}}".to_vec() });
    assert!(matches!(r, Err(Error::Decode(_))));
    let r = anime_list_from_reply(Reply { status: 200, body: one(&anime_json("1", "G")).into_bytes() });
    assert!(matches!(r, Err(Error::Decode(_))));
}

#[test]
fn transport_failure_is_passed_through() {
    let client = KitsuRequester::new(Down);
    match client.get_manga(1) {
        Err(Error::Transport(m)) => assert_eq!(m, "connection refused"),
        _ => panic!("expected a transport error"),
    }
}

#[test]
fn unparsable_url_is_a_url_error() {
    assert!(matches!(request_url("not a url"), Err(Error::Url(_))));
    assert!(request_url("https://kitsu.io/api/edge/anime/1").is_ok());
}

#[test]
fn anime_fields_are_decoded() {
    let r = anime_from_reply(Reply { status: 200, body: one(&anime_json("42", "R17+")).into_bytes() })
        .expect("decoded");
    let a = r.data;
    assert_eq!(a.kind, Type::Anime);
    assert_eq!(a.attributes.age_rating, Some(AgeRating::R17Plus));
    assert_eq!(a.attributes.age_rating_guide, None);
    assert_eq!(a.attributes.kind, AnimeType::TV);
    assert_eq!(a.attributes.cover_image_top_offset, 263);
    assert_eq!(a.attributes.episode_count, Some(12));
    assert_eq!(a.attributes.episode_length, None);
    assert_eq!(a.attributes.abbreviated_titles, Some(vec!["NNB".to_string()]));
    assert_eq!(a.attributes.rating_frequencies.rating_2_0, 3);
    assert_eq!(a.attributes.rating_frequencies.rating_5_0, 10);
    assert_eq!(a.attributes.rating_frequencies.rating_0_5, 0);
    assert_eq!(a.attributes.titles.ja_jp.as_deref(), Some("のんのんびより"));
    assert_eq!(a.attributes.titles.en_jp, None);
    assert_eq!(a.links, vec![(
        "self".to_string(),
        "https://kitsu.io/api/edge/anime/42".to_string()
    )]);
    assert_eq!(a.relationships.streaming_links.links.own, "https://kitsu.io/r/streamingLinks");
    assert_eq!(a.relationships.castings.links.related, "https://kitsu.io/x/castings");
    assert_eq!(a.url(), "https://kitsu.io/anime/non-non-biyori");
    assert_eq!(a.youtube_url().as_deref(), Some("https://www.youtube.com/watch?v=abc123"));
    assert!(a.airing_status() == AiringStatus::Finished);
    assert_eq!(a.attributes.poster_image.largest().map(|s| s.as_str()), Some("https://img/o.png"));
    assert!(a.attributes.cover_image.is_none());
}

#[test]
fn manga_search_is_decoded() {
    let body = many(&[manga_json("5"), manga_json("6")]);
    let r = manga_list_from_reply(Reply { status: 200, body: body.into_bytes() }).expect("decoded");
    assert_eq!(r.data.len(), 2);
    let m = &r.data[1];
    assert_eq!(m.id, "6");
    assert_eq!(m.attributes.kind, MangaType::Manga);
    assert_eq!(m.attributes.chapter_count, Some(22));
    assert_eq!(m.attributes.volume_count, None);
    assert!(m.airing_status() == AiringStatus::Airing);
    assert_eq!(m.url(), "https://kitsu.io/manga/orange");
    assert_eq!(m.youtube_url(), None);
    assert_eq!(m.attributes.poster_image.largest(), None);
}

#[test]
fn user_is_decoded() {
    let r = user_from_reply(Reply { status: 200, body: one(&user_json("1")).into_bytes() })
        .expect("decoded");
    let u = r.data;
    assert_eq!(u.kind, Type::Users);
    assert_eq!(u.attributes.name, "vikhyat");
    assert_eq!(u.attributes.past_names, vec!["old name".to_string(), "older name".to_string()]);
    assert_eq!(u.attributes.waifu_or_husbando, Some(WaifuOrHusbando::Waifu));
    assert!(u.attributes.feed_completed);
    assert_eq!(u.attributes.likes_received_count, 45);
    assert!(u.relationships.linked_profiles.is_none());
    assert_eq!(
        u.attributes.avatar.as_ref().and_then(|i| i.largest()).map(|s| s.as_str()),
        Some("https://img/t.png")
    );
    assert_eq!(u.url(), "https://kitsu.io/users/vikhyat");
}

#[test]
fn integer_out_of_range_is_a_decode_error() {
    let body = one(&anime_json("1", "G")).replace("\"coverImageTopOffset\":263", "\"coverImageTopOffset\":70000");
    let r = anime_from_reply(Reply { status: 200, body: body.into_bytes() });
    assert!(matches!(r, Err(Error::Decode(_))));
    let body = one(&anime_json("1", "G")).replace("\"episodeCount\":12", "\"episodeCount\":-1");
    let r = anime_from_reply(Reply { status: 200, body: body.into_bytes() });
    assert!(matches!(r, Err(Error::Decode(_))));
}

#[test]
fn enum_names() {
    assert_eq!(AgeRating::PG.name().unwrap(), "PG");
    assert_eq!(AgeRating::PG13.name().unwrap(), "PG-13");
    assert_eq!(AgeRating::TvY7.name().unwrap(), "TV-Y7");
    assert_eq!(AnimeType::Movie.name().unwrap(), "movie");
    assert_eq!(AnimeType::TV.name().unwrap(), "TV");
    assert_eq!(MangaType::Novel.name().unwrap(), "novel");
    assert_eq!(Type::Anime.name().unwrap(), "anime");
    assert_eq!(WaifuOrHusbando::Husbando.name().unwrap(), "Husbando");
    assert_eq!(AiringStatus::Airing.name(), "airing");
    assert_eq!(AiringStatus::Finished.name(), "finished");
}

#[test]
fn enum_tags_read_back() {
    assert_eq!(AgeRating::from_name("R18+"), Some(AgeRating::R18Plus));
    assert_eq!(AgeRating::from_name("r18+"), None);
    assert_eq!(AnimeType::from_name("ONA"), Some(AnimeType::ONA));
    assert_eq!(MangaType::from_name("oneshot"), Some(MangaType::Oneshot));
    assert_eq!(Type::from_name("drama"), Some(Type::Drama));
    assert_eq!(WaifuOrHusbando::from_name("waifu"), None);
}

#[test]
fn json_parser_builds_the_tree() {
    let j = body_json(b"{\"a\":[1,-2,\"x\",null,true]}").expect("parsed");
    match j {
        JsonValue::Object(es) => {
            assert_eq!(es.len(), 1);
            assert_eq!(es[0].0, "a");
            match &es[0].1 {
                JsonValue::Array(items) => assert_eq!(items.len(), 5),
                _ => panic!("expected an array"),
            }
        },
        _ => panic!("expected an object"),
    }
    assert!(matches!(body_json(b"[1,"), Err(Error::Json(_))));
}

#[test]
fn test_reqwest_support_test_get_anime() {
    let client = KitsuRequester::new(Stub::new(200, &one(&anime_json("1", "G"))));
    let res = client.get_anime(1);
    assert!(res.is_ok());
    assert_eq!(res.unwrap().data.id, "1");
    assert_eq!(client.transport.seen.borrow()[0], "https://kitsu.io/api/edge/anime/1");
}

#[test]
fn test_reqwest_support_test_get_manga() {
    let client = KitsuRequester::new(Stub::new(200, &one(&manga_json("1"))));
    let res = client.get_manga(1);
    assert!(res.is_ok());
    assert_eq!(res.unwrap().data.id, "1");
    assert_eq!(client.transport.seen.borrow()[0], "https://kitsu.io/api/edge/manga/1");
}

#[test]
fn test_reqwest_support_test_get_user() {
    let client = KitsuRequester::new(Stub::new(200, &one(&user_json("1"))));
    let res = client.get_user(1);
    assert!(res.is_ok());
    assert_eq!(res.unwrap().data.id, "1");
    assert_eq!(client.transport.seen.borrow()[0], "https://kitsu.io/api/edge/users/1");
}

#[test]
fn test_reqwest_support_test_search_anime() {
    let client = KitsuRequester::new(Stub::new(200, &many(&[anime_json("1", "G")])));
    let res = client.search_anime(&Search::new().filter("text", "non non biyori"));
    assert!(res.is_ok());
    assert!(res.unwrap().data.len() > 0);
}

#[test]
fn test_reqwest_support_test_search_manga() {
    let client = KitsuRequester::new(Stub::new(200, &many(&[manga_json("2")])));
    let res = client.search_manga(&Search::new().filter("text", "orange"));
    assert!(res.is_ok());
    assert!(res.unwrap().data.len() > 0);
    assert!(client.transport.seen.borrow()[0].ends_with("/manga?&filter[text]=orange"));
}

#[test]
fn test_reqwest_support_test_search_users() {
    let client = KitsuRequester::new(Stub::new(200, &many(&[user_json("1")])));
    let res = client.search_users(&Search::new().filter("name", "vikhyat"));
    assert!(res.is_ok());
    assert!(res.unwrap().data.len() > 0);
    assert!(client.transport.seen.borrow()[0].ends_with("/users?&filter[name]=vikhyat"));
}

#[test]
fn test_hyper_support_test_get_anime() {
    let client = KitsuRequester::new(Stub::new(200, &one(&anime_json("1", "G"))));
    let res = client.get_anime(1);
    assert!(res.is_ok());
    assert_eq!(res.unwrap().data.id, "1");
    assert_eq!(client.transport.seen.borrow()[0], "https://kitsu.io/api/edge/anime/1");
}

#[test]
fn test_hyper_support_test_get_manga() {
    let client = KitsuRequester::new(Stub::new(200, &one(&manga_json("1"))));
    let res = client.get_manga(1);
    assert!(res.is_ok());
    assert_eq!(res.unwrap().data.id, "1");
    assert_eq!(client.transport.seen.borrow()[0], "https://kitsu.io/api/edge/manga/1");
}

#[test]
fn test_hyper_support_test_get_user() {
    let client = KitsuRequester::new(Stub::new(200, &one(&user_json("1"))));
    let res = client.get_user(1);
    assert!(res.is_ok());
    assert_eq!(res.unwrap().data.id, "1");
    assert_eq!(client.transport.seen.borrow()[0], "https://kitsu.io/api/edge/users/1");
}

#[test]
fn test_hyper_support_test_search_anime() {
    let client = KitsuRequester::new(Stub::new(200, &many(&[anime_json("1", "G")])));
    let res = client.search_anime(&Search::new().filter("text", "non non biyori"));
    assert!(res.is_ok());
    assert!(res.unwrap().data.len() > 0);
}

#[test]
fn test_hyper_support_test_search_manga() {
    let client = KitsuRequester::new(Stub::new(200, &many(&[manga_json("2")])));
    let res = client.search_manga(&Search::new().filter("text", "orange"));
    assert!(res.is_ok());
    assert!(res.unwrap().data.len() > 0);
    assert!(client.transport.seen.borrow()[0].ends_with("/manga?&filter[text]=orange"));
}

#[test]
fn test_hyper_support_test_search_users() {
    let client = KitsuRequester::new(Stub::new(200, &many(&[user_json("1")])));
    let res = client.search_users(&Search::new().filter("name", "vikhyat"));
    assert!(res.is_ok());
    assert!(res.unwrap().data.len() > 0);
    assert!(client.transport.seen.borrow()[0].ends_with("/users?&filter[name]=vikhyat"));
}

#[test]
fn transport_answer_failure_passes_through() {
    match anime_from_answer(Err("timed out".to_string())) {
        Err(Error::Transport(m)) => assert_eq!(m, "timed out"),
        _ => panic!("expected a transport error"),
    }
    let ok = anime_from_answer(Ok(Reply { status: 200, body: one(&anime_json("3", "G")).into_bytes() }));
    assert_eq!(ok.expect("decoded").data.id, "3");
    let denied = anime_from_answer(Ok(Reply { status: 401, body: Vec::new() }));
    assert!(matches!(denied, Err(Error::Unauthorized)));
}

#[test]
fn decode_error_names_the_member_in_a_list() {
    let body = many(&[anime_json("1", "G"), anime_json("2", "bogus")]);
    match anime_list_from_reply(Reply { status: 200, body: body.into_bytes() }) {
        Err(Error::Decode(path)) => assert_eq!(path, "data.1.attributes.ageRating"),
        _ => panic!("expected a decode error"),
    }
    match anime_from_reply(Reply { status: 200, body: b"{\"links\":{}}".to_vec() }) {
        Err(Error::Decode(path)) => assert_eq!(path, "data"),
        _ => panic!("expected a decode error"),
    }
}

#[test]
fn duplicate_link_names_are_rejected() {
    let twice = JsonValue::Object(vec![
        ("next".to_string(), JsonValue::Str("a".to_string())),
        ("next".to_string(), JsonValue::Str("b".to_string())),
    ]);
    assert!(string_map_of(&twice).is_none());
    let once = JsonValue::Object(vec![
        ("next".to_string(), JsonValue::Str("a".to_string())),
        ("prev".to_string(), JsonValue::Str("b".to_string())),
    ]);
    assert_eq!(string_map_of(&once).map(|m| m.len()), Some(2));
}
