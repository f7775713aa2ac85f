use kitsu_io::codec::{anime_list_response_json, anime_response_json};
use kitsu_io::json::JsonValue;
use kitsu_io::model::{anime_list_response, anime_response, Response};
use kitsu_io::request::body_json;
use kitsu_io::model::{
    AgeRating, Anime, AnimeType, Image, Links, Manga, RatingFrequencies, Type, User,
};

fn decode_anime(text: &str) -> Anime {
    let j = body_json(text.as_bytes()).expect("json");
    let data = match &j {
        JsonValue::Object(es) => es.iter().find(|(k, _)| k == "data").map(|(_, v)| v).expect("data"),
        _ => panic!("expected an object"),
    };
    Anime::from_json(data).expect("anime")
}

const ANIME: &str = "{\"data\":{\"id\":\"42\",\"type\":\"anime\",\"links\":{\"self\":\"s\"},\
    \"attributes\":{\"abbreviatedTitles\":[\"A\",\"B\"],\"ageRating\":\"PG-13\",\
    \"canonicalTitle\":\"T\",\"coverImage\":{\"large\":\"L\"},\"coverImageTopOffset\":7,\
    \"episodeCount\":4294967295,\"showType\":\"movie\",\"nsfw\":true,\"posterImage\":{},\
    \"ratingFrequencies\":{\"0.5\":-3,\"5.0\":9223372036854775807},\"slug\":\"t\",\
    \"synopsis\":\"S\",\"titles\":{\"en\":\"E\"}},\
    \"relationships\":{\
    \"castings\":{\"links\":{\"self\":\"a\",\"related\":\"b\"}},\
    \"episodes\":{\"links\":{\"self\":\"c\",\"related\":\"d\"}},\
    \"genres\":{\"links\":{\"self\":\"e\",\"related\":\"f\"}},\
    \"installments\":{\"links\":{\"self\":\"g\",\"related\":\"h\"}},\
    \"mappings\":{\"links\":{\"self\":\"i\",\"related\":\"j\"}},\
    \"reviews\":{\"links\":{\"self\":\"k\",\"related\":\"l\"}},\
    \"streamingLinks\":{\"links\":{\"self\":\"m\",\"related\":\"n\"}}}}}";

#[test]
fn anime_round_trip_keeps_every_field() {
    let a = decode_anime(ANIME);
    let b = Anime::from_json(&a.to_json()).expect("decodes again");
    assert_eq!(b.id, "42");
    assert_eq!(b.kind, Type::Anime);
    assert_eq!(b.links, a.links);
    assert_eq!(b.attributes.abbreviated_titles, Some(vec!["A".to_string(), "B".to_string()]));
    assert_eq!(b.attributes.age_rating, Some(AgeRating::PG13));
    assert_eq!(b.attributes.canonical_title, "T");
    assert_eq!(b.attributes.cover_image.as_ref().and_then(|c| c.large.clone()), Some("L".to_string()));
    assert_eq!(b.attributes.cover_image_top_offset, 7);
    assert_eq!(b.attributes.episode_count, Some(4294967295));
    assert_eq!(b.attributes.kind, AnimeType::Movie);
    assert!(b.attributes.nsfw);
    assert_eq!(b.attributes.rating_frequencies.rating_0_5, -3);
    assert_eq!(b.attributes.rating_frequencies.rating_5_0, i64::MAX);
    assert_eq!(b.attributes.rating_frequencies.rating_1_0, 0);
    assert_eq!(b.attributes.titles.en.as_deref(), Some("E"));
    assert_eq!(b.attributes.titles.ja_jp, None);
    assert_eq!(b.relationships.streaming_links.links.related, "n");
    assert_eq!(b.relationships.castings.links.own, "a");
}

#[test]
fn links_encode_under_their_json_names() {
    let l = Links { related: "r".to_string(), own: "o".to_string() };
    match l.to_json() {
        JsonValue::Object(es) => {
            assert_eq!(es.len(), 2);
            assert_eq!(es[0].0, "related");
            assert_eq!(es[1].0, "self");
        },
        _ => panic!("expected an object"),
    }
    let back = Links::from_json(&l.to_json()).expect("links");
    assert_eq!(back.related, "r");
    assert_eq!(back.own, "o");
}

#[test]
fn empty_image_round_trips_as_all_absent() {
    let i = Image { large: None, medium: None, original: None, small: None, tiny: Some("t".to_string()) };
    let back = Image::from_json(&i.to_json()).expect("image");
    assert_eq!(back.tiny.as_deref(), Some("t"));
    assert_eq!(back.large, None);
}

#[test]
fn rating_frequencies_round_trip() {
    let r = RatingFrequencies {
        rating_0_0: 1, rating_0_5: 2, rating_1_0: 3, rating_1_5: 4, rating_2_0: 5, rating_2_5: 6,
        rating_3_0: 7, rating_3_5: 8, rating_4_0: 9, rating_4_5: 10, rating_5_0: i64::MIN,
    };
    let back = RatingFrequencies::from_json(&r.to_json()).expect("ratings");
    assert_eq!(back.rating_0_0, 1);
    assert_eq!(back.rating_4_5, 10);
    assert_eq!(back.rating_5_0, i64::MIN);
}

#[test]
fn manga_and_user_round_trip() {
    let m = "{\"id\":\"5\",\"type\":\"manga\",\"links\":{},\"attributes\":{\"canonicalTitle\":\"O\",\
        \"coverImageTopOffset\":0,\"mangaType\":\"novel\",\"posterImage\":{},\"ratingFrequencies\":{},\
        \"slug\":\"o\",\"synopsis\":\"\",\"titles\":{},\"volumeCount\":18446744073709551615}}";
    let m = Manga::from_json(&body_json(m.as_bytes()).unwrap()).expect("manga");
    let back = Manga::from_json(&m.to_json()).expect("manga again");
    assert_eq!(back.attributes.volume_count, Some(u64::MAX));
    assert_eq!(back.attributes.slug, "o");

    let rel = "{\"links\":{\"self\":\"s\",\"related\":\"r\"}}";
    let rels: Vec<String> = ["blocks", "favorites", "followers", "following", "libraryEntries",
        "pinnedPost", "reviews", "userRoles", "waifu"]
        .iter()
        .map(|n| format!("\"{}\":{}", n, rel))
        .collect();
    let u = format!(
        "{{\"id\":\"1\",\"type\":\"users\",\"links\":{{}},\"attributes\":{{\"about\":\"a\",\
        \"commentsCount\":1,\"createdAt\":\"c\",\"favoritesCount\":2,\"feedCompleted\":false,\
        \"followersCount\":3,\"followingCount\":4,\"lifeSpentOnAnime\":5,\"likesGivenCount\":6,\
        \"likesReceivedCount\":7,\"name\":\"n\",\"pastNames\":[\"p\"],\"postsCount\":8,\
        \"profileCompleted\":true,\"ratingsCount\":9,\"reviewsCount\":10,\"updatedAt\":\"u\",\
        \"waifuOrHusbando\":\"Husbando\"}},\"relationships\":{{{},\"mediaFollows\":{}}}}}",
        rels.join(","),
        rel
    );
    let u = User::from_json(&body_json(u.as_bytes()).unwrap()).expect("user");
    let back = User::from_json(&u.to_json()).expect("user again");
    assert_eq!(back.attributes.past_names, vec!["p".to_string()]);
    assert_eq!(back.attributes.reviews_count, 10);
    assert!(back.relationships.media_follows.is_some());
    assert!(back.relationships.linked_profiles.is_none());
    assert_eq!(back.url(), "https://kitsu.io/users/n");
}

#[test]
fn envelope_round_trip_keeps_data_and_links() {
    let a = decode_anime(ANIME);
    let one = Response { data: a.clone(), links: vec![("self".to_string(), "x".to_string())] };
    let back = anime_response(&anime_response_json(&one)).expect("envelope");
    assert_eq!(back.data.id, "42");
    assert_eq!(back.links, vec![("self".to_string(), "x".to_string())]);

    let many = Response {
        data: vec![a.clone(), a],
        links: vec![
            ("first".to_string(), "f".to_string()),
            ("next".to_string(), "n".to_string()),
        ],
    };
    let back = anime_list_response(&anime_list_response_json(&many)).expect("envelope");
    assert_eq!(back.data.len(), 2);
    assert_eq!(back.data[1].attributes.slug, "t");
    assert_eq!(back.links.len(), 2);
    assert_eq!(back.links[1].0, "next");
}
