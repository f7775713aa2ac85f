//! Encoding of the models back into JSON trees, and the law that decoding what was
//! encoded gives back the same field values.
use vstd::prelude::*;

use crate::json::{
    field, int_json, keys_unique, lemma_entry_push, lemma_string_map_unique,
    lemma_strings_unique, nat_json, opt_nat_json, opt_str_json, opt_strings_json, str_json,
    string_map_json, string_map_or_empty_is, strings_json, JsonValue,
};
use crate::model::{
    Anime, AnimeAttributes, AnimeRelationships, AnimeTitles, CoverImage, Image, Links, Manga,
    MangaAttributes, MangaTitles, RatingFrequencies, Relationship, Response, User,
    UserAttributes, UserRelationships, anime_attributes_is, anime_is, anime_list_at,
    anime_list_response_is, anime_relationships_is, anime_response_is, anime_titles_is,
    cover_image_is, image_is, lemma_age_rating_tags, lemma_anime_type_tags,
    lemma_manga_type_tags, lemma_type_tags, lemma_waifu_or_husbando_tags, links_is,
    manga_attributes_is, manga_is, manga_list_at, manga_list_response_is, manga_response_is,
    manga_titles_is, rating_frequencies_is, relationship_is, user_attributes_is, user_is,
    user_list_at, user_list_response_is, user_relationships_is, user_response_is,
};

verus! {

broadcast use lemma_entry_push;

/// `a` and `b` have the same field values: the same characters in each string,
/// the same items in each list, the same numbers and the same variants.
pub open spec fn links_same(a: Links, b: Links) -> bool {
    &&& a.related.deep_view() == b.related.deep_view()
    &&& a.own.deep_view() == b.own.deep_view()
}

impl Links {
    /// Encodes the value as a JSON object with the members it is decoded from.
    pub fn to_json(&self) -> (r: JsonValue)
        ensures
            r is Object,
            links_is(r, *self),
    {
        let mut es: Vec<(String, JsonValue)> = Vec::new();
        es.push((String::from_str("related"), str_json(&self.related)));
        es.push((String::from_str("self"), str_json(&self.own)));
        proof {
            reveal_strlit("related");
            reveal_strlit("self");
            assert("related"@.len() == 7);
            assert("self"@.len() == 4);
        }
        JsonValue::Object(es)
    }
}

/// The JSON of a `Links` determines every field of the value decoded from it.
pub proof fn lemma_links_unique(
    j: JsonValue,
    a: Links,
    b: Links,
)
    requires
        links_is(j, a),
        links_is(j, b),
    ensures
        links_same(a, b),
{
}

/// `a` and `b` have the same field values: the same characters in each string,
/// the same items in each list, the same numbers and the same variants.
pub open spec fn relationship_same(a: Relationship, b: Relationship) -> bool {
    &&& links_same(a.links, b.links)
}

impl Relationship {
    /// Encodes the value as a JSON object with the members it is decoded from.
    pub fn to_json(&self) -> (r: JsonValue)
        ensures
            r is Object,
            relationship_is(r, *self),
    {
        let mut es: Vec<(String, JsonValue)> = Vec::new();
        es.push((String::from_str("links"), self.links.to_json()));
        proof {
            reveal_strlit("links");
            assert("links"@.len() == 5);
        }
        JsonValue::Object(es)
    }
}

/// The JSON of a `Relationship` determines every field of the value decoded from it.
pub proof fn lemma_relationship_unique(
    j: JsonValue,
    a: Relationship,
    b: Relationship,
)
    requires
        relationship_is(j, a),
        relationship_is(j, b),
    ensures
        relationship_same(a, b),
{
        lemma_links_unique(field(j, "links"@)->0, a.links, b.links);
}

/// `a` and `b` have the same field values: the same characters in each string,
/// the same items in each list, the same numbers and the same variants.
pub open spec fn cover_image_same(a: CoverImage, b: CoverImage) -> bool {
    &&& a.large.deep_view() == b.large.deep_view()
    &&& a.original.deep_view() == b.original.deep_view()
    &&& a.small.deep_view() == b.small.deep_view()
}

impl CoverImage {
    /// Encodes the value as a JSON object with the members it is decoded from.
    pub fn to_json(&self) -> (r: JsonValue)
        ensures
            r is Object,
            cover_image_is(r, *self),
    {
        let mut es: Vec<(String, JsonValue)> = Vec::new();
        es.push((String::from_str("large"), opt_str_json(&self.large)));
        es.push((String::from_str("original"), opt_str_json(&self.original)));
        es.push((String::from_str("small"), opt_str_json(&self.small)));
        proof {
            reveal_strlit("large");
            reveal_strlit("original");
            reveal_strlit("small");
            assert("large"@.len() == 5);
            assert("original"@.len() == 8);
            assert("small"@.len() == 5);
            assert("large"@[0] == 'l');
            assert("small"@[0] == 's');
        }
        JsonValue::Object(es)
    }
}

/// The JSON of a `CoverImage` determines every field of the value decoded from it.
pub proof fn lemma_cover_image_unique(
    j: JsonValue,
    a: CoverImage,
    b: CoverImage,
)
    requires
        cover_image_is(j, a),
        cover_image_is(j, b),
    ensures
        cover_image_same(a, b),
{
}

/// `a` and `b` have the same field values: the same characters in each string,
/// the same items in each list, the same numbers and the same variants.
pub open spec fn image_same(a: Image, b: Image) -> bool {
    &&& a.large.deep_view() == b.large.deep_view()
    &&& a.medium.deep_view() == b.medium.deep_view()
    &&& a.original.deep_view() == b.original.deep_view()
    &&& a.small.deep_view() == b.small.deep_view()
    &&& a.tiny.deep_view() == b.tiny.deep_view()
}

impl Image {
    /// Encodes the value as a JSON object with the members it is decoded from.
    pub fn to_json(&self) -> (r: JsonValue)
        ensures
            r is Object,
            image_is(r, *self),
    {
        let mut es: Vec<(String, JsonValue)> = Vec::new();
        es.push((String::from_str("large"), opt_str_json(&self.large)));
        es.push((String::from_str("medium"), opt_str_json(&self.medium)));
        es.push((String::from_str("original"), opt_str_json(&self.original)));
        es.push((String::from_str("small"), opt_str_json(&self.small)));
        es.push((String::from_str("tiny"), opt_str_json(&self.tiny)));
        proof {
            reveal_strlit("large");
            reveal_strlit("medium");
            reveal_strlit("original");
            reveal_strlit("small");
            reveal_strlit("tiny");
            assert("large"@.len() == 5);
            assert("medium"@.len() == 6);
            assert("original"@.len() == 8);
            assert("small"@.len() == 5);
            assert("tiny"@.len() == 4);
            assert("large"@[0] == 'l');
            assert("small"@[0] == 's');
        }
        JsonValue::Object(es)
    }
}

/// The JSON of an `Image` determines every field of the value decoded from it.
pub proof fn lemma_image_unique(
    j: JsonValue,
    a: Image,
    b: Image,
)
    requires
        image_is(j, a),
        image_is(j, b),
    ensures
        image_same(a, b),
{
}

/// `a` and `b` have the same field values: the same characters in each string,
/// the same items in each list, the same numbers and the same variants.
pub open spec fn rating_frequencies_same(a: RatingFrequencies, b: RatingFrequencies) -> bool {
    &&& a.rating_0_0.deep_view() == b.rating_0_0.deep_view()
    &&& a.rating_0_5.deep_view() == b.rating_0_5.deep_view()
    &&& a.rating_1_0.deep_view() == b.rating_1_0.deep_view()
    &&& a.rating_1_5.deep_view() == b.rating_1_5.deep_view()
    &&& a.rating_2_0.deep_view() == b.rating_2_0.deep_view()
    &&& a.rating_2_5.deep_view() == b.rating_2_5.deep_view()
    &&& a.rating_3_0.deep_view() == b.rating_3_0.deep_view()
    &&& a.rating_3_5.deep_view() == b.rating_3_5.deep_view()
    &&& a.rating_4_0.deep_view() == b.rating_4_0.deep_view()
    &&& a.rating_4_5.deep_view() == b.rating_4_5.deep_view()
    &&& a.rating_5_0.deep_view() == b.rating_5_0.deep_view()
}

impl RatingFrequencies {
    /// Encodes the value as a JSON object with the members it is decoded from.
    pub fn to_json(&self) -> (r: JsonValue)
        ensures
            r is Object,
            rating_frequencies_is(r, *self),
    {
        let mut es: Vec<(String, JsonValue)> = Vec::new();
        es.push((String::from_str("0.0"), int_json(self.rating_0_0)));
        es.push((String::from_str("0.5"), int_json(self.rating_0_5)));
        es.push((String::from_str("1.0"), int_json(self.rating_1_0)));
        es.push((String::from_str("1.5"), int_json(self.rating_1_5)));
        es.push((String::from_str("2.0"), int_json(self.rating_2_0)));
        es.push((String::from_str("2.5"), int_json(self.rating_2_5)));
        es.push((String::from_str("3.0"), int_json(self.rating_3_0)));
        es.push((String::from_str("3.5"), int_json(self.rating_3_5)));
        es.push((String::from_str("4.0"), int_json(self.rating_4_0)));
        es.push((String::from_str("4.5"), int_json(self.rating_4_5)));
        es.push((String::from_str("5.0"), int_json(self.rating_5_0)));
        proof {
            reveal_strlit("0.0");
            reveal_strlit("0.5");
            reveal_strlit("1.0");
            reveal_strlit("1.5");
            reveal_strlit("2.0");
            reveal_strlit("2.5");
            reveal_strlit("3.0");
            reveal_strlit("3.5");
            reveal_strlit("4.0");
            reveal_strlit("4.5");
            reveal_strlit("5.0");
            assert("0.0"@.len() == 3);
            assert("0.5"@.len() == 3);
            assert("1.0"@.len() == 3);
            assert("1.5"@.len() == 3);
            assert("2.0"@.len() == 3);
            assert("2.5"@.len() == 3);
            assert("3.0"@.len() == 3);
            assert("3.5"@.len() == 3);
            assert("4.0"@.len() == 3);
            assert("4.5"@.len() == 3);
            assert("5.0"@.len() == 3);
            assert("0.0"@[2] == '0');
            assert("0.5"@[2] == '5');
            assert("0.0"@[0] == '0');
            assert("1.0"@[0] == '1');
            assert("1.5"@[0] == '1');
            assert("2.0"@[0] == '2');
            assert("2.5"@[0] == '2');
            assert("3.0"@[0] == '3');
            assert("3.5"@[0] == '3');
            assert("4.0"@[0] == '4');
            assert("4.5"@[0] == '4');
            assert("5.0"@[0] == '5');
            assert("0.5"@[0] == '0');
            assert("1.0"@[2] == '0');
            assert("1.5"@[2] == '5');
            assert("2.0"@[2] == '0');
            assert("2.5"@[2] == '5');
            assert("3.0"@[2] == '0');
            assert("3.5"@[2] == '5');
            assert("4.0"@[2] == '0');
            assert("4.5"@[2] == '5');
        }
        JsonValue::Object(es)
    }
}

/// The JSON of a `RatingFrequencies` determines every field of the value decoded from it.
pub proof fn lemma_rating_frequencies_unique(
    j: JsonValue,
    a: RatingFrequencies,
    b: RatingFrequencies,
)
    requires
        rating_frequencies_is(j, a),
        rating_frequencies_is(j, b),
    ensures
        rating_frequencies_same(a, b),
{
}

/// `a` and `b` have the same field values: the same characters in each string,
/// the same items in each list, the same numbers and the same variants.
pub open spec fn anime_titles_same(a: AnimeTitles, b: AnimeTitles) -> bool {
    &&& a.en.deep_view() == b.en.deep_view()
    &&& a.en_jp.deep_view() == b.en_jp.deep_view()
    &&& a.ja_jp.deep_view() == b.ja_jp.deep_view()
}

impl AnimeTitles {
    /// Encodes the value as a JSON object with the members it is decoded from.
    pub fn to_json(&self) -> (r: JsonValue)
        ensures
            r is Object,
            anime_titles_is(r, *self),
    {
        let mut es: Vec<(String, JsonValue)> = Vec::new();
        es.push((String::from_str("en"), opt_str_json(&self.en)));
        es.push((String::from_str("en_jp"), opt_str_json(&self.en_jp)));
        es.push((String::from_str("ja_jp"), opt_str_json(&self.ja_jp)));
        proof {
            reveal_strlit("en");
            reveal_strlit("en_jp");
            reveal_strlit("ja_jp");
            assert("en"@.len() == 2);
            assert("en_jp"@.len() == 5);
            assert("ja_jp"@.len() == 5);
            assert("en_jp"@[0] == 'e');
            assert("ja_jp"@[0] == 'j');
        }
        JsonValue::Object(es)
    }
}

/// The JSON of an `AnimeTitles` determines every field of the value decoded from it.
pub proof fn lemma_anime_titles_unique(
    j: JsonValue,
    a: AnimeTitles,
    b: AnimeTitles,
)
    requires
        anime_titles_is(j, a),
        anime_titles_is(j, b),
    ensures
        anime_titles_same(a, b),
{
}

/// `a` and `b` have the same field values: the same characters in each string,
/// the same items in each list, the same numbers and the same variants.
pub open spec fn manga_titles_same(a: MangaTitles, b: MangaTitles) -> bool {
    &&& a.en.deep_view() == b.en.deep_view()
    &&& a.en_jp.deep_view() == b.en_jp.deep_view()
}

impl MangaTitles {
    /// Encodes the value as a JSON object with the members it is decoded from.
    pub fn to_json(&self) -> (r: JsonValue)
        ensures
            r is Object,
            manga_titles_is(r, *self),
    {
        let mut es: Vec<(String, JsonValue)> = Vec::new();
        es.push((String::from_str("en"), opt_str_json(&self.en)));
        es.push((String::from_str("en_jp"), opt_str_json(&self.en_jp)));
        proof {
            reveal_strlit("en");
            reveal_strlit("en_jp");
            assert("en"@.len() == 2);
            assert("en_jp"@.len() == 5);
        }
        JsonValue::Object(es)
    }
}

/// The JSON of a `MangaTitles` determines every field of the value decoded from it.
pub proof fn lemma_manga_titles_unique(
    j: JsonValue,
    a: MangaTitles,
    b: MangaTitles,
)
    requires
        manga_titles_is(j, a),
        manga_titles_is(j, b),
    ensures
        manga_titles_same(a, b),
{
}

/// `a` and `b` have the same field values: the same characters in each string,
/// the same items in each list, the same numbers and the same variants.
pub open spec fn anime_relationships_same(a: AnimeRelationships, b: AnimeRelationships) -> bool {
    &&& relationship_same(a.castings, b.castings)
    &&& relationship_same(a.episodes, b.episodes)
    &&& relationship_same(a.genres, b.genres)
    &&& relationship_same(a.installments, b.installments)
    &&& relationship_same(a.mappings, b.mappings)
    &&& relationship_same(a.reviews, b.reviews)
    &&& relationship_same(a.streaming_links, b.streaming_links)
}

impl AnimeRelationships {
    /// Encodes the value as a JSON object with the members it is decoded from.
    pub fn to_json(&self) -> (r: JsonValue)
        ensures
            r is Object,
            anime_relationships_is(r, *self),
    {
        let mut es: Vec<(String, JsonValue)> = Vec::new();
        es.push((String::from_str("castings"), self.castings.to_json()));
        es.push((String::from_str("episodes"), self.episodes.to_json()));
        es.push((String::from_str("genres"), self.genres.to_json()));
        es.push((String::from_str("installments"), self.installments.to_json()));
        es.push((String::from_str("mappings"), self.mappings.to_json()));
        es.push((String::from_str("reviews"), self.reviews.to_json()));
        es.push((String::from_str("streamingLinks"), self.streaming_links.to_json()));
        proof {
            reveal_strlit("castings");
            reveal_strlit("episodes");
            reveal_strlit("genres");
            reveal_strlit("installments");
            reveal_strlit("mappings");
            reveal_strlit("reviews");
            reveal_strlit("streamingLinks");
            assert("castings"@.len() == 8);
            assert("episodes"@.len() == 8);
            assert("genres"@.len() == 6);
            assert("installments"@.len() == 12);
            assert("mappings"@.len() == 8);
            assert("reviews"@.len() == 7);
            assert("streamingLinks"@.len() == 14);
            assert("castings"@[0] == 'c');
            assert("episodes"@[0] == 'e');
            assert("mappings"@[0] == 'm');
        }
        JsonValue::Object(es)
    }
}

/// The JSON of an `AnimeRelationships` determines every field of the value decoded from it.
pub proof fn lemma_anime_relationships_unique(
    j: JsonValue,
    a: AnimeRelationships,
    b: AnimeRelationships,
)
    requires
        anime_relationships_is(j, a),
        anime_relationships_is(j, b),
    ensures
        anime_relationships_same(a, b),
{
        lemma_relationship_unique(field(j, "castings"@)->0, a.castings, b.castings);
        lemma_relationship_unique(field(j, "episodes"@)->0, a.episodes, b.episodes);
        lemma_relationship_unique(field(j, "genres"@)->0, a.genres, b.genres);
        lemma_relationship_unique(field(j, "installments"@)->0, a.installments, b.installments);
        lemma_relationship_unique(field(j, "mappings"@)->0, a.mappings, b.mappings);
        lemma_relationship_unique(field(j, "reviews"@)->0, a.reviews, b.reviews);
        lemma_relationship_unique(
            field(j,
            "streamingLinks"@)->0,
            a.streaming_links,
            b.streaming_links,
        );
}

/// `a` and `b` have the same field values: the same characters in each string,
/// the same items in each list, the same numbers and the same variants.
pub open spec fn user_relationships_same(a: UserRelationships, b: UserRelationships) -> bool {
    &&& relationship_same(a.blocks, b.blocks)
    &&& relationship_same(a.favorites, b.favorites)
    &&& relationship_same(a.followers, b.followers)
    &&& relationship_same(a.following, b.following)
    &&& relationship_same(a.library_entries, b.library_entries)
    &&& match (a.linked_profiles, b.linked_profiles) {
        (Some(x), Some(y)) => relationship_same(x, y),
        (None, None) => true,
        _ => false,
    }
    &&& match (a.media_follows, b.media_follows) {
        (Some(x), Some(y)) => relationship_same(x, y),
        (None, None) => true,
        _ => false,
    }
    &&& relationship_same(a.pinned_post, b.pinned_post)
    &&& relationship_same(a.reviews, b.reviews)
    &&& relationship_same(a.user_roles, b.user_roles)
    &&& relationship_same(a.waifu, b.waifu)
}

impl UserRelationships {
    /// Encodes the value as a JSON object with the members it is decoded from.
    pub fn to_json(&self) -> (r: JsonValue)
        ensures
            r is Object,
            user_relationships_is(r, *self),
    {
        let mut es: Vec<(String, JsonValue)> = Vec::new();
        es.push((String::from_str("blocks"), self.blocks.to_json()));
        es.push((String::from_str("favorites"), self.favorites.to_json()));
        es.push((String::from_str("followers"), self.followers.to_json()));
        es.push((String::from_str("following"), self.following.to_json()));
        es.push((String::from_str("libraryEntries"), self.library_entries.to_json()));
        es.push((
            String::from_str("linkedProfiles"),
            match &self.linked_profiles {
                Some(v) => v.to_json(),
                None => JsonValue::Null,
            },
        ));
        es.push((
            String::from_str("mediaFollows"),
            match &self.media_follows {
                Some(v) => v.to_json(),
                None => JsonValue::Null,
            },
        ));
        es.push((String::from_str("pinnedPost"), self.pinned_post.to_json()));
        es.push((String::from_str("reviews"), self.reviews.to_json()));
        es.push((String::from_str("userRoles"), self.user_roles.to_json()));
        es.push((String::from_str("waifu"), self.waifu.to_json()));
        proof {
            reveal_strlit("blocks");
            reveal_strlit("favorites");
            reveal_strlit("followers");
            reveal_strlit("following");
            reveal_strlit("libraryEntries");
            reveal_strlit("linkedProfiles");
            reveal_strlit("mediaFollows");
            reveal_strlit("pinnedPost");
            reveal_strlit("reviews");
            reveal_strlit("userRoles");
            reveal_strlit("waifu");
            assert("blocks"@.len() == 6);
            assert("favorites"@.len() == 9);
            assert("followers"@.len() == 9);
            assert("following"@.len() == 9);
            assert("libraryEntries"@.len() == 14);
            assert("linkedProfiles"@.len() == 14);
            assert("mediaFollows"@.len() == 12);
            assert("pinnedPost"@.len() == 10);
            assert("reviews"@.len() == 7);
            assert("userRoles"@.len() == 9);
            assert("waifu"@.len() == 5);
            assert("favorites"@[1] == 'a');
            assert("followers"@[1] == 'o');
            assert("following"@[1] == 'o');
            assert("favorites"@[0] == 'f');
            assert("userRoles"@[0] == 'u');
            assert("followers"@[6] == 'e');
            assert("following"@[6] == 'i');
            assert("followers"@[0] == 'f');
            assert("following"@[0] == 'f');
            assert("libraryEntries"@[2] == 'b');
            assert("linkedProfiles"@[2] == 'n');
        }
        JsonValue::Object(es)
    }
}

/// The JSON of an `UserRelationships` determines every field of the value decoded from it.
pub proof fn lemma_user_relationships_unique(
    j: JsonValue,
    a: UserRelationships,
    b: UserRelationships,
)
    requires
        user_relationships_is(j, a),
        user_relationships_is(j, b),
    ensures
        user_relationships_same(a, b),
{
        lemma_relationship_unique(field(j, "blocks"@)->0, a.blocks, b.blocks);
        lemma_relationship_unique(field(j, "favorites"@)->0, a.favorites, b.favorites);
        lemma_relationship_unique(field(j, "followers"@)->0, a.followers, b.followers);
        lemma_relationship_unique(field(j, "following"@)->0, a.following, b.following);
        lemma_relationship_unique(
            field(j,
            "libraryEntries"@)->0,
            a.library_entries,
            b.library_entries,
        );
        if a.linked_profiles is Some && b.linked_profiles is Some {
            lemma_relationship_unique(
                field(j,
                "linkedProfiles"@)->0,
                a.linked_profiles->0,
                b.linked_profiles->0,
            );
        }
        if a.media_follows is Some && b.media_follows is Some {
            lemma_relationship_unique(
                field(j,
                "mediaFollows"@)->0,
                a.media_follows->0,
                b.media_follows->0,
            );
        }
        lemma_relationship_unique(field(j, "pinnedPost"@)->0, a.pinned_post, b.pinned_post);
        lemma_relationship_unique(field(j, "reviews"@)->0, a.reviews, b.reviews);
        lemma_relationship_unique(field(j, "userRoles"@)->0, a.user_roles, b.user_roles);
        lemma_relationship_unique(field(j, "waifu"@)->0, a.waifu, b.waifu);
}

/// `a` and `b` have the same field values: the same characters in each string,
/// the same items in each list, the same numbers and the same variants.
pub open spec fn anime_attributes_same(a: AnimeAttributes, b: AnimeAttributes) -> bool {
    &&& a.abbreviated_titles.deep_view() == b.abbreviated_titles.deep_view()
    &&& a.age_rating == b.age_rating
    &&& a.age_rating_guide.deep_view() == b.age_rating_guide.deep_view()
    &&& a.average_rating.deep_view() == b.average_rating.deep_view()
    &&& a.canonical_title.deep_view() == b.canonical_title.deep_view()
    &&& match (a.cover_image, b.cover_image) {
        (Some(x), Some(y)) => cover_image_same(x, y),
        (None, None) => true,
        _ => false,
    }
    &&& a.cover_image_top_offset.deep_view() == b.cover_image_top_offset.deep_view()
    &&& a.end_date.deep_view() == b.end_date.deep_view()
    &&& a.episode_count.deep_view() == b.episode_count.deep_view()
    &&& a.episode_length.deep_view() == b.episode_length.deep_view()
    &&& a.favourites_count.deep_view() == b.favourites_count.deep_view()
    &&& a.kind == b.kind
    &&& a.nsfw.deep_view() == b.nsfw.deep_view()
    &&& a.popularity_rank.deep_view() == b.popularity_rank.deep_view()
    &&& image_same(a.poster_image, b.poster_image)
    &&& rating_frequencies_same(a.rating_frequencies, b.rating_frequencies)
    &&& a.rating_rank.deep_view() == b.rating_rank.deep_view()
    &&& a.slug.deep_view() == b.slug.deep_view()
    &&& a.start_date.deep_view() == b.start_date.deep_view()
    &&& a.sub_type.deep_view() == b.sub_type.deep_view()
    &&& a.synopsis.deep_view() == b.synopsis.deep_view()
    &&& anime_titles_same(a.titles, b.titles)
    &&& a.user_count.deep_view() == b.user_count.deep_view()
    &&& a.youtube_video_id.deep_view() == b.youtube_video_id.deep_view()
}

impl AnimeAttributes {
    /// Encodes the value as a JSON object with the members it is decoded from.
    pub fn to_json(&self) -> (r: JsonValue)
        ensures
            r is Object,
            anime_attributes_is(r, *self),
    {
        let mut es: Vec<(String, JsonValue)> = Vec::new();
        es.push((
            String::from_str("abbreviatedTitles"),
            opt_strings_json(&self.abbreviated_titles),
        ));
        es.push((
            String::from_str("ageRating"),
            match self.age_rating {
                Some(a) => JsonValue::Str(String::from_str(a.tag_text())),
                None => JsonValue::Null,
            },
        ));
        es.push((String::from_str("ageRatingGuide"), opt_str_json(&self.age_rating_guide)));
        es.push((String::from_str("averageRating"), opt_str_json(&self.average_rating)));
        es.push((String::from_str("canonicalTitle"), str_json(&self.canonical_title)));
        es.push((
            String::from_str("coverImage"),
            match &self.cover_image {
                Some(v) => v.to_json(),
                None => JsonValue::Null,
            },
        ));
        es.push((
            String::from_str("coverImageTopOffset"),
            nat_json(self.cover_image_top_offset as u64),
        ));
        es.push((String::from_str("endDate"), opt_str_json(&self.end_date)));
        es.push((
            String::from_str("episodeCount"),
            opt_nat_json(match self.episode_count { Some(n) => Some(n as u64), None => None }),
        ));
        es.push((
            String::from_str("episodeLength"),
            opt_nat_json(match self.episode_length { Some(n) => Some(n as u64), None => None }),
        ));
        es.push((
            String::from_str("favouritesCount"),
            opt_nat_json(match self.favourites_count { Some(n) => Some(n as u64), None => None }),
        ));
        es.push((
            String::from_str("showType"),
            JsonValue::Str(String::from_str(self.kind.tag_text())),
        ));
        es.push((String::from_str("nsfw"), JsonValue::Bool(self.nsfw)));
        es.push((
            String::from_str("popularityRank"),
            opt_nat_json(match self.popularity_rank { Some(n) => Some(n as u64), None => None }),
        ));
        es.push((String::from_str("posterImage"), self.poster_image.to_json()));
        es.push((String::from_str("ratingFrequencies"), self.rating_frequencies.to_json()));
        es.push((
            String::from_str("ratingRank"),
            opt_nat_json(match self.rating_rank { Some(n) => Some(n as u64), None => None }),
        ));
        es.push((String::from_str("slug"), str_json(&self.slug)));
        es.push((String::from_str("startDate"), opt_str_json(&self.start_date)));
        es.push((String::from_str("subType"), opt_str_json(&self.sub_type)));
        es.push((String::from_str("synopsis"), str_json(&self.synopsis)));
        es.push((String::from_str("titles"), self.titles.to_json()));
        es.push((
            String::from_str("userCount"),
            opt_nat_json(match self.user_count { Some(n) => Some(n as u64), None => None }),
        ));
        es.push((String::from_str("youtubeVideoId"), opt_str_json(&self.youtube_video_id)));
        proof {
            reveal_strlit("abbreviatedTitles");
            reveal_strlit("ageRating");
            reveal_strlit("ageRatingGuide");
            reveal_strlit("averageRating");
            reveal_strlit("canonicalTitle");
            reveal_strlit("coverImage");
            reveal_strlit("coverImageTopOffset");
            reveal_strlit("endDate");
            reveal_strlit("episodeCount");
            reveal_strlit("episodeLength");
            reveal_strlit("favouritesCount");
            reveal_strlit("showType");
            reveal_strlit("nsfw");
            reveal_strlit("popularityRank");
            reveal_strlit("posterImage");
            reveal_strlit("ratingFrequencies");
            reveal_strlit("ratingRank");
            reveal_strlit("slug");
            reveal_strlit("startDate");
            reveal_strlit("subType");
            reveal_strlit("synopsis");
            reveal_strlit("titles");
            reveal_strlit("userCount");
            reveal_strlit("youtubeVideoId");
            assert("abbreviatedTitles"@.len() == 17);
            assert("ageRating"@.len() == 9);
            assert("ageRatingGuide"@.len() == 14);
            assert("averageRating"@.len() == 13);
            assert("canonicalTitle"@.len() == 14);
            assert("coverImage"@.len() == 10);
            assert("coverImageTopOffset"@.len() == 19);
            assert("endDate"@.len() == 7);
            assert("episodeCount"@.len() == 12);
            assert("episodeLength"@.len() == 13);
            assert("favouritesCount"@.len() == 15);
            assert("showType"@.len() == 8);
            assert("nsfw"@.len() == 4);
            assert("popularityRank"@.len() == 14);
            assert("posterImage"@.len() == 11);
            assert("ratingFrequencies"@.len() == 17);
            assert("ratingRank"@.len() == 10);
            assert("slug"@.len() == 4);
            assert("startDate"@.len() == 9);
            assert("subType"@.len() == 7);
            assert("synopsis"@.len() == 8);
            assert("titles"@.len() == 6);
            assert("userCount"@.len() == 9);
            assert("youtubeVideoId"@.len() == 14);
            assert("abbreviatedTitles"@[0] == 'a');
            assert("ratingFrequencies"@[0] == 'r');
            assert("ageRating"@[0] == 'a');
            assert("startDate"@[0] == 's');
            assert("userCount"@[0] == 'u');
            assert("ageRatingGuide"@[0] == 'a');
            assert("canonicalTitle"@[0] == 'c');
            assert("popularityRank"@[0] == 'p');
            assert("youtubeVideoId"@[0] == 'y');
            assert("averageRating"@[0] == 'a');
            assert("episodeLength"@[0] == 'e');
            assert("coverImage"@[0] == 'c');
            assert("ratingRank"@[0] == 'r');
            assert("endDate"@[0] == 'e');
            assert("subType"@[0] == 's');
            assert("showType"@[1] == 'h');
            assert("synopsis"@[1] == 'y');
            assert("nsfw"@[0] == 'n');
            assert("slug"@[0] == 's');
        }
        JsonValue::Object(es)
    }
}

/// The JSON of an `AnimeAttributes` determines every field of the value decoded from it.
pub proof fn lemma_anime_attributes_unique(
    j: JsonValue,
    a: AnimeAttributes,
    b: AnimeAttributes,
)
    requires
        anime_attributes_is(j, a),
        anime_attributes_is(j, b),
    ensures
        anime_attributes_same(a, b),
{
        if a.abbreviated_titles is Some && b.abbreviated_titles is Some {
            lemma_strings_unique(
                field(j,
                "abbreviatedTitles"@),
                a.abbreviated_titles->0,
                b.abbreviated_titles->0,
            );
        }
        if a.age_rating is Some && b.age_rating is Some {
            lemma_age_rating_tags(a.age_rating->0, b.age_rating->0);
        }
        if a.cover_image is Some && b.cover_image is Some {
            lemma_cover_image_unique(
                field(j,
                "coverImage"@)->0,
                a.cover_image->0,
                b.cover_image->0,
            );
        }
        lemma_anime_type_tags(a.kind, b.kind);
        lemma_image_unique(field(j, "posterImage"@)->0, a.poster_image, b.poster_image);
        lemma_rating_frequencies_unique(
            field(j,
            "ratingFrequencies"@)->0,
            a.rating_frequencies,
            b.rating_frequencies,
        );
        lemma_anime_titles_unique(field(j, "titles"@)->0, a.titles, b.titles);
}

/// `a` and `b` have the same field values: the same characters in each string,
/// the same items in each list, the same numbers and the same variants.
pub open spec fn manga_attributes_same(a: MangaAttributes, b: MangaAttributes) -> bool {
    &&& a.abbreviated_titles.deep_view() == b.abbreviated_titles.deep_view()
    &&& a.average_rating.deep_view() == b.average_rating.deep_view()
    &&& a.canonical_title.deep_view() == b.canonical_title.deep_view()
    &&& a.chapter_count.deep_view() == b.chapter_count.deep_view()
    &&& match (a.cover_image, b.cover_image) {
        (Some(x), Some(y)) => cover_image_same(x, y),
        (None, None) => true,
        _ => false,
    }
    &&& a.cover_image_top_offset.deep_view() == b.cover_image_top_offset.deep_view()
    &&& a.end_date.deep_view() == b.end_date.deep_view()
    &&& a.kind == b.kind
    &&& a.popularity_rank.deep_view() == b.popularity_rank.deep_view()
    &&& image_same(a.poster_image, b.poster_image)
    &&& rating_frequencies_same(a.rating_frequencies, b.rating_frequencies)
    &&& a.rating_rank.deep_view() == b.rating_rank.deep_view()
    &&& a.serialization.deep_view() == b.serialization.deep_view()
    &&& a.slug.deep_view() == b.slug.deep_view()
    &&& a.start_date.deep_view() == b.start_date.deep_view()
    &&& a.synopsis.deep_view() == b.synopsis.deep_view()
    &&& manga_titles_same(a.titles, b.titles)
    &&& a.volume_count.deep_view() == b.volume_count.deep_view()
    &&& a.youtube_video_id.deep_view() == b.youtube_video_id.deep_view()
}

impl MangaAttributes {
    /// Encodes the value as a JSON object with the members it is decoded from.
    pub fn to_json(&self) -> (r: JsonValue)
        ensures
            r is Object,
            manga_attributes_is(r, *self),
    {
        let mut es: Vec<(String, JsonValue)> = Vec::new();
        es.push((
            String::from_str("abbreviatedTitles"),
            opt_strings_json(&self.abbreviated_titles),
        ));
        es.push((String::from_str("averageRating"), opt_str_json(&self.average_rating)));
        es.push((String::from_str("canonicalTitle"), str_json(&self.canonical_title)));
        es.push((String::from_str("chapterCount"), opt_nat_json(self.chapter_count)));
        es.push((
            String::from_str("coverImage"),
            match &self.cover_image {
                Some(v) => v.to_json(),
                None => JsonValue::Null,
            },
        ));
        es.push((
            String::from_str("coverImageTopOffset"),
            nat_json(self.cover_image_top_offset as u64),
        ));
        es.push((String::from_str("endDate"), opt_str_json(&self.end_date)));
        es.push((
            String::from_str("mangaType"),
            JsonValue::Str(String::from_str(self.kind.tag_text())),
        ));
        es.push((
            String::from_str("popularityRank"),
            opt_nat_json(match self.popularity_rank { Some(n) => Some(n as u64), None => None }),
        ));
        es.push((String::from_str("posterImage"), self.poster_image.to_json()));
        es.push((String::from_str("ratingFrequencies"), self.rating_frequencies.to_json()));
        es.push((
            String::from_str("ratingRank"),
            opt_nat_json(match self.rating_rank { Some(n) => Some(n as u64), None => None }),
        ));
        es.push((String::from_str("serialization"), opt_str_json(&self.serialization)));
        es.push((String::from_str("slug"), str_json(&self.slug)));
        es.push((String::from_str("startDate"), opt_str_json(&self.start_date)));
        es.push((String::from_str("synopsis"), str_json(&self.synopsis)));
        es.push((String::from_str("titles"), self.titles.to_json()));
        es.push((String::from_str("volumeCount"), opt_nat_json(self.volume_count)));
        es.push((String::from_str("youtubeVideoId"), opt_str_json(&self.youtube_video_id)));
        proof {
            reveal_strlit("abbreviatedTitles");
            reveal_strlit("averageRating");
            reveal_strlit("canonicalTitle");
            reveal_strlit("chapterCount");
            reveal_strlit("coverImage");
            reveal_strlit("coverImageTopOffset");
            reveal_strlit("endDate");
            reveal_strlit("mangaType");
            reveal_strlit("popularityRank");
            reveal_strlit("posterImage");
            reveal_strlit("ratingFrequencies");
            reveal_strlit("ratingRank");
            reveal_strlit("serialization");
            reveal_strlit("slug");
            reveal_strlit("startDate");
            reveal_strlit("synopsis");
            reveal_strlit("titles");
            reveal_strlit("volumeCount");
            reveal_strlit("youtubeVideoId");
            assert("abbreviatedTitles"@.len() == 17);
            assert("averageRating"@.len() == 13);
            assert("canonicalTitle"@.len() == 14);
            assert("chapterCount"@.len() == 12);
            assert("coverImage"@.len() == 10);
            assert("coverImageTopOffset"@.len() == 19);
            assert("endDate"@.len() == 7);
            assert("mangaType"@.len() == 9);
            assert("popularityRank"@.len() == 14);
            assert("posterImage"@.len() == 11);
            assert("ratingFrequencies"@.len() == 17);
            assert("ratingRank"@.len() == 10);
            assert("serialization"@.len() == 13);
            assert("slug"@.len() == 4);
            assert("startDate"@.len() == 9);
            assert("synopsis"@.len() == 8);
            assert("titles"@.len() == 6);
            assert("volumeCount"@.len() == 11);
            assert("youtubeVideoId"@.len() == 14);
            assert("abbreviatedTitles"@[0] == 'a');
            assert("ratingFrequencies"@[0] == 'r');
            assert("averageRating"@[0] == 'a');
            assert("serialization"@[0] == 's');
            assert("canonicalTitle"@[0] == 'c');
            assert("popularityRank"@[0] == 'p');
            assert("youtubeVideoId"@[0] == 'y');
            assert("coverImage"@[0] == 'c');
            assert("ratingRank"@[0] == 'r');
            assert("mangaType"@[0] == 'm');
            assert("startDate"@[0] == 's');
            assert("posterImage"@[0] == 'p');
            assert("volumeCount"@[0] == 'v');
        }
        JsonValue::Object(es)
    }
}

/// The JSON of a `MangaAttributes` determines every field of the value decoded from it.
pub proof fn lemma_manga_attributes_unique(
    j: JsonValue,
    a: MangaAttributes,
    b: MangaAttributes,
)
    requires
        manga_attributes_is(j, a),
        manga_attributes_is(j, b),
    ensures
        manga_attributes_same(a, b),
{
        if a.abbreviated_titles is Some && b.abbreviated_titles is Some {
            lemma_strings_unique(
                field(j,
                "abbreviatedTitles"@),
                a.abbreviated_titles->0,
                b.abbreviated_titles->0,
            );
        }
        if a.cover_image is Some && b.cover_image is Some {
            lemma_cover_image_unique(
                field(j,
                "coverImage"@)->0,
                a.cover_image->0,
                b.cover_image->0,
            );
        }
        lemma_manga_type_tags(a.kind, b.kind);
        lemma_image_unique(field(j, "posterImage"@)->0, a.poster_image, b.poster_image);
        lemma_rating_frequencies_unique(
            field(j,
            "ratingFrequencies"@)->0,
            a.rating_frequencies,
            b.rating_frequencies,
        );
        lemma_manga_titles_unique(field(j, "titles"@)->0, a.titles, b.titles);
}

/// `a` and `b` have the same field values: the same characters in each string,
/// the same items in each list, the same numbers and the same variants.
pub open spec fn user_attributes_same(a: UserAttributes, b: UserAttributes) -> bool {
    &&& a.about.deep_view() == b.about.deep_view()
    &&& a.about_formatted.deep_view() == b.about_formatted.deep_view()
    &&& match (a.avatar, b.avatar) {
        (Some(x), Some(y)) => image_same(x, y),
        (None, None) => true,
        _ => false,
    }
    &&& a.bio.deep_view() == b.bio.deep_view()
    &&& a.birthday.deep_view() == b.birthday.deep_view()
    &&& a.comments_count.deep_view() == b.comments_count.deep_view()
    &&& match (a.cover_image, b.cover_image) {
        (Some(x), Some(y)) => image_same(x, y),
        (None, None) => true,
        _ => false,
    }
    &&& a.created_at.deep_view() == b.created_at.deep_view()
    &&& a.facebook_id.deep_view() == b.facebook_id.deep_view()
    &&& a.favorites_count.deep_view() == b.favorites_count.deep_view()
    &&& a.feed_completed.deep_view() == b.feed_completed.deep_view()
    &&& a.followers_count.deep_view() == b.followers_count.deep_view()
    &&& a.following_count.deep_view() == b.following_count.deep_view()
    &&& a.gender.deep_view() == b.gender.deep_view()
    &&& a.life_spent_on_anime.deep_view() == b.life_spent_on_anime.deep_view()
    &&& a.likes_given_count.deep_view() == b.likes_given_count.deep_view()
    &&& a.likes_received_count.deep_view() == b.likes_received_count.deep_view()
    &&& a.location.deep_view() == b.location.deep_view()
    &&& a.name.deep_view() == b.name.deep_view()
    &&& a.past_names.deep_view() == b.past_names.deep_view()
    &&& a.posts_count.deep_view() == b.posts_count.deep_view()
    &&& a.profile_completed.deep_view() == b.profile_completed.deep_view()
    &&& a.pro_expires_at.deep_view() == b.pro_expires_at.deep_view()
    &&& a.ratings_count.deep_view() == b.ratings_count.deep_view()
    &&& a.reviews_count.deep_view() == b.reviews_count.deep_view()
    &&& a.title.deep_view() == b.title.deep_view()
    &&& a.updated_at.deep_view() == b.updated_at.deep_view()
    &&& a.waifu_or_husbando == b.waifu_or_husbando
    &&& a.website.deep_view() == b.website.deep_view()
}

impl UserAttributes {
    /// Encodes the value as a JSON object with the members it is decoded from.
    pub fn to_json(&self) -> (r: JsonValue)
        ensures
            r is Object,
            user_attributes_is(r, *self),
    {
        let mut es: Vec<(String, JsonValue)> = Vec::new();
        es.push((String::from_str("about"), str_json(&self.about)));
        es.push((String::from_str("aboutFormatted"), opt_str_json(&self.about_formatted)));
        es.push((
            String::from_str("avatar"),
            match &self.avatar {
                Some(v) => v.to_json(),
                None => JsonValue::Null,
            },
        ));
        es.push((String::from_str("bio"), opt_str_json(&self.bio)));
        es.push((String::from_str("birthday"), opt_str_json(&self.birthday)));
        es.push((String::from_str("commentsCount"), nat_json(self.comments_count as u64)));
        es.push((
            String::from_str("coverImage"),
            match &self.cover_image {
                Some(v) => v.to_json(),
                None => JsonValue::Null,
            },
        ));
        es.push((String::from_str("createdAt"), str_json(&self.created_at)));
        es.push((String::from_str("facebookId"), opt_str_json(&self.facebook_id)));
        es.push((String::from_str("favoritesCount"), nat_json(self.favorites_count as u64)));
        es.push((String::from_str("feedCompleted"), JsonValue::Bool(self.feed_completed)));
        es.push((String::from_str("followersCount"), nat_json(self.followers_count as u64)));
        es.push((String::from_str("followingCount"), nat_json(self.following_count as u64)));
        es.push((String::from_str("gender"), opt_str_json(&self.gender)));
        es.push((String::from_str("lifeSpentOnAnime"), nat_json(self.life_spent_on_anime as u64)));
        es.push((String::from_str("likesGivenCount"), nat_json(self.likes_given_count as u64)));
        es.push((
            String::from_str("likesReceivedCount"),
            nat_json(self.likes_received_count as u64),
        ));
        es.push((String::from_str("location"), opt_str_json(&self.location)));
        es.push((String::from_str("name"), str_json(&self.name)));
        es.push((String::from_str("pastNames"), strings_json(&self.past_names)));
        es.push((String::from_str("postsCount"), nat_json(self.posts_count as u64)));
        es.push((String::from_str("profileCompleted"), JsonValue::Bool(self.profile_completed)));
        es.push((String::from_str("proExpiresAt"), opt_str_json(&self.pro_expires_at)));
        es.push((String::from_str("ratingsCount"), nat_json(self.ratings_count as u64)));
        es.push((String::from_str("reviewsCount"), nat_json(self.reviews_count as u64)));
        es.push((String::from_str("title"), opt_str_json(&self.title)));
        es.push((String::from_str("updatedAt"), str_json(&self.updated_at)));
        es.push((
            String::from_str("waifuOrHusbando"),
            match self.waifu_or_husbando {
                Some(a) => JsonValue::Str(String::from_str(a.tag_text())),
                None => JsonValue::Null,
            },
        ));
        es.push((String::from_str("website"), opt_str_json(&self.website)));
        proof {
            reveal_strlit("about");
            reveal_strlit("aboutFormatted");
            reveal_strlit("avatar");
            reveal_strlit("bio");
            reveal_strlit("birthday");
            reveal_strlit("commentsCount");
            reveal_strlit("coverImage");
            reveal_strlit("createdAt");
            reveal_strlit("facebookId");
            reveal_strlit("favoritesCount");
            reveal_strlit("feedCompleted");
            reveal_strlit("followersCount");
            reveal_strlit("followingCount");
            reveal_strlit("gender");
            reveal_strlit("lifeSpentOnAnime");
            reveal_strlit("likesGivenCount");
            reveal_strlit("likesReceivedCount");
            reveal_strlit("location");
            reveal_strlit("name");
            reveal_strlit("pastNames");
            reveal_strlit("postsCount");
            reveal_strlit("profileCompleted");
            reveal_strlit("proExpiresAt");
            reveal_strlit("ratingsCount");
            reveal_strlit("reviewsCount");
            reveal_strlit("title");
            reveal_strlit("updatedAt");
            reveal_strlit("waifuOrHusbando");
            reveal_strlit("website");
            assert("about"@.len() == 5);
            assert("aboutFormatted"@.len() == 14);
            assert("avatar"@.len() == 6);
            assert("bio"@.len() == 3);
            assert("birthday"@.len() == 8);
            assert("commentsCount"@.len() == 13);
            assert("coverImage"@.len() == 10);
            assert("createdAt"@.len() == 9);
            assert("facebookId"@.len() == 10);
            assert("favoritesCount"@.len() == 14);
            assert("feedCompleted"@.len() == 13);
            assert("followersCount"@.len() == 14);
            assert("followingCount"@.len() == 14);
            assert("gender"@.len() == 6);
            assert("lifeSpentOnAnime"@.len() == 16);
            assert("likesGivenCount"@.len() == 15);
            assert("likesReceivedCount"@.len() == 18);
            assert("location"@.len() == 8);
            assert("name"@.len() == 4);
            assert("pastNames"@.len() == 9);
            assert("postsCount"@.len() == 10);
            assert("profileCompleted"@.len() == 16);
            assert("proExpiresAt"@.len() == 12);
            assert("ratingsCount"@.len() == 12);
            assert("reviewsCount"@.len() == 12);
            assert("title"@.len() == 5);
            assert("updatedAt"@.len() == 9);
            assert("waifuOrHusbando"@.len() == 15);
            assert("website"@.len() == 7);
            assert("about"@[0] == 'a');
            assert("title"@[0] == 't');
            assert("aboutFormatted"@[0] == 'a');
            assert("favoritesCount"@[0] == 'f');
            assert("followersCount"@[0] == 'f');
            assert("followingCount"@[0] == 'f');
            assert("avatar"@[0] == 'a');
            assert("gender"@[0] == 'g');
            assert("birthday"@[0] == 'b');
            assert("location"@[0] == 'l');
            assert("commentsCount"@[0] == 'c');
            assert("feedCompleted"@[0] == 'f');
            assert("coverImage"@[0] == 'c');
            assert("facebookId"@[0] == 'f');
            assert("postsCount"@[0] == 'p');
            assert("createdAt"@[0] == 'c');
            assert("pastNames"@[0] == 'p');
            assert("updatedAt"@[0] == 'u');
            assert("favoritesCount"@[1] == 'a');
            assert("followersCount"@[1] == 'o');
            assert("followingCount"@[1] == 'o');
            assert("followersCount"@[6] == 'e');
            assert("followingCount"@[6] == 'i');
            assert("lifeSpentOnAnime"@[0] == 'l');
            assert("profileCompleted"@[0] == 'p');
            assert("likesGivenCount"@[0] == 'l');
            assert("waifuOrHusbando"@[0] == 'w');
            assert("proExpiresAt"@[0] == 'p');
            assert("ratingsCount"@[0] == 'r');
            assert("reviewsCount"@[0] == 'r');
            assert("ratingsCount"@[1] == 'a');
            assert("reviewsCount"@[1] == 'e');
        }
        JsonValue::Object(es)
    }
}

/// The JSON of an `UserAttributes` determines every field of the value decoded from it.
pub proof fn lemma_user_attributes_unique(
    j: JsonValue,
    a: UserAttributes,
    b: UserAttributes,
)
    requires
        user_attributes_is(j, a),
        user_attributes_is(j, b),
    ensures
        user_attributes_same(a, b),
{
        if a.avatar is Some && b.avatar is Some {
            lemma_image_unique(field(j, "avatar"@)->0, a.avatar->0, b.avatar->0);
        }
        if a.cover_image is Some && b.cover_image is Some {
            lemma_image_unique(field(j, "coverImage"@)->0, a.cover_image->0, b.cover_image->0);
        }
        lemma_strings_unique(field(j, "pastNames"@), a.past_names, b.past_names);
        if a.waifu_or_husbando is Some && b.waifu_or_husbando is Some {
            lemma_waifu_or_husbando_tags(a.waifu_or_husbando->0, b.waifu_or_husbando->0);
        }
}

/// `a` and `b` have the same field values: the same characters in each string,
/// the same items in each list, the same numbers and the same variants.
pub open spec fn anime_same(a: Anime, b: Anime) -> bool {
    &&& anime_attributes_same(a.attributes, b.attributes)
    &&& a.id.deep_view() == b.id.deep_view()
    &&& a.kind == b.kind
    &&& a.links.deep_view() == b.links.deep_view()
    &&& anime_relationships_same(a.relationships, b.relationships)
}

impl Anime {
    /// Encodes the value as a JSON object with the members it is decoded from.
    pub fn to_json(&self) -> (r: JsonValue)
        requires
            keys_unique(self.links@),
        ensures
            r is Object,
            anime_is(r, *self),
    {
        let mut es: Vec<(String, JsonValue)> = Vec::new();
        es.push((String::from_str("attributes"), self.attributes.to_json()));
        es.push((String::from_str("id"), str_json(&self.id)));
        es.push((String::from_str("type"), JsonValue::Str(String::from_str(self.kind.tag_text()))));
        es.push((String::from_str("links"), string_map_json(&self.links)));
        es.push((String::from_str("relationships"), self.relationships.to_json()));
        proof {
            reveal_strlit("attributes");
            reveal_strlit("id");
            reveal_strlit("type");
            reveal_strlit("links");
            reveal_strlit("relationships");
            assert("attributes"@.len() == 10);
            assert("id"@.len() == 2);
            assert("type"@.len() == 4);
            assert("links"@.len() == 5);
            assert("relationships"@.len() == 13);
        }
        JsonValue::Object(es)
    }
}

/// The JSON of an `Anime` determines every field of the value decoded from it.
pub proof fn lemma_anime_unique(
    j: JsonValue,
    a: Anime,
    b: Anime,
)
    requires
        anime_is(j, a),
        anime_is(j, b),
    ensures
        anime_same(a, b),
{
        lemma_anime_attributes_unique(field(j, "attributes"@)->0, a.attributes, b.attributes);
        lemma_type_tags(a.kind, b.kind);
        lemma_string_map_unique(field(j, "links"@), a.links, b.links);
        lemma_anime_relationships_unique(
            field(j,
            "relationships"@)->0,
            a.relationships,
            b.relationships,
        );
}

/// `a` and `b` have the same field values: the same characters in each string,
/// the same items in each list, the same numbers and the same variants.
pub open spec fn manga_same(a: Manga, b: Manga) -> bool {
    &&& manga_attributes_same(a.attributes, b.attributes)
    &&& a.id.deep_view() == b.id.deep_view()
    &&& a.kind == b.kind
    &&& a.links.deep_view() == b.links.deep_view()
}

impl Manga {
    /// Encodes the value as a JSON object with the members it is decoded from.
    pub fn to_json(&self) -> (r: JsonValue)
        requires
            keys_unique(self.links@),
        ensures
            r is Object,
            manga_is(r, *self),
    {
        let mut es: Vec<(String, JsonValue)> = Vec::new();
        es.push((String::from_str("attributes"), self.attributes.to_json()));
        es.push((String::from_str("id"), str_json(&self.id)));
        es.push((String::from_str("type"), JsonValue::Str(String::from_str(self.kind.tag_text()))));
        es.push((String::from_str("links"), string_map_json(&self.links)));
        proof {
            reveal_strlit("attributes");
            reveal_strlit("id");
            reveal_strlit("type");
            reveal_strlit("links");
            assert("attributes"@.len() == 10);
            assert("id"@.len() == 2);
            assert("type"@.len() == 4);
            assert("links"@.len() == 5);
        }
        JsonValue::Object(es)
    }
}

/// The JSON of a `Manga` determines every field of the value decoded from it.
pub proof fn lemma_manga_unique(
    j: JsonValue,
    a: Manga,
    b: Manga,
)
    requires
        manga_is(j, a),
        manga_is(j, b),
    ensures
        manga_same(a, b),
{
        lemma_manga_attributes_unique(field(j, "attributes"@)->0, a.attributes, b.attributes);
        lemma_type_tags(a.kind, b.kind);
        lemma_string_map_unique(field(j, "links"@), a.links, b.links);
}

/// `a` and `b` have the same field values: the same characters in each string,
/// the same items in each list, the same numbers and the same variants.
pub open spec fn user_same(a: User, b: User) -> bool {
    &&& user_attributes_same(a.attributes, b.attributes)
    &&& a.id.deep_view() == b.id.deep_view()
    &&& a.kind == b.kind
    &&& a.links.deep_view() == b.links.deep_view()
    &&& user_relationships_same(a.relationships, b.relationships)
}

impl User {
    /// Encodes the value as a JSON object with the members it is decoded from.
    pub fn to_json(&self) -> (r: JsonValue)
        requires
            keys_unique(self.links@),
        ensures
            r is Object,
            user_is(r, *self),
    {
        let mut es: Vec<(String, JsonValue)> = Vec::new();
        es.push((String::from_str("attributes"), self.attributes.to_json()));
        es.push((String::from_str("id"), str_json(&self.id)));
        es.push((String::from_str("type"), JsonValue::Str(String::from_str(self.kind.tag_text()))));
        es.push((String::from_str("links"), string_map_json(&self.links)));
        es.push((String::from_str("relationships"), self.relationships.to_json()));
        proof {
            reveal_strlit("attributes");
            reveal_strlit("id");
            reveal_strlit("type");
            reveal_strlit("links");
            reveal_strlit("relationships");
            assert("attributes"@.len() == 10);
            assert("id"@.len() == 2);
            assert("type"@.len() == 4);
            assert("links"@.len() == 5);
            assert("relationships"@.len() == 13);
        }
        JsonValue::Object(es)
    }
}

/// The JSON of an `User` determines every field of the value decoded from it.
pub proof fn lemma_user_unique(
    j: JsonValue,
    a: User,
    b: User,
)
    requires
        user_is(j, a),
        user_is(j, b),
    ensures
        user_same(a, b),
{
        lemma_user_attributes_unique(field(j, "attributes"@)->0, a.attributes, b.attributes);
        lemma_type_tags(a.kind, b.kind);
        lemma_string_map_unique(field(j, "links"@), a.links, b.links);
        lemma_user_relationships_unique(
            field(j,
            "relationships"@)->0,
            a.relationships,
            b.relationships,
        );
}

/// Round trip: the encoding `j` of an anime `a` (what `a.to_json()` returns) decodes,
/// and whatever it decodes to has the same field values as `a`.
pub proof fn lemma_anime_round_trip(a: Anime, j: JsonValue)
    requires
        anime_is(j, a),
    ensures
        exists|b: Anime| anime_is(j, b),
        forall|b: Anime| anime_is(j, b) ==> anime_same(a, b),
{
    assert forall|b: Anime| anime_is(j, b) implies anime_same(a, b) by {
        lemma_anime_unique(j, a, b);
    }
}

/// Round trip: the encoding `j` of a manga `a` (what `a.to_json()` returns) decodes,
/// and whatever it decodes to has the same field values as `a`.
pub proof fn lemma_manga_round_trip(a: Manga, j: JsonValue)
    requires
        manga_is(j, a),
    ensures
        exists|b: Manga| manga_is(j, b),
        forall|b: Manga| manga_is(j, b) ==> manga_same(a, b),
{
    assert forall|b: Manga| manga_is(j, b) implies manga_same(a, b) by {
        lemma_manga_unique(j, a, b);
    }
}

/// Round trip: the encoding `j` of a user `a` (what `a.to_json()` returns) decodes,
/// and whatever it decodes to has the same field values as `a`.
pub proof fn lemma_user_round_trip(a: User, j: JsonValue)
    requires
        user_is(j, a),
    ensures
        exists|b: User| user_is(j, b),
        forall|b: User| user_is(j, b) ==> user_same(a, b),
{
    assert forall|b: User| user_is(j, b) implies user_same(a, b) by {
        lemma_user_unique(j, a, b);
    }
}

/// `a` and `b` hold the same anime records, in the same order.
pub open spec fn anime_list_same(a: Vec<Anime>, b: Vec<Anime>) -> bool {
    &&& a@.len() == b@.len()
    &&& forall|i: int| 0 <= i < a@.len() ==> #[trigger] anime_same(a@[i], b@[i])
}

/// `a` and `b` are responses with the same field values.
pub open spec fn anime_response_same(a: Response<Anime>, b: Response<Anime>) -> bool {
    &&& anime_same(a.data, b.data)
    &&& a.links.deep_view() == b.links.deep_view()
}

/// `a` and `b` are search responses with the same field values.
pub open spec fn anime_list_response_same(a: Response<Vec<Anime>>, b: Response<Vec<Anime>>) -> bool {
    &&& anime_list_same(a.data, b.data)
    &&& a.links.deep_view() == b.links.deep_view()
}

/// Encodes anime records as a JSON array, in order.
pub fn anime_list_json(v: &Vec<Anime>) -> (r: JsonValue)
    requires
        forall|i: int| 0 <= i < v@.len() ==> keys_unique((#[trigger] v@[i]).links@),
    ensures
        anime_list_at(Some(r), *v),
{
    let mut items: Vec<JsonValue> = Vec::new();
    let mut i: usize = 0;
    while i < v.len()
        invariant
            i <= v@.len(),
            items@.len() == i,
            forall|k: int| 0 <= k < v@.len() ==> keys_unique((#[trigger] v@[k]).links@),
            forall|k: int| 0 <= k < i ==> #[trigger] anime_is(items@[k], v@[k]),
        decreases v@.len() - i,
    {
        items.push(v[i].to_json());
        i = i + 1;
    }
    JsonValue::Array(items)
}

/// Encodes a response to a request for one anime as the JSON it is decoded from.
pub fn anime_response_json(x: &Response<Anime>) -> (r: JsonValue)
    requires
        keys_unique(x.data.links@),
        keys_unique(x.links@),
    ensures
        anime_response_is(r, *x),
{
    let mut es: Vec<(String, JsonValue)> = Vec::new();
    es.push((String::from_str("data"), x.data.to_json()));
    es.push((String::from_str("links"), string_map_json(&x.links)));
    proof {
        reveal_strlit("data");
        reveal_strlit("links");
        assert("data"@.len() == 4);
        assert("links"@.len() == 5);
    }
    JsonValue::Object(es)
}

/// Encodes a response to a search for anime records as the JSON it is decoded from.
pub fn anime_list_response_json(x: &Response<Vec<Anime>>) -> (r: JsonValue)
    requires
        forall|i: int| 0 <= i < x.data@.len() ==> keys_unique((#[trigger] x.data@[i]).links@),
        keys_unique(x.links@),
    ensures
        anime_list_response_is(r, *x),
{
    let mut es: Vec<(String, JsonValue)> = Vec::new();
    es.push((String::from_str("data"), anime_list_json(&x.data)));
    es.push((String::from_str("links"), string_map_json(&x.links)));
    proof {
        reveal_strlit("data");
        reveal_strlit("links");
        assert("data"@.len() == 4);
        assert("links"@.len() == 5);
    }
    JsonValue::Object(es)
}

/// The links member of an envelope determines the links decoded from it.
proof fn lemma_anime_envelope_links_unique(
    f: Option<JsonValue>,
    a: Vec<(String, String)>,
    b: Vec<(String, String)>,
)
    requires
        string_map_or_empty_is(f, a),
        string_map_or_empty_is(f, b),
    ensures
        a.deep_view() == b.deep_view(),
{
    if f is Some {
        lemma_string_map_unique(f, a, b);
    } else {
        assert(a.deep_view() =~= b.deep_view());
    }
}

/// Round trip of a response to a request for one anime: the encoding `j` of `a` (what
/// `anime_response_json(&a)` returns) decodes, and whatever it decodes to has the same
/// field values as `a`, its links included.
pub proof fn lemma_anime_response_round_trip(a: Response<Anime>, j: JsonValue)
    requires
        anime_response_is(j, a),
    ensures
        exists|b: Response<Anime>| anime_response_is(j, b),
        forall|b: Response<Anime>| anime_response_is(j, b) ==> anime_response_same(a, b),
{
    assert forall|b: Response<Anime>| anime_response_is(j, b) implies anime_response_same(a, b) by {
        lemma_anime_unique(field(j, "data"@)->0, a.data, b.data);
        lemma_anime_envelope_links_unique(field(j, "links"@), a.links, b.links);
    }
}

/// Round trip of a response to a search for anime records: the encoding `j` of `a` (what
/// `anime_list_response_json(&a)` returns) decodes, and whatever it decodes to has the
/// same records, in the same order, and the same links as `a`.
pub proof fn lemma_anime_list_response_round_trip(a: Response<Vec<Anime>>, j: JsonValue)
    requires
        anime_list_response_is(j, a),
    ensures
        exists|b: Response<Vec<Anime>>| anime_list_response_is(j, b),
        forall|b: Response<Vec<Anime>>|
            anime_list_response_is(j, b) ==> anime_list_response_same(a, b),
{
    assert forall|b: Response<Vec<Anime>>| anime_list_response_is(j, b) implies
        anime_list_response_same(a, b) by {
        let items = field(j, "data"@)->0->Array_0;
        assert forall|i: int| 0 <= i < a.data@.len() implies #[trigger] anime_same(
            a.data@[i],
            b.data@[i],
        ) by {
            assert(anime_is(items@[i], a.data@[i]));
            assert(anime_is(items@[i], b.data@[i]));
            lemma_anime_unique(items@[i], a.data@[i], b.data@[i]);
        }
        lemma_anime_envelope_links_unique(field(j, "links"@), a.links, b.links);
    }
}

/// `a` and `b` hold the same manga records, in the same order.
pub open spec fn manga_list_same(a: Vec<Manga>, b: Vec<Manga>) -> bool {
    &&& a@.len() == b@.len()
    &&& forall|i: int| 0 <= i < a@.len() ==> #[trigger] manga_same(a@[i], b@[i])
}

/// `a` and `b` are responses with the same field values.
pub open spec fn manga_response_same(a: Response<Manga>, b: Response<Manga>) -> bool {
    &&& manga_same(a.data, b.data)
    &&& a.links.deep_view() == b.links.deep_view()
}

/// `a` and `b` are search responses with the same field values.
pub open spec fn manga_list_response_same(a: Response<Vec<Manga>>, b: Response<Vec<Manga>>) -> bool {
    &&& manga_list_same(a.data, b.data)
    &&& a.links.deep_view() == b.links.deep_view()
}

/// Encodes manga records as a JSON array, in order.
pub fn manga_list_json(v: &Vec<Manga>) -> (r: JsonValue)
    requires
        forall|i: int| 0 <= i < v@.len() ==> keys_unique((#[trigger] v@[i]).links@),
    ensures
        manga_list_at(Some(r), *v),
{
    let mut items: Vec<JsonValue> = Vec::new();
    let mut i: usize = 0;
    while i < v.len()
        invariant
            i <= v@.len(),
            items@.len() == i,
            forall|k: int| 0 <= k < v@.len() ==> keys_unique((#[trigger] v@[k]).links@),
            forall|k: int| 0 <= k < i ==> #[trigger] manga_is(items@[k], v@[k]),
        decreases v@.len() - i,
    {
        items.push(v[i].to_json());
        i = i + 1;
    }
    JsonValue::Array(items)
}

/// Encodes a response to a request for one manga as the JSON it is decoded from.
pub fn manga_response_json(x: &Response<Manga>) -> (r: JsonValue)
    requires
        keys_unique(x.data.links@),
        keys_unique(x.links@),
    ensures
        manga_response_is(r, *x),
{
    let mut es: Vec<(String, JsonValue)> = Vec::new();
    es.push((String::from_str("data"), x.data.to_json()));
    es.push((String::from_str("links"), string_map_json(&x.links)));
    proof {
        reveal_strlit("data");
        reveal_strlit("links");
        assert("data"@.len() == 4);
        assert("links"@.len() == 5);
    }
    JsonValue::Object(es)
}

/// Encodes a response to a search for manga records as the JSON it is decoded from.
pub fn manga_list_response_json(x: &Response<Vec<Manga>>) -> (r: JsonValue)
    requires
        forall|i: int| 0 <= i < x.data@.len() ==> keys_unique((#[trigger] x.data@[i]).links@),
        keys_unique(x.links@),
    ensures
        manga_list_response_is(r, *x),
{
    let mut es: Vec<(String, JsonValue)> = Vec::new();
    es.push((String::from_str("data"), manga_list_json(&x.data)));
    es.push((String::from_str("links"), string_map_json(&x.links)));
    proof {
        reveal_strlit("data");
        reveal_strlit("links");
        assert("data"@.len() == 4);
        assert("links"@.len() == 5);
    }
    JsonValue::Object(es)
}

/// The links member of an envelope determines the links decoded from it.
proof fn lemma_manga_envelope_links_unique(
    f: Option<JsonValue>,
    a: Vec<(String, String)>,
    b: Vec<(String, String)>,
)
    requires
        string_map_or_empty_is(f, a),
        string_map_or_empty_is(f, b),
    ensures
        a.deep_view() == b.deep_view(),
{
    if f is Some {
        lemma_string_map_unique(f, a, b);
    } else {
        assert(a.deep_view() =~= b.deep_view());
    }
}

/// Round trip of a response to a request for one manga: the encoding `j` of `a` (what
/// `manga_response_json(&a)` returns) decodes, and whatever it decodes to has the same
/// field values as `a`, its links included.
pub proof fn lemma_manga_response_round_trip(a: Response<Manga>, j: JsonValue)
    requires
        manga_response_is(j, a),
    ensures
        exists|b: Response<Manga>| manga_response_is(j, b),
        forall|b: Response<Manga>| manga_response_is(j, b) ==> manga_response_same(a, b),
{
    assert forall|b: Response<Manga>| manga_response_is(j, b) implies manga_response_same(a, b) by {
        lemma_manga_unique(field(j, "data"@)->0, a.data, b.data);
        lemma_manga_envelope_links_unique(field(j, "links"@), a.links, b.links);
    }
}

/// Round trip of a response to a search for manga records: the encoding `j` of `a` (what
/// `manga_list_response_json(&a)` returns) decodes, and whatever it decodes to has the
/// same records, in the same order, and the same links as `a`.
pub proof fn lemma_manga_list_response_round_trip(a: Response<Vec<Manga>>, j: JsonValue)
    requires
        manga_list_response_is(j, a),
    ensures
        exists|b: Response<Vec<Manga>>| manga_list_response_is(j, b),
        forall|b: Response<Vec<Manga>>|
            manga_list_response_is(j, b) ==> manga_list_response_same(a, b),
{
    assert forall|b: Response<Vec<Manga>>| manga_list_response_is(j, b) implies
        manga_list_response_same(a, b) by {
        let items = field(j, "data"@)->0->Array_0;
        assert forall|i: int| 0 <= i < a.data@.len() implies #[trigger] manga_same(
            a.data@[i],
            b.data@[i],
        ) by {
            assert(manga_is(items@[i], a.data@[i]));
            assert(manga_is(items@[i], b.data@[i]));
            lemma_manga_unique(items@[i], a.data@[i], b.data@[i]);
        }
        lemma_manga_envelope_links_unique(field(j, "links"@), a.links, b.links);
    }
}

/// `a` and `b` hold the same user records, in the same order.
pub open spec fn user_list_same(a: Vec<User>, b: Vec<User>) -> bool {
    &&& a@.len() == b@.len()
    &&& forall|i: int| 0 <= i < a@.len() ==> #[trigger] user_same(a@[i], b@[i])
}

/// `a` and `b` are responses with the same field values.
pub open spec fn user_response_same(a: Response<User>, b: Response<User>) -> bool {
    &&& user_same(a.data, b.data)
    &&& a.links.deep_view() == b.links.deep_view()
}

/// `a` and `b` are search responses with the same field values.
pub open spec fn user_list_response_same(a: Response<Vec<User>>, b: Response<Vec<User>>) -> bool {
    &&& user_list_same(a.data, b.data)
    &&& a.links.deep_view() == b.links.deep_view()
}

/// Encodes user records as a JSON array, in order.
pub fn user_list_json(v: &Vec<User>) -> (r: JsonValue)
    requires
        forall|i: int| 0 <= i < v@.len() ==> keys_unique((#[trigger] v@[i]).links@),
    ensures
        user_list_at(Some(r), *v),
{
    let mut items: Vec<JsonValue> = Vec::new();
    let mut i: usize = 0;
    while i < v.len()
        invariant
            i <= v@.len(),
            items@.len() == i,
            forall|k: int| 0 <= k < v@.len() ==> keys_unique((#[trigger] v@[k]).links@),
            forall|k: int| 0 <= k < i ==> #[trigger] user_is(items@[k], v@[k]),
        decreases v@.len() - i,
    {
        items.push(v[i].to_json());
        i = i + 1;
    }
    JsonValue::Array(items)
}

/// Encodes a response to a request for one user as the JSON it is decoded from.
pub fn user_response_json(x: &Response<User>) -> (r: JsonValue)
    requires
        keys_unique(x.data.links@),
        keys_unique(x.links@),
    ensures
        user_response_is(r, *x),
{
    let mut es: Vec<(String, JsonValue)> = Vec::new();
    es.push((String::from_str("data"), x.data.to_json()));
    es.push((String::from_str("links"), string_map_json(&x.links)));
    proof {
        reveal_strlit("data");
        reveal_strlit("links");
        assert("data"@.len() == 4);
        assert("links"@.len() == 5);
    }
    JsonValue::Object(es)
}

/// Encodes a response to a search for user records as the JSON it is decoded from.
pub fn user_list_response_json(x: &Response<Vec<User>>) -> (r: JsonValue)
    requires
        forall|i: int| 0 <= i < x.data@.len() ==> keys_unique((#[trigger] x.data@[i]).links@),
        keys_unique(x.links@),
    ensures
        user_list_response_is(r, *x),
{
    let mut es: Vec<(String, JsonValue)> = Vec::new();
    es.push((String::from_str("data"), user_list_json(&x.data)));
    es.push((String::from_str("links"), string_map_json(&x.links)));
    proof {
        reveal_strlit("data");
        reveal_strlit("links");
        assert("data"@.len() == 4);
        assert("links"@.len() == 5);
    }
    JsonValue::Object(es)
}

/// The links member of an envelope determines the links decoded from it.
proof fn lemma_user_envelope_links_unique(
    f: Option<JsonValue>,
    a: Vec<(String, String)>,
    b: Vec<(String, String)>,
)
    requires
        string_map_or_empty_is(f, a),
        string_map_or_empty_is(f, b),
    ensures
        a.deep_view() == b.deep_view(),
{
    if f is Some {
        lemma_string_map_unique(f, a, b);
    } else {
        assert(a.deep_view() =~= b.deep_view());
    }
}

/// Round trip of a response to a request for one user: the encoding `j` of `a` (what
/// `user_response_json(&a)` returns) decodes, and whatever it decodes to has the same
/// field values as `a`, its links included.
pub proof fn lemma_user_response_round_trip(a: Response<User>, j: JsonValue)
    requires
        user_response_is(j, a),
    ensures
        exists|b: Response<User>| user_response_is(j, b),
        forall|b: Response<User>| user_response_is(j, b) ==> user_response_same(a, b),
{
    assert forall|b: Response<User>| user_response_is(j, b) implies user_response_same(a, b) by {
        lemma_user_unique(field(j, "data"@)->0, a.data, b.data);
        lemma_user_envelope_links_unique(field(j, "links"@), a.links, b.links);
    }
}

/// Round trip of a response to a search for user records: the encoding `j` of `a` (what
/// `user_list_response_json(&a)` returns) decodes, and whatever it decodes to has the
/// same records, in the same order, and the same links as `a`.
pub proof fn lemma_user_list_response_round_trip(a: Response<Vec<User>>, j: JsonValue)
    requires
        user_list_response_is(j, a),
    ensures
        exists|b: Response<Vec<User>>| user_list_response_is(j, b),
        forall|b: Response<Vec<User>>|
            user_list_response_is(j, b) ==> user_list_response_same(a, b),
{
    assert forall|b: Response<Vec<User>>| user_list_response_is(j, b) implies
        user_list_response_same(a, b) by {
        let items = field(j, "data"@)->0->Array_0;
        assert forall|i: int| 0 <= i < a.data@.len() implies #[trigger] user_same(
            a.data@[i],
            b.data@[i],
        ) by {
            assert(user_is(items@[i], a.data@[i]));
            assert(user_is(items@[i], b.data@[i]));
            lemma_user_unique(items@[i], a.data@[i], b.data@[i]);
        }
        lemma_user_envelope_links_unique(field(j, "links"@), a.links, b.links);
    }
}

} // verus!
