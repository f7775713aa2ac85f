//! The resource models, with the rules by which each is decoded from a JSON tree.
use vstd::prelude::*;

use crate::builder::push_decimal;
use crate::error::{Error, Result};
use crate::json::{
    bool_field, field, get_field, int_or_zero_field, int_or_zero_is, JsonValue, nat_field,
    nat_is, opt_nat_field, opt_nat_is, opt_str_is, opt_string_field, opt_strings_field,
    opt_strings_is, str_is, string_field, string_map_field, string_map_is, strings_field,
    string_map_or_empty_field, string_map_or_empty_is,
    strings_is, bool_is,
};

verus! {

/// Whether two strings hold the same characters.
pub fn same_text(a: &str, b: &str) -> (r: bool)
    ensures
        r == (a@ == b@),
{
    String::from_str(a) == String::from_str(b)
}

/// A decoded value, or the dotted path of the member, from where decoding started,
/// that is missing or does not have the expected shape (empty for the value itself).
pub type Decoded<T> = core::result::Result<T, String>;

/// The value in `o`, or, when there is none, the failure at the member `k`.
fn at<V>(o: Option<V>, k: &str) -> (r: Decoded<V>)
    ensures
        match o {
            Some(v) => r == Ok::<V, String>(v),
            None => r is Err,
        },
{
    match o {
        Some(v) => Ok(v),
        None => Err(String::from_str(k)),
    }
}

/// The path `p`, found inside the member `k`.
fn within(k: &str, p: String) -> String {
    let mut s = String::from_str(k);
    if !p.as_str().is_empty() {
        s.append(".");
        s.append(p.as_str());
    }
    s
}

/// The path `p`, found inside the item at `i`.
fn within_index(i: usize, p: String) -> String {
    let mut s = String::new();
    push_decimal(&mut s, i as u64);
    if !p.as_str().is_empty() {
        s.append(".");
        s.append(p.as_str());
    }
    s
}

/// `f` is a string whose characters are `t`.
pub open spec fn tag_is(f: Option<JsonValue>, t: Seq<char>) -> bool {
    f matches Some(JsonValue::Str(s)) && s@ == t
}

/// The age rating of an [`Anime`].
#[derive(Clone, Copy, Debug, PartialEq, Eq, Structural, PartialOrd, Ord, Hash)]
pub enum AgeRating {
    /// Rated G.
    G,
    /// Rated PG.
    PG,
    /// Rated PG-13.
    PG13,
    /// Rated R.
    R,
    /// Rated R17.
    R17,
    /// Rated R17+.
    R17Plus,
    /// Rated R18.
    R18,
    /// Rated R18+.
    R18Plus,
    /// Rated TV-Y7.
    TvY7,
}

impl AgeRating {
    /// The tag that stands for this rating in the service's JSON.
    pub open spec fn tag(self) -> Seq<char> {
        match self {
            AgeRating::G => "G"@,
            AgeRating::PG => "PG"@,
            AgeRating::PG13 => "PG-13"@,
            AgeRating::R => "R"@,
            AgeRating::R17 => "R17"@,
            AgeRating::R17Plus => "R17+"@,
            AgeRating::R18 => "R18"@,
            AgeRating::R18Plus => "R18+"@,
            AgeRating::TvY7 => "TV-Y7"@,
        }
    }

    /// The tag of this value, as text.
    pub fn tag_text(&self) -> (r: &'static str)
        ensures
            r@ == self.tag(),
    {
        match self {
            AgeRating::G => "G",
            AgeRating::PG => "PG",
            AgeRating::PG13 => "PG-13",
            AgeRating::R => "R",
            AgeRating::R17 => "R17",
            AgeRating::R17Plus => "R17+",
            AgeRating::R18 => "R18",
            AgeRating::R18Plus => "R18+",
            AgeRating::TvY7 => "TV-Y7",
        }
    }

    /// The name of the age rating, as the service writes it.
    pub fn name(&self) -> (r: Result<String>)
        ensures
            r matches Ok(s) && s@ == self.tag(),
    {
        Ok(String::from_str(self.tag_text()))
    }

    /// The rating whose tag is `s`, if any.
    pub fn from_name(s: &str) -> (r: Option<AgeRating>)
        ensures
            match r {
                Some(a) => a.tag() == s@,
                None => forall|a: AgeRating| a.tag() != s@,
            },
    {
        if same_text(s, "G") {
            Some(AgeRating::G)
        } else if same_text(s, "PG") {
            Some(AgeRating::PG)
        } else if same_text(s, "PG-13") {
            Some(AgeRating::PG13)
        } else if same_text(s, "R") {
            Some(AgeRating::R)
        } else if same_text(s, "R17") {
            Some(AgeRating::R17)
        } else if same_text(s, "R17+") {
            Some(AgeRating::R17Plus)
        } else if same_text(s, "R18") {
            Some(AgeRating::R18)
        } else if same_text(s, "R18+") {
            Some(AgeRating::R18Plus)
        } else if same_text(s, "TV-Y7") {
            Some(AgeRating::TvY7)
        } else {
            None
        }
    }
}

/// The airing status of an [`Anime`] or a [`Manga`].
#[derive(Clone, Copy, Debug, PartialEq, Eq, Structural)]
pub enum AiringStatus {
    /// Still airing.
    Airing,
    /// Finished airing.
    Finished,
}

impl AiringStatus {
    /// The name of the airing status.
    pub fn name(&self) -> (r: &str)
        ensures
            r@ == match self {
                AiringStatus::Airing => "airing"@,
                AiringStatus::Finished => "finished"@,
            },
    {
        match self {
            AiringStatus::Airing => "airing",
            AiringStatus::Finished => "finished",
        }
    }
}

/// The show format of an [`Anime`].
#[derive(Clone, Copy, Debug, PartialEq, Eq, Structural, PartialOrd, Ord, Hash)]
pub enum AnimeType {
    /// A movie.
    Movie,
    /// Music.
    Music,
    /// An Original Net Animation.
    ONA,
    /// An Original Video Animation.
    OVA,
    /// A special.
    Special,
    /// A TV show.
    TV,
}

impl AnimeType {
    /// The tag that stands for this type in the service's JSON.
    pub open spec fn tag(self) -> Seq<char> {
        match self {
            AnimeType::Movie => "movie"@,
            AnimeType::Music => "music"@,
            AnimeType::ONA => "ONA"@,
            AnimeType::OVA => "OVA"@,
            AnimeType::Special => "special"@,
            AnimeType::TV => "TV"@,
        }
    }

    /// The tag of this value, as text.
    pub fn tag_text(&self) -> (r: &'static str)
        ensures
            r@ == self.tag(),
    {
        match self {
            AnimeType::Movie => "movie",
            AnimeType::Music => "music",
            AnimeType::ONA => "ONA",
            AnimeType::OVA => "OVA",
            AnimeType::Special => "special",
            AnimeType::TV => "TV",
        }
    }

    /// The name of the anime type, as the service writes it.
    pub fn name(&self) -> (r: Result<String>)
        ensures
            r matches Ok(s) && s@ == self.tag(),
    {
        Ok(String::from_str(self.tag_text()))
    }

    /// The anime type whose tag is `s`, if any.
    pub fn from_name(s: &str) -> (r: Option<AnimeType>)
        ensures
            match r {
                Some(a) => a.tag() == s@,
                None => forall|a: AnimeType| a.tag() != s@,
            },
    {
        if same_text(s, "movie") {
            Some(AnimeType::Movie)
        } else if same_text(s, "music") {
            Some(AnimeType::Music)
        } else if same_text(s, "ONA") {
            Some(AnimeType::ONA)
        } else if same_text(s, "OVA") {
            Some(AnimeType::OVA)
        } else if same_text(s, "special") {
            Some(AnimeType::Special)
        } else if same_text(s, "TV") {
            Some(AnimeType::TV)
        } else {
            None
        }
    }
}

/// The publication format of a [`Manga`].
#[derive(Clone, Copy, Debug, PartialEq, Eq, Structural, PartialOrd, Ord, Hash)]
pub enum MangaType {
    /// A doujin.
    Doujin,
    /// A regular manga.
    Manga,
    /// A manhua.
    Manhua,
    /// A novel.
    Novel,
    /// A oneshot.
    Oneshot,
}

impl MangaType {
    /// The tag that stands for this type in the service's JSON.
    pub open spec fn tag(self) -> Seq<char> {
        match self {
            MangaType::Doujin => "doujin"@,
            MangaType::Manga => "manga"@,
            MangaType::Manhua => "manhua"@,
            MangaType::Novel => "novel"@,
            MangaType::Oneshot => "oneshot"@,
        }
    }

    /// The tag of this value, as text.
    pub fn tag_text(&self) -> (r: &'static str)
        ensures
            r@ == self.tag(),
    {
        match self {
            MangaType::Doujin => "doujin",
            MangaType::Manga => "manga",
            MangaType::Manhua => "manhua",
            MangaType::Novel => "novel",
            MangaType::Oneshot => "oneshot",
        }
    }

    /// The name of the manga type, as the service writes it.
    pub fn name(&self) -> (r: Result<String>)
        ensures
            r matches Ok(s) && s@ == self.tag(),
    {
        Ok(String::from_str(self.tag_text()))
    }

    /// The manga type whose tag is `s`, if any.
    pub fn from_name(s: &str) -> (r: Option<MangaType>)
        ensures
            match r {
                Some(a) => a.tag() == s@,
                None => forall|a: MangaType| a.tag() != s@,
            },
    {
        if same_text(s, "doujin") {
            Some(MangaType::Doujin)
        } else if same_text(s, "manga") {
            Some(MangaType::Manga)
        } else if same_text(s, "manhua") {
            Some(MangaType::Manhua)
        } else if same_text(s, "novel") {
            Some(MangaType::Novel)
        } else if same_text(s, "oneshot") {
            Some(MangaType::Oneshot)
        } else {
            None
        }
    }
}

/// The kind of a resource in a search or retrieval result.
#[derive(Clone, Copy, Debug, PartialEq, Eq, Structural, PartialOrd, Ord, Hash)]
pub enum Type {
    /// An [`Anime`].
    Anime,
    /// A drama.
    Drama,
    /// A [`Manga`].
    Manga,
    /// A [`User`].
    Users,
}

impl Type {
    /// The tag that stands for this kind in the service's JSON.
    pub open spec fn tag(self) -> Seq<char> {
        match self {
            Type::Anime => "anime"@,
            Type::Drama => "drama"@,
            Type::Manga => "manga"@,
            Type::Users => "users"@,
        }
    }

    /// The tag of this value, as text.
    pub fn tag_text(&self) -> (r: &'static str)
        ensures
            r@ == self.tag(),
    {
        match self {
            Type::Anime => "anime",
            Type::Drama => "drama",
            Type::Manga => "manga",
            Type::Users => "users",
        }
    }

    /// The name of the kind, as the service writes it.
    pub fn name(&self) -> (r: Result<String>)
        ensures
            r matches Ok(s) && s@ == self.tag(),
    {
        Ok(String::from_str(self.tag_text()))
    }

    /// The kind whose tag is `s`, if any.
    pub fn from_name(s: &str) -> (r: Option<Type>)
        ensures
            match r {
                Some(a) => a.tag() == s@,
                None => forall|a: Type| a.tag() != s@,
            },
    {
        if same_text(s, "anime") {
            Some(Type::Anime)
        } else if same_text(s, "drama") {
            Some(Type::Drama)
        } else if same_text(s, "manga") {
            Some(Type::Manga)
        } else if same_text(s, "users") {
            Some(Type::Users)
        } else {
            None
        }
    }
}

/// Whether a [`User`] has a waifu or a husbando.
#[derive(Clone, Copy, Debug, PartialEq, Eq, Structural, PartialOrd, Ord, Hash)]
pub enum WaifuOrHusbando {
    /// A husbando.
    Husbando,
    /// A waifu.
    Waifu,
}

impl WaifuOrHusbando {
    /// The tag that stands for this value in the service's JSON.
    pub open spec fn tag(self) -> Seq<char> {
        match self {
            WaifuOrHusbando::Husbando => "Husbando"@,
            WaifuOrHusbando::Waifu => "Waifu"@,
        }
    }

    /// The tag of this value, as text.
    pub fn tag_text(&self) -> (r: &'static str)
        ensures
            r@ == self.tag(),
    {
        match self {
            WaifuOrHusbando::Husbando => "Husbando",
            WaifuOrHusbando::Waifu => "Waifu",
        }
    }

    /// The name of the value, as the service writes it.
    pub fn name(&self) -> (r: Result<String>)
        ensures
            r matches Ok(s) && s@ == self.tag(),
    {
        Ok(String::from_str(self.tag_text()))
    }

    /// The value whose tag is `s`, if any.
    pub fn from_name(s: &str) -> (r: Option<WaifuOrHusbando>)
        ensures
            match r {
                Some(a) => a.tag() == s@,
                None => forall|a: WaifuOrHusbando| a.tag() != s@,
            },
    {
        if same_text(s, "Husbando") {
            Some(WaifuOrHusbando::Husbando)
        } else if same_text(s, "Waifu") {
            Some(WaifuOrHusbando::Waifu)
        } else {
            None
        }
    }
}

/// An optional `u32`, in `nat`.
pub open spec fn u32_nat(o: Option<u32>) -> Option<nat> {
    match o {
        Some(n) => Some(n as nat),
        None => None,
    }
}

/// An optional `u64`, in `nat`.
pub open spec fn u64_nat(o: Option<u64>) -> Option<nat> {
    match o {
        Some(n) => Some(n as nat),
        None => None,
    }
}

fn u16_field(j: &JsonValue, k: &str) -> (r: Option<u16>)
    ensures
        match r {
            Some(n) => nat_is(field(*j, k@), n as nat),
            None => forall|n: u16| !nat_is(field(*j, k@), n as nat),
        },
{
    let n = nat_field(j, k, 65535)?;
    Some(n as u16)
}

fn u64_field(j: &JsonValue, k: &str) -> (r: Option<u64>)
    ensures
        match r {
            Some(n) => nat_is(field(*j, k@), n as nat),
            None => forall|n: u64| !nat_is(field(*j, k@), n as nat),
        },
{
    nat_field(j, k, u64::MAX)
}

fn opt_u32_field(j: &JsonValue, k: &str) -> (r: Option<Option<u32>>)
    ensures
        match r {
            Some(o) => opt_nat_is(field(*j, k@), u32_nat(o)),
            None => forall|o: Option<u32>| !opt_nat_is(field(*j, k@), u32_nat(o)),
        },
{
    match opt_nat_field(j, k, 4294967295)? {
        Some(n) => Some(Some(n as u32)),
        None => Some(None),
    }
}

fn opt_u64_field(j: &JsonValue, k: &str) -> (r: Option<Option<u64>>)
    ensures
        match r {
            Some(o) => opt_nat_is(field(*j, k@), u64_nat(o)),
            None => forall|o: Option<u64>| !opt_nat_is(field(*j, k@), u64_nat(o)),
        },
{
    opt_nat_field(j, k, u64::MAX)
}

/// `f` is absent or null and `o` is `None`, or `f` is the tag of the rating in `o`.
pub open spec fn opt_age_rating_is(f: Option<JsonValue>, o: Option<AgeRating>) -> bool {
    match f {
        None => o is None,
        Some(JsonValue::Null) => o is None,
        Some(JsonValue::Str(t)) => o matches Some(a) && a.tag() == t@,
        _ => false,
    }
}

fn opt_age_rating_field(j: &JsonValue, k: &str) -> (r: Option<Option<AgeRating>>)
    ensures
        match r {
            Some(o) => opt_age_rating_is(field(*j, k@), o),
            None => forall|o: Option<AgeRating>| !opt_age_rating_is(field(*j, k@), o),
        },
{
    match get_field(j, k) {
        None => Some(None),
        Some(JsonValue::Null) => Some(None),
        Some(JsonValue::Str(t)) => Some(Some(AgeRating::from_name(t.as_str())?)),
        _ => None,
    }
}

/// `f` is absent or null and `o` is `None`, or `f` is the tag of the value in `o`.
pub open spec fn opt_waifu_is(f: Option<JsonValue>, o: Option<WaifuOrHusbando>) -> bool {
    match f {
        None => o is None,
        Some(JsonValue::Null) => o is None,
        Some(JsonValue::Str(t)) => o matches Some(a) && a.tag() == t@,
        _ => false,
    }
}

fn opt_waifu_field(j: &JsonValue, k: &str) -> (r: Option<Option<WaifuOrHusbando>>)
    ensures
        match r {
            Some(o) => opt_waifu_is(field(*j, k@), o),
            None => forall|o: Option<WaifuOrHusbando>| !opt_waifu_is(field(*j, k@), o),
        },
{
    match get_field(j, k) {
        None => Some(None),
        Some(JsonValue::Null) => Some(None),
        Some(JsonValue::Str(t)) => Some(Some(WaifuOrHusbando::from_name(t.as_str())?)),
        _ => None,
    }
}

fn anime_type_field(j: &JsonValue, k: &str) -> (r: Option<AnimeType>)
    ensures
        match r {
            Some(a) => tag_is(field(*j, k@), a.tag()),
            None => forall|a: AnimeType| !tag_is(field(*j, k@), a.tag()),
        },
{
    match get_field(j, k) {
        Some(JsonValue::Str(t)) => AnimeType::from_name(t.as_str()),
        _ => None,
    }
}

fn manga_type_field(j: &JsonValue, k: &str) -> (r: Option<MangaType>)
    ensures
        match r {
            Some(a) => tag_is(field(*j, k@), a.tag()),
            None => forall|a: MangaType| !tag_is(field(*j, k@), a.tag()),
        },
{
    match get_field(j, k) {
        Some(JsonValue::Str(t)) => MangaType::from_name(t.as_str()),
        _ => None,
    }
}

fn type_field(j: &JsonValue, k: &str) -> (r: Option<Type>)
    ensures
        match r {
            Some(a) => tag_is(field(*j, k@), a.tag()),
            None => forall|a: Type| !tag_is(field(*j, k@), a.tag()),
        },
{
    match get_field(j, k) {
        Some(JsonValue::Str(t)) => Type::from_name(t.as_str()),
        _ => None,
    }
}

/// Links of a media item to one set of related resources.
#[derive(Clone, Debug)]
pub struct Links {
    /// Link to the related resources.
    pub related: String,
    /// Direct link to the relationship itself (`self` in JSON).
    pub own: String,
}

/// `x` is what `j` decodes to as [`Links`].
pub open spec fn links_is(j: JsonValue, x: Links) -> bool {
    &&& str_is(field(j, "related"@), x.related)
    &&& str_is(field(j, "self"@), x.own)
}

impl Links {
    /// Decodes links from `j`.
    pub fn from_json(j: &JsonValue) -> (r: Decoded<Links>)
        ensures
            match r {
                Ok(x) => links_is(*j, x),
                Err(_) => forall|x: Links| !links_is(*j, x),
            },
    {
        let related = at(string_field(j, "related"), "related")?;
        let own = at(string_field(j, "self"), "self")?;
        Ok(Links { related, own })
    }
}

/// A relationship of a media item.
#[derive(Clone, Debug)]
pub struct Relationship {
    /// The links of the relationship.
    pub links: Links,
}

/// `x` is what `j` decodes to as a [`Relationship`].
pub open spec fn relationship_is(j: JsonValue, x: Relationship) -> bool {
    field(j, "links"@) matches Some(v) && links_is(v, x.links)
}

/// `f` is the JSON of the relationship `x`.
pub open spec fn rel_at(f: Option<JsonValue>, x: Relationship) -> bool {
    f matches Some(v) && relationship_is(v, x)
}

/// `f` is absent or null and `o` is `None`, or `f` is the JSON of the relationship in `o`.
pub open spec fn opt_rel_at(f: Option<JsonValue>, o: Option<Relationship>) -> bool {
    match f {
        None => o is None,
        Some(JsonValue::Null) => o is None,
        Some(v) => o matches Some(x) && relationship_is(v, x),
    }
}

impl Relationship {
    /// Decodes a relationship from `j`.
    pub fn from_json(j: &JsonValue) -> (r: Decoded<Relationship>)
        ensures
            match r {
                Ok(x) => relationship_is(*j, x),
                Err(_) => forall|x: Relationship| !relationship_is(*j, x),
            },
    {
        let links = match get_field(j, "links") {
            Some(v) => match Links::from_json(v) {
                Ok(x) => x,
                Err(p) => return Err(within("links", p)),
            },
            None => return Err(String::from_str("links")),
        };
        Ok(Relationship { links })
    }
}

fn rel_field(j: &JsonValue, k: &str) -> (r: Decoded<Relationship>)
    ensures
        match r {
            Ok(x) => rel_at(field(*j, k@), x),
            Err(_) => forall|x: Relationship| !rel_at(field(*j, k@), x),
        },
{
    match get_field(j, k) {
        Some(v) => match Relationship::from_json(v) {
            Ok(x) => Ok(x),
            Err(p) => Err(within(k, p)),
        },
        None => Err(String::from_str(k)),
    }
}

fn opt_rel_field(j: &JsonValue, k: &str) -> (r: Decoded<Option<Relationship>>)
    ensures
        match r {
            Ok(o) => opt_rel_at(field(*j, k@), o),
            Err(_) => forall|o: Option<Relationship>| !opt_rel_at(field(*j, k@), o),
        },
{
    match get_field(j, k) {
        None => Ok(None),
        Some(JsonValue::Null) => Ok(None),
        Some(v) => match Relationship::from_json(v) {
            Ok(x) => Ok(Some(x)),
            Err(p) => Err(within(k, p)),
        },
    }
}

/// Links to the sizes of a cover image.
#[derive(Clone, Debug)]
pub struct CoverImage {
    /// Link to the large copy.
    pub large: Option<String>,
    /// Link to the original copy.
    pub original: Option<String>,
    /// Link to the small copy.
    pub small: Option<String>,
}

/// `x` is what `j` decodes to as a [`CoverImage`].
pub open spec fn cover_image_is(j: JsonValue, x: CoverImage) -> bool {
    &&& opt_str_is(field(j, "large"@), x.large)
    &&& opt_str_is(field(j, "original"@), x.original)
    &&& opt_str_is(field(j, "small"@), x.small)
}

/// `f` is absent or null and `o` is `None`, or `f` is the JSON of the image in `o`.
pub open spec fn opt_cover_image_at(f: Option<JsonValue>, o: Option<CoverImage>) -> bool {
    match f {
        None => o is None,
        Some(JsonValue::Null) => o is None,
        Some(v) => o matches Some(x) && cover_image_is(v, x),
    }
}

/// `a` when it holds a value, else `b`.
pub open spec fn or_else(a: Option<String>, b: Option<String>) -> Option<String> {
    if a is Some {
        a
    } else {
        b
    }
}

impl CoverImage {
    /// Decodes a cover image from `j`.
    pub fn from_json(j: &JsonValue) -> (r: Decoded<CoverImage>)
        ensures
            match r {
                Ok(x) => cover_image_is(*j, x),
                Err(_) => forall|x: CoverImage| !cover_image_is(*j, x),
            },
    {
        let large = at(opt_string_field(j, "large"), "large")?;
        let original = at(opt_string_field(j, "original"), "original")?;
        let small = at(opt_string_field(j, "small"), "small")?;
        Ok(CoverImage { large, original, small })
    }

    /// The link to the largest copy there is: the original, else the large, else the
    /// small one.
    pub fn largest(&self) -> (r: Option<&String>)
        ensures
            match r {
                Some(s) => or_else(self.original, or_else(self.large, self.small)) == Some(*s),
                None => or_else(self.original, or_else(self.large, self.small)) is None,
            },
    {
        if let Some(s) = &self.original {
            Some(s)
        } else if let Some(s) = &self.large {
            Some(s)
        } else if let Some(s) = &self.small {
            Some(s)
        } else {
            None
        }
    }
}

fn opt_cover_image_field(j: &JsonValue, k: &str) -> (r: Decoded<Option<CoverImage>>)
    ensures
        match r {
            Ok(o) => opt_cover_image_at(field(*j, k@), o),
            Err(_) => forall|o: Option<CoverImage>| !opt_cover_image_at(field(*j, k@), o),
        },
{
    match get_field(j, k) {
        None => Ok(None),
        Some(JsonValue::Null) => Ok(None),
        Some(v) => match CoverImage::from_json(v) {
            Ok(x) => Ok(Some(x)),
            Err(p) => Err(within(k, p)),
        },
    }
}

/// Links to the sizes of an image.
#[derive(Clone, Debug)]
pub struct Image {
    /// Link to a large size.
    pub large: Option<String>,
    /// Link to a medium size.
    pub medium: Option<String>,
    /// Link to the original size.
    pub original: Option<String>,
    /// Link to a small size.
    pub small: Option<String>,
    /// Link to a tiny size.
    pub tiny: Option<String>,
}

/// `x` is what `j` decodes to as an [`Image`].
pub open spec fn image_is(j: JsonValue, x: Image) -> bool {
    &&& opt_str_is(field(j, "large"@), x.large)
    &&& opt_str_is(field(j, "medium"@), x.medium)
    &&& opt_str_is(field(j, "original"@), x.original)
    &&& opt_str_is(field(j, "small"@), x.small)
    &&& opt_str_is(field(j, "tiny"@), x.tiny)
}

/// `f` is the JSON of the image `x`.
pub open spec fn image_at(f: Option<JsonValue>, x: Image) -> bool {
    f matches Some(v) && image_is(v, x)
}

/// `f` is absent or null and `o` is `None`, or `f` is the JSON of the image in `o`.
pub open spec fn opt_image_at(f: Option<JsonValue>, o: Option<Image>) -> bool {
    match f {
        None => o is None,
        Some(JsonValue::Null) => o is None,
        Some(v) => o matches Some(x) && image_is(v, x),
    }
}

impl Image {
    /// Decodes an image from `j`.
    pub fn from_json(j: &JsonValue) -> (r: Decoded<Image>)
        ensures
            match r {
                Ok(x) => image_is(*j, x),
                Err(_) => forall|x: Image| !image_is(*j, x),
            },
    {
        let large = at(opt_string_field(j, "large"), "large")?;
        let medium = at(opt_string_field(j, "medium"), "medium")?;
        let original = at(opt_string_field(j, "original"), "original")?;
        let small = at(opt_string_field(j, "small"), "small")?;
        let tiny = at(opt_string_field(j, "tiny"), "tiny")?;
        Ok(Image { large, medium, original, small, tiny })
    }

    /// The first link there is among original, large, medium, small and tiny.
    pub open spec fn largest_spec(self) -> Option<String> {
        or_else(
            self.original,
            or_else(self.large, or_else(self.medium, or_else(self.small, self.tiny))),
        )
    }

    /// The link to the largest size there is: original, large, medium, small, then
    /// tiny.
    pub fn largest(&self) -> (r: Option<&String>)
        ensures
            match r {
                Some(s) => self.largest_spec() == Some(*s),
                None => self.largest_spec() is None,
            },
    {
        if let Some(s) = &self.original {
            Some(s)
        } else if let Some(s) = &self.large {
            Some(s)
        } else if let Some(s) = &self.medium {
            Some(s)
        } else if let Some(s) = &self.small {
            Some(s)
        } else if let Some(s) = &self.tiny {
            Some(s)
        } else {
            None
        }
    }
}

fn image_field(j: &JsonValue, k: &str) -> (r: Decoded<Image>)
    ensures
        match r {
            Ok(x) => image_at(field(*j, k@), x),
            Err(_) => forall|x: Image| !image_at(field(*j, k@), x),
        },
{
    match get_field(j, k) {
        Some(v) => match Image::from_json(v) {
            Ok(x) => Ok(x),
            Err(p) => Err(within(k, p)),
        },
        None => Err(String::from_str(k)),
    }
}

fn opt_image_field(j: &JsonValue, k: &str) -> (r: Decoded<Option<Image>>)
    ensures
        match r {
            Ok(o) => opt_image_at(field(*j, k@), o),
            Err(_) => forall|o: Option<Image>| !opt_image_at(field(*j, k@), o),
        },
{
    match get_field(j, k) {
        None => Ok(None),
        Some(JsonValue::Null) => Ok(None),
        Some(v) => match Image::from_json(v) {
            Ok(x) => Ok(Some(x)),
            Err(p) => Err(within(k, p)),
        },
    }
}

/// How many times each rating has been given to a media item; a rating absent from
/// the JSON counts zero.
#[derive(Clone, Copy, Debug)]
pub struct RatingFrequencies {
    /// Number of 0.0 star ratings given.
    pub rating_0_0: i64,
    /// Number of 0.5 star ratings given.
    pub rating_0_5: i64,
    /// Number of 1.0 star ratings given.
    pub rating_1_0: i64,
    /// Number of 1.5 star ratings given.
    pub rating_1_5: i64,
    /// Number of 2.0 star ratings given.
    pub rating_2_0: i64,
    /// Number of 2.5 star ratings given.
    pub rating_2_5: i64,
    /// Number of 3.0 star ratings given.
    pub rating_3_0: i64,
    /// Number of 3.5 star ratings given.
    pub rating_3_5: i64,
    /// Number of 4.0 star ratings given.
    pub rating_4_0: i64,
    /// Number of 4.5 star ratings given.
    pub rating_4_5: i64,
    /// Number of 5.0 star ratings given.
    pub rating_5_0: i64,
}

/// `x` is what `j` decodes to as [`RatingFrequencies`].
pub open spec fn rating_frequencies_is(j: JsonValue, x: RatingFrequencies) -> bool {
    &&& int_or_zero_is(field(j, "0.0"@), x.rating_0_0)
    &&& int_or_zero_is(field(j, "0.5"@), x.rating_0_5)
    &&& int_or_zero_is(field(j, "1.0"@), x.rating_1_0)
    &&& int_or_zero_is(field(j, "1.5"@), x.rating_1_5)
    &&& int_or_zero_is(field(j, "2.0"@), x.rating_2_0)
    &&& int_or_zero_is(field(j, "2.5"@), x.rating_2_5)
    &&& int_or_zero_is(field(j, "3.0"@), x.rating_3_0)
    &&& int_or_zero_is(field(j, "3.5"@), x.rating_3_5)
    &&& int_or_zero_is(field(j, "4.0"@), x.rating_4_0)
    &&& int_or_zero_is(field(j, "4.5"@), x.rating_4_5)
    &&& int_or_zero_is(field(j, "5.0"@), x.rating_5_0)
}

impl RatingFrequencies {
    /// Decodes rating frequencies from `j`.
    pub fn from_json(j: &JsonValue) -> (r: Decoded<RatingFrequencies>)
        ensures
            match r {
                Ok(x) => rating_frequencies_is(*j, x),
                Err(_) => forall|x: RatingFrequencies| !rating_frequencies_is(*j, x),
            },
    {
        let rating_0_0 = at(int_or_zero_field(j, "0.0"), "0.0")?;
        let rating_0_5 = at(int_or_zero_field(j, "0.5"), "0.5")?;
        let rating_1_0 = at(int_or_zero_field(j, "1.0"), "1.0")?;
        let rating_1_5 = at(int_or_zero_field(j, "1.5"), "1.5")?;
        let rating_2_0 = at(int_or_zero_field(j, "2.0"), "2.0")?;
        let rating_2_5 = at(int_or_zero_field(j, "2.5"), "2.5")?;
        let rating_3_0 = at(int_or_zero_field(j, "3.0"), "3.0")?;
        let rating_3_5 = at(int_or_zero_field(j, "3.5"), "3.5")?;
        let rating_4_0 = at(int_or_zero_field(j, "4.0"), "4.0")?;
        let rating_4_5 = at(int_or_zero_field(j, "4.5"), "4.5")?;
        let rating_5_0 = at(int_or_zero_field(j, "5.0"), "5.0")?;
        Ok(RatingFrequencies {
            rating_0_0,
            rating_0_5,
            rating_1_0,
            rating_1_5,
            rating_2_0,
            rating_2_5,
            rating_3_0,
            rating_3_5,
            rating_4_0,
            rating_4_5,
            rating_5_0,
        })
    }
}

/// The titles of an anime.
#[derive(Clone, Debug)]
pub struct AnimeTitles {
    /// The English title.
    pub en: Option<String>,
    /// The romaji title.
    pub en_jp: Option<String>,
    /// The Japanese title.
    pub ja_jp: Option<String>,
}

/// `x` is what `j` decodes to as [`AnimeTitles`].
pub open spec fn anime_titles_is(j: JsonValue, x: AnimeTitles) -> bool {
    &&& opt_str_is(field(j, "en"@), x.en)
    &&& opt_str_is(field(j, "en_jp"@), x.en_jp)
    &&& opt_str_is(field(j, "ja_jp"@), x.ja_jp)
}

impl AnimeTitles {
    /// Decodes anime titles from `j`.
    pub fn from_json(j: &JsonValue) -> (r: Decoded<AnimeTitles>)
        ensures
            match r {
                Ok(x) => anime_titles_is(*j, x),
                Err(_) => forall|x: AnimeTitles| !anime_titles_is(*j, x),
            },
    {
        let en = at(opt_string_field(j, "en"), "en")?;
        let en_jp = at(opt_string_field(j, "en_jp"), "en_jp")?;
        let ja_jp = at(opt_string_field(j, "ja_jp"), "ja_jp")?;
        Ok(AnimeTitles { en, en_jp, ja_jp })
    }
}

/// The titles of a manga.
#[derive(Clone, Debug)]
pub struct MangaTitles {
    /// The English title.
    pub en: Option<String>,
    /// The romaji title.
    pub en_jp: Option<String>,
}

/// `x` is what `j` decodes to as [`MangaTitles`].
pub open spec fn manga_titles_is(j: JsonValue, x: MangaTitles) -> bool {
    &&& opt_str_is(field(j, "en"@), x.en)
    &&& opt_str_is(field(j, "en_jp"@), x.en_jp)
}

impl MangaTitles {
    /// Decodes manga titles from `j`.
    pub fn from_json(j: &JsonValue) -> (r: Decoded<MangaTitles>)
        ensures
            match r {
                Ok(x) => manga_titles_is(*j, x),
                Err(_) => forall|x: MangaTitles| !manga_titles_is(*j, x),
            },
    {
        let en = at(opt_string_field(j, "en"), "en")?;
        let en_jp = at(opt_string_field(j, "en_jp"), "en_jp")?;
        Ok(MangaTitles { en, en_jp })
    }
}

/// The relationships of an [`Anime`].
#[derive(Clone, Debug)]
pub struct AnimeRelationships {
    /// The castings.
    pub castings: Relationship,
    /// The episodes.
    pub episodes: Relationship,
    /// The genres.
    pub genres: Relationship,
    /// The installments.
    pub installments: Relationship,
    /// The mappings.
    pub mappings: Relationship,
    /// The reviews.
    pub reviews: Relationship,
    /// The streaming links.
    pub streaming_links: Relationship,
}

/// `x` is what `j` decodes to as [`AnimeRelationships`].
pub open spec fn anime_relationships_is(j: JsonValue, x: AnimeRelationships) -> bool {
    &&& rel_at(field(j, "castings"@), x.castings)
    &&& rel_at(field(j, "episodes"@), x.episodes)
    &&& rel_at(field(j, "genres"@), x.genres)
    &&& rel_at(field(j, "installments"@), x.installments)
    &&& rel_at(field(j, "mappings"@), x.mappings)
    &&& rel_at(field(j, "reviews"@), x.reviews)
    &&& rel_at(field(j, "streamingLinks"@), x.streaming_links)
}

impl AnimeRelationships {
    /// Decodes the relationships from `j`.
    pub fn from_json(j: &JsonValue) -> (r: Decoded<AnimeRelationships>)
        ensures
            match r {
                Ok(x) => anime_relationships_is(*j, x),
                Err(_) => forall|x: AnimeRelationships| !anime_relationships_is(*j, x),
            },
    {
        let castings = rel_field(j, "castings")?;
        let episodes = rel_field(j, "episodes")?;
        let genres = rel_field(j, "genres")?;
        let installments = rel_field(j, "installments")?;
        let mappings = rel_field(j, "mappings")?;
        let reviews = rel_field(j, "reviews")?;
        let streaming_links = rel_field(j, "streamingLinks")?;
        Ok(AnimeRelationships {
            castings,
            episodes,
            genres,
            installments,
            mappings,
            reviews,
            streaming_links,
        })
    }
}

/// The relationships of a [`User`].
#[derive(Clone, Debug)]
pub struct UserRelationships {
    /// Users the user blocks.
    pub blocks: Relationship,
    /// The user's favorite media entries.
    pub favorites: Relationship,
    /// Users following the user.
    pub followers: Relationship,
    /// Users the user follows.
    pub following: Relationship,
    /// The user's library entries.
    pub library_entries: Relationship,
    /// Profiles linked to the user.
    pub linked_profiles: Option<Relationship>,
    /// Media the user follows.
    pub media_follows: Option<Relationship>,
    /// The post pinned on the user's profile.
    pub pinned_post: Relationship,
    /// The user's reviews.
    pub reviews: Relationship,
    /// The user's roles.
    pub user_roles: Relationship,
    /// The user's waifu or husbando.
    pub waifu: Relationship,
}

/// `x` is what `j` decodes to as [`UserRelationships`].
pub open spec fn user_relationships_is(j: JsonValue, x: UserRelationships) -> bool {
    &&& rel_at(field(j, "blocks"@), x.blocks)
    &&& rel_at(field(j, "favorites"@), x.favorites)
    &&& rel_at(field(j, "followers"@), x.followers)
    &&& rel_at(field(j, "following"@), x.following)
    &&& rel_at(field(j, "libraryEntries"@), x.library_entries)
    &&& opt_rel_at(field(j, "linkedProfiles"@), x.linked_profiles)
    &&& opt_rel_at(field(j, "mediaFollows"@), x.media_follows)
    &&& rel_at(field(j, "pinnedPost"@), x.pinned_post)
    &&& rel_at(field(j, "reviews"@), x.reviews)
    &&& rel_at(field(j, "userRoles"@), x.user_roles)
    &&& rel_at(field(j, "waifu"@), x.waifu)
}

impl UserRelationships {
    /// Decodes the relationships from `j`.
    pub fn from_json(j: &JsonValue) -> (r: Decoded<UserRelationships>)
        ensures
            match r {
                Ok(x) => user_relationships_is(*j, x),
                Err(_) => forall|x: UserRelationships| !user_relationships_is(*j, x),
            },
    {
        let blocks = rel_field(j, "blocks")?;
        let favorites = rel_field(j, "favorites")?;
        let followers = rel_field(j, "followers")?;
        let following = rel_field(j, "following")?;
        let library_entries = rel_field(j, "libraryEntries")?;
        let linked_profiles = opt_rel_field(j, "linkedProfiles")?;
        let media_follows = opt_rel_field(j, "mediaFollows")?;
        let pinned_post = rel_field(j, "pinnedPost")?;
        let reviews = rel_field(j, "reviews")?;
        let user_roles = rel_field(j, "userRoles")?;
        let waifu = rel_field(j, "waifu")?;
        Ok(UserRelationships {
            blocks,
            favorites,
            followers,
            following,
            library_entries,
            linked_profiles,
            media_follows,
            pinned_post,
            reviews,
            user_roles,
            waifu,
        })
    }
}

/// `f` is the JSON of `x`.
pub open spec fn rating_frequencies_at(f: Option<JsonValue>, x: RatingFrequencies) -> bool {
    f matches Some(v) && rating_frequencies_is(v, x)
}

fn rating_frequencies_field(j: &JsonValue, k: &str) -> (r: Decoded<RatingFrequencies>)
    ensures
        match r {
            Ok(x) => rating_frequencies_at(field(*j, k@), x),
            Err(_) => forall|x: RatingFrequencies| !rating_frequencies_at(field(*j, k@), x),
        },
{
    match get_field(j, k) {
        Some(v) => match RatingFrequencies::from_json(v) {
            Ok(x) => Ok(x),
            Err(p) => Err(within(k, p)),
        },
        None => Err(String::from_str(k)),
    }
}

/// `f` is the JSON of `x`.
pub open spec fn anime_titles_at(f: Option<JsonValue>, x: AnimeTitles) -> bool {
    f matches Some(v) && anime_titles_is(v, x)
}

fn anime_titles_field(j: &JsonValue, k: &str) -> (r: Decoded<AnimeTitles>)
    ensures
        match r {
            Ok(x) => anime_titles_at(field(*j, k@), x),
            Err(_) => forall|x: AnimeTitles| !anime_titles_at(field(*j, k@), x),
        },
{
    match get_field(j, k) {
        Some(v) => match AnimeTitles::from_json(v) {
            Ok(x) => Ok(x),
            Err(p) => Err(within(k, p)),
        },
        None => Err(String::from_str(k)),
    }
}

/// `f` is the JSON of `x`.
pub open spec fn manga_titles_at(f: Option<JsonValue>, x: MangaTitles) -> bool {
    f matches Some(v) && manga_titles_is(v, x)
}

fn manga_titles_field(j: &JsonValue, k: &str) -> (r: Decoded<MangaTitles>)
    ensures
        match r {
            Ok(x) => manga_titles_at(field(*j, k@), x),
            Err(_) => forall|x: MangaTitles| !manga_titles_at(field(*j, k@), x),
        },
{
    match get_field(j, k) {
        Some(v) => match MangaTitles::from_json(v) {
            Ok(x) => Ok(x),
            Err(p) => Err(within(k, p)),
        },
        None => Err(String::from_str(k)),
    }
}

/// `f` is the JSON of `x`.
pub open spec fn anime_relationships_at(f: Option<JsonValue>, x: AnimeRelationships) -> bool {
    f matches Some(v) && anime_relationships_is(v, x)
}

fn anime_relationships_field(j: &JsonValue, k: &str) -> (r: Decoded<AnimeRelationships>)
    ensures
        match r {
            Ok(x) => anime_relationships_at(field(*j, k@), x),
            Err(_) => forall|x: AnimeRelationships| !anime_relationships_at(field(*j, k@), x),
        },
{
    match get_field(j, k) {
        Some(v) => match AnimeRelationships::from_json(v) {
            Ok(x) => Ok(x),
            Err(p) => Err(within(k, p)),
        },
        None => Err(String::from_str(k)),
    }
}

/// `f` is the JSON of `x`.
pub open spec fn user_relationships_at(f: Option<JsonValue>, x: UserRelationships) -> bool {
    f matches Some(v) && user_relationships_is(v, x)
}

fn user_relationships_field(j: &JsonValue, k: &str) -> (r: Decoded<UserRelationships>)
    ensures
        match r {
            Ok(x) => user_relationships_at(field(*j, k@), x),
            Err(_) => forall|x: UserRelationships| !user_relationships_at(field(*j, k@), x),
        },
{
    match get_field(j, k) {
        Some(v) => match UserRelationships::from_json(v) {
            Ok(x) => Ok(x),
            Err(p) => Err(within(k, p)),
        },
        None => Err(String::from_str(k)),
    }
}

/// The link to the YouTube video whose id is `id`.
pub open spec fn youtube_link(id: Seq<char>) -> Seq<char> {
    "https://www.youtube.com/watch?v="@ + id
}

/// Builds the link to the YouTube video whose id is `id`.
pub fn youtube_url(id: &String) -> (r: String)
    ensures
        r@ == youtube_link(id@),
{
    let mut u = String::from_str("https://www.youtube.com/watch?v=");
    u.append(id.as_str());
    u
}

/// Information about an [`Anime`].
#[derive(Clone, Debug)]
pub struct AnimeAttributes {
    /// Shortened nicknames.
    pub abbreviated_titles: Option<Vec<String>>,
    /// The age rating.
    pub age_rating: Option<AgeRating>,
    /// Description of the age rating.
    pub age_rating_guide: Option<String>,
    /// The average of all user ratings, as text.
    pub average_rating: Option<String>,
    /// The canonical title.
    pub canonical_title: String,
    /// Links to the cover image.
    pub cover_image: Option<CoverImage>,
    /// The cover's offset from the top.
    pub cover_image_top_offset: u16,
    /// The date the anime finished airing.
    pub end_date: Option<String>,
    /// How many episodes it has.
    pub episode_count: Option<u32>,
    /// How many minutes an episode lasts.
    pub episode_length: Option<u32>,
    /// How many favourites it has.
    pub favourites_count: Option<u32>,
    /// The show format (`showType` in JSON).
    pub kind: AnimeType,
    /// Whether it is not safe for work.
    pub nsfw: bool,
    /// The rank by popularity.
    pub popularity_rank: Option<u32>,
    /// Links to the poster image.
    pub poster_image: Image,
    /// How many times each rating was given.
    pub rating_frequencies: RatingFrequencies,
    /// The rank by overall rating.
    pub rating_rank: Option<u32>,
    /// The unique slug used in page links.
    pub slug: String,
    /// The date the anime started airing.
    pub start_date: Option<String>,
    /// The sub type.
    pub sub_type: Option<String>,
    /// The synopsis.
    pub synopsis: String,
    /// The titles.
    pub titles: AnimeTitles,
    /// How many users have it in their library.
    pub user_count: Option<u32>,
    /// The id of a YouTube video.
    pub youtube_video_id: Option<String>,
}

/// `x` is what `j` decodes to as [`AnimeAttributes`].
pub open spec fn anime_attributes_is(j: JsonValue, x: AnimeAttributes) -> bool {
    &&& opt_strings_is(field(j, "abbreviatedTitles"@), x.abbreviated_titles)
    &&& opt_age_rating_is(field(j, "ageRating"@), x.age_rating)
    &&& opt_str_is(field(j, "ageRatingGuide"@), x.age_rating_guide)
    &&& opt_str_is(field(j, "averageRating"@), x.average_rating)
    &&& str_is(field(j, "canonicalTitle"@), x.canonical_title)
    &&& opt_cover_image_at(field(j, "coverImage"@), x.cover_image)
    &&& nat_is(field(j, "coverImageTopOffset"@), x.cover_image_top_offset as nat)
    &&& opt_str_is(field(j, "endDate"@), x.end_date)
    &&& opt_nat_is(field(j, "episodeCount"@), u32_nat(x.episode_count))
    &&& opt_nat_is(field(j, "episodeLength"@), u32_nat(x.episode_length))
    &&& opt_nat_is(field(j, "favouritesCount"@), u32_nat(x.favourites_count))
    &&& tag_is(field(j, "showType"@), x.kind.tag())
    &&& bool_is(field(j, "nsfw"@), x.nsfw)
    &&& opt_nat_is(field(j, "popularityRank"@), u32_nat(x.popularity_rank))
    &&& image_at(field(j, "posterImage"@), x.poster_image)
    &&& rating_frequencies_at(field(j, "ratingFrequencies"@), x.rating_frequencies)
    &&& opt_nat_is(field(j, "ratingRank"@), u32_nat(x.rating_rank))
    &&& str_is(field(j, "slug"@), x.slug)
    &&& opt_str_is(field(j, "startDate"@), x.start_date)
    &&& opt_str_is(field(j, "subType"@), x.sub_type)
    &&& str_is(field(j, "synopsis"@), x.synopsis)
    &&& anime_titles_at(field(j, "titles"@), x.titles)
    &&& opt_nat_is(field(j, "userCount"@), u32_nat(x.user_count))
    &&& opt_str_is(field(j, "youtubeVideoId"@), x.youtube_video_id)
}

impl AnimeAttributes {
    /// Decodes [`AnimeAttributes`] from `j`.
    pub fn from_json(j: &JsonValue) -> (r: Decoded<AnimeAttributes>)
        ensures
            match r {
                Ok(x) => anime_attributes_is(*j, x),
                Err(_) => forall|x: AnimeAttributes| !anime_attributes_is(*j, x),
            },
    {
        let abbreviated_titles = at(opt_strings_field(j, "abbreviatedTitles"), "abbreviatedTitles")?;
        let age_rating = at(opt_age_rating_field(j, "ageRating"), "ageRating")?;
        let age_rating_guide = at(opt_string_field(j, "ageRatingGuide"), "ageRatingGuide")?;
        let average_rating = at(opt_string_field(j, "averageRating"), "averageRating")?;
        let canonical_title = at(string_field(j, "canonicalTitle"), "canonicalTitle")?;
        let cover_image = opt_cover_image_field(j, "coverImage")?;
        let cover_image_top_offset = at(u16_field(j, "coverImageTopOffset"), "coverImageTopOffset")?;
        let end_date = at(opt_string_field(j, "endDate"), "endDate")?;
        let episode_count = at(opt_u32_field(j, "episodeCount"), "episodeCount")?;
        let episode_length = at(opt_u32_field(j, "episodeLength"), "episodeLength")?;
        let favourites_count = at(opt_u32_field(j, "favouritesCount"), "favouritesCount")?;
        let kind = at(anime_type_field(j, "showType"), "showType")?;
        let nsfw = at(bool_field(j, "nsfw"), "nsfw")?;
        let popularity_rank = at(opt_u32_field(j, "popularityRank"), "popularityRank")?;
        let poster_image = image_field(j, "posterImage")?;
        let rating_frequencies = rating_frequencies_field(j, "ratingFrequencies")?;
        let rating_rank = at(opt_u32_field(j, "ratingRank"), "ratingRank")?;
        let slug = at(string_field(j, "slug"), "slug")?;
        let start_date = at(opt_string_field(j, "startDate"), "startDate")?;
        let sub_type = at(opt_string_field(j, "subType"), "subType")?;
        let synopsis = at(string_field(j, "synopsis"), "synopsis")?;
        let titles = anime_titles_field(j, "titles")?;
        let user_count = at(opt_u32_field(j, "userCount"), "userCount")?;
        let youtube_video_id = at(opt_string_field(j, "youtubeVideoId"), "youtubeVideoId")?;
        Ok(AnimeAttributes {
            abbreviated_titles,
            age_rating,
            age_rating_guide,
            average_rating,
            canonical_title,
            cover_image,
            cover_image_top_offset,
            end_date,
            episode_count,
            episode_length,
            favourites_count,
            kind,
            nsfw,
            popularity_rank,
            poster_image,
            rating_frequencies,
            rating_rank,
            slug,
            start_date,
            sub_type,
            synopsis,
            titles,
            user_count,
            youtube_video_id,
        })
    }

    /// Whether the item is still airing: it is finished once it has an end date.
    pub fn airing_status(&self) -> (r: AiringStatus)
        ensures
            r == (if self.end_date is Some {
                AiringStatus::Finished
            } else {
                AiringStatus::Airing
            }),
    {
        if self.end_date.is_some() {
            AiringStatus::Finished
        } else {
            AiringStatus::Airing
        }
    }

    /// The link to the item's page on the site.
    pub fn url(&self) -> (r: String)
        ensures
            r@ == "https://kitsu.io/anime/"@ + self.slug@,
    {
        let mut u = String::from_str("https://kitsu.io/anime/");
        u.append(self.slug.as_str());
        u
    }

    /// The link to the item's video on YouTube, when it has one.
    pub fn youtube_url(&self) -> (r: Option<String>)
        ensures
            match self.youtube_video_id {
                Some(id) => r matches Some(u) && u@ == youtube_link(id@),
                None => r is None,
            },
    {
        match &self.youtube_video_id {
            Some(id) => Some(youtube_url(id)),
            None => None,
        }
    }
}

/// Information about a [`Manga`].
#[derive(Clone, Debug)]
pub struct MangaAttributes {
    /// Shortened nicknames.
    pub abbreviated_titles: Option<Vec<String>>,
    /// The average of all user ratings, as text.
    pub average_rating: Option<String>,
    /// The canonical title.
    pub canonical_title: String,
    /// The number of chapters released.
    pub chapter_count: Option<u64>,
    /// Links to the cover image.
    pub cover_image: Option<CoverImage>,
    /// The cover's offset from the top.
    pub cover_image_top_offset: u16,
    /// The date the manga finished.
    pub end_date: Option<String>,
    /// The publication format (`mangaType` in JSON).
    pub kind: MangaType,
    /// The rank by popularity.
    pub popularity_rank: Option<u32>,
    /// Links to the poster image.
    pub poster_image: Image,
    /// How many times each rating was given.
    pub rating_frequencies: RatingFrequencies,
    /// The rank by overall rating.
    pub rating_rank: Option<u32>,
    /// The medium of serialization.
    pub serialization: Option<String>,
    /// The unique slug used in page links.
    pub slug: String,
    /// The date the manga was first serialized.
    pub start_date: Option<String>,
    /// The synopsis.
    pub synopsis: String,
    /// The titles.
    pub titles: MangaTitles,
    /// The number of volumes released.
    pub volume_count: Option<u64>,
    /// The id of a YouTube video.
    pub youtube_video_id: Option<String>,
}

/// `x` is what `j` decodes to as [`MangaAttributes`].
pub open spec fn manga_attributes_is(j: JsonValue, x: MangaAttributes) -> bool {
    &&& opt_strings_is(field(j, "abbreviatedTitles"@), x.abbreviated_titles)
    &&& opt_str_is(field(j, "averageRating"@), x.average_rating)
    &&& str_is(field(j, "canonicalTitle"@), x.canonical_title)
    &&& opt_nat_is(field(j, "chapterCount"@), u64_nat(x.chapter_count))
    &&& opt_cover_image_at(field(j, "coverImage"@), x.cover_image)
    &&& nat_is(field(j, "coverImageTopOffset"@), x.cover_image_top_offset as nat)
    &&& opt_str_is(field(j, "endDate"@), x.end_date)
    &&& tag_is(field(j, "mangaType"@), x.kind.tag())
    &&& opt_nat_is(field(j, "popularityRank"@), u32_nat(x.popularity_rank))
    &&& image_at(field(j, "posterImage"@), x.poster_image)
    &&& rating_frequencies_at(field(j, "ratingFrequencies"@), x.rating_frequencies)
    &&& opt_nat_is(field(j, "ratingRank"@), u32_nat(x.rating_rank))
    &&& opt_str_is(field(j, "serialization"@), x.serialization)
    &&& str_is(field(j, "slug"@), x.slug)
    &&& opt_str_is(field(j, "startDate"@), x.start_date)
    &&& str_is(field(j, "synopsis"@), x.synopsis)
    &&& manga_titles_at(field(j, "titles"@), x.titles)
    &&& opt_nat_is(field(j, "volumeCount"@), u64_nat(x.volume_count))
    &&& opt_str_is(field(j, "youtubeVideoId"@), x.youtube_video_id)
}

impl MangaAttributes {
    /// Decodes [`MangaAttributes`] from `j`.
    pub fn from_json(j: &JsonValue) -> (r: Decoded<MangaAttributes>)
        ensures
            match r {
                Ok(x) => manga_attributes_is(*j, x),
                Err(_) => forall|x: MangaAttributes| !manga_attributes_is(*j, x),
            },
    {
        let abbreviated_titles = at(opt_strings_field(j, "abbreviatedTitles"), "abbreviatedTitles")?;
        let average_rating = at(opt_string_field(j, "averageRating"), "averageRating")?;
        let canonical_title = at(string_field(j, "canonicalTitle"), "canonicalTitle")?;
        let chapter_count = at(opt_u64_field(j, "chapterCount"), "chapterCount")?;
        let cover_image = opt_cover_image_field(j, "coverImage")?;
        let cover_image_top_offset = at(u16_field(j, "coverImageTopOffset"), "coverImageTopOffset")?;
        let end_date = at(opt_string_field(j, "endDate"), "endDate")?;
        let kind = at(manga_type_field(j, "mangaType"), "mangaType")?;
        let popularity_rank = at(opt_u32_field(j, "popularityRank"), "popularityRank")?;
        let poster_image = image_field(j, "posterImage")?;
        let rating_frequencies = rating_frequencies_field(j, "ratingFrequencies")?;
        let rating_rank = at(opt_u32_field(j, "ratingRank"), "ratingRank")?;
        let serialization = at(opt_string_field(j, "serialization"), "serialization")?;
        let slug = at(string_field(j, "slug"), "slug")?;
        let start_date = at(opt_string_field(j, "startDate"), "startDate")?;
        let synopsis = at(string_field(j, "synopsis"), "synopsis")?;
        let titles = manga_titles_field(j, "titles")?;
        let volume_count = at(opt_u64_field(j, "volumeCount"), "volumeCount")?;
        let youtube_video_id = at(opt_string_field(j, "youtubeVideoId"), "youtubeVideoId")?;
        Ok(MangaAttributes {
            abbreviated_titles,
            average_rating,
            canonical_title,
            chapter_count,
            cover_image,
            cover_image_top_offset,
            end_date,
            kind,
            popularity_rank,
            poster_image,
            rating_frequencies,
            rating_rank,
            serialization,
            slug,
            start_date,
            synopsis,
            titles,
            volume_count,
            youtube_video_id,
        })
    }

    /// Whether the item is still airing: it is finished once it has an end date.
    pub fn airing_status(&self) -> (r: AiringStatus)
        ensures
            r == (if self.end_date is Some {
                AiringStatus::Finished
            } else {
                AiringStatus::Airing
            }),
    {
        if self.end_date.is_some() {
            AiringStatus::Finished
        } else {
            AiringStatus::Airing
        }
    }

    /// The link to the item's page on the site.
    pub fn url(&self) -> (r: String)
        ensures
            r@ == "https://kitsu.io/manga/"@ + self.slug@,
    {
        let mut u = String::from_str("https://kitsu.io/manga/");
        u.append(self.slug.as_str());
        u
    }

    /// The link to the item's video on YouTube, when it has one.
    pub fn youtube_url(&self) -> (r: Option<String>)
        ensures
            match self.youtube_video_id {
                Some(id) => r matches Some(u) && u@ == youtube_link(id@),
                None => r is None,
            },
    {
        match &self.youtube_video_id {
            Some(id) => Some(youtube_url(id)),
            None => None,
        }
    }
}

/// Information about a [`User`].
#[derive(Clone, Debug)]
pub struct UserAttributes {
    /// The raw markdown of the long-form about text.
    pub about: String,
    /// The sanitized HTML of the about text.
    pub about_formatted: Option<String>,
    /// Links to the user's avatar.
    pub avatar: Option<Image>,
    /// A short biographical blurb.
    pub bio: Option<String>,
    /// The user's birthday.
    pub birthday: Option<String>,
    /// Number of comments submitted.
    pub comments_count: u64,
    /// Links to the user's cover image.
    pub cover_image: Option<Image>,
    /// When the user signed up.
    pub created_at: String,
    /// The user's Facebook id, if signed in with Facebook.
    pub facebook_id: Option<String>,
    /// Number of media items favorited.
    pub favorites_count: u64,
    /// Whether the user's feed is completed.
    pub feed_completed: bool,
    /// Number of people following the user.
    pub followers_count: u64,
    /// Number of people the user follows.
    pub following_count: u64,
    /// The user's gender, if given.
    pub gender: Option<String>,
    /// Minutes of anime watched.
    pub life_spent_on_anime: u64,
    /// Number of posts liked.
    pub likes_given_count: u64,
    /// Number of likes the user's posts received.
    pub likes_received_count: u64,
    /// A user-provided location.
    pub location: Option<String>,
    /// The user's current name.
    pub name: String,
    /// Previous names, most recent first.
    pub past_names: Vec<String>,
    /// Number of posts submitted.
    pub posts_count: u64,
    /// Whether the profile is completed.
    pub profile_completed: bool,
    /// When the user's pro subscription expires.
    pub pro_expires_at: Option<String>,
    /// Number of media rated.
    pub ratings_count: u64,
    /// Number of reviews posted.
    pub reviews_count: u64,
    /// The user's title.
    pub title: Option<String>,
    /// When the profile was last updated.
    pub updated_at: String,
    /// Whether the user has a waifu or a husbando.
    pub waifu_or_husbando: Option<WaifuOrHusbando>,
    /// The user's website.
    pub website: Option<String>,
}

/// `x` is what `j` decodes to as [`UserAttributes`].
pub open spec fn user_attributes_is(j: JsonValue, x: UserAttributes) -> bool {
    &&& str_is(field(j, "about"@), x.about)
    &&& opt_str_is(field(j, "aboutFormatted"@), x.about_formatted)
    &&& opt_image_at(field(j, "avatar"@), x.avatar)
    &&& opt_str_is(field(j, "bio"@), x.bio)
    &&& opt_str_is(field(j, "birthday"@), x.birthday)
    &&& nat_is(field(j, "commentsCount"@), x.comments_count as nat)
    &&& opt_image_at(field(j, "coverImage"@), x.cover_image)
    &&& str_is(field(j, "createdAt"@), x.created_at)
    &&& opt_str_is(field(j, "facebookId"@), x.facebook_id)
    &&& nat_is(field(j, "favoritesCount"@), x.favorites_count as nat)
    &&& bool_is(field(j, "feedCompleted"@), x.feed_completed)
    &&& nat_is(field(j, "followersCount"@), x.followers_count as nat)
    &&& nat_is(field(j, "followingCount"@), x.following_count as nat)
    &&& opt_str_is(field(j, "gender"@), x.gender)
    &&& nat_is(field(j, "lifeSpentOnAnime"@), x.life_spent_on_anime as nat)
    &&& nat_is(field(j, "likesGivenCount"@), x.likes_given_count as nat)
    &&& nat_is(field(j, "likesReceivedCount"@), x.likes_received_count as nat)
    &&& opt_str_is(field(j, "location"@), x.location)
    &&& str_is(field(j, "name"@), x.name)
    &&& strings_is(field(j, "pastNames"@), x.past_names)
    &&& nat_is(field(j, "postsCount"@), x.posts_count as nat)
    &&& bool_is(field(j, "profileCompleted"@), x.profile_completed)
    &&& opt_str_is(field(j, "proExpiresAt"@), x.pro_expires_at)
    &&& nat_is(field(j, "ratingsCount"@), x.ratings_count as nat)
    &&& nat_is(field(j, "reviewsCount"@), x.reviews_count as nat)
    &&& opt_str_is(field(j, "title"@), x.title)
    &&& str_is(field(j, "updatedAt"@), x.updated_at)
    &&& opt_waifu_is(field(j, "waifuOrHusbando"@), x.waifu_or_husbando)
    &&& opt_str_is(field(j, "website"@), x.website)
}

impl UserAttributes {
    /// Decodes [`UserAttributes`] from `j`.
    pub fn from_json(j: &JsonValue) -> (r: Decoded<UserAttributes>)
        ensures
            match r {
                Ok(x) => user_attributes_is(*j, x),
                Err(_) => forall|x: UserAttributes| !user_attributes_is(*j, x),
            },
    {
        let about = at(string_field(j, "about"), "about")?;
        let about_formatted = at(opt_string_field(j, "aboutFormatted"), "aboutFormatted")?;
        let avatar = opt_image_field(j, "avatar")?;
        let bio = at(opt_string_field(j, "bio"), "bio")?;
        let birthday = at(opt_string_field(j, "birthday"), "birthday")?;
        let comments_count = at(u64_field(j, "commentsCount"), "commentsCount")?;
        let cover_image = opt_image_field(j, "coverImage")?;
        let created_at = at(string_field(j, "createdAt"), "createdAt")?;
        let facebook_id = at(opt_string_field(j, "facebookId"), "facebookId")?;
        let favorites_count = at(u64_field(j, "favoritesCount"), "favoritesCount")?;
        let feed_completed = at(bool_field(j, "feedCompleted"), "feedCompleted")?;
        let followers_count = at(u64_field(j, "followersCount"), "followersCount")?;
        let following_count = at(u64_field(j, "followingCount"), "followingCount")?;
        let gender = at(opt_string_field(j, "gender"), "gender")?;
        let life_spent_on_anime = at(u64_field(j, "lifeSpentOnAnime"), "lifeSpentOnAnime")?;
        let likes_given_count = at(u64_field(j, "likesGivenCount"), "likesGivenCount")?;
        let likes_received_count = at(u64_field(j, "likesReceivedCount"), "likesReceivedCount")?;
        let location = at(opt_string_field(j, "location"), "location")?;
        let name = at(string_field(j, "name"), "name")?;
        let past_names = at(strings_field(j, "pastNames"), "pastNames")?;
        let posts_count = at(u64_field(j, "postsCount"), "postsCount")?;
        let profile_completed = at(bool_field(j, "profileCompleted"), "profileCompleted")?;
        let pro_expires_at = at(opt_string_field(j, "proExpiresAt"), "proExpiresAt")?;
        let ratings_count = at(u64_field(j, "ratingsCount"), "ratingsCount")?;
        let reviews_count = at(u64_field(j, "reviewsCount"), "reviewsCount")?;
        let title = at(opt_string_field(j, "title"), "title")?;
        let updated_at = at(string_field(j, "updatedAt"), "updatedAt")?;
        let waifu_or_husbando = at(opt_waifu_field(j, "waifuOrHusbando"), "waifuOrHusbando")?;
        let website = at(opt_string_field(j, "website"), "website")?;
        Ok(UserAttributes {
            about,
            about_formatted,
            avatar,
            bio,
            birthday,
            comments_count,
            cover_image,
            created_at,
            facebook_id,
            favorites_count,
            feed_completed,
            followers_count,
            following_count,
            gender,
            life_spent_on_anime,
            likes_given_count,
            likes_received_count,
            location,
            name,
            past_names,
            posts_count,
            profile_completed,
            pro_expires_at,
            ratings_count,
            reviews_count,
            title,
            updated_at,
            waifu_or_husbando,
            website,
        })
    }

    /// The link to the user's page on the site.
    pub fn url(&self) -> (r: String)
        ensures
            r@ == "https://kitsu.io/users/"@ + self.name@,
    {
        let mut u = String::from_str("https://kitsu.io/users/");
        u.append(self.name.as_str());
        u
    }
}

/// `f` is the JSON of `x`.
pub open spec fn anime_attributes_at(f: Option<JsonValue>, x: AnimeAttributes) -> bool {
    f matches Some(v) && anime_attributes_is(v, x)
}

fn anime_attributes_field(j: &JsonValue, k: &str) -> (r: Decoded<AnimeAttributes>)
    ensures
        match r {
            Ok(x) => anime_attributes_at(field(*j, k@), x),
            Err(_) => forall|x: AnimeAttributes| !anime_attributes_at(field(*j, k@), x),
        },
{
    match get_field(j, k) {
        Some(v) => match AnimeAttributes::from_json(v) {
            Ok(x) => Ok(x),
            Err(p) => Err(within(k, p)),
        },
        None => Err(String::from_str(k)),
    }
}

/// `f` is the JSON of `x`.
pub open spec fn manga_attributes_at(f: Option<JsonValue>, x: MangaAttributes) -> bool {
    f matches Some(v) && manga_attributes_is(v, x)
}

fn manga_attributes_field(j: &JsonValue, k: &str) -> (r: Decoded<MangaAttributes>)
    ensures
        match r {
            Ok(x) => manga_attributes_at(field(*j, k@), x),
            Err(_) => forall|x: MangaAttributes| !manga_attributes_at(field(*j, k@), x),
        },
{
    match get_field(j, k) {
        Some(v) => match MangaAttributes::from_json(v) {
            Ok(x) => Ok(x),
            Err(p) => Err(within(k, p)),
        },
        None => Err(String::from_str(k)),
    }
}

/// `f` is the JSON of `x`.
pub open spec fn user_attributes_at(f: Option<JsonValue>, x: UserAttributes) -> bool {
    f matches Some(v) && user_attributes_is(v, x)
}

fn user_attributes_field(j: &JsonValue, k: &str) -> (r: Decoded<UserAttributes>)
    ensures
        match r {
            Ok(x) => user_attributes_at(field(*j, k@), x),
            Err(_) => forall|x: UserAttributes| !user_attributes_at(field(*j, k@), x),
        },
{
    match get_field(j, k) {
        Some(v) => match UserAttributes::from_json(v) {
            Ok(x) => Ok(x),
            Err(p) => Err(within(k, p)),
        },
        None => Err(String::from_str(k)),
    }
}

/// Information about an anime.
#[derive(Clone, Debug)]
pub struct Anime {
    /// Information about the anime.
    pub attributes: AnimeAttributes,
    /// The id of the anime.
    pub id: String,
    /// The kind of resource (`type` in JSON); should be [`Type::Anime`].
    pub kind: Type,
    /// Links related to the anime, by name.
    pub links: Vec<(String, String)>,
    /// The anime's relationships.
    pub relationships: AnimeRelationships,
}

/// `x` is what `j` decodes to as an [`Anime`].
pub open spec fn anime_is(j: JsonValue, x: Anime) -> bool {
    &&& anime_attributes_at(field(j, "attributes"@), x.attributes)
    &&& str_is(field(j, "id"@), x.id)
    &&& tag_is(field(j, "type"@), x.kind.tag())
    &&& string_map_is(field(j, "links"@), x.links)
    &&& anime_relationships_at(field(j, "relationships"@), x.relationships)
}

impl Anime {
    /// Decodes an [`Anime`] from `j`.
    pub fn from_json(j: &JsonValue) -> (r: Decoded<Anime>)
        ensures
            match r {
                Ok(x) => anime_is(*j, x),
                Err(_) => forall|x: Anime| !anime_is(*j, x),
            },
    {
        let attributes = anime_attributes_field(j, "attributes")?;
        let id = at(string_field(j, "id"), "id")?;
        let kind = at(type_field(j, "type"), "type")?;
        let links = at(string_map_field(j, "links"), "links")?;
        let relationships = anime_relationships_field(j, "relationships")?;
        Ok(Anime {
            attributes,
            id,
            kind,
            links,
            relationships,
        })
    }

    /// Whether the anime is still airing.
    pub fn airing_status(&self) -> (r: AiringStatus)
        ensures
            r == (if self.attributes.end_date is Some {
                AiringStatus::Finished
            } else {
                AiringStatus::Airing
            }),
    {
        self.attributes.airing_status()
    }

    /// The link to the anime's page on the site.
    pub fn url(&self) -> (r: String)
        ensures
            r@ == "https://kitsu.io/anime/"@ + self.attributes.slug@,
    {
        self.attributes.url()
    }

    /// The link to the anime's video on YouTube, when it has one.
    pub fn youtube_url(&self) -> (r: Option<String>)
        ensures
            match self.attributes.youtube_video_id {
                Some(id) => r matches Some(u) && u@ == youtube_link(id@),
                None => r is None,
            },
    {
        self.attributes.youtube_url()
    }
}

/// Information about a manga.
#[derive(Clone, Debug)]
pub struct Manga {
    /// Information about the manga.
    pub attributes: MangaAttributes,
    /// The id of the manga.
    pub id: String,
    /// The kind of resource (`type` in JSON); should be [`Type::Manga`].
    pub kind: Type,
    /// Links related to the manga, by name.
    pub links: Vec<(String, String)>,
}

/// `x` is what `j` decodes to as a [`Manga`].
pub open spec fn manga_is(j: JsonValue, x: Manga) -> bool {
    &&& manga_attributes_at(field(j, "attributes"@), x.attributes)
    &&& str_is(field(j, "id"@), x.id)
    &&& tag_is(field(j, "type"@), x.kind.tag())
    &&& string_map_is(field(j, "links"@), x.links)
}

impl Manga {
    /// Decodes a [`Manga`] from `j`.
    pub fn from_json(j: &JsonValue) -> (r: Decoded<Manga>)
        ensures
            match r {
                Ok(x) => manga_is(*j, x),
                Err(_) => forall|x: Manga| !manga_is(*j, x),
            },
    {
        let attributes = manga_attributes_field(j, "attributes")?;
        let id = at(string_field(j, "id"), "id")?;
        let kind = at(type_field(j, "type"), "type")?;
        let links = at(string_map_field(j, "links"), "links")?;
        Ok(Manga {
            attributes,
            id,
            kind,
            links,
        })
    }

    /// Whether the manga is still airing.
    pub fn airing_status(&self) -> (r: AiringStatus)
        ensures
            r == (if self.attributes.end_date is Some {
                AiringStatus::Finished
            } else {
                AiringStatus::Airing
            }),
    {
        self.attributes.airing_status()
    }

    /// The link to the manga's page on the site.
    pub fn url(&self) -> (r: String)
        ensures
            r@ == "https://kitsu.io/manga/"@ + self.attributes.slug@,
    {
        self.attributes.url()
    }

    /// The link to the manga's video on YouTube, when it has one.
    pub fn youtube_url(&self) -> (r: Option<String>)
        ensures
            match self.attributes.youtube_video_id {
                Some(id) => r matches Some(u) && u@ == youtube_link(id@),
                None => r is None,
            },
    {
        self.attributes.youtube_url()
    }
}

/// Information about a user.
#[derive(Clone, Debug)]
pub struct User {
    /// Information about the user.
    pub attributes: UserAttributes,
    /// The id of the user.
    pub id: String,
    /// The kind of resource (`type` in JSON); should be [`Type::Users`].
    pub kind: Type,
    /// Links related to the user, by name.
    pub links: Vec<(String, String)>,
    /// The user's relationships.
    pub relationships: UserRelationships,
}

/// `x` is what `j` decodes to as a [`User`].
pub open spec fn user_is(j: JsonValue, x: User) -> bool {
    &&& user_attributes_at(field(j, "attributes"@), x.attributes)
    &&& str_is(field(j, "id"@), x.id)
    &&& tag_is(field(j, "type"@), x.kind.tag())
    &&& string_map_is(field(j, "links"@), x.links)
    &&& user_relationships_at(field(j, "relationships"@), x.relationships)
}

impl User {
    /// Decodes a [`User`] from `j`.
    pub fn from_json(j: &JsonValue) -> (r: Decoded<User>)
        ensures
            match r {
                Ok(x) => user_is(*j, x),
                Err(_) => forall|x: User| !user_is(*j, x),
            },
    {
        let attributes = user_attributes_field(j, "attributes")?;
        let id = at(string_field(j, "id"), "id")?;
        let kind = at(type_field(j, "type"), "type")?;
        let links = at(string_map_field(j, "links"), "links")?;
        let relationships = user_relationships_field(j, "relationships")?;
        Ok(User {
            attributes,
            id,
            kind,
            links,
            relationships,
        })
    }

    /// The link to the user's page on the site.
    pub fn url(&self) -> (r: String)
        ensures
            r@ == "https://kitsu.io/users/"@ + self.attributes.name@,
    {
        self.attributes.url()
    }
}

/// Data from a response: the resource or resources, and the links that came with
/// them (empty when the response has none).
#[derive(Clone, Debug)]
pub struct Response<T> {
    /// The data of the response.
    pub data: T,
    /// Links relevant to the request, such as pagination links, by name.
    pub links: Vec<(String, String)>,
}

/// `f` is the JSON of `x`.
pub open spec fn anime_at(f: Option<JsonValue>, x: Anime) -> bool {
    f matches Some(v) && anime_is(v, x)
}

/// `f` is an array whose items are the JSON of the items of `v`, one for one.
pub open spec fn anime_list_at(f: Option<JsonValue>, v: Vec<Anime>) -> bool {
    f matches Some(JsonValue::Array(items)) && items@.len() == v@.len() && forall|i: int|
        0 <= i < items@.len() ==> #[trigger] anime_is(items@[i], v@[i])
}

/// `x` is what `j` decodes to as the response to a request for one anime.
pub open spec fn anime_response_is(j: JsonValue, x: Response<Anime>) -> bool {
    &&& anime_at(field(j, "data"@), x.data)
    &&& string_map_or_empty_is(field(j, "links"@), x.links)
}

/// `x` is what `j` decodes to as the response to a search for animes.
pub open spec fn anime_list_response_is(j: JsonValue, x: Response<Vec<Anime>>) -> bool {
    &&& anime_list_at(field(j, "data"@), x.data)
    &&& string_map_or_empty_is(field(j, "links"@), x.links)
}

fn anime_list_of(v: &JsonValue) -> (r: Decoded<Vec<Anime>>)
    ensures
        match r {
            Ok(x) => anime_list_at(Some(*v), x),
            Err(_) => forall|x: Vec<Anime>| !anime_list_at(Some(*v), x),
        },
{
    match v {
        JsonValue::Array(items) => {
            let mut out: Vec<Anime> = Vec::new();
            let mut i: usize = 0;
            while i < items.len()
                invariant
                    i <= items@.len(),
                    out@.len() == i,
                    *v == JsonValue::Array(*items),
                    forall|k: int| 0 <= k < i ==> #[trigger] anime_is(items@[k], out@[k]),
                decreases items@.len() - i,
            {
                match Anime::from_json(&items[i]) {
                    Ok(x) => {
                        out.push(x);
                    },
                    Err(p) => {
                        let ghost bad = i as int;
                        assert forall|x: Vec<Anime>| !anime_list_at(Some(*v), x) by {
                            if anime_list_at(Some(*v), x) {
                                assert(anime_is(items@[bad], x@[bad]));
                            }
                        }
                        return Err(within_index(i, p));
                    },
                }
                i = i + 1;
            }
            Ok(out)
        },
        _ => Err(String::new()),
    }
}

/// Decodes the response to a request for one anime.
pub fn anime_response(j: &JsonValue) -> (r: Decoded<Response<Anime>>)
    ensures
        match r {
            Ok(x) => anime_response_is(*j, x),
            Err(_) => forall|x: Response<Anime>| !anime_response_is(*j, x),
        },
{
    let data = match get_field(j, "data") {
        Some(v) => match Anime::from_json(v) {
            Ok(x) => x,
            Err(p) => return Err(within("data", p)),
        },
        None => return Err(String::from_str("data")),
    };
    let links = at(string_map_or_empty_field(j, "links"), "links")?;
    Ok(Response { data, links })
}

/// Decodes the response to a search for animes.
pub fn anime_list_response(j: &JsonValue) -> (r: Decoded<Response<Vec<Anime>>>)
    ensures
        match r {
            Ok(x) => anime_list_response_is(*j, x),
            Err(_) => forall|x: Response<Vec<Anime>>| !anime_list_response_is(*j, x),
        },
{
    let data = match get_field(j, "data") {
        Some(v) => match anime_list_of(v) {
            Ok(x) => x,
            Err(p) => return Err(within("data", p)),
        },
        None => return Err(String::from_str("data")),
    };
    let links = at(string_map_or_empty_field(j, "links"), "links")?;
    Ok(Response { data, links })
}

/// `f` is the JSON of `x`.
pub open spec fn manga_at(f: Option<JsonValue>, x: Manga) -> bool {
    f matches Some(v) && manga_is(v, x)
}

/// `f` is an array whose items are the JSON of the items of `v`, one for one.
pub open spec fn manga_list_at(f: Option<JsonValue>, v: Vec<Manga>) -> bool {
    f matches Some(JsonValue::Array(items)) && items@.len() == v@.len() && forall|i: int|
        0 <= i < items@.len() ==> #[trigger] manga_is(items@[i], v@[i])
}

/// `x` is what `j` decodes to as the response to a request for one manga.
pub open spec fn manga_response_is(j: JsonValue, x: Response<Manga>) -> bool {
    &&& manga_at(field(j, "data"@), x.data)
    &&& string_map_or_empty_is(field(j, "links"@), x.links)
}

/// `x` is what `j` decodes to as the response to a search for mangas.
pub open spec fn manga_list_response_is(j: JsonValue, x: Response<Vec<Manga>>) -> bool {
    &&& manga_list_at(field(j, "data"@), x.data)
    &&& string_map_or_empty_is(field(j, "links"@), x.links)
}

fn manga_list_of(v: &JsonValue) -> (r: Decoded<Vec<Manga>>)
    ensures
        match r {
            Ok(x) => manga_list_at(Some(*v), x),
            Err(_) => forall|x: Vec<Manga>| !manga_list_at(Some(*v), x),
        },
{
    match v {
        JsonValue::Array(items) => {
            let mut out: Vec<Manga> = Vec::new();
            let mut i: usize = 0;
            while i < items.len()
                invariant
                    i <= items@.len(),
                    out@.len() == i,
                    *v == JsonValue::Array(*items),
                    forall|k: int| 0 <= k < i ==> #[trigger] manga_is(items@[k], out@[k]),
                decreases items@.len() - i,
            {
                match Manga::from_json(&items[i]) {
                    Ok(x) => {
                        out.push(x);
                    },
                    Err(p) => {
                        let ghost bad = i as int;
                        assert forall|x: Vec<Manga>| !manga_list_at(Some(*v), x) by {
                            if manga_list_at(Some(*v), x) {
                                assert(manga_is(items@[bad], x@[bad]));
                            }
                        }
                        return Err(within_index(i, p));
                    },
                }
                i = i + 1;
            }
            Ok(out)
        },
        _ => Err(String::new()),
    }
}

/// Decodes the response to a request for one manga.
pub fn manga_response(j: &JsonValue) -> (r: Decoded<Response<Manga>>)
    ensures
        match r {
            Ok(x) => manga_response_is(*j, x),
            Err(_) => forall|x: Response<Manga>| !manga_response_is(*j, x),
        },
{
    let data = match get_field(j, "data") {
        Some(v) => match Manga::from_json(v) {
            Ok(x) => x,
            Err(p) => return Err(within("data", p)),
        },
        None => return Err(String::from_str("data")),
    };
    let links = at(string_map_or_empty_field(j, "links"), "links")?;
    Ok(Response { data, links })
}

/// Decodes the response to a search for mangas.
pub fn manga_list_response(j: &JsonValue) -> (r: Decoded<Response<Vec<Manga>>>)
    ensures
        match r {
            Ok(x) => manga_list_response_is(*j, x),
            Err(_) => forall|x: Response<Vec<Manga>>| !manga_list_response_is(*j, x),
        },
{
    let data = match get_field(j, "data") {
        Some(v) => match manga_list_of(v) {
            Ok(x) => x,
            Err(p) => return Err(within("data", p)),
        },
        None => return Err(String::from_str("data")),
    };
    let links = at(string_map_or_empty_field(j, "links"), "links")?;
    Ok(Response { data, links })
}

/// `f` is the JSON of `x`.
pub open spec fn user_at(f: Option<JsonValue>, x: User) -> bool {
    f matches Some(v) && user_is(v, x)
}

/// `f` is an array whose items are the JSON of the items of `v`, one for one.
pub open spec fn user_list_at(f: Option<JsonValue>, v: Vec<User>) -> bool {
    f matches Some(JsonValue::Array(items)) && items@.len() == v@.len() && forall|i: int|
        0 <= i < items@.len() ==> #[trigger] user_is(items@[i], v@[i])
}

/// `x` is what `j` decodes to as the response to a request for one user.
pub open spec fn user_response_is(j: JsonValue, x: Response<User>) -> bool {
    &&& user_at(field(j, "data"@), x.data)
    &&& string_map_or_empty_is(field(j, "links"@), x.links)
}

/// `x` is what `j` decodes to as the response to a search for users.
pub open spec fn user_list_response_is(j: JsonValue, x: Response<Vec<User>>) -> bool {
    &&& user_list_at(field(j, "data"@), x.data)
    &&& string_map_or_empty_is(field(j, "links"@), x.links)
}

fn user_list_of(v: &JsonValue) -> (r: Decoded<Vec<User>>)
    ensures
        match r {
            Ok(x) => user_list_at(Some(*v), x),
            Err(_) => forall|x: Vec<User>| !user_list_at(Some(*v), x),
        },
{
    match v {
        JsonValue::Array(items) => {
            let mut out: Vec<User> = Vec::new();
            let mut i: usize = 0;
            while i < items.len()
                invariant
                    i <= items@.len(),
                    out@.len() == i,
                    *v == JsonValue::Array(*items),
                    forall|k: int| 0 <= k < i ==> #[trigger] user_is(items@[k], out@[k]),
                decreases items@.len() - i,
            {
                match User::from_json(&items[i]) {
                    Ok(x) => {
                        out.push(x);
                    },
                    Err(p) => {
                        let ghost bad = i as int;
                        assert forall|x: Vec<User>| !user_list_at(Some(*v), x) by {
                            if user_list_at(Some(*v), x) {
                                assert(user_is(items@[bad], x@[bad]));
                            }
                        }
                        return Err(within_index(i, p));
                    },
                }
                i = i + 1;
            }
            Ok(out)
        },
        _ => Err(String::new()),
    }
}

/// Decodes the response to a request for one user.
pub fn user_response(j: &JsonValue) -> (r: Decoded<Response<User>>)
    ensures
        match r {
            Ok(x) => user_response_is(*j, x),
            Err(_) => forall|x: Response<User>| !user_response_is(*j, x),
        },
{
    let data = match get_field(j, "data") {
        Some(v) => match User::from_json(v) {
            Ok(x) => x,
            Err(p) => return Err(within("data", p)),
        },
        None => return Err(String::from_str("data")),
    };
    let links = at(string_map_or_empty_field(j, "links"), "links")?;
    Ok(Response { data, links })
}

/// Decodes the response to a search for users.
pub fn user_list_response(j: &JsonValue) -> (r: Decoded<Response<Vec<User>>>)
    ensures
        match r {
            Ok(x) => user_list_response_is(*j, x),
            Err(_) => forall|x: Response<Vec<User>>| !user_list_response_is(*j, x),
        },
{
    let data = match get_field(j, "data") {
        Some(v) => match user_list_of(v) {
            Ok(x) => x,
            Err(p) => return Err(within("data", p)),
        },
        None => return Err(String::from_str("data")),
    };
    let links = at(string_map_or_empty_field(j, "links"), "links")?;
    Ok(Response { data, links })
}

/// Distinct values of [`AgeRating`] have distinct tags.
pub proof fn lemma_age_rating_tags(a: AgeRating, b: AgeRating)
    requires
        a.tag() == b.tag(),
    ensures
        a == b,
{
    reveal_strlit("G");
    reveal_strlit("PG");
    reveal_strlit("PG-13");
    reveal_strlit("R");
    reveal_strlit("R17");
    reveal_strlit("R17+");
    reveal_strlit("R18");
    reveal_strlit("R18+");
    reveal_strlit("TV-Y7");
    assert("G"@.len() == 1);
    assert("PG"@.len() == 2);
    assert("PG-13"@.len() == 5);
    assert("R"@.len() == 1);
    assert("R17"@.len() == 3);
    assert("R17+"@.len() == 4);
    assert("R18"@.len() == 3);
    assert("R18+"@.len() == 4);
    assert("TV-Y7"@.len() == 5);
    assert("G"@[0] == 'G');
    assert("R"@[0] == 'R');
    assert("PG-13"@[0] == 'P');
    assert("TV-Y7"@[0] == 'T');
    assert("R17"@[2] == '7');
    assert("R18"@[2] == '8');
    assert("R17+"@[2] == '7');
    assert("R18+"@[2] == '8');
}

/// Distinct values of [`AnimeType`] have distinct tags.
pub proof fn lemma_anime_type_tags(a: AnimeType, b: AnimeType)
    requires
        a.tag() == b.tag(),
    ensures
        a == b,
{
    reveal_strlit("movie");
    reveal_strlit("music");
    reveal_strlit("ONA");
    reveal_strlit("OVA");
    reveal_strlit("special");
    reveal_strlit("TV");
    assert("movie"@.len() == 5);
    assert("music"@.len() == 5);
    assert("ONA"@.len() == 3);
    assert("OVA"@.len() == 3);
    assert("special"@.len() == 7);
    assert("TV"@.len() == 2);
    assert("movie"@[1] == 'o');
    assert("music"@[1] == 'u');
    assert("ONA"@[1] == 'N');
    assert("OVA"@[1] == 'V');
}

/// Distinct values of [`MangaType`] have distinct tags.
pub proof fn lemma_manga_type_tags(a: MangaType, b: MangaType)
    requires
        a.tag() == b.tag(),
    ensures
        a == b,
{
    reveal_strlit("doujin");
    reveal_strlit("manga");
    reveal_strlit("manhua");
    reveal_strlit("novel");
    reveal_strlit("oneshot");
    assert("doujin"@.len() == 6);
    assert("manga"@.len() == 5);
    assert("manhua"@.len() == 6);
    assert("novel"@.len() == 5);
    assert("oneshot"@.len() == 7);
    assert("doujin"@[0] == 'd');
    assert("manhua"@[0] == 'm');
    assert("manga"@[0] == 'm');
    assert("novel"@[0] == 'n');
}

/// Distinct values of [`Type`] have distinct tags.
pub proof fn lemma_type_tags(a: Type, b: Type)
    requires
        a.tag() == b.tag(),
    ensures
        a == b,
{
    reveal_strlit("anime");
    reveal_strlit("drama");
    reveal_strlit("manga");
    reveal_strlit("users");
    assert("anime"@.len() == 5);
    assert("drama"@.len() == 5);
    assert("manga"@.len() == 5);
    assert("users"@.len() == 5);
    assert("anime"@[0] == 'a');
    assert("drama"@[0] == 'd');
    assert("manga"@[0] == 'm');
    assert("users"@[0] == 'u');
}

/// Distinct values of [`WaifuOrHusbando`] have distinct tags.
pub proof fn lemma_waifu_or_husbando_tags(a: WaifuOrHusbando, b: WaifuOrHusbando)
    requires
        a.tag() == b.tag(),
    ensures
        a == b,
{
    reveal_strlit("Husbando");
    reveal_strlit("Waifu");
    assert("Husbando"@.len() == 8);
    assert("Waifu"@.len() == 5);
}

/// Anime attributes whose age rating is a tag outside the closed set of ratings do
/// not decode at all: no value, with some other rating or with none, is what they
/// decode to.
pub proof fn lemma_unknown_age_rating_rejected(j: JsonValue, t: String, x: AnimeAttributes)
    requires
        field(j, "ageRating"@) == Some(JsonValue::Str(t)),
        forall|a: AgeRating| a.tag() != t@,
    ensures
        !anime_attributes_is(j, x),
{
}

} // verus!
