//! Resolution context and the URL resolver: the pure mapping from an
//! asset reference, a language/version context and a host to the fully
//! qualified fetch URL, together with the catalogue endpoint URLs.

use vstd::prelude::*;

use crate::text::{
    lower_ascii, spec_lower, spec_strip_prefix_rep, spec_truncate_version, strip_prefix_repeated,
    truncate_version,
};

verus! {

/// Locale/version parameters a URL is resolved against.
#[derive(Debug, Clone, PartialEq)]
pub struct Config {
    pub version: Option<String>,
    pub language: LanguageType,
}

impl Config {
    /// No pinned version (the "latest" path is used) and the default
    /// locale segment.
    pub fn default() -> (c: Config)
        ensures
            c.version is None,
            c.language == LanguageType::Default,
    {
        Config { version: None, language: LanguageType::Default }
    }

    pub fn new(version: Option<String>, language: LanguageType) -> (c: Config)
        ensures
            c.version == version,
            c.language == language,
    {
        Config { version, language }
    }
}

/// The version a config pins, viewed as a character sequence.
pub open spec fn spec_config_version(c: Config) -> Option<Seq<char>> {
    match c.version {
        Some(v) => Some(v@),
        None => None,
    }
}

/// One catalogue file of the fixed asset catalogue.
#[derive(Debug, Clone, Copy, PartialEq, Eq, Structural)]
pub enum AssetsType {
    Loot,
    Skins,
    Skinlines,
    SummonerEmotes,
    SummonerBanners,
    SummonerIcons,
    SummonerIconSets,
    WardSkins,
    WardSkinSets,
}

pub open spec fn spec_assets_filename(t: AssetsType) -> Seq<char> {
    match t {
        AssetsType::Loot => "loot.json"@,
        AssetsType::Skins => "skins.json"@,
        AssetsType::Skinlines => "skinlines.json"@,
        AssetsType::SummonerEmotes => "summoner-emotes.json"@,
        AssetsType::SummonerBanners => "summoner-banners.json"@,
        AssetsType::SummonerIcons => "summoner-icons.json"@,
        AssetsType::SummonerIconSets => "summoner-icon-sets.json"@,
        AssetsType::WardSkins => "ward-skins.json"@,
        AssetsType::WardSkinSets => "ward-skin-sets.json"@,
    }
}

/// Every catalogue file, in the order the mirror walks them.
pub open spec fn spec_all_assets_types() -> Seq<AssetsType> {
    seq![
        AssetsType::Loot,
        AssetsType::Skins,
        AssetsType::Skinlines,
        AssetsType::SummonerEmotes,
        AssetsType::SummonerBanners,
        AssetsType::SummonerIcons,
        AssetsType::SummonerIconSets,
        AssetsType::WardSkins,
        AssetsType::WardSkinSets,
    ]
}

impl AssetsType {
    pub fn as_str(&self) -> (r: &'static str)
        ensures
            r@ == spec_assets_filename(*self),
    {
        match self {
            AssetsType::Loot => "loot.json",
            AssetsType::Skins => "skins.json",
            AssetsType::Skinlines => "skinlines.json",
            AssetsType::SummonerEmotes => "summoner-emotes.json",
            AssetsType::SummonerBanners => "summoner-banners.json",
            AssetsType::SummonerIcons => "summoner-icons.json",
            AssetsType::SummonerIconSets => "summoner-icon-sets.json",
            AssetsType::WardSkins => "ward-skins.json",
            AssetsType::WardSkinSets => "ward-skin-sets.json",
        }
    }

    pub fn to_vec() -> (v: Vec<AssetsType>)
        ensures
            v@ == spec_all_assets_types(),
    {
        let v = vec![
            AssetsType::Loot,
            AssetsType::Skins,
            AssetsType::Skinlines,
            AssetsType::SummonerEmotes,
            AssetsType::SummonerBanners,
            AssetsType::SummonerIcons,
            AssetsType::SummonerIconSets,
            AssetsType::WardSkins,
            AssetsType::WardSkinSets,
        ];
        proof {
            assert(v@ =~= spec_all_assets_types());
        }
        v
    }
}

/// The locale a URL is resolved for; the default maps to a literal
/// "default" path segment.
#[derive(Debug, Clone, Copy, PartialEq, Eq, Structural)]
pub enum LanguageType {
    Default,
    Arabic,
    Czech,
    German,
    Greek,
    EnglishAustralia,
    EnglishGreatBritain,
    EnglishPhilippines,
    EnglishSingapore,
    SpanishArgentina,
    SpanishSpain,
    SpanishMexico,
    FrenchFrance,
    Hungarian,
    Italian,
    Japanese,
    Korean,
    Polish,
    PortugueseBrazil,
    Romanian,
    Russian,
    Thai,
    Turkish,
    Vietnamese,
    ChineseChina,
    ChineseMalaysia,
    ChineseTaiwan,
}

impl Default for LanguageType {
    fn default() -> (r: LanguageType)
        ensures
            r == LanguageType::Default,
    {
        LanguageType::Default
    }
}

pub open spec fn spec_language_segment(l: LanguageType) -> Seq<char> {
    match l {
        LanguageType::Default => "default"@,
        LanguageType::Arabic => "ar_ae"@,
        LanguageType::Czech => "cs_cz"@,
        LanguageType::German => "de_de"@,
        LanguageType::Greek => "el_gr"@,
        LanguageType::EnglishAustralia => "en_au"@,
        LanguageType::EnglishGreatBritain => "en_gb"@,
        LanguageType::EnglishPhilippines => "en_ph"@,
        LanguageType::EnglishSingapore => "en_sg"@,
        LanguageType::SpanishArgentina => "es_ar"@,
        LanguageType::SpanishSpain => "es_es"@,
        LanguageType::SpanishMexico => "es_mx"@,
        LanguageType::FrenchFrance => "fr_fr"@,
        LanguageType::Hungarian => "hu_hu"@,
        LanguageType::Italian => "it_it"@,
        LanguageType::Japanese => "ja_jp"@,
        LanguageType::Korean => "ko_kr"@,
        LanguageType::Polish => "pl_pl"@,
        LanguageType::PortugueseBrazil => "pt_br"@,
        LanguageType::Romanian => "ro_ro"@,
        LanguageType::Russian => "ru_ru"@,
        LanguageType::Thai => "th_th"@,
        LanguageType::Turkish => "tr_tr"@,
        LanguageType::Vietnamese => "vi_vn"@,
        LanguageType::ChineseChina => "zh_cn"@,
        LanguageType::ChineseMalaysia => "zh_my"@,
        LanguageType::ChineseTaiwan => "zh_tw"@,
    }
}

impl LanguageType {
    pub fn as_str(&self) -> (r: &'static str)
        ensures
            r@ == spec_language_segment(*self),
    {
        match self {
            LanguageType::Default => "default",
            LanguageType::Arabic => "ar_ae",
            LanguageType::Czech => "cs_cz",
            LanguageType::German => "de_de",
            LanguageType::Greek => "el_gr",
            LanguageType::EnglishAustralia => "en_au",
            LanguageType::EnglishGreatBritain => "en_gb",
            LanguageType::EnglishPhilippines => "en_ph",
            LanguageType::EnglishSingapore => "en_sg",
            LanguageType::SpanishArgentina => "es_ar",
            LanguageType::SpanishSpain => "es_es",
            LanguageType::SpanishMexico => "es_mx",
            LanguageType::FrenchFrance => "fr_fr",
            LanguageType::Hungarian => "hu_hu",
            LanguageType::Italian => "it_it",
            LanguageType::Japanese => "ja_jp",
            LanguageType::Korean => "ko_kr",
            LanguageType::Polish => "pl_pl",
            LanguageType::PortugueseBrazil => "pt_br",
            LanguageType::Romanian => "ro_ro",
            LanguageType::Russian => "ru_ru",
            LanguageType::Thai => "th_th",
            LanguageType::Turkish => "tr_tr",
            LanguageType::Vietnamese => "vi_vn",
            LanguageType::ChineseChina => "zh_cn",
            LanguageType::ChineseMalaysia => "zh_my",
            LanguageType::ChineseTaiwan => "zh_tw",
        }
    }
}

/// The primary content-delivery host.
pub open spec fn spec_cd_host() -> Seq<char> {
    "https://raw.communitydragon.org"@
}

/// The fixed prefix every asset reference must carry.
pub open spec fn spec_asset_prefix() -> Seq<char> {
    "/lol-game-data/assets/"@
}

/// The version path segment: the pinned version truncated to
/// major.minor, or the sentinel "latest" when none is pinned.
pub open spec fn spec_version_segment(v: Option<Seq<char>>) -> Seq<char> {
    match v {
        Some(ver) => spec_truncate_version(ver),
        None => "latest"@,
    }
}

/// The catalogue endpoint URL for one catalogue file.
pub open spec fn spec_assets_url(t: AssetsType, l: LanguageType, v: Option<Seq<char>>) -> Seq<
    char,
> {
    spec_cd_host() + "/"@ + spec_version_segment(v) + "/plugins/rcp-be-lol-game-data/global/"@
        + spec_language_segment(l) + "/v1/"@ + spec_assets_filename(t)
}

/// The resolved fetch URL for one asset reference against one host,
/// the reference's casing kept: the host, the version segment, the
/// fixed plugin path, and the reference's path below the asset prefix.
/// Local downloads fetch this form.
pub open spec fn spec_resolve_cased(
    reference: Seq<char>,
    v: Option<Seq<char>>,
    host: Seq<char>,
) -> Seq<char> {
    host + "/"@ + spec_version_segment(v) + "/plugins/rcp-be-lol-game-data/global/default/"@
        + spec_strip_prefix_rep(reference, spec_asset_prefix())
}

/// The resolved fetch URL for one asset reference against one host,
/// the path below the asset prefix lower-cased: the storage mirror is
/// kept canonically lower-case, so its fetches use this form.
pub open spec fn spec_resolve(reference: Seq<char>, v: Option<Seq<char>>, host: Seq<char>) -> Seq<
    char,
> {
    host + "/"@ + spec_version_segment(v) + "/plugins/rcp-be-lol-game-data/global/default/"@
        + spec_lower(spec_strip_prefix_rep(reference, spec_asset_prefix()))
}

/// The catalogue endpoint URL for one catalogue file, locale and
/// optional pinned version.
pub fn get_assets_url(
    assets_type: &AssetsType,
    language: &LanguageType,
    version: &Option<String>,
) -> (r: String)
    ensures
        r@ == spec_assets_url(
            *assets_type,
            *language,
            match version {
                Some(v) => Some(v@),
                None => None,
            },
        ),
{
    let mut url = String::from_str("https://raw.communitydragon.org");
    url.append("/");
    match version {
        Some(v) => {
            let tv = truncate_version(v.as_str());
            url.append(tv.as_str());
        },
        None => {
            url.append("latest");
        },
    }
    url.append("/plugins/rcp-be-lol-game-data/global/");
    url.append(language.as_str());
    url.append("/v1/");
    url.append(assets_type.as_str());
    url
}

fn resolve_with(reference: &str, config: &Config, host: &str, lower: bool) -> (r: String)
    ensures
        lower ==> r@ == spec_resolve(reference@, spec_config_version(*config), host@),
        !lower ==> r@ == spec_resolve_cased(reference@, spec_config_version(*config), host@),
{
    let mut url = String::from_str(host);
    url.append("/");
    match &config.version {
        Some(v) => {
            let tv = truncate_version(v.as_str());
            url.append(tv.as_str());
        },
        None => {
            url.append("latest");
        },
    }
    url.append("/plugins/rcp-be-lol-game-data/global/default/");
    proof {
        reveal_strlit("/lol-game-data/assets/");
    }
    let tail = strip_prefix_repeated(reference, "/lol-game-data/assets/");
    if lower {
        let lowered = lower_ascii(tail);
        url.append(lowered.as_str());
    } else {
        url.append(tail);
    }
    url
}

/// Resolves an asset reference against one host, for the storage
/// mirror: the path below the asset prefix is lower-cased. Pure and
/// total: no validation happens here, the task builders gate their
/// references before resolving them.
pub fn resolve(reference: &str, config: &Config, host: &str) -> (r: String)
    ensures
        r@ == spec_resolve(reference@, spec_config_version(*config), host@),
{
    resolve_with(reference, config, host, true)
}

/// Resolves an asset reference against one host, keeping the
/// reference's casing: the form local downloads fetch.
pub fn resolve_cased(reference: &str, config: &Config, host: &str) -> (r: String)
    ensures
        r@ == spec_resolve_cased(reference@, spec_config_version(*config), host@),
{
    resolve_with(reference, config, host, false)
}

/// Resolves an asset reference against the primary content-delivery
/// host.
pub fn get_cdragon_url(ori_url: &str, config: &Config) -> (r: String)
    ensures
        r@ == spec_resolve(ori_url@, spec_config_version(*config), spec_cd_host()),
{
    resolve(ori_url, config, "https://raw.communitydragon.org")
}

/// The catalogue endpoint URLs of every catalogue file, in catalogue
/// order.
pub fn get_all_assets_urls(config: &Config) -> (r: Vec<String>)
    ensures
        r@.len() == spec_all_assets_types().len(),
        forall|i: int|
            0 <= i < r@.len() ==> r@[i]@ == spec_assets_url(
                spec_all_assets_types()[i],
                config.language,
                spec_config_version(*config),
            ),
{
    let mut urls: Vec<String> = Vec::new();
    let types = AssetsType::to_vec();
    let mut i: usize = 0;
    while i < types.len()
        invariant
            i <= types@.len(),
            types@ == spec_all_assets_types(),
            urls@.len() == i,
            forall|j: int|
                0 <= j < i ==> urls@[j]@ == spec_assets_url(
                    spec_all_assets_types()[j],
                    config.language,
                    spec_config_version(*config),
                ),
        decreases types@.len() - i,
    {
        let u = get_assets_url(&types[i], &config.language, &config.version);
        urls.push(u);
        i += 1;
    }
    urls
}

/// Resolving is blind to the patch component: two versions with the
/// same major.minor truncation resolve every reference to the same URL
/// on every host.
pub proof fn lemma_resolve_patch_independent(
    reference: Seq<char>,
    v1: Seq<char>,
    v2: Seq<char>,
    host: Seq<char>,
)
    requires
        spec_truncate_version(v1) == spec_truncate_version(v2),
    ensures
        spec_resolve(reference, Some(v1), host) == spec_resolve(reference, Some(v2), host),
        spec_resolve_cased(reference, Some(v1), host) == spec_resolve_cased(
            reference,
            Some(v2),
            host,
        ),
{
}

/// The primary and the fallback resolved URLs of one reference differ
/// only in the host: what follows the host is the same path on both.
pub proof fn lemma_resolve_same_path(
    reference: Seq<char>,
    v: Option<Seq<char>>,
    h1: Seq<char>,
    h2: Seq<char>,
)
    ensures
        spec_resolve(reference, v, h1).skip(h1.len() as int) == spec_resolve(
            reference,
            v,
            h2,
        ).skip(h2.len() as int),
{
    assert(spec_resolve(reference, v, h1).skip(h1.len() as int) =~= spec_resolve(
        reference,
        v,
        h2,
    ).skip(h2.len() as int));
}

/// Resolving with no pinned version puts the sentinel "latest" path
/// segment right after the host, between separators.
pub proof fn lemma_resolve_latest(reference: Seq<char>, host: Seq<char>)
    ensures
        spec_resolve(reference, None, host).len() >= host.len() + 8,
        spec_resolve(reference, None, host).subrange(host.len() as int, host.len() as int + 8) == "/latest/"@,
        spec_resolve_cased(reference, None, host).len() >= host.len() + 8,
        spec_resolve_cased(reference, None, host).subrange(
            host.len() as int,
            host.len() as int + 8,
        ) == "/latest/"@,
{
    reveal_strlit("/");
    reveal_strlit("latest");
    reveal_strlit("/latest/");
    reveal_strlit("/plugins/rcp-be-lol-game-data/global/default/");
    let u = spec_resolve(reference, None, host);
    assert(u.subrange(host.len() as int, host.len() as int + 8) =~= "/latest/"@);
    let c = spec_resolve_cased(reference, None, host);
    assert(c.subrange(host.len() as int, host.len() as int + 8) =~= "/latest/"@);
}

} // verus!
