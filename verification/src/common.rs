//! Catalogue data carried by the asset catalogue's records: the
//! region/rarity annotations a catalogue entry is described with. The
//! host process decodes the catalogue's JSON into mirror copies of
//! these types and converts; the library's logic works on these.

use vstd::prelude::*;

verus! {

/// The rarity tag a catalogue record carries.
#[derive(Debug, Clone, Copy, PartialEq, Eq, Structural)]
pub enum RarityEnum {
    Epic,
    Legendary,
    Mythic,
    NoRarity,
    Rare,
    Transcendent,
    Ultimate,
}

impl Default for RarityEnum {
    fn default() -> (r: RarityEnum)
        ensures
            r == RarityEnum::NoRarity,
    {
        RarityEnum::NoRarity
    }
}

/// The region tag a catalogue record carries.
#[derive(Debug, Clone, Copy, PartialEq, Eq, Structural)]
pub enum RegionEnum {
    Empty,
    Id,
    Ph,
    RegionTencent,
    Riot,
    Sg,
    Tencent,
    Th,
    Tw,
    Vn,
}

impl Default for RegionEnum {
    fn default() -> (r: RegionEnum)
        ensures
            r == RegionEnum::Empty,
    {
        RegionEnum::Empty
    }
}

/// A region-scoped description of a catalogue record.
#[derive(Debug, Clone, PartialEq)]
pub struct Description {
    pub region: RegionEnum,
    pub description: String,
}

impl Default for Description {
    fn default() -> (r: Description)
        ensures
            r.region == RegionEnum::Empty,
            r.description@ == Seq::<char>::empty(),
    {
        Description { region: RegionEnum::Empty, description: String::new() }
    }
}

/// A region-scoped rarity level of a catalogue record.
#[derive(Debug, Clone, PartialEq)]
pub struct Rarity {
    pub region: RegionEnum,
    pub rarity: i64,
}

impl Default for Rarity {
    fn default() -> (r: Rarity)
        ensures
            r.region == RegionEnum::Empty,
            r.rarity == 0i64,
    {
        Rarity { region: RegionEnum::Empty, rarity: 0 }
    }
}

} // verus!
